//! Actor primitives shared by the player, the enemies and the objects.
use vstd::prelude::*;

verus! {

/// The animation states an actor can be in.
#[derive(Debug, Clone, Copy, PartialEq, Eq, Hash, Structural)]
pub enum ActorState {
    Idle,
    Running,
    Jumping,
    Falling,
    Hit,
    Attacking,
    Appearing,
    Disappearing,
    Climbing,
}

impl Default for ActorState {
    fn default() -> (r: Self)
        ensures
            r == ActorState::Idle,
    {
        ActorState::Idle
    }
}

/// Which way an actor faces.
#[derive(Debug, Clone, Copy, PartialEq, Eq, Structural)]
pub struct Facing {
    pub right: bool,
}

impl Default for Facing {
    fn default() -> (r: Self)
        ensures
            r.right,
    {
        Facing { right: true }
    }
}

/// The sign of a measured quantity (a velocity component, an input axis):
/// everything the rules need to know of it.
#[derive(Debug, Clone, Copy, PartialEq, Eq, Structural)]
pub enum Sign {
    Negative,
    Zero,
    Positive,
}

/// What a collision block does on contact.
#[derive(Debug, Clone, Copy, PartialEq, Eq, Structural)]
pub enum BlockKind {
    /// Blocks from every side.
    Solid,
    /// One-way: only stops a downward-moving actor.
    Platform,
    /// Passable, but slows movement to 10%.
    QuickSand,
    /// Solid, and grants the wall-jump/clamber state when hit airborne.
    Wall,
}

impl Default for BlockKind {
    fn default() -> (r: Self)
        ensures
            r == BlockKind::Solid,
    {
        BlockKind::Solid
    }
}

/// A static collidable, or a wall that a trigger can switch off.
#[derive(Debug, Clone, Copy, PartialEq, Eq, Structural)]
pub struct CollisionBlock {
    pub kind: BlockKind,
    /// Switched-off walls stay in the world but no longer collide.
    pub active: bool,
}

impl Default for CollisionBlock {
    fn default() -> (r: Self)
        ensures
            r.kind == BlockKind::Solid,
            r.active,
    {
        CollisionBlock { kind: BlockKind::Solid, active: true }
    }
}

} // verus!
