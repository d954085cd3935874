//! Pickups and interactables: collectables, triggers and the objects a
//! trigger switches (walls, torches, escalators).
//!
//! A trigger and the objects it switches share a name: when the player
//! interacts inside a trigger, every actionable object carrying that name
//! performs its action, and no other object reacts.
use vstd::prelude::*;
use crate::actor::{ActorState, CollisionBlock};
use crate::level::str_eq;
use crate::state::GameProgress;

verus! {

/// What a collectable gives.
#[derive(Debug, Clone, Copy, PartialEq, Eq, Structural)]
pub enum CollectableKind {
    Coin,
    Heart,
}

/// The collectable an object's name selects: hearts by name, coins
/// otherwise.
pub open spec fn collectable_kind_of(name: Seq<char>) -> CollectableKind {
    if name == "Heart"@ { CollectableKind::Heart } else { CollectableKind::Coin }
}

impl CollectableKind {
    /// The collectable an object's name selects.
    pub fn from_name(name: &str) -> (r: CollectableKind)
        ensures
            r == collectable_kind_of(name@),
    {
        if str_eq(name, "Heart") {
            CollectableKind::Heart
        } else {
            CollectableKind::Coin
        }
    }

    /// Picks the collectable up: a coin is counted (and sets off a ripple),
    /// a heart sets off a shockwave.
    pub fn collect(self, progress: &mut GameProgress)
        requires
            self == CollectableKind::Coin ==> old(progress).coins_collected < u32::MAX,
        ensures
            final(progress).coins_collected == old(progress).coins_collected + (if self
                == CollectableKind::Coin {
                1int
            } else {
                0int
            }),
            final(progress).current_level == old(progress).current_level,
    {
        match self {
            CollectableKind::Coin => progress.collect_coin(),
            CollectableKind::Heart => {},
        }
    }
}

/// Links an object to the trigger that switches it, by shared name.
#[derive(Debug, PartialEq, Eq)]
pub struct Actionable {
    pub target_id: String,
}

/// What an actionable does when its trigger fires.
#[derive(Debug, Clone, Copy, PartialEq, Eq, Structural)]
pub enum ActionableKind {
    Wall,
    Torch,
    Escalator,
}

/// A spot the player can interact in, naming the objects it switches.
#[derive(Debug, PartialEq, Eq)]
pub struct Trigger {
    pub target_id: String,
}

impl Actionable {
    /// Whether a trigger naming `target_id` switches this object.
    pub fn answers(&self, target_id: &String) -> (r: bool)
        ensures
            r == (self.target_id@ == target_id@),
    {
        self.target_id == *target_id
    }
}

/// The id the player's trigger slot holds after the overlap scan: the first
/// overlapped trigger's name, or empty when the player stands in none.
pub fn overlapped_trigger(ids: &Vec<String>, overlapping: &Vec<bool>) -> (r: String)
    requires
        ids.len() == overlapping.len(),
    ensures
        (exists|k: int| 0 <= k < ids.len() && overlapping@[k] && r@ == ids@[k]@ && forall|j: int|
            0 <= j < k ==> !overlapping@[j]) || (r@ == Seq::<char>::empty() && forall|j: int|
            0 <= j < ids.len() ==> !overlapping@[j]),
{
    let mut i: usize = 0;
    while i < ids.len()
        invariant
            i <= ids.len(),
            ids.len() == overlapping.len(),
            forall|j: int| 0 <= j < i ==> !overlapping@[j],
        decreases ids.len() - i,
    {
        if overlapping[i] {
            let r = ids[i].clone();
            assert(overlapping@[i as int] && r@ == ids@[i as int]@);
            return r;
        }
        i = i + 1;
    }
    String::new()
}

/// An actionable wall opens when its own trigger fires while it still
/// blocks: it stops colliding, and the engine removes it.
pub fn open_wall(kind: ActionableKind, actionable: &Actionable, target_id: &String, block: &mut CollisionBlock) -> (opened: bool)
    ensures
        opened == (kind == ActionableKind::Wall && actionable.target_id@ == target_id@ && old(block).active),
        final(block).kind == old(block).kind,
        final(block).active == (old(block).active && !opened),
{
    if kind != ActionableKind::Wall || !actionable.answers(target_id) {
        return false;
    }
    if !block.active {
        return false;
    }
    block.active = false;
    true
}

/// An escalator's running flag and animation state after its trigger fires.
pub open spec fn escalator_toggled(running: bool) -> (bool, ActorState) {
    (!running, if !running { ActorState::Running } else { ActorState::Idle })
}

/// An escalator's trigger flips it between running and stopped. Returns
/// whether it reacted; the animation state follows: the running animation
/// while it runs, the idle ("off") one while stopped.
pub fn toggle_escalator(
    kind: ActionableKind,
    actionable: &Actionable,
    target_id: &String,
    running: &mut bool,
    state: &mut ActorState,
) -> (reacted: bool)
    ensures
        reacted == (kind == ActionableKind::Escalator && actionable.target_id@ == target_id@),
        reacted ==> (*final(running), *final(state)) == escalator_toggled(*old(running)),
        !reacted ==> *final(running) == *old(running) && *final(state) == *old(state),
{
    if kind != ActionableKind::Escalator || !actionable.answers(target_id) {
        return false;
    }
    *running = !*running;
    *state = if *running { ActorState::Running } else { ActorState::Idle };
    true
}

/// Intensity a relit torch burns at, whatever it was authored with.
pub const RELIT_INTENSITY: i32 = 200;

/// A flame's switchable state: how strongly it burns, whether it is lit and
/// the name of the trigger that switches it.
#[derive(Debug, PartialEq, Eq)]
pub struct Torch {
    pub intensity: i32,
    pub lit: bool,
    pub target_id: String,
}

impl Torch {
    /// Whether the flame is lit: the `lit` field.
    pub open spec fn lit_view(&self) -> bool {
        self.lit
    }

    /// How strongly the flame burns: the `intensity` field.
    pub open spec fn intensity_view(&self) -> i32 {
        self.intensity
    }

    /// The name of the trigger that switches the torch: the `target_id`
    /// field.
    pub open spec fn target_view(&self) -> Seq<char> {
        self.target_id@
    }

    /// The torch after a trigger naming `target` fires.
    pub open spec fn after_trigger(self, target: Seq<char>) -> Torch {
        if self.target_id@ == target {
            Torch { intensity: if !self.lit { RELIT_INTENSITY } else { 0 }, lit: !self.lit, ..self }
        } else {
            self
        }
    }

    /// A torch burning at `intensity`; lit when the intensity is positive.
    pub fn new(intensity: i32, target_id: String) -> (r: Self)
        ensures
            r.intensity_view() == intensity,
            r.lit_view() == (intensity > 0),
            r.target_view() == target_id@,
    {
        Torch { intensity, lit: intensity > 0, target_id }
    }

    /// Lights or puts out the flame. Relighting burns at
    /// [`RELIT_INTENSITY`]; a flame put out has intensity zero.
    pub fn set_lit(&mut self, lit: bool)
        ensures
            final(self).lit_view() == lit,
            final(self).intensity_view() == (if lit { RELIT_INTENSITY } else { 0 }),
            final(self).target_view() == old(self).target_view(),
    {
        self.lit = lit;
        self.intensity = if lit { RELIT_INTENSITY } else { 0 };
    }

    /// Whether the flame is lit.
    pub fn is_lit(&self) -> (r: bool)
        ensures
            r == self.lit_view(),
    {
        self.lit
    }

    /// A trigger fired: the torch it names toggles its flame; every other
    /// torch is left alone. Returns whether this torch reacted.
    pub fn on_trigger(&mut self, target_id: &String) -> (reacted: bool)
        ensures
            reacted == (old(self).target_view() == target_id@),
            reacted ==> final(self).lit_view() == !old(self).lit_view(),
            reacted ==> final(self).intensity_view() == (if final(self).lit_view() { RELIT_INTENSITY } else { 0 }),
            !reacted ==> *final(self) == *old(self),
            final(self).target_view() == old(self).target_view(),
            *final(self) == old(self).after_trigger(target_id@),
    {
        if self.target_id == *target_id {
            self.lit = !self.lit;
            self.intensity = if self.lit { RELIT_INTENSITY } else { 0 };
            true
        } else {
            false
        }
    }
}

/// Two firings of a torch's trigger put it out and relight it: it burns
/// again, at the relit intensity whatever it was authored with; a trigger
/// with another name never changes it.
pub proof fn law_torch_toggle(t: Torch, target: Seq<char>, other: Seq<char>)
    requires
        t.target_view() == target,
        other != target,
    ensures
        t.after_trigger(target).lit_view() == !t.lit_view(),
        t.after_trigger(target).after_trigger(target).lit_view() == t.lit_view(),
        t.lit_view() ==> t.after_trigger(target).intensity_view() == 0
            && t.after_trigger(target).after_trigger(target).intensity_view() == RELIT_INTENSITY,
        t.after_trigger(other) == t,
{
}

/// Two firings of an escalator's trigger restore its running flag, and the
/// animation always matches the flag: running while it runs, idle ("off")
/// while stopped.
pub proof fn law_escalator_toggle(running: bool)
    ensures
        escalator_toggled(escalator_toggled(running).0).0 == running,
        escalator_toggled(running).1 == (if escalator_toggled(running).0 {
            ActorState::Running
        } else {
            ActorState::Idle
        }),
{
}


/// Only an object named `Heart` gives a heart; every other name gives a
/// coin.
pub proof fn law_only_hearts_are_named_heart(name: Seq<char>)
    ensures
        (collectable_kind_of(name) == CollectableKind::Heart) <==> name == "Heart"@,
{
}

} // verus!
