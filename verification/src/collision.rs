//! Contact resolution between an actor and the world's collidables.
//!
//! Resolution walks the world's three lists (collision blocks, then
//! escalators, then falling platforms) in that order and stops at the first
//! resolved contact; order and early exit decide where the actor ends up. The
//! engine measures, for each collidable, whether the actor's hitbox overlaps
//! it; the functions here decide, from those facts and the sign of the
//! actor's velocity, which collidable stops the actor, from which side, and
//! which contact flags change. Moving the actor by the chosen amount is the
//! engine's part.
use vstd::prelude::*;
use crate::actor::{BlockKind, Sign};

verus! {

/// One collision block as the horizontal and vertical passes see it.
#[derive(Debug, Clone, Copy, PartialEq, Eq, Structural)]
pub struct BlockContact {
    pub kind: BlockKind,
    /// The actor's hitbox overlaps the block.
    pub overlapping: bool,
}

/// Which edge of a block the actor is placed against.
#[derive(Debug, Clone, Copy, PartialEq, Eq, Structural)]
pub enum Side {
    /// Moving right: the actor's hitbox ends at the block's left edge.
    LeftEdge,
    /// Moving left: the actor's hitbox starts at the block's right edge.
    RightEdge,
}

/// A block that stopped the actor, and the edge the actor is placed against.
#[derive(Debug, Clone, Copy, PartialEq, Eq, Structural)]
pub struct Stop {
    pub block: usize,
    pub side: Side,
}

/// Outcome of the horizontal pass.
#[derive(Debug, Clone, Copy, PartialEq, Eq, Structural)]
pub struct HorizontalResolution {
    pub in_quicksand: bool,
    pub clambering: bool,
    /// The block that stopped the actor (its horizontal velocity becomes zero)
    /// and the edge the actor is placed against.
    pub stop: Option<Stop>,
}

/// The horizontal pass from block `i` on, with the contact flags as they
/// stand when block `i` is reached.
pub open spec fn horizontal_from(
    blocks: Seq<BlockContact>,
    i: int,
    vx: Sign,
    grounded: bool,
    in_quicksand: bool,
    clambering: bool,
) -> HorizontalResolution
    decreases blocks.len() - i,
{
    if i < 0 || i >= blocks.len() {
        HorizontalResolution { in_quicksand, clambering, stop: None }
    } else {
        let b = blocks[i];
        let side = if vx == Sign::Positive { Side::LeftEdge } else { Side::RightEdge };
        match b.kind {
            BlockKind::QuickSand => horizontal_from(
                blocks,
                i + 1,
                vx,
                grounded,
                b.overlapping,
                clambering,
            ),
            BlockKind::Wall => {
                if !b.overlapping {
                    horizontal_from(blocks, i + 1, vx, grounded, in_quicksand, false)
                } else if vx != Sign::Zero {
                    HorizontalResolution {
                        in_quicksand,
                        clambering: clambering || !grounded,
                        stop: Some(Stop { block: i as usize, side }),
                    }
                } else {
                    horizontal_from(blocks, i + 1, vx, grounded, in_quicksand, clambering)
                }
            },
            BlockKind::Solid | BlockKind::Platform => {
                if b.overlapping && vx != Sign::Zero {
                    HorizontalResolution { in_quicksand, clambering, stop: Some(Stop { block: i as usize, side }) }
                } else {
                    horizontal_from(blocks, i + 1, vx, grounded, in_quicksand, clambering)
                }
            },
        }
    }
}

/// Facts about the horizontal pass that hold from any starting block.
pub proof fn lemma_horizontal_from(
    blocks: Seq<BlockContact>,
    i: int,
    vx: Sign,
    grounded: bool,
    in_quicksand: bool,
    clambering: bool,
)
    requires
        0 <= i,
        blocks.len() <= usize::MAX,
    ensures
        ({
            let r = horizontal_from(blocks, i, vx, grounded, in_quicksand, clambering);
            &&& r.stop matches Some(Stop { block: k, side }) ==> {
                &&& i <= k < blocks.len()
                &&& blocks[k as int].overlapping
                &&& blocks[k as int].kind != BlockKind::QuickSand
                &&& vx != Sign::Zero
                &&& (side == Side::LeftEdge <==> vx == Sign::Positive)
            }
            &&& grounded ==> (r.clambering ==> clambering)
            &&& vx == Sign::Zero ==> r.stop is None
        }),
    decreases blocks.len() - i,
{
    if i < blocks.len() {
        lemma_horizontal_from(blocks, i + 1, vx, grounded, in_quicksand, clambering);
        lemma_horizontal_from(blocks, i + 1, vx, grounded, blocks[i].overlapping, clambering);
        lemma_horizontal_from(blocks, i + 1, vx, grounded, in_quicksand, false);
    }
}

/// The horizontal pass over the collision blocks, in list order.
///
/// A quicksand block sets `in_quicksand` to whether it is overlapped; an
/// overlapped wall or solid block stops an actor that moves sideways, placing
/// it against the edge it ran into, and the pass ends there; a wall hit in
/// mid-air also starts a clamber, and a wall that is not overlapped ends one.
pub fn resolve_horizontal(
    blocks: &Vec<BlockContact>,
    vx: Sign,
    grounded: bool,
    in_quicksand: bool,
    clambering: bool,
) -> (r: HorizontalResolution)
    ensures
        r == horizontal_from(blocks@, 0, vx, grounded, in_quicksand, clambering),
        // Quicksand never stops movement, and only an overlapped block can.
        r.stop matches Some(Stop { block: k, side }) ==> {
            &&& k < blocks.len()
            &&& blocks@[k as int].overlapping
            &&& blocks@[k as int].kind != BlockKind::QuickSand
            &&& (side == Side::LeftEdge <==> vx == Sign::Positive)
        },
        // A standing actor never starts a clamber.
        grounded ==> (r.clambering ==> clambering),
        vx == Sign::Zero ==> r.stop is None,
{
    let mut q = in_quicksand;
    let mut c = clambering;
    let mut i: usize = 0;
    while i < blocks.len()
        invariant
            i <= blocks.len(),
            horizontal_from(blocks@, 0, vx, grounded, in_quicksand, clambering)
                == horizontal_from(blocks@, i as int, vx, grounded, q, c),
        decreases blocks.len() - i,
    {
        let b = blocks[i];
        let side = if vx == Sign::Positive { Side::LeftEdge } else { Side::RightEdge };
        match b.kind {
            BlockKind::QuickSand => {
                q = b.overlapping;
            },
            BlockKind::Wall => {
                if !b.overlapping {
                    c = false;
                } else if vx != Sign::Zero {
                    proof {
                        lemma_horizontal_from(blocks@, 0, vx, grounded, in_quicksand, clambering);
                    }
                    return HorizontalResolution { in_quicksand: q, clambering: c || !grounded, stop: Some(Stop { block: i, side }) };
                }
            },
            BlockKind::Solid | BlockKind::Platform => {
                if b.overlapping && vx != Sign::Zero {
                    proof {
                        lemma_horizontal_from(blocks@, 0, vx, grounded, in_quicksand, clambering);
                    }
                    return HorizontalResolution { in_quicksand: q, clambering: c, stop: Some(Stop { block: i, side }) };
                }
            },
        }
        i = i + 1;
    }
    proof {
        lemma_horizontal_from(blocks@, 0, vx, grounded, in_quicksand, clambering);
    }
    HorizontalResolution { in_quicksand: q, clambering: c, stop: None }
}

/// What the vertical pass over the collision blocks decided.
#[derive(Debug, Clone, Copy, PartialEq, Eq, Structural)]
pub enum VerticalContact {
    /// No block stopped the actor.
    Free,
    /// Landed: placed on top of the block, grounded, vertical velocity zero.
    Land(usize),
    /// Sank into quicksand: grounded and vertical velocity zero, but left
    /// where it is.
    Sink(usize),
    /// Moving up into a solid block or wall: placed below its bottom edge,
    /// vertical velocity zero.
    Bump(usize),
}

/// The vertical pass over the collision blocks from block `i` on.
pub open spec fn vertical_from(blocks: Seq<BlockContact>, i: int, vy: Sign) -> VerticalContact
    decreases blocks.len() - i,
{
    if i < 0 || i >= blocks.len() {
        VerticalContact::Free
    } else {
        let b = blocks[i];
        if !b.overlapping {
            vertical_from(blocks, i + 1, vy)
        } else {
            match b.kind {
                BlockKind::Platform => if vy == Sign::Positive {
                    VerticalContact::Land(i as usize)
                } else {
                    vertical_from(blocks, i + 1, vy)
                },
                BlockKind::QuickSand => if vy == Sign::Positive {
                    VerticalContact::Sink(i as usize)
                } else {
                    vertical_from(blocks, i + 1, vy)
                },
                BlockKind::Solid | BlockKind::Wall => match vy {
                    Sign::Positive => VerticalContact::Land(i as usize),
                    Sign::Negative => VerticalContact::Bump(i as usize),
                    Sign::Zero => vertical_from(blocks, i + 1, vy),
                },
            }
        }
    }
}

/// Facts about the vertical pass that hold from any starting block.
pub proof fn lemma_vertical_from(blocks: Seq<BlockContact>, i: int, vy: Sign)
    requires
        0 <= i,
        blocks.len() <= usize::MAX,
    ensures
        ({
            let r = vertical_from(blocks, i, vy);
            &&& r matches VerticalContact::Land(k) ==> i <= k < blocks.len() && blocks[k as int].overlapping
                && blocks[k as int].kind != BlockKind::QuickSand && vy == Sign::Positive
            &&& r matches VerticalContact::Sink(k) ==> i <= k < blocks.len() && blocks[k as int].overlapping
                && blocks[k as int].kind == BlockKind::QuickSand && vy == Sign::Positive
            &&& r matches VerticalContact::Bump(k) ==> i <= k < blocks.len() && blocks[k as int].overlapping
                && (blocks[k as int].kind == BlockKind::Solid || blocks[k as int].kind == BlockKind::Wall)
                && vy == Sign::Negative
            &&& vy == Sign::Zero ==> r == VerticalContact::Free
        }),
    decreases blocks.len() - i,
{
    if i < blocks.len() {
        lemma_vertical_from(blocks, i + 1, vy);
    }
}

/// The vertical velocity's sign once a contact has been applied: every
/// contact stops vertical motion.
pub open spec fn vy_after(contact: VerticalContact, vy: Sign) -> Sign {
    if contact == VerticalContact::Free { vy } else { Sign::Zero }
}

/// The vertical pass over the collision blocks, in list order.
///
/// Falling onto an overlapped platform, solid block or wall lands the actor
/// on top of it; falling into quicksand stops the fall where the actor is;
/// rising into a solid block or wall bumps the actor's head. The first block
/// that does any of these decides; a one-way platform or quicksand never
/// stops an actor that is not falling.
#[verifier::loop_isolation(false)]
pub fn resolve_vertical_blocks(blocks: &Vec<BlockContact>, vy: Sign) -> (r: VerticalContact)
    ensures
        r == vertical_from(blocks@, 0, vy),
        r matches VerticalContact::Land(k) ==> k < blocks.len() && blocks@[k as int].overlapping
            && blocks@[k as int].kind != BlockKind::QuickSand && vy == Sign::Positive,
        r matches VerticalContact::Sink(k) ==> k < blocks.len() && blocks@[k as int].overlapping
            && blocks@[k as int].kind == BlockKind::QuickSand && vy == Sign::Positive,
        r matches VerticalContact::Bump(k) ==> k < blocks.len() && blocks@[k as int].overlapping
            && (blocks@[k as int].kind == BlockKind::Solid || blocks@[k as int].kind == BlockKind::Wall)
            && vy == Sign::Negative,
        vy == Sign::Zero ==> r == VerticalContact::Free,
{
    let n = blocks.len();
    proof {
        lemma_vertical_from(blocks@, 0, vy);
    }
    let mut i: usize = 0;
    while i < blocks.len()
        invariant
            i <= blocks.len(),
            vertical_from(blocks@, 0, vy) == vertical_from(blocks@, i as int, vy),
        decreases blocks.len() - i,
    {
        let b = blocks[i];
        if b.overlapping {
            match b.kind {
                BlockKind::Platform => {
                    if vy == Sign::Positive {
                        return VerticalContact::Land(i);
                    }
                },
                BlockKind::QuickSand => {
                    if vy == Sign::Positive {
                        return VerticalContact::Sink(i);
                    }
                },
                BlockKind::Solid | BlockKind::Wall => {
                    match vy {
                        Sign::Positive => {
                            return VerticalContact::Land(i);
                        },
                        Sign::Negative => {
                            return VerticalContact::Bump(i);
                        },
                        Sign::Zero => {},
                    }
                },
            }
        }
        i = i + 1;
    }
    VerticalContact::Free
}

impl VerticalContact {
    /// The vertical velocity's sign after this contact is applied.
    pub fn vy_after(self, vy: Sign) -> (r: Sign)
        ensures
            r == vy_after(self, vy),
    {
        match self {
            VerticalContact::Free => vy,
            _ => Sign::Zero,
        }
    }
}

/// The escalator ridden, looking from escalator `i` on: a falling actor
/// rides the first one it overlaps.
pub open spec fn ride_from(overlapping: Seq<bool>, i: int, vy: Sign) -> Option<usize>
    decreases overlapping.len() - i,
{
    if vy != Sign::Positive || i < 0 || i >= overlapping.len() {
        None
    } else if overlapping[i] {
        Some(i as usize)
    } else {
        ride_from(overlapping, i + 1, vy)
    }
}

/// The first overlapped escalator an actor falls onto, which it then rides.
///
/// Only a falling actor lands on an escalator.
#[verifier::loop_isolation(false)]
pub fn ride_escalator(overlapping: &Vec<bool>, vy: Sign) -> (r: Option<usize>)
    ensures
        r == ride_from(overlapping@, 0, vy),
        vy != Sign::Positive ==> r is None,
        vy == Sign::Positive ==> match r {
            Some(k) => k < overlapping.len() && overlapping@[k as int]
                && forall|j: int| 0 <= j < k ==> !overlapping@[j],
            None => forall|j: int| 0 <= j < overlapping.len() ==> !overlapping@[j],
        },
{
    if vy != Sign::Positive {
        return None;
    }
    let mut i: usize = 0;
    while i < overlapping.len()
        invariant
            i <= overlapping.len(),
            vy == Sign::Positive,
            forall|j: int| 0 <= j < i ==> !overlapping@[j],
            ride_from(overlapping@, 0, vy) == ride_from(overlapping@, i as int, vy),
        decreases overlapping.len() - i,
    {
        if overlapping[i] {
            return Some(i);
        }
        i = i + 1;
    }
    None
}

/// A falling platform as the vertical pass sees it.
#[derive(Debug, Clone, Copy, PartialEq, Eq, Structural)]
pub struct PlatformContact {
    pub overlapping: bool,
    /// Already triggered, so it is not triggered again.
    pub is_falling: bool,
}

/// What the pass over the falling platforms decided.
#[derive(Debug, Clone, Copy, PartialEq, Eq, Structural)]
pub struct PlatformOutcome {
    /// The platform the actor landed on: placed on top, grounded, vertical
    /// velocity zero.
    pub landed_on: Option<usize>,
    /// Landed on a platform that had not started falling: trigger its fall.
    pub trigger_fall: Option<usize>,
    /// Touched a falling platform while not falling onto it, which for the
    /// player is a death.
    pub hit_platform_from_below: bool,
}

/// No falling platform landed on, triggered or striking the actor.
pub open spec fn no_platform_contact() -> PlatformOutcome {
    PlatformOutcome { landed_on: None, trigger_fall: None, hit_platform_from_below: false }
}

/// The pass over the falling platforms from platform `i` on.
pub open spec fn platforms_from(platforms: Seq<PlatformContact>, i: int, vy: Sign) -> PlatformOutcome
    decreases platforms.len() - i,
{
    if i < 0 || i >= platforms.len() {
        no_platform_contact()
    } else if !platforms[i].overlapping {
        platforms_from(platforms, i + 1, vy)
    } else if vy == Sign::Positive {
        PlatformOutcome {
            landed_on: Some(i as usize),
            trigger_fall: if platforms[i].is_falling { None } else { Some(i as usize) },
            hit_platform_from_below: false,
        }
    } else {
        PlatformOutcome { hit_platform_from_below: true, ..platforms_from(platforms, i + 1, vy) }
    }
}

/// The pass over the falling platforms, in list order: a falling actor lands
/// on the first overlapped platform (and sets it falling if it was not); an
/// actor that is not falling is struck by any overlapped platform.
pub fn resolve_falling_platforms(platforms: &Vec<PlatformContact>, vy: Sign) -> (r: PlatformOutcome)
    ensures
        r == platforms_from(platforms@, 0, vy),
        vy == Sign::Positive ==> {
            &&& !r.hit_platform_from_below
            &&& match r.landed_on {
                Some(k) => k < platforms.len() && platforms@[k as int].overlapping
                    && (forall|j: int| 0 <= j < k ==> !platforms@[j].overlapping)
                    && r.trigger_fall == (if platforms@[k as int].is_falling { None } else { Some(k) }),
                None => r.trigger_fall is None
                    && forall|j: int| 0 <= j < platforms.len() ==> !platforms@[j].overlapping,
            }
        },
        vy != Sign::Positive ==> {
            &&& r.landed_on is None
            &&& r.trigger_fall is None
            &&& r.hit_platform_from_below
                == exists|j: int| 0 <= j < platforms.len() && platforms@[j].overlapping
        },
{
    let mut hit = false;
    let mut i: usize = 0;
    while i < platforms.len()
        invariant
            i <= platforms.len(),
            vy == Sign::Positive ==> !hit && forall|j: int| 0 <= j < i ==> !platforms@[j].overlapping,
            vy != Sign::Positive ==> hit == exists|j: int| 0 <= j < i && platforms@[j].overlapping,
            platforms_from(platforms@, 0, vy) == (PlatformOutcome {
                hit_platform_from_below: hit || platforms_from(platforms@, i as int, vy).hit_platform_from_below,
                ..platforms_from(platforms@, i as int, vy)
            }),
        decreases platforms.len() - i,
    {
        let p = platforms[i];
        if p.overlapping {
            if vy == Sign::Positive {
                let trigger = if p.is_falling { None } else { Some(i) };
                return PlatformOutcome { landed_on: Some(i), trigger_fall: trigger, hit_platform_from_below: hit };
            } else {
                hit = true;
            }
        }
        proof {
            if vy != Sign::Positive && !hit {
                assert(forall|j: int| 0 <= j < i + 1 ==> !platforms@[j].overlapping);
            }
        }
        i = i + 1;
    }
    PlatformOutcome { landed_on: None, trigger_fall: None, hit_platform_from_below: hit }
}


/// What the whole vertical pass decided: the block contact, the escalator
/// ridden, and the falling-platform contact.
#[derive(Debug, Clone, Copy, PartialEq, Eq, Structural)]
pub struct VerticalResolution {
    pub blocks: VerticalContact,
    pub escalator: Option<usize>,
    pub platforms: PlatformOutcome,
}

/// Whether a block contact ends the vertical pass: landing on a block or
/// sinking into quicksand does; a head bump stops the rise and walks on.
pub open spec fn settles(contact: VerticalContact) -> bool {
    contact is Land || contact is Sink
}

/// The vertical pass over blocks, then escalators, then falling platforms,
/// stopping at the first resolved contact.
pub open spec fn vertical_resolution(
    blocks: Seq<BlockContact>,
    on_escalators: Seq<bool>,
    platforms: Seq<PlatformContact>,
    vy: Sign,
) -> VerticalResolution {
    let contact = vertical_from(blocks, 0, vy);
    if settles(contact) {
        VerticalResolution { blocks: contact, escalator: None, platforms: no_platform_contact() }
    } else {
        let vy_left = vy_after(contact, vy);
        let ridden = ride_from(on_escalators, 0, vy_left);
        if ridden is Some {
            VerticalResolution { blocks: contact, escalator: ridden, platforms: no_platform_contact() }
        } else {
            VerticalResolution {
                blocks: contact,
                escalator: None,
                platforms: platforms_from(platforms, 0, vy_left),
            }
        }
    }
}

/// The vertical pass: the collision blocks, then the escalators, then the
/// falling platforms, in list order, stopping at the first resolved contact
/// (a landing on a block, escalator or falling platform, or a sink into
/// quicksand). A head bump stops the rise but does not end the pass.
///
/// `on_escalators` and `platforms` are the overlaps where the block contact
/// leaves the actor: where it was, unless it bumped its head.
pub fn resolve_vertical(
    blocks: &Vec<BlockContact>,
    on_escalators: &Vec<bool>,
    platforms: &Vec<PlatformContact>,
    vy: Sign,
) -> (r: VerticalResolution)
    ensures
        r == vertical_resolution(blocks@, on_escalators@, platforms@, vy),
{
    let contact = resolve_vertical_blocks(blocks, vy);
    let untouched = PlatformOutcome { landed_on: None, trigger_fall: None, hit_platform_from_below: false };
    match contact {
        VerticalContact::Land(_) | VerticalContact::Sink(_) => {
            return VerticalResolution { blocks: contact, escalator: None, platforms: untouched };
        },
        _ => {},
    }
    let vy_left = contact.vy_after(vy);
    let ridden = ride_escalator(on_escalators, vy_left);
    if ridden.is_some() {
        return VerticalResolution { blocks: contact, escalator: ridden, platforms: untouched };
    }
    let decided = resolve_falling_platforms(platforms, vy_left);
    VerticalResolution { blocks: contact, escalator: None, platforms: decided }
}

/// The vertical pass ends at its first resolved contact: after a landing on
/// a block or a sink into quicksand no escalator is ridden and no falling
/// platform is landed on, triggered or strikes the actor; after riding an
/// escalator no falling platform is consulted; and what comes after such a
/// contact has no bearing on the outcome.
pub proof fn law_vertical_pass_stops_at_first_resolved_contact(
    blocks: Seq<BlockContact>,
    on_escalators: Seq<bool>,
    platforms: Seq<PlatformContact>,
    other_escalators: Seq<bool>,
    other_platforms: Seq<PlatformContact>,
    vy: Sign,
)
    ensures
        vertical_resolution(blocks, on_escalators, platforms, vy).blocks == vertical_from(blocks, 0, vy),
        settles(vertical_from(blocks, 0, vy)) ==> {
            &&& vertical_resolution(blocks, on_escalators, platforms, vy).escalator is None
            &&& vertical_resolution(blocks, on_escalators, platforms, vy).platforms == no_platform_contact()
            &&& vertical_resolution(blocks, other_escalators, other_platforms, vy)
                == vertical_resolution(blocks, on_escalators, platforms, vy)
        },
        vertical_resolution(blocks, on_escalators, platforms, vy).escalator is Some ==> {
            &&& vertical_resolution(blocks, on_escalators, platforms, vy).platforms == no_platform_contact()
            &&& vertical_resolution(blocks, on_escalators, other_platforms, vy)
                == vertical_resolution(blocks, on_escalators, platforms, vy)
        },
{
}


/// The contact flags an actor carries from step to step, as the two passes
/// read and change them. `escalator` is the index, in the world's escalator
/// list, of the escalator ridden this step.
#[derive(Debug, Clone, Copy, PartialEq, Eq, Structural)]
pub struct ContactFlags {
    pub grounded: bool,
    pub in_quicksand: bool,
    /// Pressed against a wall while airborne, which enables the wall jump.
    pub clambering: bool,
    /// The brief lockout after a wall jump.
    pub wall_jumping: bool,
    pub escalator: Option<usize>,
}

/// Whether the vertical pass puts the actor on something: a block it lands
/// on or sinks into, an escalator, or a falling platform.
pub open spec fn grounds(r: VerticalResolution) -> bool {
    settles(r.blocks) || r.escalator is Some || r.platforms.landed_on is Some
}

/// Whether the vertical pass stops the actor's vertical motion: every block
/// contact and every landing does; a strike from a falling platform does
/// not.
pub open spec fn halts(r: VerticalResolution) -> bool {
    r.blocks != VerticalContact::Free || r.escalator is Some || r.platforms.landed_on is Some
}

/// The flags after the horizontal pass: it sets the quicksand and clamber
/// flags and leaves the others as they were.
pub open spec fn flags_after_horizontal(flags: ContactFlags, r: HorizontalResolution) -> ContactFlags {
    ContactFlags { in_quicksand: r.in_quicksand, clambering: r.clambering, ..flags }
}

/// The flags after the vertical pass: a landing grounds the actor (nothing
/// here ungrounds it), the escalator is the one ridden this step if any, and
/// the others stay as they were.
pub open spec fn flags_after_vertical(flags: ContactFlags, r: VerticalResolution) -> ContactFlags {
    ContactFlags { grounded: flags.grounded || grounds(r), escalator: r.escalator, ..flags }
}

impl ContactFlags {
    /// The flags after the horizontal pass decided `r`.
    pub fn after_horizontal(self, r: HorizontalResolution) -> (f: ContactFlags)
        ensures
            f == flags_after_horizontal(self, r),
    {
        ContactFlags { in_quicksand: r.in_quicksand, clambering: r.clambering, ..self }
    }

    /// The flags after the vertical pass decided `r`.
    pub fn after_vertical(self, r: VerticalResolution) -> (f: ContactFlags)
        ensures
            f == flags_after_vertical(self, r),
    {
        ContactFlags { grounded: self.grounded || r.grounds(), escalator: r.escalator, ..self }
    }
}

impl VerticalResolution {
    /// Whether this decision puts the actor on something.
    pub fn grounds(&self) -> (g: bool)
        ensures
            g == grounds(*self),
    {
        match self.blocks {
            VerticalContact::Land(_) | VerticalContact::Sink(_) => true,
            _ => self.escalator.is_some() || self.platforms.landed_on.is_some(),
        }
    }

    /// Whether this decision stops the actor's vertical motion.
    pub fn halts(&self) -> (h: bool)
        ensures
            h == halts(*self),
    {
        match self.blocks {
            VerticalContact::Free => self.escalator.is_some() || self.platforms.landed_on.is_some(),
            _ => true,
        }
    }
}

/// The escalator ridden is one the actor overlaps.
proof fn lemma_ride_from(overlapping: Seq<bool>, i: int, vy: Sign)
    requires
        0 <= i,
        overlapping.len() <= usize::MAX,
    ensures
        ride_from(overlapping, i, vy) matches Some(k) ==> i <= k < overlapping.len() && overlapping[k as int],
    decreases overlapping.len() - i,
{
    if i < overlapping.len() {
        lemma_ride_from(overlapping, i + 1, vy);
    }
}

/// The horizontal pass touches only the quicksand and clamber flags: the
/// actor stays as grounded as it was, keeps its escalator and wall-jump
/// lockout, and an actor that is not moving sideways is never stopped.
pub proof fn law_horizontal_pass_frame(blocks: Seq<BlockContact>, vx: Sign, flags: ContactFlags)
    requires
        blocks.len() <= usize::MAX,
    ensures
        ({
            let r = horizontal_from(blocks, 0, vx, flags.grounded, flags.in_quicksand, flags.clambering);
            let after = flags_after_horizontal(flags, r);
            &&& after.grounded == flags.grounded
            &&& after.escalator == flags.escalator
            &&& after.wall_jumping == flags.wall_jumping
            &&& after.in_quicksand == r.in_quicksand
            &&& after.clambering == r.clambering
            &&& vx == Sign::Zero ==> r.stop is None
        }),
{
    lemma_horizontal_from(blocks, 0, vx, flags.grounded, flags.in_quicksand, flags.clambering);
}

/// The vertical pass touches only the grounded flag and the escalator: the
/// quicksand, clamber and wall-jump flags stay as they were, a grounded
/// actor stays grounded, every landing grounds the actor, and the escalator
/// recorded is one the actor overlaps (or none).
pub proof fn law_vertical_pass_frame(
    blocks: Seq<BlockContact>,
    on_escalators: Seq<bool>,
    platforms: Seq<PlatformContact>,
    vy: Sign,
    flags: ContactFlags,
)
    requires
        on_escalators.len() <= usize::MAX,
    ensures
        ({
            let r = vertical_resolution(blocks, on_escalators, platforms, vy);
            let after = flags_after_vertical(flags, r);
            &&& after.in_quicksand == flags.in_quicksand
            &&& after.clambering == flags.clambering
            &&& after.wall_jumping == flags.wall_jumping
            &&& flags.grounded ==> after.grounded
            &&& grounds(r) ==> after.grounded
            &&& after.escalator matches Some(k) ==> k < on_escalators.len() && on_escalators[k as int]
            &&& after.escalator == r.escalator
            &&& !flags.grounded && !grounds(r) ==> !after.grounded
            &&& grounds(r) ==> halts(r)
        }),
{
    let contact = vertical_from(blocks, 0, vy);
    lemma_ride_from(on_escalators, 0, vy_after(contact, vy));
}


/// Blocks the actor does not overlap are passed over.
proof fn lemma_vertical_skips_clear_blocks(blocks: Seq<BlockContact>, i: int, k: int, vy: Sign)
    requires
        0 <= i <= k <= blocks.len(),
        forall|j: int| i <= j < k ==> !blocks[j].overlapping,
    ensures
        vertical_from(blocks, i, vy) == vertical_from(blocks, k, vy),
    decreases k - i,
{
    if i < k {
        lemma_vertical_skips_clear_blocks(blocks, i + 1, k, vy);
    }
}

/// The first block the actor overlaps decides the vertical pass by its kind
/// and the direction of motion: falling, the actor sinks into quicksand and
/// lands on anything else (a one-way platform, a solid block or a wall
/// alike); rising, it bumps its head on a solid block or a wall and passes
/// up through a one-way platform or quicksand; standing still, nothing
/// stops it. With no block overlapped, nothing stops it either.
pub proof fn law_first_overlapped_block_decides(blocks: Seq<BlockContact>, k: int, vy: Sign)
    requires
        blocks.len() <= usize::MAX,
        0 <= k <= blocks.len(),
        forall|j: int| 0 <= j < k ==> !blocks[j].overlapping,
        k < blocks.len() ==> blocks[k].overlapping,
    ensures
        k == blocks.len() ==> vertical_from(blocks, 0, vy) == VerticalContact::Free,
        k < blocks.len() && vy == Sign::Positive && blocks[k].kind == BlockKind::QuickSand
            ==> vertical_from(blocks, 0, vy) == VerticalContact::Sink(k as usize),
        k < blocks.len() && vy == Sign::Positive && blocks[k].kind != BlockKind::QuickSand
            ==> vertical_from(blocks, 0, vy) == VerticalContact::Land(k as usize),
        k < blocks.len() && vy == Sign::Negative && (blocks[k].kind == BlockKind::Solid
            || blocks[k].kind == BlockKind::Wall) ==> vertical_from(blocks, 0, vy) == VerticalContact::Bump(
            k as usize,
        ),
        vy == Sign::Zero ==> vertical_from(blocks, 0, vy) == VerticalContact::Free,
{
    lemma_vertical_skips_clear_blocks(blocks, 0, k, vy);
    lemma_vertical_from(blocks, 0, vy);
}

/// Rising through one-way platforms and quicksand: when every overlapped
/// block is one of those, a rising actor is not stopped.
pub proof fn law_rising_passes_one_way_blocks(blocks: Seq<BlockContact>)
    requires
        forall|j: int| 0 <= j < blocks.len() && blocks[j].overlapping ==> blocks[j].kind == BlockKind::Platform
            || blocks[j].kind == BlockKind::QuickSand,
    ensures
        vertical_from(blocks, 0, Sign::Negative) == VerticalContact::Free,
{
    lemma_rising_passes_from(blocks, 0);
}

proof fn lemma_rising_passes_from(blocks: Seq<BlockContact>, i: int)
    requires
        0 <= i,
        forall|j: int| 0 <= j < blocks.len() && blocks[j].overlapping ==> blocks[j].kind == BlockKind::Platform
            || blocks[j].kind == BlockKind::QuickSand,
    ensures
        vertical_from(blocks, i, Sign::Negative) == VerticalContact::Free,
    decreases blocks.len() - i,
{
    if i < blocks.len() {
        lemma_rising_passes_from(blocks, i + 1);
    }
}


/// Whether block `j` stops an actor moving sideways with sign `vx`: an
/// overlapped block other than quicksand.
pub open spec fn stops_sideways(blocks: Seq<BlockContact>, j: int, vx: Sign) -> bool {
    vx != Sign::Zero && blocks[j].overlapping && blocks[j].kind != BlockKind::QuickSand
}

proof fn lemma_horizontal_stop_from(
    blocks: Seq<BlockContact>,
    i: int,
    k: int,
    vx: Sign,
    grounded: bool,
    in_quicksand: bool,
    clambering: bool,
)
    requires
        blocks.len() <= usize::MAX,
        0 <= i <= k < blocks.len(),
        stops_sideways(blocks, k, vx),
        forall|j: int| i <= j < k ==> !stops_sideways(blocks, j, vx),
    ensures
        horizontal_from(blocks, i, vx, grounded, in_quicksand, clambering).stop == Some(
            Stop { block: k as usize, side: if vx == Sign::Positive { Side::LeftEdge } else { Side::RightEdge } },
        ),
        blocks[k].kind == BlockKind::Wall && !grounded ==> horizontal_from(
            blocks,
            i,
            vx,
            grounded,
            in_quicksand,
            clambering,
        ).clambering,
    decreases k - i,
{
    assert(stops_sideways(blocks, k, vx));
    if i < k {
        assert(!stops_sideways(blocks, i, vx));
        lemma_horizontal_stop_from(blocks, i + 1, k, vx, grounded, in_quicksand, clambering);
        lemma_horizontal_stop_from(blocks, i + 1, k, vx, grounded, blocks[i].overlapping, clambering);
        lemma_horizontal_stop_from(blocks, i + 1, k, vx, grounded, in_quicksand, false);
    }
}

/// The first block that can stop a sideways move does: the actor is placed
/// against its left edge when moving right and its right edge when moving
/// left, and a wall hit in mid-air starts a clamber. With no such block the
/// actor moves freely.
pub proof fn law_first_blocking_block_stops_the_actor(
    blocks: Seq<BlockContact>,
    k: int,
    vx: Sign,
    grounded: bool,
    in_quicksand: bool,
    clambering: bool,
)
    requires
        blocks.len() <= usize::MAX,
        0 <= k <= blocks.len(),
        forall|j: int| 0 <= j < k ==> !stops_sideways(blocks, j, vx),
        k < blocks.len() ==> stops_sideways(blocks, k, vx),
    ensures
        k < blocks.len() ==> horizontal_from(blocks, 0, vx, grounded, in_quicksand, clambering).stop == Some(
            Stop { block: k as usize, side: if vx == Sign::Positive { Side::LeftEdge } else { Side::RightEdge } },
        ),
        k < blocks.len() && blocks[k].kind == BlockKind::Wall && !grounded ==> horizontal_from(
            blocks,
            0,
            vx,
            grounded,
            in_quicksand,
            clambering,
        ).clambering,
        k == blocks.len() ==> horizontal_from(blocks, 0, vx, grounded, in_quicksand, clambering).stop is None,
{
    if k < blocks.len() {
        lemma_horizontal_stop_from(blocks, 0, k, vx, grounded, in_quicksand, clambering);
    } else {
        lemma_horizontal_free_from(blocks, 0, vx, grounded, in_quicksand, clambering);
    }
}

proof fn lemma_horizontal_free_from(
    blocks: Seq<BlockContact>,
    i: int,
    vx: Sign,
    grounded: bool,
    in_quicksand: bool,
    clambering: bool,
)
    requires
        0 <= i <= blocks.len(),
        forall|j: int| i <= j < blocks.len() ==> !stops_sideways(blocks, j, vx),
    ensures
        ({
            let r = horizontal_from(blocks, i, vx, grounded, in_quicksand, clambering);
            &&& r.stop is None
            &&& (forall|j: int| i <= j < blocks.len() ==> blocks[j].kind != BlockKind::QuickSand) ==> r.in_quicksand
                == in_quicksand
            &&& forall|k: int|
                i <= k < blocks.len() && blocks[k].kind == BlockKind::QuickSand && (forall|j: int|
                    k < j < blocks.len() ==> blocks[j].kind != BlockKind::QuickSand) ==> r.in_quicksand
                    == #[trigger] blocks[k].overlapping
            &&& (forall|j: int| i <= j < blocks.len() ==> blocks[j].kind != BlockKind::Wall) ==> r.clambering
                == clambering
            &&& !clambering ==> !r.clambering
            &&& (exists|j: int| i <= j < blocks.len() && blocks[j].kind == BlockKind::Wall && !blocks[j].overlapping)
                ==> !r.clambering
        }),
    decreases blocks.len() - i,
{
    if i < blocks.len() {
        assert(!stops_sideways(blocks, i, vx));
        lemma_horizontal_free_from(blocks, i + 1, vx, grounded, in_quicksand, clambering);
        lemma_horizontal_free_from(blocks, i + 1, vx, grounded, blocks[i].overlapping, clambering);
        lemma_horizontal_free_from(blocks, i + 1, vx, grounded, in_quicksand, false);
    }
}

/// When nothing stops the actor sideways, the quicksand flag ends as the
/// overlap of the last quicksand block (unchanged when there is none), and
/// a wall the actor does not touch ends any clamber; with no wall at all
/// the clamber stays as it was, and nothing starts one.
pub proof fn law_free_move_sets_quicksand_and_clamber(
    blocks: Seq<BlockContact>,
    vx: Sign,
    grounded: bool,
    in_quicksand: bool,
    clambering: bool,
    last_sand: int,
)
    requires
        forall|j: int| 0 <= j < blocks.len() ==> !stops_sideways(blocks, j, vx),
    ensures
        ({
            let r = horizontal_from(blocks, 0, vx, grounded, in_quicksand, clambering);
            &&& r.stop is None
            &&& (forall|j: int| 0 <= j < blocks.len() ==> blocks[j].kind != BlockKind::QuickSand) ==> r.in_quicksand
                == in_quicksand
            &&& (0 <= last_sand < blocks.len() && blocks[last_sand].kind == BlockKind::QuickSand && (forall|j: int|
                last_sand < j < blocks.len() ==> blocks[j].kind != BlockKind::QuickSand)) ==> r.in_quicksand
                == blocks[last_sand].overlapping
            &&& (forall|j: int| 0 <= j < blocks.len() ==> blocks[j].kind != BlockKind::Wall) ==> r.clambering
                == clambering
            &&& !clambering ==> !r.clambering
            &&& (exists|j: int| 0 <= j < blocks.len() && blocks[j].kind == BlockKind::Wall && !blocks[j].overlapping)
                ==> !r.clambering
        }),
{
    lemma_horizontal_free_from(blocks, 0, vx, grounded, in_quicksand, clambering);
    if 0 <= last_sand < blocks.len() {
        assert(blocks[last_sand].overlapping == blocks[last_sand].overlapping);
    }
}


proof fn lemma_falling_meets_overlapped(
    blocks: Seq<BlockContact>,
    on_escalators: Seq<bool>,
    platforms: Seq<PlatformContact>,
    i: int,
)
    requires
        0 <= i,
    ensures
        (exists|j: int| i <= j < blocks.len() && blocks[j].overlapping) ==> (vertical_from(
            blocks,
            i,
            Sign::Positive,
        ) is Land || vertical_from(blocks, i, Sign::Positive) is Sink),
        !(exists|j: int| i <= j < blocks.len() && blocks[j].overlapping) ==> vertical_from(blocks, i, Sign::Positive)
            == VerticalContact::Free,
        (exists|j: int| i <= j < on_escalators.len() && on_escalators[j]) <==> ride_from(
            on_escalators,
            i,
            Sign::Positive,
        ) is Some,
        (exists|j: int| i <= j < platforms.len() && platforms[j].overlapping) <==> platforms_from(
            platforms,
            i,
            Sign::Positive,
        ).landed_on is Some,
        !(exists|j: int| i <= j < platforms.len() && platforms[j].overlapping) ==> platforms_from(
            platforms,
            i,
            Sign::Positive,
        ) == no_platform_contact(),
    decreases blocks.len() + on_escalators.len() + platforms.len() - i,
{
    if i < blocks.len() || i < on_escalators.len() || i < platforms.len() {
        lemma_falling_meets_overlapped(blocks, on_escalators, platforms, i + 1);
        if i < blocks.len() && blocks[i].overlapping {
            assert(exists|j: int| i <= j < blocks.len() && blocks[j].overlapping);
        }
        if i < on_escalators.len() && on_escalators[i] {
            assert(exists|j: int| i <= j < on_escalators.len() && on_escalators[j]);
        }
        if i < platforms.len() && platforms[i].overlapping {
            assert(exists|j: int| i <= j < platforms.len() && platforms[j].overlapping);
        }
    }
}

proof fn lemma_not_falling_never_lands(platforms: Seq<PlatformContact>, i: int, vy: Sign)
    requires
        vy != Sign::Positive,
    ensures
        platforms_from(platforms, i, vy).landed_on is None,
        platforms_from(platforms, i, vy).trigger_fall is None,
    decreases platforms.len() - i,
{
    if 0 <= i < platforms.len() {
        lemma_not_falling_never_lands(platforms, i + 1, vy);
    }
}

/// A falling actor that overlaps any block, escalator or falling platform
/// comes to rest on something: it is grounded and its fall stops. A falling
/// actor that overlaps nothing keeps falling. An actor that is not falling
/// is never grounded by the vertical pass.
pub proof fn law_falling_actor_comes_to_rest(
    blocks: Seq<BlockContact>,
    on_escalators: Seq<bool>,
    platforms: Seq<PlatformContact>,
    vy: Sign,
)
    requires
        blocks.len() <= usize::MAX,
    ensures
        vy == Sign::Positive && ((exists|j: int| 0 <= j < blocks.len() && blocks[j].overlapping) || (exists|j: int|
            0 <= j < on_escalators.len() && on_escalators[j]) || (exists|j: int|
            0 <= j < platforms.len() && platforms[j].overlapping)) ==> grounds(
            vertical_resolution(blocks, on_escalators, platforms, vy),
        ) && halts(vertical_resolution(blocks, on_escalators, platforms, vy)),
        vy == Sign::Positive && !(exists|j: int| 0 <= j < blocks.len() && blocks[j].overlapping) && !(exists|j: int|
            0 <= j < on_escalators.len() && on_escalators[j]) && !(exists|j: int|
            0 <= j < platforms.len() && platforms[j].overlapping) ==> !grounds(
            vertical_resolution(blocks, on_escalators, platforms, vy),
        ) && !halts(vertical_resolution(blocks, on_escalators, platforms, vy))
            && vertical_resolution(blocks, on_escalators, platforms, vy).platforms == no_platform_contact(),
        vy != Sign::Positive ==> !grounds(vertical_resolution(blocks, on_escalators, platforms, vy)),
{
    lemma_falling_meets_overlapped(blocks, on_escalators, platforms, 0);
    lemma_vertical_from(blocks, 0, vy);
    let contact = vertical_from(blocks, 0, vy);
    if vy_after(contact, vy) != Sign::Positive {
        lemma_not_falling_never_lands(platforms, 0, vy_after(contact, vy));
    }
}

} // verus!
