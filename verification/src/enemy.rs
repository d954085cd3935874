//! Enemy rules: who dies when the player and an enemy meet, what a ground
//! mob does each step, and how patrollers turn at the ends of their range.
use vstd::prelude::*;
use crate::actor::{ActorState, Sign};
use crate::player::PlayerRoutine;

verus! {

/// Ground mob variant. The two share all movement and differ only in
/// whether they can attack.
#[derive(Debug, Clone, Copy, PartialEq, Eq, Structural)]
pub enum MobKind {
    Yellow,
    Red,
}

/// The result of the player meeting an enemy through a sword swing or a
/// body contact.
#[derive(Debug, Clone, Copy, PartialEq, Eq, Structural)]
pub enum StompOutcome {
    /// The enemy is hit and dies once its hit animation has played; a stomp
    /// on a ground mob also bounces the player upward.
    EnemyDies { bounce_player: bool },
    /// Anything else kills the player.
    PlayerDies,
}

/// A hit from above, or a sword, kills the enemy; anything else kills the
/// player. Only a stomp on a ground mob bounces the player.
pub open spec fn stomp_outcome_of(by_attack: bool, falling_onto: bool, ground_mob: bool) -> StompOutcome {
    if by_attack || falling_onto {
        StompOutcome::EnemyDies { bounce_player: !by_attack && ground_mob }
    } else {
        StompOutcome::PlayerDies
    }
}

/// Decides a meeting: `falling_onto` when the player falls with their feet
/// below the enemy's top, `ground_mob` for a yellow or red mob rather than a
/// bat.
pub fn stomp_outcome(by_attack: bool, falling_onto: bool, ground_mob: bool) -> (r: StompOutcome)
    ensures
        r == stomp_outcome_of(by_attack, falling_onto, ground_mob),
{
    if by_attack || falling_onto {
        StompOutcome::EnemyDies { bounce_player: !by_attack && ground_mob }
    } else {
        StompOutcome::PlayerDies
    }
}

impl StompOutcome {
    /// The state the enemy shows after the meeting, its animation restarted
    /// from the first frame: the hit animation when it dies, and no change
    /// when the player dies instead.
    pub fn next_state(self) -> (r: Option<ActorState>)
        ensures
            r == match self {
                StompOutcome::EnemyDies { .. } => Some(ActorState::Hit),
                StompOutcome::PlayerDies => None,
            },
    {
        match self {
            StompOutcome::EnemyDies { .. } => Some(ActorState::Hit),
            StompOutcome::PlayerDies => None,
        }
    }
}

/// What body contact with the enemies does this frame.
#[derive(Debug, Clone, Copy, PartialEq, Eq, Structural)]
pub enum Touch {
    Nothing,
    /// A bat touched the player: the player dies.
    KillPlayer,
    /// The player ran into this yellow mob: decide the meeting as a stomp
    /// that is not a sword hit.
    Stomp(usize),
}

/// Contact damage. Only an active player who is not swinging is touched:
/// the first overlapping bat kills; otherwise the first overlapping yellow
/// mob is met. Red mobs hurt only mid-swing, which the mob's own step
/// handles.
#[verifier::loop_isolation(false)]
pub fn touch_damage(
    routine: PlayerRoutine,
    attacking: bool,
    bats_overlapping: &Vec<bool>,
    mob_kinds: &Vec<MobKind>,
    mobs_overlapping: &Vec<bool>,
) -> (r: Touch)
    requires
        mob_kinds.len() == mobs_overlapping.len(),
    ensures
        (routine != PlayerRoutine::Active || attacking) ==> r == Touch::Nothing,
        (routine == PlayerRoutine::Active && !attacking) ==> {
            if exists|b: int| 0 <= b < bats_overlapping.len() && bats_overlapping@[b] {
                r == Touch::KillPlayer
            } else {
                match r {
                    Touch::Stomp(k) => k < mob_kinds.len() && mobs_overlapping@[k as int]
                        && mob_kinds@[k as int] == MobKind::Yellow && forall|j: int|
                        0 <= j < k ==> !(mobs_overlapping@[j] && mob_kinds@[j] == MobKind::Yellow),
                    Touch::Nothing => forall|j: int|
                        0 <= j < mob_kinds.len() ==> !(mobs_overlapping@[j] && mob_kinds@[j] == MobKind::Yellow),
                    Touch::KillPlayer => false,
                }
            }
        },
{
    if routine != PlayerRoutine::Active || attacking {
        return Touch::Nothing;
    }
    let mut b: usize = 0;
    while b < bats_overlapping.len()
        invariant
            b <= bats_overlapping.len(),
            forall|j: int| 0 <= j < b ==> !bats_overlapping@[j],
        decreases bats_overlapping.len() - b,
    {
        if bats_overlapping[b] {
            return Touch::KillPlayer;
        }
        b = b + 1;
    }
    let mut m: usize = 0;
    while m < mob_kinds.len()
        invariant
            m <= mob_kinds.len(),
            mob_kinds.len() == mobs_overlapping.len(),
            forall|j: int| 0 <= j < m ==> !(mobs_overlapping@[j] && mob_kinds@[j] == MobKind::Yellow),
        decreases mob_kinds.len() - m,
    {
        if mob_kinds[m] == MobKind::Yellow && mobs_overlapping[m] {
            return Touch::Stomp(m);
        }
        m = m + 1;
    }
    Touch::Nothing
}

/// What a ground mob does this step.
#[derive(Debug, Clone, Copy, PartialEq, Eq, Structural)]
pub enum MobStep {
    /// The red mob starts a swing: it stops, shows its attack animation from
    /// the first frame and holds still until the swing ends.
    StartAttack,
    /// Runs toward the player, leftward or rightward, in the running
    /// animation.
    Chase { left: bool },
    /// Stands idle, horizontal velocity zero.
    Idle,
    /// Mid-swing with the player in reach: the swing kills the player.
    Strike,
    /// Mid-swing, nothing in reach: holds still.
    Hold,
}

impl MobStep {
    /// The state the mob shows after its step: the attack animation when a
    /// swing starts, running while it chases, idle when it stands, and no
    /// change mid-swing.
    pub fn next_state(self) -> (r: Option<ActorState>)
        ensures
            r == match self {
                MobStep::StartAttack => Some(ActorState::Attacking),
                MobStep::Chase { .. } => Some(ActorState::Running),
                MobStep::Idle => Some(ActorState::Idle),
                MobStep::Strike | MobStep::Hold => None,
            },
    {
        match self {
            MobStep::StartAttack => Some(ActorState::Attacking),
            MobStep::Chase { .. } => Some(ActorState::Running),
            MobStep::Idle => Some(ActorState::Idle),
            MobStep::Strike | MobStep::Hold => None,
        }
    }
}

/// The ground mob's decision. A swinging red mob cannot move; otherwise a
/// red mob with an active player in reach starts a swing, and any mob
/// chases a player inside its patrol range.
pub open spec fn mob_step_of(
    kind: MobKind,
    attacking: bool,
    in_range: bool,
    in_attack_range: bool,
    player_active: bool,
    player_to_left: bool,
) -> MobStep {
    let can_move = !(kind == MobKind::Red && attacking);
    if can_move {
        if kind == MobKind::Red && in_attack_range && player_active {
            MobStep::StartAttack
        } else if in_range {
            MobStep::Chase { left: player_to_left }
        } else {
            MobStep::Idle
        }
    } else if in_attack_range && player_active {
        MobStep::Strike
    } else {
        MobStep::Hold
    }
}

/// Decides a ground mob's step from what the engine measured: whether the
/// player is inside the patrol range and level with the mob (`in_range`),
/// inside the red mob's reach (`in_attack_range`), active, and to the mob's
/// left. Returns the step and whether the mob is swinging afterwards.
pub fn mob_step(
    kind: MobKind,
    attacking: bool,
    in_range: bool,
    in_attack_range: bool,
    player_active: bool,
    player_to_left: bool,
) -> (r: (MobStep, bool))
    ensures
        r.0 == mob_step_of(kind, attacking, in_range, in_attack_range, player_active, player_to_left),
        r.1 == (attacking || r.0 == MobStep::StartAttack),
{
    let can_move = !(kind == MobKind::Red && attacking);
    if can_move {
        if kind == MobKind::Red && in_attack_range && player_active {
            (MobStep::StartAttack, true)
        } else if in_range {
            (MobStep::Chase { left: player_to_left }, attacking)
        } else {
            (MobStep::Idle, attacking)
        }
    } else if in_attack_range && player_active {
        (MobStep::Strike, attacking)
    } else {
        (MobStep::Hold, attacking)
    }
}

/// A yellow mob never attacks, so it never strikes the player.
pub proof fn law_yellow_mob_never_strikes(
    attacking: bool,
    in_range: bool,
    in_attack_range: bool,
    player_active: bool,
    player_to_left: bool,
)
    ensures
        mob_step_of(MobKind::Yellow, attacking, in_range, in_attack_range, player_active, player_to_left)
            != MobStep::Strike,
        mob_step_of(MobKind::Yellow, attacking, in_range, in_attack_range, player_active, player_to_left)
            != MobStep::StartAttack,
{
}

/// The red mob's swing ends with its animation: it stops swinging and
/// shows its idle clip (and the engine moves it back along its range).
/// Returns the state it shows when the swing ends, `None` while it goes on
/// or for a mob that is not swinging.
pub fn attack_ends(kind: MobKind, attacking: bool, animation_finished: bool) -> (r: Option<ActorState>)
    ensures
        r == (if kind == MobKind::Red && attacking && animation_finished { Some(ActorState::Idle) } else { None }),
{
    if kind == MobKind::Red && attacking && animation_finished {
        Some(ActorState::Idle)
    } else {
        None
    }
}

/// The sprite turns to follow the direction the mob is moving.
pub fn should_turn(moving: Sign, facing_right: bool) -> (r: bool)
    ensures
        r == ((moving == Sign::Negative && facing_right) || (moving == Sign::Positive && !facing_right)),
{
    (moving == Sign::Negative && facing_right) || (moving == Sign::Positive && !facing_right)
}

/// A patroller's travel direction for this step: back once it reaches or
/// passes the far end of its range, forward once it reaches or passes the
/// near end, unchanged in between. Returns the direction and whether it
/// turned around.
pub fn patrol_direction(at_far_end: bool, at_near_end: bool, direction: Sign) -> (r: (Sign, bool))
    ensures
        at_far_end ==> r.0 == Sign::Negative,
        !at_far_end && at_near_end ==> r.0 == Sign::Positive,
        !at_far_end && !at_near_end ==> r.0 == direction,
        r.1 == (at_far_end || at_near_end),
{
    if at_far_end {
        (Sign::Negative, true)
    } else if at_near_end {
        (Sign::Positive, true)
    } else {
        (direction, false)
    }
}


/// A sword hit always kills the enemy, bat or ground mob, and never bounces
/// the player; a fall onto an enemy kills it and bounces the player off a
/// ground mob only; any other meeting kills the player.
pub proof fn law_sword_or_stomp_kills_the_enemy(by_attack: bool, falling_onto: bool, ground_mob: bool)
    ensures
        by_attack ==> stomp_outcome_of(by_attack, falling_onto, ground_mob) == (StompOutcome::EnemyDies {
            bounce_player: false,
        }),
        !by_attack && falling_onto ==> stomp_outcome_of(by_attack, falling_onto, ground_mob) == (
        StompOutcome::EnemyDies { bounce_player: ground_mob }),
        (stomp_outcome_of(by_attack, falling_onto, ground_mob) == StompOutcome::PlayerDies) <==> (!by_attack
            && !falling_onto),
{
}


/// A swinging red mob stands its ground: it strikes an active player in
/// reach and otherwise holds, and never moves or starts another swing. A mob
/// that is free to move runs toward a player inside its range unless a red
/// mob starts a swing at a player in reach, and idles otherwise; only a red
/// mob ever swings.
pub proof fn law_mob_steps(
    kind: MobKind,
    attacking: bool,
    in_range: bool,
    in_attack_range: bool,
    player_active: bool,
    player_to_left: bool,
)
    ensures
        ({
            let step = mob_step_of(kind, attacking, in_range, in_attack_range, player_active, player_to_left);
            &&& kind == MobKind::Red && attacking ==> (step == MobStep::Strike || step == MobStep::Hold)
            &&& kind == MobKind::Red && attacking ==> (step == MobStep::Strike <==> in_attack_range && player_active)
            &&& (step == MobStep::StartAttack || step == MobStep::Strike) ==> kind == MobKind::Red
            &&& !(kind == MobKind::Red && attacking) && !(kind == MobKind::Red && in_attack_range && player_active)
                ==> (in_range ==> step == (MobStep::Chase { left: player_to_left }))
                && (!in_range ==> step == MobStep::Idle)
            &&& !(kind == MobKind::Red && attacking) && kind == MobKind::Red && in_attack_range && player_active
                ==> step == MobStep::StartAttack
        }),
{
}

} // verus!
