//! The player's rules: lives, the multi-step routines (dying, reappearing,
//! leaving a level), the animation state chosen from motion, the attack, the
//! jump and the intent read from the controls.
use vstd::prelude::*;
use crate::actor::{ActorState, Sign};
use crate::collision::ContactFlags;

verus! {

/// Lives a run starts with. The counter is decremented only while above
/// zero, so a run ends on the fourth death, not the third.
pub const NUMBER_OF_TRIES: i32 = 3;

/// Player state that is neither physics nor animation.
#[derive(Debug, PartialEq, Eq)]
pub struct PlayerStatus {
    pub lives: i32,
    pub attacking: bool,
    /// Id of the trigger currently overlapped, or empty.
    pub trigger_id: String,
}

impl Default for PlayerStatus {
    fn default() -> (r: Self)
        ensures
            r.lives == NUMBER_OF_TRIES,
            !r.attacking,
            r.trigger_id@ == Seq::<char>::empty(),
    {
        PlayerStatus { lives: NUMBER_OF_TRIES, attacking: false, trigger_id: String::new() }
    }
}

/// A sequence of steps spread over several frames.
///
/// While a routine other than `Active` runs, the player takes no input and
/// no damage, and physics leaves the player alone.
#[derive(Debug, Clone, Copy, PartialEq, Eq, Structural)]
pub enum PlayerRoutine {
    Active,
    /// Playing the hit animation before being moved back to the start.
    Dying,
    /// Playing the appear animation at the start position.
    Reappearing,
    /// Reached a checkpoint; counts down before the next level loads.
    LeavingLevel,
}

impl Default for PlayerRoutine {
    fn default() -> (r: Self)
        ensures
            r == PlayerRoutine::Active,
    {
        PlayerRoutine::Active
    }
}

/// What the engine must do when a routine advances.
#[derive(Debug, Clone, Copy, PartialEq, Eq, Structural)]
pub enum RoutineAction {
    /// Nothing changes this frame.
    Wait,
    /// The hit animation ended: restart the animation, face right, stop, move
    /// back to the start position and show the appear animation.
    Respawn,
    /// The appear animation ended with lives to spare: restart the animation
    /// and stand idle; one life was used.
    Revive,
    /// The appear animation ended with no lives left: restart the animation,
    /// stand idle and end the run; the lives are refilled for the next run.
    GameOver,
    /// The checkpoint countdown ran out: stand idle and load the next level.
    AdvanceLevel,
}

/// The routine, lives and action after one frame of the routine.
pub open spec fn advanced(
    routine: PlayerRoutine,
    lives: i32,
    animation_finished: bool,
    countdown_over: bool,
) -> (PlayerRoutine, i32, RoutineAction) {
    match routine {
        PlayerRoutine::Active => (routine, lives, RoutineAction::Wait),
        PlayerRoutine::Dying => if animation_finished {
            (PlayerRoutine::Reappearing, lives, RoutineAction::Respawn)
        } else {
            (routine, lives, RoutineAction::Wait)
        },
        PlayerRoutine::Reappearing => if !animation_finished {
            (routine, lives, RoutineAction::Wait)
        } else if lives > 0 {
            (PlayerRoutine::Active, (lives - 1) as i32, RoutineAction::Revive)
        } else {
            (PlayerRoutine::Active, NUMBER_OF_TRIES, RoutineAction::GameOver)
        },
        PlayerRoutine::LeavingLevel => if countdown_over {
            (PlayerRoutine::Active, lives, RoutineAction::AdvanceLevel)
        } else {
            (routine, lives, RoutineAction::Wait)
        },
    }
}

/// The routine after something kills the player.
pub open spec fn killed(routine: PlayerRoutine, invulnerable: bool) -> PlayerRoutine {
    if !invulnerable && routine == PlayerRoutine::Active {
        PlayerRoutine::Dying
    } else {
        routine
    }
}

/// The routine after the player touches a checkpoint.
pub open spec fn checkpoint_reached(routine: PlayerRoutine) -> PlayerRoutine {
    if routine == PlayerRoutine::Active {
        PlayerRoutine::LeavingLevel
    } else {
        routine
    }
}

impl PlayerRoutine {
    /// True while a routine keeps the player from acting.
    pub fn blocks_control(&self) -> (r: bool)
        ensures
            r == (*self != PlayerRoutine::Active),
    {
        match self {
            PlayerRoutine::Active => false,
            _ => true,
        }
    }

    /// Something killed the player. A player already in a routine, or an
    /// invulnerable one, is unaffected; otherwise the death routine starts
    /// and the player shows the hit animation, restarted from its first
    /// frame. Returns the state shown when the routine started, `None` when
    /// nothing changed.
    pub fn kill(&mut self, invulnerable: bool) -> (shown: Option<ActorState>)
        ensures
            *final(self) == killed(*old(self), invulnerable),
            shown == (if *final(self) != *old(self) { Some(ActorState::Hit) } else { None }),
    {
        if !invulnerable && *self == PlayerRoutine::Active {
            *self = PlayerRoutine::Dying;
            Some(ActorState::Hit)
        } else {
            None
        }
    }

    /// The player touched a checkpoint. An active player starts leaving the
    /// level and shows the disappear animation, restarted from its first
    /// frame, while the level countdown runs. Returns the state shown when
    /// the routine started, `None` when nothing changed.
    pub fn reach_checkpoint(&mut self) -> (shown: Option<ActorState>)
        ensures
            *final(self) == checkpoint_reached(*old(self)),
            shown == (if *final(self) != *old(self) { Some(ActorState::Disappearing) } else { None }),
    {
        if *self == PlayerRoutine::Active {
            *self = PlayerRoutine::LeavingLevel;
            Some(ActorState::Disappearing)
        } else {
            None
        }
    }
}

/// Advances the routine by one frame, given whether the current animation
/// has finished and whether the checkpoint countdown has run out.
pub fn advance_routine(
    routine: &mut PlayerRoutine,
    status: &mut PlayerStatus,
    animation_finished: bool,
    countdown_over: bool,
) -> (action: RoutineAction)
    ensures
        (*final(routine), final(status).lives, action) == advanced(
            *old(routine),
            old(status).lives,
            animation_finished,
            countdown_over,
        ),
        final(status).attacking == old(status).attacking,
        final(status).trigger_id == old(status).trigger_id,
{
    match *routine {
        PlayerRoutine::Active => RoutineAction::Wait,
        PlayerRoutine::Dying => {
            if animation_finished {
                *routine = PlayerRoutine::Reappearing;
                RoutineAction::Respawn
            } else {
                RoutineAction::Wait
            }
        },
        PlayerRoutine::Reappearing => {
            if !animation_finished {
                RoutineAction::Wait
            } else if status.lives > 0 {
                *routine = PlayerRoutine::Active;
                status.lives = status.lives - 1;
                RoutineAction::Revive
            } else {
                *routine = PlayerRoutine::Active;
                status.lives = NUMBER_OF_TRIES;
                RoutineAction::GameOver
            }
        },
        PlayerRoutine::LeavingLevel => {
            if countdown_over {
                *routine = PlayerRoutine::Active;
                RoutineAction::AdvanceLevel
            } else {
                RoutineAction::Wait
            }
        },
    }
}

impl RoutineAction {
    /// The animation state the player shows after the action, if it changes.
    pub fn next_state(self) -> (r: Option<ActorState>)
        ensures
            r == match self {
                RoutineAction::Wait => None,
                RoutineAction::Respawn => Some(ActorState::Appearing),
                _ => Some(ActorState::Idle),
            },
    {
        match self {
            RoutineAction::Wait => None,
            RoutineAction::Respawn => Some(ActorState::Appearing),
            _ => Some(ActorState::Idle),
        }
    }
}

/// A life count a run can hold.
pub open spec fn lives_valid(lives: i32) -> bool {
    0 <= lives <= NUMBER_OF_TRIES
}

/// One whole death of an active, vulnerable player: the hit, the hit
/// animation running out, then the appear animation running out.
pub open spec fn death_cycle(lives: i32) -> (PlayerRoutine, i32, RoutineAction) {
    let dying = killed(PlayerRoutine::Active, false);
    let (reappearing, l1, _a1) = advanced(dying, lives, true, false);
    advanced(reappearing, l1, true, false)
}

/// Advancing a routine keeps the life count within what a run can hold.
pub proof fn law_routine_keeps_lives_valid(
    routine: PlayerRoutine,
    lives: i32,
    animation_finished: bool,
    countdown_over: bool,
)
    requires
        lives_valid(lives),
    ensures
        lives_valid(advanced(routine, lives, animation_finished, countdown_over).1),
{
}

/// A death costs one life while lives remain and leaves the player active;
/// a death with no lives left ends the run and refills the lives.
pub proof fn law_death_costs_a_life(lives: i32)
    requires
        lives_valid(lives),
    ensures
        death_cycle(lives).0 == PlayerRoutine::Active,
        lives > 0 ==> death_cycle(lives).1 == lives - 1 && death_cycle(lives).2 == RoutineAction::Revive,
        lives == 0 ==> death_cycle(lives).1 == NUMBER_OF_TRIES && death_cycle(lives).2
            == RoutineAction::GameOver,
{
}

/// A fresh run survives three deaths and ends on the fourth.
pub proof fn law_run_ends_on_fourth_death()
    ensures
        death_cycle(NUMBER_OF_TRIES).2 == RoutineAction::Revive,
        death_cycle(death_cycle(NUMBER_OF_TRIES).1).2 == RoutineAction::Revive,
        death_cycle(death_cycle(death_cycle(NUMBER_OF_TRIES).1).1).2 == RoutineAction::Revive,
        death_cycle(death_cycle(death_cycle(death_cycle(NUMBER_OF_TRIES).1).1).1).2
            == RoutineAction::GameOver,
        death_cycle(death_cycle(death_cycle(death_cycle(NUMBER_OF_TRIES).1).1).1).1
            == NUMBER_OF_TRIES,
{
}

/// Once a routine runs, further hits and checkpoints change nothing: a
/// player cannot die twice at once, nor leave a level while dying.
pub proof fn law_routine_ignores_hits(routine: PlayerRoutine, invulnerable: bool)
    requires
        routine != PlayerRoutine::Active,
    ensures
        killed(routine, invulnerable) == routine,
        checkpoint_reached(routine) == routine,
{
}

/// An invulnerable player never starts dying.
pub proof fn law_invulnerable_never_dies(routine: PlayerRoutine)
    ensures
        killed(routine, true) == routine,
{
}

/// Which controls are down this frame.
#[derive(Debug, Clone, Copy, PartialEq, Eq, Structural)]
pub struct Controls {
    pub left_held: bool,
    pub right_held: bool,
    pub jump_held: bool,
    pub attack_just_pressed: bool,
    pub interact_just_pressed: bool,
}

/// Per-frame intent, read from the controls and consumed by the fixed step.
#[derive(Debug, Clone, Copy, PartialEq, Eq, Structural)]
pub struct PlayerInput {
    /// Steering direction.
    pub horizontal: Sign,
    pub jump_held: bool,
    /// True on the frame the attack key went down.
    pub attack_pressed: bool,
    pub interact_pressed: bool,
}

impl Default for PlayerInput {
    fn default() -> (r: Self)
        ensures
            r.horizontal == Sign::Zero,
            !r.jump_held,
            !r.attack_pressed,
            !r.interact_pressed,
    {
        PlayerInput { horizontal: Sign::Zero, jump_held: false, attack_pressed: false, interact_pressed: false }
    }
}

/// Steering from the two direction keys: both or neither cancel out.
pub open spec fn steering(left: bool, right: bool) -> Sign {
    if right && !left {
        Sign::Positive
    } else if left && !right {
        Sign::Negative
    } else {
        Sign::Zero
    }
}

/// Reads this frame's intent. Steering and jumping are frozen during an
/// attack, while the attack and interact presses are still seen.
pub fn read_input(controls: Controls, attacking: bool) -> (r: PlayerInput)
    ensures
        r.horizontal == (if attacking { Sign::Zero } else { steering(controls.left_held, controls.right_held) }),
        r.jump_held == (controls.jump_held && !attacking),
        r.attack_pressed == controls.attack_just_pressed,
        r.interact_pressed == controls.interact_just_pressed,
{
    let horizontal = if attacking {
        Sign::Zero
    } else if controls.right_held && !controls.left_held {
        Sign::Positive
    } else if controls.left_held && !controls.right_held {
        Sign::Negative
    } else {
        Sign::Zero
    };
    PlayerInput {
        horizontal,
        jump_held: controls.jump_held && !attacking,
        attack_pressed: controls.attack_just_pressed,
        interact_pressed: controls.interact_just_pressed,
    }
}

/// The trigger the interact key fires this frame: the one the player stands
/// in, when the key was just pressed and no routine blocks control.
pub fn trigger_to_fire(input: &PlayerInput, routine: PlayerRoutine, status: &PlayerStatus) -> (r: Option<String>)
    ensures
        r is Some <==> (input.interact_pressed && routine == PlayerRoutine::Active
            && status.trigger_id@.len() > 0),
        r matches Some(id) ==> id@ == status.trigger_id@,
{
    if input.interact_pressed && !routine.blocks_control() && !status.trigger_id.as_str().is_empty() {
        Some(status.trigger_id.clone())
    } else {
        None
    }
}

/// The animation state chosen from motion, in rising priority: idle,
/// running, falling or jumping, climbing, attacking.
pub open spec fn motion_state(horizontal: Sign, vy: Sign, clambering: bool, attacking: bool) -> ActorState {
    if attacking {
        ActorState::Attacking
    } else if clambering {
        ActorState::Climbing
    } else if vy == Sign::Negative {
        ActorState::Jumping
    } else if vy == Sign::Positive {
        ActorState::Falling
    } else if horizontal != Sign::Zero {
        ActorState::Running
    } else {
        ActorState::Idle
    }
}

/// Facing follows steering only, so riding an escalator never turns the
/// sprite.
pub open spec fn facing_after(horizontal: Sign, facing_right: bool) -> bool {
    match horizontal {
        Sign::Negative => false,
        Sign::Positive => true,
        Sign::Zero => facing_right,
    }
}

/// The player's animation state and facing for this step, from the
/// steering, the sign of the vertical velocity and the contact flags.
pub fn update_state(
    horizontal: Sign,
    vy: Sign,
    clambering: bool,
    attacking: bool,
    facing_right: bool,
) -> (r: (ActorState, bool))
    ensures
        r.0 == motion_state(horizontal, vy, clambering, attacking),
        r.1 == facing_after(horizontal, facing_right),
{
    let facing = match horizontal {
        Sign::Negative => false,
        Sign::Positive => true,
        Sign::Zero => facing_right,
    };
    let mut next = ActorState::Idle;
    if horizontal != Sign::Zero {
        next = ActorState::Running;
    }
    if vy == Sign::Positive {
        next = ActorState::Falling;
    }
    if vy == Sign::Negative {
        next = ActorState::Jumping;
    }
    if clambering {
        next = ActorState::Climbing;
    }
    if attacking {
        next = ActorState::Attacking;
    }
    (next, facing)
}

/// What the attack does this frame.
#[derive(Debug, Clone, Copy, PartialEq, Eq, Structural)]
pub enum AttackStep {
    /// No attack under way.
    Idle,
    /// A swing starts: show the attack animation from its first frame.
    Start,
    /// The swing's animation ended.
    End,
    /// Mid-swing: the attack box hits the first enemy it overlaps.
    Swing,
}

impl AttackStep {
    /// The state the player shows after this step: the attack animation,
    /// from its first frame, when a swing starts; otherwise no change.
    pub fn next_state(self) -> (r: Option<ActorState>)
        ensures
            r == (if self == AttackStep::Start { Some(ActorState::Attacking) } else { None }),
    {
        match self {
            AttackStep::Start => Some(ActorState::Attacking),
            _ => None,
        }
    }
}

/// A swing can start only from standing: on the ground, not jumping, not
/// clambering, and not already swinging.
pub open spec fn can_start_attack(
    input: PlayerInput,
    attacking: bool,
    grounded: bool,
    clambering: bool,
) -> bool {
    input.attack_pressed && !attacking && grounded && !input.jump_held && !clambering
}

/// Advances the attack by one frame; the swing lasts as long as its
/// animation.
pub fn attack_step(
    status: &mut PlayerStatus,
    routine: PlayerRoutine,
    input: &PlayerInput,
    grounded: bool,
    clambering: bool,
    animation_finished: bool,
) -> (r: AttackStep)
    ensures
        final(status).lives == old(status).lives,
        final(status).trigger_id == old(status).trigger_id,
        routine != PlayerRoutine::Active ==> r == AttackStep::Idle && *final(status) == *old(status),
        routine == PlayerRoutine::Active ==> {
            if can_start_attack(*input, old(status).attacking, grounded, clambering) {
                r == AttackStep::Start && final(status).attacking
            } else if !old(status).attacking {
                r == AttackStep::Idle && !final(status).attacking
            } else if animation_finished {
                r == AttackStep::End && !final(status).attacking
            } else {
                r == AttackStep::Swing && final(status).attacking
            }
        },
{
    if routine.blocks_control() {
        return AttackStep::Idle;
    }
    if input.attack_pressed && !status.attacking && grounded && !input.jump_held && !clambering {
        status.attacking = true;
        return AttackStep::Start;
    }
    if !status.attacking {
        return AttackStep::Idle;
    }
    if animation_finished {
        status.attacking = false;
        return AttackStep::End;
    }
    AttackStep::Swing
}

/// The jump taken this step, if any.
#[derive(Debug, Clone, Copy, PartialEq, Eq, Structural)]
pub enum Jump {
    Stay,
    /// Off a wall: a weaker upward kick and a push away from it, with
    /// steering locked out briefly.
    WallJump { push_left: bool },
    /// From the ground; much weaker out of quicksand.
    Leap { in_quicksand: bool },
}

/// The contact flags after a jump: any jump leaves the ground; a wall jump
/// also ends the clamber and starts the wall-jump lockout. Staying changes
/// nothing.
pub open spec fn flags_after_jump(flags: ContactFlags, jump: Jump) -> ContactFlags {
    match jump {
        Jump::Stay => flags,
        Jump::WallJump { .. } => ContactFlags { grounded: false, clambering: false, wall_jumping: true, ..flags },
        Jump::Leap { .. } => ContactFlags { grounded: false, ..flags },
    }
}

impl Jump {
    /// The contact flags after this jump.
    pub fn flags_after(self, flags: ContactFlags) -> (f: ContactFlags)
        ensures
            f == flags_after_jump(flags, self),
    {
        match self {
            Jump::Stay => flags,
            Jump::WallJump { .. } => ContactFlags { grounded: false, clambering: false, wall_jumping: true, ..flags },
            Jump::Leap { .. } => ContactFlags { grounded: false, ..flags },
        }
    }
}

/// A wall jump pushes away from the held direction, or away from the wall
/// the player faces when no direction is held: holding into a wall on the
/// right and merely facing it both push left.
pub open spec fn wall_push_left(horizontal: Sign, facing_right: bool) -> bool {
    if horizontal != Sign::Zero {
        horizontal == Sign::Positive
    } else {
        facing_right
    }
}

/// Chooses the jump: the jump key takes effect on the ground or against a
/// wall. A wall jump pushes away from the held direction, or away from the
/// wall the player faces when no direction is held.
pub fn choose_jump(
    input: &PlayerInput,
    grounded: bool,
    clambering: bool,
    in_quicksand: bool,
    facing_right: bool,
) -> (r: Jump)
    ensures
        !(input.jump_held && (grounded || clambering)) ==> r == Jump::Stay,
        input.jump_held && clambering ==> r == (Jump::WallJump {
            push_left: wall_push_left(input.horizontal, facing_right),
        }),
        input.jump_held && grounded && !clambering ==> r == (Jump::Leap { in_quicksand }),
{
    if !(input.jump_held && (grounded || clambering)) {
        Jump::Stay
    } else if clambering {
        let push_left = match input.horizontal {
            Sign::Zero => facing_right,
            Sign::Positive => true,
            Sign::Negative => false,
        };
        Jump::WallJump { push_left }
    } else {
        Jump::Leap { in_quicksand }
    }
}


/// The animation state follows a fixed priority: a swing shows the attack;
/// otherwise clambering shows the climb; otherwise a rise shows the jump and
/// a fall the fall, whatever the steering; only an actor with no vertical
/// motion runs when steered and idles when not.
pub proof fn law_motion_state_priority(horizontal: Sign, vy: Sign, clambering: bool, attacking: bool)
    ensures
        attacking ==> motion_state(horizontal, vy, clambering, attacking) == ActorState::Attacking,
        !attacking && clambering ==> motion_state(horizontal, vy, clambering, attacking) == ActorState::Climbing,
        !attacking && !clambering && vy == Sign::Negative ==> motion_state(horizontal, vy, clambering, attacking)
            == ActorState::Jumping,
        !attacking && !clambering && vy == Sign::Positive ==> motion_state(horizontal, vy, clambering, attacking)
            == ActorState::Falling,
        !attacking && !clambering && vy == Sign::Zero ==> (motion_state(horizontal, vy, clambering, attacking)
            == ActorState::Running <==> horizontal != Sign::Zero),
        !attacking && !clambering && vy == Sign::Zero ==> (motion_state(horizontal, vy, clambering, attacking)
            == ActorState::Idle <==> horizontal == Sign::Zero),
{
}

/// Steering changes the animation state only for an actor that neither
/// swings, clambers nor moves vertically.
pub proof fn law_steering_matters_only_on_level_ground(
    horizontal: Sign,
    other: Sign,
    vy: Sign,
    clambering: bool,
    attacking: bool,
)
    requires
        attacking || clambering || vy != Sign::Zero,
    ensures
        motion_state(horizontal, vy, clambering, attacking) == motion_state(other, vy, clambering, attacking),
{
}

/// Facing follows the steering: steering left faces left, steering right
/// faces right, and no steering keeps the facing.
pub proof fn law_facing_follows_steering(horizontal: Sign, facing_right: bool)
    ensures
        horizontal == Sign::Negative ==> !facing_after(horizontal, facing_right),
        horizontal == Sign::Positive ==> facing_after(horizontal, facing_right),
        horizontal == Sign::Zero ==> facing_after(horizontal, facing_right) == facing_right,
{
}

} // verus!
