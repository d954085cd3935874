//! The player's routines, lives, motion state, attack, jump and intent.

use edgard_in_kimeria::actor::{ActorState, Sign};
use edgard_in_kimeria::collision::ContactFlags;
use edgard_in_kimeria::player::{
    advance_routine, attack_step, choose_jump, read_input, trigger_to_fire, update_state,
    AttackStep, Controls, Jump, PlayerInput, PlayerRoutine, PlayerStatus, RoutineAction,
    NUMBER_OF_TRIES,
};

fn die(routine: &mut PlayerRoutine, status: &mut PlayerStatus) -> RoutineAction {
    assert_eq!(routine.kill(false), Some(ActorState::Hit));
    assert_eq!(advance_routine(routine, status, true, false), RoutineAction::Respawn);
    advance_routine(routine, status, true, false)
}

#[test]
fn a_run_survives_three_deaths_and_ends_on_the_fourth() {
    let mut routine = PlayerRoutine::default();
    let mut status = PlayerStatus::default();
    assert_eq!(status.lives, NUMBER_OF_TRIES);
    assert_eq!(die(&mut routine, &mut status), RoutineAction::Revive);
    assert_eq!(status.lives, 2);
    assert_eq!(die(&mut routine, &mut status), RoutineAction::Revive);
    assert_eq!(die(&mut routine, &mut status), RoutineAction::Revive);
    assert_eq!(status.lives, 0);
    assert_eq!(die(&mut routine, &mut status), RoutineAction::GameOver);
    assert_eq!(status.lives, 3);
    assert_eq!(routine, PlayerRoutine::Active);
}

#[test]
fn the_death_routine_waits_for_each_animation() {
    let mut routine = PlayerRoutine::Active;
    let mut status = PlayerStatus::default();
    routine.kill(false);
    assert_eq!(advance_routine(&mut routine, &mut status, false, false), RoutineAction::Wait);
    assert_eq!(routine, PlayerRoutine::Dying);
    assert_eq!(advance_routine(&mut routine, &mut status, true, false), RoutineAction::Respawn);
    assert_eq!(RoutineAction::Respawn.next_state(), Some(ActorState::Appearing));
    assert_eq!(advance_routine(&mut routine, &mut status, false, true), RoutineAction::Wait);
    assert_eq!(routine, PlayerRoutine::Reappearing);
}

#[test]
fn a_dying_or_invulnerable_player_ignores_hits() {
    let mut routine = PlayerRoutine::Active;
    assert_eq!(routine.kill(true), None);
    assert_eq!(routine, PlayerRoutine::Active);
    assert_eq!(routine.kill(false), Some(ActorState::Hit));
    assert_eq!(routine.kill(false), None);
    assert_eq!(routine, PlayerRoutine::Dying);
    assert_eq!(routine.reach_checkpoint(), None);
}

#[test]
fn a_checkpoint_leads_to_the_next_level_after_the_countdown() {
    let mut routine = PlayerRoutine::Active;
    let mut status = PlayerStatus::default();
    assert_eq!(routine.reach_checkpoint(), Some(ActorState::Disappearing));
    assert!(routine.blocks_control());
    assert_eq!(advance_routine(&mut routine, &mut status, true, false), RoutineAction::Wait);
    assert_eq!(advance_routine(&mut routine, &mut status, false, true), RoutineAction::AdvanceLevel);
    assert_eq!(routine, PlayerRoutine::Active);
    assert_eq!(status.lives, NUMBER_OF_TRIES);
}

#[test]
fn motion_picks_the_animation_by_priority() {
    assert_eq!(update_state(Sign::Zero, Sign::Zero, false, false, true), (ActorState::Idle, true));
    assert_eq!(update_state(Sign::Negative, Sign::Zero, false, false, true), (ActorState::Running, false));
    assert_eq!(update_state(Sign::Positive, Sign::Positive, false, false, false), (ActorState::Falling, true));
    assert_eq!(update_state(Sign::Zero, Sign::Negative, false, false, false), (ActorState::Jumping, false));
    assert_eq!(update_state(Sign::Zero, Sign::Negative, true, false, false), (ActorState::Climbing, false));
    assert_eq!(update_state(Sign::Zero, Sign::Negative, true, true, false), (ActorState::Attacking, false));
}

#[test]
fn steering_freezes_during_an_attack() {
    let controls = Controls {
        left_held: false,
        right_held: true,
        jump_held: true,
        attack_just_pressed: false,
        interact_just_pressed: true,
    };
    let free = read_input(controls, false);
    assert_eq!(free.horizontal, Sign::Positive);
    assert!(free.jump_held);
    let swinging = read_input(controls, true);
    assert_eq!(swinging.horizontal, Sign::Zero);
    assert!(!swinging.jump_held);
    assert!(swinging.interact_pressed);

    let both = Controls { left_held: true, ..controls };
    assert_eq!(read_input(both, false).horizontal, Sign::Zero);
}

#[test]
fn interacting_fires_the_trigger_the_player_stands_in() {
    let input = PlayerInput { interact_pressed: true, ..PlayerInput::default() };
    let mut status = PlayerStatus::default();
    assert_eq!(trigger_to_fire(&input, PlayerRoutine::Active, &status), None);
    status.trigger_id = "Lift".to_string();
    assert_eq!(trigger_to_fire(&input, PlayerRoutine::Active, &status), Some("Lift".to_string()));
    assert_eq!(trigger_to_fire(&input, PlayerRoutine::Dying, &status), None);
    assert_eq!(trigger_to_fire(&PlayerInput::default(), PlayerRoutine::Active, &status), None);
}

#[test]
fn a_swing_starts_on_the_ground_and_ends_with_its_animation() {
    let mut status = PlayerStatus::default();
    let press = PlayerInput { attack_pressed: true, ..PlayerInput::default() };
    assert_eq!(attack_step(&mut status, PlayerRoutine::Active, &press, false, false, false), AttackStep::Idle);
    assert_eq!(attack_step(&mut status, PlayerRoutine::Active, &press, true, false, false), AttackStep::Start);
    assert!(status.attacking);
    let idle = PlayerInput::default();
    assert_eq!(attack_step(&mut status, PlayerRoutine::Active, &idle, true, false, false), AttackStep::Swing);
    assert_eq!(attack_step(&mut status, PlayerRoutine::Active, &idle, true, false, true), AttackStep::End);
    assert!(!status.attacking);
    assert_eq!(attack_step(&mut status, PlayerRoutine::Dying, &press, true, false, false), AttackStep::Idle);
}

#[test]
fn a_wall_jump_pushes_away_from_the_wall() {
    let jump = PlayerInput { jump_held: true, ..PlayerInput::default() };
    assert_eq!(choose_jump(&jump, false, true, false, true), Jump::WallJump { push_left: true });
    let into_left = PlayerInput { horizontal: Sign::Negative, ..jump };
    assert_eq!(choose_jump(&into_left, false, true, false, true), Jump::WallJump { push_left: false });
    assert_eq!(choose_jump(&jump, true, false, true, true), Jump::Leap { in_quicksand: true });
    assert_eq!(choose_jump(&jump, false, false, false, true), Jump::Stay);
    assert_eq!(choose_jump(&PlayerInput::default(), true, false, false, true), Jump::Stay);
}

#[test]
fn a_jump_leaves_the_ground_and_a_wall_jump_ends_the_clamber() {
    let on_wall = ContactFlags {
        grounded: false,
        in_quicksand: false,
        clambering: true,
        wall_jumping: false,
        escalator: Some(2),
    };
    let after = Jump::WallJump { push_left: true }.flags_after(on_wall);
    assert_eq!(
        after,
        ContactFlags { grounded: false, in_quicksand: false, clambering: false, wall_jumping: true, escalator: Some(2) }
    );
    let standing = ContactFlags { grounded: true, clambering: false, ..on_wall };
    assert_eq!(Jump::Leap { in_quicksand: false }.flags_after(standing), ContactFlags { grounded: false, ..standing });
    assert_eq!(Jump::Stay.flags_after(standing), standing);
    assert_eq!(AttackStep::Start.next_state(), Some(ActorState::Attacking));
    assert_eq!(AttackStep::Swing.next_state(), None);
}
