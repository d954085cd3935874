//! Trigger wiring: only objects carrying the trigger's name react, and each
//! kind performs its own action.

use edgard_in_kimeria::actor::{ActorState, BlockKind, CollisionBlock};
use edgard_in_kimeria::items::{open_wall, toggle_escalator, Actionable, ActionableKind, Torch};

fn actionable(id: &str) -> Actionable {
    Actionable { target_id: id.to_string() }
}

#[test]
fn a_matching_trigger_removes_the_wall() {
    let wall = actionable("Wall1");
    let mut block = CollisionBlock { kind: BlockKind::Wall, active: true };
    let opened = open_wall(ActionableKind::Wall, &wall, &"Wall1".to_string(), &mut block);
    assert!(opened, "a matching trigger deactivates and removes the wall");
    assert!(!block.active);
}

#[test]
fn a_non_matching_trigger_leaves_the_wall_alone() {
    let wall = actionable("Wall1");
    let mut block = CollisionBlock { kind: BlockKind::Wall, active: true };
    let opened = open_wall(ActionableKind::Wall, &wall, &"SomeOtherDoor".to_string(), &mut block);
    assert!(!opened);
    assert!(block.active, "an unrelated trigger must not deactivate collision");
}

#[test]
fn a_trigger_toggles_an_escalator_between_running_and_idle() {
    let lift = actionable("Lift");
    let mut running = true;
    let mut state = ActorState::Running;

    assert!(toggle_escalator(ActionableKind::Escalator, &lift, &"Lift".to_string(), &mut running, &mut state));
    assert!(!running);
    assert_eq!(state, ActorState::Idle, "a stopped escalator shows its 'off' animation");

    assert!(toggle_escalator(ActionableKind::Escalator, &lift, &"Lift".to_string(), &mut running, &mut state));
    assert!(running);
    assert_eq!(state, ActorState::Running);
}

#[test]
fn a_trigger_toggles_a_torch_and_relights_it_at_full_intensity() {
    // The `Torch1` actionable in forest-1.tmx carries Intensity = 100.
    let mut torch = Torch::new(100, "Torch1".to_string());
    assert!(torch.is_lit());

    torch.on_trigger(&"Torch1".to_string());
    assert!(!torch.is_lit());
    assert_eq!(torch.intensity, 0);

    torch.on_trigger(&"Torch1".to_string());
    assert!(torch.is_lit());
    assert_eq!(
        torch.intensity, 200,
        "a relit torch burns at 200, regardless of the authored intensity"
    );
}

#[test]
fn a_trigger_only_reaches_its_own_torch() {
    let mut mine = Torch::new(100, "Torch1".to_string());
    let mut theirs = Torch::new(100, "Torch2".to_string());

    mine.on_trigger(&"Torch1".to_string());
    theirs.on_trigger(&"Torch1".to_string());

    assert!(!mine.is_lit());
    assert!(theirs.is_lit());
}

#[test]
fn a_wall_kind_ignores_an_escalator_trigger_and_vice_versa() {
    let both = actionable("Shared");
    let mut block = CollisionBlock { kind: BlockKind::Wall, active: true };
    assert!(!open_wall(ActionableKind::Escalator, &both, &"Shared".to_string(), &mut block));
    assert!(block.active);

    let mut running = true;
    let mut state = ActorState::Running;
    assert!(!toggle_escalator(ActionableKind::Wall, &both, &"Shared".to_string(), &mut running, &mut state));
    assert!(running);
    assert_eq!(state, ActorState::Running);
}

#[test]
fn an_opened_wall_does_not_open_twice() {
    let wall = actionable("Wall1");
    let mut block = CollisionBlock { kind: BlockKind::Wall, active: true };
    assert!(open_wall(ActionableKind::Wall, &wall, &"Wall1".to_string(), &mut block));
    assert!(!open_wall(ActionableKind::Wall, &wall, &"Wall1".to_string(), &mut block));
}

#[test]
fn a_torch_authored_unlit_starts_dark() {
    let torch = Torch::new(0, String::new());
    assert!(!torch.is_lit());
    assert_eq!(torch.intensity, 0);
}
