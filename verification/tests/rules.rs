//! Localisation, levels, menus, animation, assets, enemies and objects.

use edgard_in_kimeria::actor::{BlockKind, Sign};
use edgard_in_kimeria::animation::{AnimationPlayer, ClipSpec, Px2, PxRect};
use edgard_in_kimeria::actor::ActorState;
use edgard_in_kimeria::capture::Capture;
use edgard_in_kimeria::clips::{clip_frames, clip_layout, sheet, Animated};
use edgard_in_kimeria::assets::{load_verdict, sound_name, LoadProgress, LoadVerdict};
use edgard_in_kimeria::enemy::{
    attack_ends, mob_step, patrol_direction, should_turn, stomp_outcome, touch_damage, MobKind, MobStep,
    StompOutcome, Touch,
};
use edgard_in_kimeria::items::{overlapped_trigger, CollectableKind};
use edgard_in_kimeria::level::{
    actionable_type, ambience, block_kind, layer_role, spawn_kind, ActionableType, Ambience,
    CurrentLevel, LayerRole, SpawnKind,
};
use edgard_in_kimeria::localization::{Language, Msg};
use edgard_in_kimeria::menu::{
    default_focus, language_button_label, nav_intent, navigate, press, MenuAction,
};
use edgard_in_kimeria::objects::{escalator_carry, FallingPlatform, FallStage};
use edgard_in_kimeria::player::PlayerRoutine;
use edgard_in_kimeria::state::{AppState, GameProgress, GameSettings};

#[test]
fn messages_come_in_both_languages() {
    assert_eq!(Msg::Play.t(Language::English), "Play");
    assert_eq!(Msg::Play.t(Language::Ukrainian), "Грати");
    assert_eq!(Msg::ExitToMenu.t(Language::English), "Exit to Menu");
    assert!(Msg::AboutBody.t(Language::English).starts_with("Edgard in Kimeria\n\n"));
    assert_eq!(Language::default().native_name(), "English");
    assert_eq!(Language::Ukrainian.native_name(), "Українська");
}

#[test]
fn the_level_rotation_wraps() {
    let mut level = CurrentLevel::default();
    assert_eq!(level.name(), "forest-1");
    assert_eq!(level.next_index(), 1);
    assert_eq!(level.load(3), 1);
    assert_eq!(level.name(), "forest");
    assert_eq!(level.next_index(), 0);
}

#[test]
fn map_objects_are_classified_by_class() {
    assert_eq!(spawn_kind("Player"), SpawnKind::Player);
    assert_eq!(spawn_kind("FallingPlatform"), SpawnKind::FallingPlatform);
    assert_eq!(spawn_kind("Dragon"), SpawnKind::Unknown);
    assert_eq!(spawn_kind(""), SpawnKind::Unknown);
    assert_eq!(block_kind("QuickSand"), BlockKind::QuickSand);
    assert_eq!(block_kind("Ground"), BlockKind::Solid);
    assert_eq!(actionable_type(Some("Wall")), ActionableType::Wall);
    assert_eq!(actionable_type(Some("Door")), ActionableType::Unhandled);
    assert_eq!(actionable_type(None), ActionableType::Unhandled);
    assert_eq!(CollectableKind::from_name("Heart"), CollectableKind::Heart);
    assert_eq!(CollectableKind::from_name("Star"), CollectableKind::Coin);
    assert_eq!(ambience("forest"), Ambience::Fireflies(24));
    assert_eq!(ambience("forest-1"), Ambience::Rain(48));
    assert_eq!(ambience("cave"), Ambience::Still);
}

#[test]
fn coins_count_and_reset() {
    let mut progress = GameProgress::default();
    CollectableKind::Coin.collect(&mut progress);
    CollectableKind::Heart.collect(&mut progress);
    assert_eq!(progress.coins_collected, 1);
    let mut settings = GameSettings::default();
    let outcome = press(MenuAction::PlayAgain, &mut settings, &mut progress);
    assert_eq!(progress.coins_collected, 0);
    assert_eq!(outcome.load_level, Some(0));
    assert_eq!(outcome.next_state, Some(AppState::Playing));
}

#[test]
fn choosing_a_language_returns_to_the_main_menu() {
    let mut settings = GameSettings::default();
    let mut progress = GameProgress::default();
    let outcome = press(MenuAction::SetLanguage(Language::Ukrainian), &mut settings, &mut progress);
    assert_eq!(settings.language, Language::Ukrainian);
    assert_eq!(outcome.next_state, Some(AppState::MainMenu));
    let out = press(MenuAction::ExitToMenu, &mut settings, &mut progress);
    assert!(out.unload_level);
    assert!(press(MenuAction::Exit, &mut settings, &mut progress).exit);
}

#[test]
fn the_selected_language_is_marked() {
    assert_eq!(language_button_label(Language::English, Language::English), "> English");
    assert_eq!(language_button_label(Language::Ukrainian, Language::English), "Українська");
}

#[test]
fn focus_moves_in_index_order_and_wraps() {
    // Listed out of order: the menu index decides.
    let order = vec![2, 0, 1];
    let focused = vec![false, true, false];
    assert_eq!(navigate(&order, &focused, true), Some((1, 2)));
    assert_eq!(navigate(&order, &focused, false), Some((1, 0)));
    let at_end = vec![true, false, false];
    assert_eq!(navigate(&order, &at_end, true), Some((0, 1)));
    // Nothing focused: the first button counts as focused.
    assert_eq!(navigate(&order, &vec![false; 3], true), Some((1, 2)));
    assert_eq!(navigate(&vec![], &vec![], true), None);
    assert_eq!(navigate(&vec![5], &vec![true], true), Some((0, 0)));
    assert_eq!(default_focus(&order, &vec![false; 3]), Some(1));
    assert_eq!(default_focus(&order, &focused), None);
}

#[test]
fn frame_rects_wrap_rows_and_clamp_to_the_sheet() {
    let spec = ClipSpec::new(Px2 { x: 48, y: 48 }, Px2 { x: 0, y: 48 }, 7).per_row(4).once();
    assert!(!spec.looping);
    let rects = spec.frame_rects(Px2 { x: 240, y: 480 });
    assert_eq!(rects.len(), 7);
    assert_eq!(rects[3], PxRect { min: Px2 { x: 144, y: 48 }, max: Px2 { x: 192, y: 96 } });
    assert_eq!(rects[4], PxRect { min: Px2 { x: 0, y: 96 }, max: Px2 { x: 48, y: 144 } });
    // A 32x16 strip frame on a sheet only 8 px tall.
    let strip = ClipSpec::new(Px2 { x: 32, y: 16 }, Px2 { x: 0, y: 0 }, 8);
    let rects = strip.frame_rects(Px2 { x: 256, y: 8 });
    assert_eq!(rects[1], PxRect { min: Px2 { x: 32, y: 0 }, max: Px2 { x: 64, y: 8 } });
    assert_eq!(ClipSpec::new(Px2 { x: 1, y: 1 }, Px2 { x: 0, y: 0 }, 0).per_row, 1);
}

#[test]
fn a_once_clip_holds_its_last_frame() {
    let mut player = AnimationPlayer::default();
    assert!(player.sync(ActorState::Hit));
    assert!(!player.sync(ActorState::Hit));
    assert!(player.step(2, false));
    assert_eq!(player.frame(), 1);
    assert!(!player.finished);
    assert!(!player.step(2, false));
    assert_eq!(player.frame(), 1);
    assert!(player.finished);
    assert!(!player.advances(2, false));
    player.reset();
    assert_eq!(player.frame(), 0);
    let mut looping = AnimationPlayer::default();
    looping.step(2, true);
    looping.step(2, true);
    assert_eq!(looping.frame(), 0);
    assert!(!looping.finished);
    let mut still = AnimationPlayer::default();
    still.settle_still(1);
    assert!(still.finished);
}

#[test]
fn sounds_are_named_by_file() {
    assert_eq!(sound_name("audio/jump.wav"), "jump.wav");
    assert_eq!(sound_name("a/b/c.mp3"), "c.mp3");
    assert_eq!(sound_name("plain.wav"), "plain.wav");
    assert_eq!(sound_name("dir/"), "");
}

#[test]
fn stomps_sword_hits_and_bad_landings() {
    assert_eq!(stomp_outcome(true, false, true), StompOutcome::EnemyDies { bounce_player: false });
    assert_eq!(stomp_outcome(false, true, true), StompOutcome::EnemyDies { bounce_player: true });
    assert_eq!(stomp_outcome(false, true, false), StompOutcome::EnemyDies { bounce_player: false });
    assert_eq!(stomp_outcome(false, false, true), StompOutcome::PlayerDies);
}

#[test]
fn bats_kill_on_touch_and_yellow_mobs_are_met() {
    let kinds = vec![MobKind::Red, MobKind::Yellow];
    assert_eq!(touch_damage(PlayerRoutine::Active, false, &vec![true], &kinds, &vec![true, true]), Touch::KillPlayer);
    assert_eq!(touch_damage(PlayerRoutine::Active, false, &vec![false], &kinds, &vec![true, true]), Touch::Stomp(1));
    assert_eq!(touch_damage(PlayerRoutine::Active, false, &vec![false], &kinds, &vec![true, false]), Touch::Nothing);
    assert_eq!(touch_damage(PlayerRoutine::Active, true, &vec![true], &kinds, &vec![true, true]), Touch::Nothing);
    assert_eq!(touch_damage(PlayerRoutine::Dying, false, &vec![true], &kinds, &vec![true, true]), Touch::Nothing);
}

#[test]
fn ground_mobs_chase_swing_and_strike() {
    assert_eq!(mob_step(MobKind::Red, false, true, true, true, true), (MobStep::StartAttack, true));
    assert_eq!(mob_step(MobKind::Yellow, false, true, true, true, true), (MobStep::Chase { left: true }, false));
    assert_eq!(mob_step(MobKind::Red, true, true, true, true, false), (MobStep::Strike, true));
    assert_eq!(mob_step(MobKind::Red, true, true, true, false, false), (MobStep::Hold, true));
    assert_eq!(mob_step(MobKind::Yellow, false, false, false, true, false), (MobStep::Idle, false));
    assert!(should_turn(Sign::Negative, true));
    assert!(!should_turn(Sign::Zero, true));
    assert_eq!(patrol_direction(true, false, Sign::Positive), (Sign::Negative, true));
    assert_eq!(patrol_direction(false, true, Sign::Negative), (Sign::Positive, true));
    assert_eq!(patrol_direction(false, false, Sign::Negative), (Sign::Negative, false));
}

#[test]
fn the_player_keeps_the_first_trigger_they_stand_in() {
    let ids = vec!["A".to_string(), "B".to_string()];
    assert_eq!(overlapped_trigger(&ids, &vec![false, true]), "B");
    assert_eq!(overlapped_trigger(&ids, &vec![true, true]), "A");
    assert_eq!(overlapped_trigger(&ids, &vec![false, false]), "");
}

#[test]
fn a_falling_platform_warns_then_drops() {
    let mut platform = FallingPlatform::default();
    assert_eq!(platform.advance(true, true).warn, false);
    platform.trigger_fall();
    assert_eq!(platform.stage, FallStage::Warning);
    let first = platform.advance(false, false);
    assert!(first.warn && !first.drop);
    let second = platform.advance(true, false);
    assert!(!second.warn && second.drop);
    assert_eq!(platform.stage, FallStage::Falling);
    platform.trigger_fall();
    assert_eq!(platform.stage, FallStage::Falling);
    assert!(platform.advance(false, true).remove);
    assert_eq!(escalator_carry(false, Sign::Positive), Sign::Zero);
    assert_eq!(escalator_carry(true, Sign::Negative), Sign::Negative);
}

#[test]
fn pausing_and_backdrops_follow_the_state() {
    assert_eq!(AppState::Playing.on_pause(), AppState::Paused);
    assert_eq!(AppState::Paused.on_back(), AppState::Playing);
    assert_eq!(AppState::MainMenu.on_back(), AppState::MainMenu);
    assert!(AppState::GameOver.is_gameplay());
    assert!(!AppState::Options.is_gameplay());
    assert!(AppState::Options.wants_menu_backdrop());
    assert!(!AppState::Options.drives_fireflies());
    assert_eq!(AppState::default(), AppState::Loading);
    let mut settings = GameSettings::default();
    settings.toggle_debug(true, false);
    assert!(settings.debug_draw && !settings.invulnerable);
}

#[test]
fn tab_moves_down_and_shift_tab_moves_up() {
    assert_eq!(nav_intent(false, false, true, false, false, false), Some(true));
    assert_eq!(nav_intent(false, false, true, true, false, false), Some(false));
    assert_eq!(nav_intent(true, true, false, false, false, false), Some(true));
    assert_eq!(nav_intent(false, false, false, true, false, true), Some(false));
    assert_eq!(nav_intent(false, false, false, true, false, false), None);
}

#[test]
fn every_message_has_text_in_every_language() {
    let all = [
        Msg::Title,
        Msg::Play,
        Msg::About,
        Msg::Options,
        Msg::Exit,
        Msg::Back,
        Msg::Resume,
        Msg::ExitToMenu,
        Msg::PlayAgain,
        Msg::PauseMenu,
        Msg::GameOver,
        Msg::LanguageLabel,
        Msg::ControlsHelp,
        Msg::MenuHint,
        Msg::AboutBody,
    ];
    for msg in all {
        for lang in [Language::English, Language::Ukrainian] {
            assert!(!msg.t(lang).is_empty());
        }
    }
    assert_eq!(Msg::GameOver.t(Language::Ukrainian), "Гру закінчено");
}

#[test]
fn the_first_unloaded_asset_decides() {
    assert_eq!(load_verdict(&vec![LoadProgress::Loaded, LoadProgress::Loaded]), LoadVerdict::Ready);
    assert_eq!(load_verdict(&vec![]), LoadVerdict::Ready);
    assert_eq!(load_verdict(&vec![LoadProgress::Loaded, LoadProgress::Pending, LoadProgress::Failed]), LoadVerdict::Wait);
    assert_eq!(load_verdict(&vec![LoadProgress::Loaded, LoadProgress::Failed, LoadProgress::Pending]), LoadVerdict::Failed);
}

#[test]
fn only_the_two_object_layers_are_read() {
    assert_eq!(layer_role("SpawnPoints"), LayerRole::SpawnPoints);
    assert_eq!(layer_role("Collisions"), LayerRole::Collisions);
    assert_eq!(layer_role("Decor"), LayerRole::Ignored);
}

#[test]
fn a_capture_takes_its_shots_then_quits() {
    let mut capture = Capture::new(2);
    // On the menu: a shot falls due before the level may start.
    let first = capture.step(true, false);
    assert_eq!(first.shot, Some(0));
    assert!(!first.start && !first.exit);
    let start = capture.step(false, true);
    assert!(start.start && start.shot.is_none());
    assert!(capture.started);
    assert_eq!(capture.step(false, false).shot, None);
    let second = capture.step(true, false);
    assert_eq!(second.shot, Some(1));
    assert!(!second.exit);
    let last = capture.step(true, false);
    assert_eq!(last.shot, None);
    assert!(last.exit);
    assert_eq!(capture.remaining, 0);
    assert_eq!(capture.index, 2);
}

const ALL_MESSAGES: [Msg; 15] = [
    Msg::Title,
    Msg::Play,
    Msg::About,
    Msg::Options,
    Msg::Exit,
    Msg::Back,
    Msg::Resume,
    Msg::ExitToMenu,
    Msg::PlayAgain,
    Msg::PauseMenu,
    Msg::GameOver,
    Msg::LanguageLabel,
    Msg::ControlsHelp,
    Msg::MenuHint,
    Msg::AboutBody,
];

#[test]
fn no_two_messages_share_a_text() {
    for lang in [Language::English, Language::Ukrainian] {
        for (i, a) in ALL_MESSAGES.iter().enumerate() {
            for b in &ALL_MESSAGES[i + 1..] {
                assert_ne!(a.t(lang), b.t(lang), "{a:?} and {b:?} in {lang:?}");
            }
        }
    }
    assert_ne!(Msg::Play.t(Language::English), Msg::Exit.t(Language::English));
}

#[test]
fn the_about_page_opens_with_the_title_and_repeats_the_controls() {
    for lang in [Language::English, Language::Ukrainian] {
        let about = Msg::AboutBody.t(lang);
        assert!(about.starts_with(&format!("{}\n\n", Msg::Title.t(lang))));
        let help = Msg::ControlsHelp.t(lang);
        assert_eq!(help.lines().count(), 3);
        for line in help.lines() {
            assert!(about.lines().any(|l| l == line), "{line:?} missing in {lang:?}");
        }
    }
    assert_eq!(
        Msg::AboutBody.t(Language::English).lines().nth(4),
        Some("Escape to pause.")
    );
}

#[test]
fn one_frame_of_playback_follows_the_state_and_plays_the_due_steps() {
    // A looping clip of four frames: five due steps from the start wrap once.
    let mut p = AnimationPlayer::default();
    assert!(p.sync(ActorState::Running));
    p.play(4, true, 5);
    assert_eq!(p.frame(), 1);
    assert!(!p.finished);
    // A play-once clip of two frames: more steps than frames stop on the last.
    let mut hit = AnimationPlayer::default();
    hit.sync(ActorState::Hit);
    hit.play(2, false, 7);
    assert_eq!(hit.frame(), 1);
    assert!(hit.finished);
    // Finished on the same state, it holds however much time passes.
    assert!(!hit.sync(ActorState::Hit));
    hit.play(2, false, 3);
    assert_eq!(hit, AnimationPlayer { frame: 1, current: Some(ActorState::Hit), finished: true });
    // A change of state restarts the new clip.
    assert!(hit.sync(ActorState::Idle));
    assert_eq!(hit.frame(), 0);
    assert!(!hit.finished);
    // A still clip is finished as soon as it shows, and time does not move it.
    let mut still = AnimationPlayer::default();
    still.sync(ActorState::Jumping);
    still.play(1, true, 0);
    assert!(still.finished);
    assert_eq!(still.frame(), 0);
    // No step due: the frame stays.
    let mut idle = AnimationPlayer::default();
    idle.sync(ActorState::Idle);
    idle.play(4, true, 0);
    assert_eq!(idle.frame(), 0);
    assert!(!idle.finished);
}

#[test]
fn the_player_attack_wraps_at_four_and_plays_once() {
    let attack = clip_layout(Animated::Player, ActorState::Attacking).unwrap();
    assert_eq!((attack.frames, attack.per_row, attack.looping), (7, 4, false));
    let (_, rects) = clip_frames(Animated::Player, ActorState::Attacking, Px2 { x: 240, y: 480 }).unwrap();
    assert_eq!(rects.len(), 7);
    assert_eq!(rects[3], PxRect { min: Px2 { x: 144, y: 48 }, max: Px2 { x: 192, y: 96 } });
    assert_eq!(rects[4], PxRect { min: Px2 { x: 0, y: 96 }, max: Px2 { x: 48, y: 144 } });
    // Idle loops on row nine; a hit plays once.
    let idle = clip_layout(Animated::Player, ActorState::Idle).unwrap();
    assert_eq!((idle.origin, idle.frames, idle.looping), (Px2 { x: 0, y: 432 }, 4, true));
    assert!(!clip_layout(Animated::Bat, ActorState::Hit).unwrap().looping);
    // Things without a clip for a state have none.
    assert_eq!(clip_layout(Animated::Bat, ActorState::Climbing), None);
    assert!(clip_frames(Animated::Coin, ActorState::Running, Px2 { x: 64, y: 64 }).is_none());
    // The running escalator strip is declared 16 tall but its sheet is 8: clamped.
    let (strip, rects) = clip_frames(Animated::Escalator, ActorState::Running, Px2 { x: 256, y: 8 }).unwrap();
    assert_eq!(strip.frames, 8);
    assert_eq!(rects[7], PxRect { min: Px2 { x: 224, y: 0 }, max: Px2 { x: 256, y: 8 } });
}

#[test]
fn each_outcome_names_the_state_shown_next() {
    assert_eq!(stomp_outcome(false, true, true).next_state(), Some(ActorState::Hit));
    assert_eq!(stomp_outcome(false, false, true).next_state(), None);
    assert_eq!(MobStep::StartAttack.next_state(), Some(ActorState::Attacking));
    assert_eq!(MobStep::Chase { left: true }.next_state(), Some(ActorState::Running));
    assert_eq!(MobStep::Idle.next_state(), Some(ActorState::Idle));
    assert_eq!(MobStep::Strike.next_state(), None);
    assert_eq!(MobStep::Hold.next_state(), None);
    assert_eq!(attack_ends(MobKind::Red, true, true), Some(ActorState::Idle));
    assert_eq!(attack_ends(MobKind::Red, true, false), None);
    assert_eq!(attack_ends(MobKind::Yellow, true, true), None);
}

#[test]
fn each_clip_is_cut_from_its_sheet() {
    assert_eq!(sheet(Animated::Player, ActorState::Attacking), "images/hero/Player.png");
    assert_eq!(sheet(Animated::Coin, ActorState::Idle), "images/Items.png");
    assert_eq!(sheet(Animated::Escalator, ActorState::Running), "images/objects/Grey On (32x8).png");
    assert_eq!(sheet(Animated::Escalator, ActorState::Idle), "images/objects/Grey Off.png");
    assert_eq!(sheet(Animated::FallingPlatform, ActorState::Falling), "images/objects/FallingOn.png");
}
