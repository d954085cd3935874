//! Contact resolution over the overlap facts of the scenarios the engine
//! measures: which blocks stop the actor, from which side, and which contact
//! flags change.

use edgard_in_kimeria::actor::{BlockKind, Sign};
use edgard_in_kimeria::collision::{
    resolve_falling_platforms, resolve_horizontal, resolve_vertical, resolve_vertical_blocks,
    ride_escalator, BlockContact, ContactFlags, PlatformContact, PlatformOutcome, Side, Stop, VerticalContact,
    VerticalResolution,
};

const UNTOUCHED: PlatformOutcome =
    PlatformOutcome { landed_on: None, trigger_fall: None, hit_platform_from_below: false };

fn contact(kind: BlockKind, overlapping: bool) -> BlockContact {
    BlockContact { kind, overlapping }
}

#[test]
fn landing_snaps_to_the_top_of_a_solid_block() {
    // Falling (vy = 120), already overlapping the ground block.
    let blocks = vec![contact(BlockKind::Solid, true)];
    let r = resolve_vertical_blocks(&blocks, Sign::Positive);
    assert_eq!(r, VerticalContact::Land(0));
    // Landing stops the fall; the actor is then grounded on the block's top.
    assert_eq!(r.vy_after(Sign::Positive), Sign::Zero);
}

#[test]
fn a_wall_hit_in_mid_air_starts_a_clamber() {
    let blocks = vec![contact(BlockKind::Wall, true)];
    let r = resolve_horizontal(&blocks, Sign::Positive, false, false, false);
    assert_eq!(r.stop, Some(Stop { block: 0, side: Side::LeftEdge }));
    assert!(r.clambering, "hitting a wall while airborne enables the wall jump");
}

#[test]
fn hitting_a_wall_while_moving_left_snaps_to_its_right_edge() {
    let blocks = vec![contact(BlockKind::Wall, true)];
    let r = resolve_horizontal(&blocks, Sign::Negative, false, false, false);
    assert_eq!(r.stop, Some(Stop { block: 0, side: Side::RightEdge }));
}

#[test]
fn the_same_wall_hit_while_grounded_does_not_clamber() {
    let blocks = vec![contact(BlockKind::Wall, true)];
    let r = resolve_horizontal(&blocks, Sign::Positive, true, false, false);
    assert_eq!(r.stop, Some(Stop { block: 0, side: Side::LeftEdge }));
    assert!(!r.clambering);
}

#[test]
fn quicksand_is_passable_but_flags_contact() {
    let blocks = vec![contact(BlockKind::QuickSand, true)];
    let r = resolve_horizontal(&blocks, Sign::Positive, false, false, false);
    assert!(r.in_quicksand);
    assert_eq!(r.stop, None, "quicksand never stops movement");
}

#[test]
fn standing_on_an_escalator_records_it_for_the_carry() {
    // No blocks; one escalator under the falling actor.
    let landing = resolve_vertical_blocks(&vec![], Sign::Positive);
    assert_eq!(landing, VerticalContact::Free);
    let vy = landing.vy_after(Sign::Positive);
    assert_eq!(ride_escalator(&vec![true], vy), Some(0));
}

#[test]
fn landing_on_an_untriggered_platform_asks_it_to_fall() {
    let platforms = vec![PlatformContact { overlapping: true, is_falling: false }];
    let outcome = resolve_falling_platforms(&platforms, Sign::Positive);
    assert_eq!(outcome.trigger_fall, Some(0));
    assert_eq!(outcome.landed_on, Some(0));

    // Rising into the same platform is lethal instead.
    let outcome = resolve_falling_platforms(&platforms, Sign::Negative);
    assert!(outcome.hit_platform_from_below);
    assert_eq!(outcome.trigger_fall, None);
}

#[test]
fn an_already_falling_platform_is_not_triggered_again() {
    let platforms = vec![PlatformContact { overlapping: true, is_falling: true }];
    let outcome = resolve_falling_platforms(&platforms, Sign::Positive);
    assert_eq!(outcome.landed_on, Some(0));
    assert_eq!(outcome.trigger_fall, None);
    assert!(!outcome.hit_platform_from_below);
}

#[test]
fn resolution_stops_at_the_first_blocking_contact_in_list_order() {
    let blocks = vec![
        contact(BlockKind::Solid, false),
        contact(BlockKind::Platform, true),
        contact(BlockKind::Wall, true),
    ];
    let r = resolve_horizontal(&blocks, Sign::Positive, false, false, true);
    assert_eq!(r.stop, Some(Stop { block: 1, side: Side::LeftEdge }));
    // The wall after the stop is never reached: no clamber starts, and the
    // clamber already under way is kept.
    assert!(r.clambering);
}

#[test]
fn a_wall_that_is_not_touched_ends_a_clamber() {
    let blocks = vec![contact(BlockKind::Wall, false)];
    let r = resolve_horizontal(&blocks, Sign::Positive, false, false, true);
    assert!(!r.clambering);
    assert_eq!(r.stop, None);
}

#[test]
fn the_last_quicksand_block_decides_the_flag() {
    let blocks = vec![contact(BlockKind::QuickSand, true), contact(BlockKind::QuickSand, false)];
    let r = resolve_horizontal(&blocks, Sign::Positive, false, false, false);
    assert!(!r.in_quicksand);
}

#[test]
fn standing_still_is_never_stopped_sideways() {
    let blocks = vec![contact(BlockKind::Solid, true), contact(BlockKind::Wall, true)];
    let r = resolve_horizontal(&blocks, Sign::Zero, false, false, false);
    assert_eq!(r.stop, None);
}

#[test]
fn a_one_way_platform_does_not_stop_a_rising_actor() {
    let blocks = vec![contact(BlockKind::Platform, true)];
    assert_eq!(resolve_vertical_blocks(&blocks, Sign::Negative), VerticalContact::Free);
    assert_eq!(resolve_vertical_blocks(&blocks, Sign::Positive), VerticalContact::Land(0));
}

#[test]
fn rising_into_a_solid_block_bumps_the_head() {
    let blocks = vec![contact(BlockKind::Platform, true), contact(BlockKind::Solid, true)];
    let r = resolve_vertical_blocks(&blocks, Sign::Negative);
    assert_eq!(r, VerticalContact::Bump(1));
    assert_eq!(r.vy_after(Sign::Negative), Sign::Zero);
}

#[test]
fn falling_into_quicksand_sinks_without_a_snap() {
    let blocks = vec![contact(BlockKind::QuickSand, true), contact(BlockKind::Solid, true)];
    assert_eq!(resolve_vertical_blocks(&blocks, Sign::Positive), VerticalContact::Sink(0));
}

#[test]
fn only_a_falling_actor_rides_an_escalator() {
    assert_eq!(ride_escalator(&vec![false, true, true], Sign::Positive), Some(1));
    assert_eq!(ride_escalator(&vec![true], Sign::Zero), None);
    assert_eq!(ride_escalator(&vec![false], Sign::Positive), None);
}

#[test]
fn standing_next_to_a_falling_platform_counts_as_a_hit() {
    let platforms = vec![
        PlatformContact { overlapping: false, is_falling: false },
        PlatformContact { overlapping: true, is_falling: true },
    ];
    let outcome = resolve_falling_platforms(&platforms, Sign::Zero);
    assert!(outcome.hit_platform_from_below);
    assert_eq!(outcome.landed_on, None);
}

#[test]
fn standing_on_a_block_ends_the_vertical_pass() {
    // Falling onto the ground while the hitbox also touches a falling platform
    // and an escalator: the block landing is the first resolved contact.
    let blocks = vec![contact(BlockKind::Solid, true)];
    let platform = PlatformContact { overlapping: true, is_falling: false };
    let r = resolve_vertical(&blocks, &vec![true], &vec![platform], Sign::Positive);
    assert_eq!(
        r,
        VerticalResolution { blocks: VerticalContact::Land(0), escalator: None, platforms: UNTOUCHED }
    );
    // The same ground with the platform listed first among many changes nothing.
    let r = resolve_vertical(&blocks, &vec![false, true], &vec![platform, platform], Sign::Positive);
    assert_eq!(r.platforms, UNTOUCHED);
    // Sinking into quicksand ends the pass too.
    let sand = vec![contact(BlockKind::QuickSand, true)];
    let r = resolve_vertical(&sand, &vec![true], &vec![platform], Sign::Positive);
    assert_eq!(r.blocks, VerticalContact::Sink(0));
    assert_eq!((r.escalator, r.platforms), (None, UNTOUCHED));
}

#[test]
fn riding_an_escalator_ends_the_vertical_pass() {
    let platform = PlatformContact { overlapping: true, is_falling: false };
    let r = resolve_vertical(&vec![], &vec![false, true], &vec![platform], Sign::Positive);
    assert_eq!(
        r,
        VerticalResolution { blocks: VerticalContact::Free, escalator: Some(1), platforms: UNTOUCHED }
    );
}

#[test]
fn with_nothing_resolved_the_falling_platforms_decide() {
    let untriggered = PlatformContact { overlapping: true, is_falling: false };
    let r = resolve_vertical(&vec![contact(BlockKind::Solid, false)], &vec![false], &vec![untriggered], Sign::Positive);
    assert_eq!(r.blocks, VerticalContact::Free);
    assert_eq!(r.escalator, None);
    assert_eq!(
        r.platforms,
        PlatformOutcome { landed_on: Some(0), trigger_fall: Some(0), hit_platform_from_below: false }
    );
    // Without vertical motion no block resolves, so an overlapped falling
    // platform strikes the actor.
    let r = resolve_vertical(&vec![contact(BlockKind::Solid, true)], &vec![], &vec![untriggered], Sign::Zero);
    assert_eq!(r.blocks, VerticalContact::Free);
    assert!(r.platforms.hit_platform_from_below);
    // Rising into a falling platform strikes the actor.
    let r = resolve_vertical(&vec![], &vec![true], &vec![untriggered], Sign::Negative);
    assert!(r.platforms.hit_platform_from_below);
    assert_eq!(r.escalator, None);
    // A head bump stops the rise but the platforms are still consulted.
    let r = resolve_vertical(&vec![contact(BlockKind::Wall, true)], &vec![], &vec![untriggered], Sign::Negative);
    assert_eq!(r.blocks, VerticalContact::Bump(0));
    assert!(r.platforms.hit_platform_from_below);
}

#[test]
fn the_passes_touch_only_their_own_flags() {
    let flags = ContactFlags {
        grounded: false,
        in_quicksand: false,
        clambering: false,
        wall_jumping: true,
        escalator: Some(0),
    };
    // A mid-air wall hit sets the clamber and leaves the rest alone.
    let r = resolve_horizontal(&vec![contact(BlockKind::Wall, true)], Sign::Positive, false, false, false);
    assert_eq!(flags.after_horizontal(r), ContactFlags { clambering: true, ..flags });
    // Landing on a block grounds the actor and records no escalator.
    let v = resolve_vertical(&vec![contact(BlockKind::Solid, true)], &vec![true], &vec![], Sign::Positive);
    assert!(v.grounds() && v.halts());
    assert_eq!(flags.after_vertical(v), ContactFlags { grounded: true, escalator: None, ..flags });
    // Riding the second escalator records it.
    let v = resolve_vertical(&vec![], &vec![false, true], &vec![], Sign::Positive);
    assert_eq!(flags.after_vertical(v), ContactFlags { grounded: true, escalator: Some(1), ..flags });
    // A head bump stops the rise without grounding.
    let v = resolve_vertical(&vec![contact(BlockKind::Solid, true)], &vec![], &vec![], Sign::Negative);
    assert!(!v.grounds() && v.halts());
    assert_eq!(flags.after_vertical(v), ContactFlags { escalator: None, ..flags });
    // A strike from a falling platform neither grounds nor halts.
    let strike = PlatformContact { overlapping: true, is_falling: true };
    let v = resolve_vertical(&vec![], &vec![], &vec![strike], Sign::Negative);
    assert!(v.platforms.hit_platform_from_below && !v.grounds() && !v.halts());
}
