//! The game's clip table: for each animated thing and each state it shows,
//! where the clip's frames sit in its sheet and whether it loops.
//!
//! It also names the sheet file each clip is cut from. How long each frame
//! shows is the engine's (a floating-point time).
use vstd::prelude::*;
use crate::actor::ActorState;
use crate::animation::{frame_col, frame_min, frame_rect, frame_row, layout_fits, ClipSpec, Px2, PxRect};

verus! {

/// Everything in the game that plays clips.
#[derive(Debug, Clone, Copy, PartialEq, Eq, Structural)]
pub enum Animated {
    Player,
    Bat,
    YellowMob,
    RedMob,
    Bomb,
    Coin,
    Heart,
    Escalator,
    FallingPlatform,
}

/// A clip of `frames` frames of `width` by `height` pixels whose first frame
/// sits at (`x`, `y`), wrapping to a new row every `per_row` frames.
pub open spec fn grid(width: u32, height: u32, x: u32, y: u32, frames: usize, per_row: usize, looping: bool) -> ClipSpec {
    ClipSpec { frame: Px2 { x: width, y: height }, origin: Px2 { x, y }, frames, per_row, looping }
}

/// The clip `who` plays in `state`, if it has one.
pub open spec fn clip_layout_of(who: Animated, state: ActorState) -> Option<ClipSpec> {
    match (who, state) {
        (Animated::Player, ActorState::Idle) => Some(grid(48, 48, 0, 432, 4, 4, true)),
        (Animated::Player, ActorState::Running) => Some(grid(48, 48, 0, 0, 4, 4, true)),
        (Animated::Player, ActorState::Jumping) => Some(grid(48, 48, 0, 384, 1, 1, true)),
        (Animated::Player, ActorState::Falling) => Some(grid(48, 48, 0, 192, 1, 1, true)),
        (Animated::Player, ActorState::Hit) => Some(grid(48, 48, 0, 192, 2, 2, false)),
        (Animated::Player, ActorState::Attacking) => Some(grid(48, 48, 0, 48, 7, 4, false)),
        (Animated::Player, ActorState::Appearing) => Some(grid(48, 48, 0, 144, 4, 4, false)),
        (Animated::Player, ActorState::Disappearing) => Some(grid(48, 48, 0, 288, 4, 4, true)),
        (Animated::Player, ActorState::Climbing) => Some(grid(48, 48, 0, 144, 1, 1, true)),
        (Animated::Bat, ActorState::Idle) => Some(grid(16, 16, 0, 0, 5, 5, true)),
        (Animated::Bat, ActorState::Running) => Some(grid(16, 16, 0, 32, 5, 5, true)),
        (Animated::Bat, ActorState::Hit) => Some(grid(16, 16, 0, 64, 4, 4, false)),
        (Animated::YellowMob, ActorState::Idle) => Some(grid(48, 32, 0, 160, 4, 4, true)),
        (Animated::YellowMob, ActorState::Running) => Some(grid(48, 32, 0, 32, 4, 4, true)),
        (Animated::YellowMob, ActorState::Hit) => Some(grid(48, 32, 0, 128, 4, 4, false)),
        (Animated::RedMob, ActorState::Idle) => Some(grid(48, 32, 0, 160, 4, 4, true)),
        (Animated::RedMob, ActorState::Running) => Some(grid(48, 32, 0, 32, 4, 4, true)),
        (Animated::RedMob, ActorState::Hit) => Some(grid(48, 32, 0, 128, 4, 4, false)),
        (Animated::RedMob, ActorState::Attacking) => Some(grid(48, 32, 0, 64, 4, 4, false)),
        (Animated::Bomb, ActorState::Idle) => Some(grid(16, 16, 32, 0, 2, 2, true)),
        (Animated::Coin, ActorState::Idle) => Some(grid(16, 16, 0, 0, 2, 2, true)),
        (Animated::Heart, ActorState::Idle) => Some(grid(16, 16, 0, 16, 2, 2, true)),
        (Animated::Escalator, ActorState::Idle) => Some(grid(32, 16, 0, 0, 1, 1, true)),
        (Animated::Escalator, ActorState::Running) => Some(grid(32, 16, 0, 0, 8, 8, true)),
        (Animated::FallingPlatform, ActorState::Idle) => Some(grid(32, 16, 0, 0, 4, 4, true)),
        (Animated::FallingPlatform, ActorState::Falling) => Some(grid(32, 16, 0, 0, 4, 4, true)),
        _ => None,
    }
}

/// Every clip in the table has a frame, wraps after at least one frame, and
/// lays its frames out within the sheet coordinate range.
pub proof fn law_every_clip_fits(who: Animated, state: ActorState)
    ensures
        clip_layout_of(who, state) matches Some(c) ==> c.frames >= 1 && c.per_row >= 1 && layout_fits(c),
{
    if let Some(c) = clip_layout_of(who, state) {
        assert(c.frames <= 8 && c.per_row >= 1 && c.frame.x <= 48 && c.frame.y <= 48 && c.origin.x <= 32
            && c.origin.y <= 432);
        assert forall|i: int| 0 <= i < c.frames implies #[trigger] frame_min(c, i).0 + c.frame.x <= u32::MAX
            && frame_min(c, i).1 + c.frame.y <= u32::MAX by {
            let per_row = c.per_row as int;
            assert(0 <= i % per_row < per_row) by (nonlinear_arith)
                requires
                    per_row >= 1,
            ;
            assert(0 <= i / per_row <= i) by (nonlinear_arith)
                requires
                    per_row >= 1,
                    i >= 0,
            ;
            let col = frame_col(c, i) as int;
            let row = frame_row(c, i) as int;
            assert(col == i % per_row);
            assert(row == i / per_row);
            assert(col * c.frame.x <= 8 * 48) by (nonlinear_arith)
                requires
                    0 <= col <= 8,
                    c.frame.x <= 48,
            ;
            assert(row * c.frame.y <= 8 * 48) by (nonlinear_arith)
                requires
                    0 <= row <= 8,
                    c.frame.y <= 48,
            ;
        }
    }
}


/// A clip laid out as [`grid`] says.
fn make_grid(width: u32, height: u32, x: u32, y: u32, frames: usize, per_row: usize, looping: bool) -> (r: ClipSpec)
    ensures
        r == grid(width, height, x, y, frames, per_row, looping),
{
    ClipSpec { frame: Px2 { x: width, y: height }, origin: Px2 { x, y }, frames, per_row, looping }
}

/// The clip `who` plays in `state`, if it has one.
pub fn clip_layout(who: Animated, state: ActorState) -> (r: Option<ClipSpec>)
    ensures
        r == clip_layout_of(who, state),
        r matches Some(c) ==> c.frames >= 1 && c.per_row >= 1 && layout_fits(c),
{
    proof {
        law_every_clip_fits(who, state);
    }
    match (who, state) {
        (Animated::Player, ActorState::Idle) => Some(make_grid(48, 48, 0, 432, 4, 4, true)),
        (Animated::Player, ActorState::Running) => Some(make_grid(48, 48, 0, 0, 4, 4, true)),
        (Animated::Player, ActorState::Jumping) => Some(make_grid(48, 48, 0, 384, 1, 1, true)),
        (Animated::Player, ActorState::Falling) => Some(make_grid(48, 48, 0, 192, 1, 1, true)),
        (Animated::Player, ActorState::Hit) => Some(make_grid(48, 48, 0, 192, 2, 2, false)),
        (Animated::Player, ActorState::Attacking) => Some(make_grid(48, 48, 0, 48, 7, 4, false)),
        (Animated::Player, ActorState::Appearing) => Some(make_grid(48, 48, 0, 144, 4, 4, false)),
        (Animated::Player, ActorState::Disappearing) => Some(make_grid(48, 48, 0, 288, 4, 4, true)),
        (Animated::Player, ActorState::Climbing) => Some(make_grid(48, 48, 0, 144, 1, 1, true)),
        (Animated::Bat, ActorState::Idle) => Some(make_grid(16, 16, 0, 0, 5, 5, true)),
        (Animated::Bat, ActorState::Running) => Some(make_grid(16, 16, 0, 32, 5, 5, true)),
        (Animated::Bat, ActorState::Hit) => Some(make_grid(16, 16, 0, 64, 4, 4, false)),
        (Animated::YellowMob, ActorState::Idle) => Some(make_grid(48, 32, 0, 160, 4, 4, true)),
        (Animated::YellowMob, ActorState::Running) => Some(make_grid(48, 32, 0, 32, 4, 4, true)),
        (Animated::YellowMob, ActorState::Hit) => Some(make_grid(48, 32, 0, 128, 4, 4, false)),
        (Animated::RedMob, ActorState::Idle) => Some(make_grid(48, 32, 0, 160, 4, 4, true)),
        (Animated::RedMob, ActorState::Running) => Some(make_grid(48, 32, 0, 32, 4, 4, true)),
        (Animated::RedMob, ActorState::Hit) => Some(make_grid(48, 32, 0, 128, 4, 4, false)),
        (Animated::RedMob, ActorState::Attacking) => Some(make_grid(48, 32, 0, 64, 4, 4, false)),
        (Animated::Bomb, ActorState::Idle) => Some(make_grid(16, 16, 32, 0, 2, 2, true)),
        (Animated::Coin, ActorState::Idle) => Some(make_grid(16, 16, 0, 0, 2, 2, true)),
        (Animated::Heart, ActorState::Idle) => Some(make_grid(16, 16, 0, 16, 2, 2, true)),
        (Animated::Escalator, ActorState::Idle) => Some(make_grid(32, 16, 0, 0, 1, 1, true)),
        (Animated::Escalator, ActorState::Running) => Some(make_grid(32, 16, 0, 0, 8, 8, true)),
        (Animated::FallingPlatform, ActorState::Idle) => Some(make_grid(32, 16, 0, 0, 4, 4, true)),
        (Animated::FallingPlatform, ActorState::Falling) => Some(make_grid(32, 16, 0, 0, 4, 4, true)),
        _ => None,
    }
}

/// The clip `who` plays in `state`, if it has one, with its frames cut from
/// a sheet of size `image`, in play order.
pub fn clip_frames(who: Animated, state: ActorState, image: Px2) -> (r: Option<(ClipSpec, Vec<PxRect>)>)
    ensures
        match r {
            Some((c, rects)) => clip_layout_of(who, state) == Some(c) && rects.len() == c.frames
                && forall|i: int| 0 <= i < c.frames ==> #[trigger] rects@[i] == frame_rect(c, image, i),
            None => clip_layout_of(who, state) is None,
        },
{
    match clip_layout(who, state) {
        Some(c) => {
            let rects = c.frame_rects(image);
            Some((c, rects))
        },
        None => None,
    }
}


/// The sheet file that holds `who`'s clip for `state`: each thing has one
/// sheet, except the escalator, whose running clip has a sheet of its own.
pub open spec fn sheet_of(who: Animated, state: ActorState) -> Seq<char> {
    match who {
        Animated::Player => "images/hero/Player.png"@,
        Animated::Bat => "images/enemy/Bat.png"@,
        Animated::YellowMob => "images/enemy/yellow_mob.png"@,
        Animated::RedMob => "images/enemy/Mobs.png"@,
        Animated::Bomb | Animated::Coin | Animated::Heart => "images/Items.png"@,
        Animated::Escalator => if state == ActorState::Running {
            "images/objects/Grey On (32x8).png"@
        } else {
            "images/objects/Grey Off.png"@
        },
        Animated::FallingPlatform => "images/objects/FallingOn.png"@,
    }
}

/// The sheet file that holds `who`'s clip for `state`.
pub fn sheet(who: Animated, state: ActorState) -> (r: &'static str)
    ensures
        r@ == sheet_of(who, state),
{
    match who {
        Animated::Player => "images/hero/Player.png",
        Animated::Bat => "images/enemy/Bat.png",
        Animated::YellowMob => "images/enemy/yellow_mob.png",
        Animated::RedMob => "images/enemy/Mobs.png",
        Animated::Bomb | Animated::Coin | Animated::Heart => "images/Items.png",
        Animated::Escalator => if state == ActorState::Running {
            "images/objects/Grey On (32x8).png"
        } else {
            "images/objects/Grey Off.png"
        },
        Animated::FallingPlatform => "images/objects/FallingOn.png",
    }
}


/// Only the hit, attack and appearing clips play once, so a routine that
/// waits for one of them to finish always gets there; every other clip
/// loops. The player has a clip for every state.
pub proof fn law_which_clips_play_once(who: Animated, state: ActorState)
    ensures
        clip_layout_of(who, state) matches Some(c) ==> (!c.looping <==> (state == ActorState::Hit || state
            == ActorState::Attacking || state == ActorState::Appearing)),
        clip_layout_of(Animated::Player, state) is Some,
{
}

} // verus!
