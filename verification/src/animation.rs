//! Sprite-sheet animation: where each frame of a clip sits in its sheet, and
//! the playback cursor that walks the frames.
//!
//! The engine measures time and counts how many of a clip's step times have
//! elapsed; the cursor follows the entity's state and plays that many steps.
use vstd::prelude::*;
use crate::actor::ActorState;

verus! {

/// A point or extent in sheet pixels.
#[derive(Debug, Clone, Copy, PartialEq, Eq, Structural)]
pub struct Px2 {
    pub x: u32,
    pub y: u32,
}

/// A frame's rectangle in its sheet: `min` inclusive, `max` exclusive.
#[derive(Debug, Clone, Copy, PartialEq, Eq, Structural)]
pub struct PxRect {
    pub min: Px2,
    pub max: Px2,
}

/// Where a clip's frames sit in its sheet, and whether it loops.
#[derive(Debug, Clone, Copy, PartialEq, Eq, Structural)]
pub struct ClipSpec {
    /// Size of one frame in the sheet.
    pub frame: Px2,
    /// Top-left of the first frame.
    pub origin: Px2,
    pub frames: usize,
    /// Frames per row before wrapping to the next row.
    pub per_row: usize,
    pub looping: bool,
}

/// Column of frame `index`, as the sheet coordinate type holds it.
pub open spec fn frame_col(spec: ClipSpec, index: int) -> u32 {
    (index % (spec.per_row as int)) as u32
}

/// Row of frame `index`, as the sheet coordinate type holds it.
pub open spec fn frame_row(spec: ClipSpec, index: int) -> u32 {
    (index / (spec.per_row as int)) as u32
}

/// Frame `index`'s rectangle before clamping to the sheet.
pub open spec fn frame_min(spec: ClipSpec, index: int) -> (int, int) {
    (
        spec.origin.x + frame_col(spec, index) * spec.frame.x,
        spec.origin.y + frame_row(spec, index) * spec.frame.y,
    )
}

/// The sheet coordinates of every frame fit the coordinate type.
pub open spec fn layout_fits(spec: ClipSpec) -> bool {
    forall|i: int|
        0 <= i < spec.frames ==> #[trigger] frame_min(spec, i).0 + spec.frame.x <= u32::MAX
            && frame_min(spec, i).1 + spec.frame.y <= u32::MAX
}

/// The smaller of two sheet coordinates.
pub open spec fn min_u32(a: int, b: int) -> int {
    if a <= b { a } else { b }
}

/// Frame `index`'s rectangle: its slot in the grid, clamped to the sheet so
/// that a frame declared taller than the sheet yields only the pixels that
/// exist.
pub open spec fn frame_rect(spec: ClipSpec, image: Px2, index: int) -> PxRect {
    let (mx, my) = frame_min(spec, index);
    PxRect {
        min: Px2 { x: mx as u32, y: my as u32 },
        max: Px2 {
            x: min_u32(mx + spec.frame.x, image.x as int) as u32,
            y: min_u32(my + spec.frame.y, image.y as int) as u32,
        },
    }
}

impl ClipSpec {
    /// A looping clip laid out on one row.
    pub fn new(frame: Px2, origin: Px2, frames: usize) -> (r: Self)
        ensures
            r.frame == frame,
            r.origin == origin,
            r.frames == frames,
            r.per_row == (if frames >= 1 { frames } else { 1 }),
            r.looping,
    {
        ClipSpec { frame, origin, frames, per_row: if frames >= 1 { frames } else { 1 }, looping: true }
    }

    /// Wraps to a new row every `per_row` frames (at least one).
    pub fn per_row(self, per_row: usize) -> (r: Self)
        ensures
            r == (ClipSpec { per_row: if per_row >= 1 { per_row } else { 1 }, ..self }),
    {
        ClipSpec { per_row: if per_row >= 1 { per_row } else { 1 }, ..self }
    }

    /// Plays once and holds the last frame.
    pub fn once(self) -> (r: Self)
        ensures
            r == (ClipSpec { looping: false, ..self }),
    {
        ClipSpec { looping: false, ..self }
    }

    /// Every frame's rectangle in a sheet of size `image`, in play order.
    pub fn frame_rects(&self, image: Px2) -> (r: Vec<PxRect>)
        requires
            self.per_row >= 1,
            layout_fits(*self),
        ensures
            r.len() == self.frames,
            forall|i: int| 0 <= i < self.frames ==> #[trigger] r@[i] == frame_rect(*self, image, i),
            // Clamped: no frame reaches past the sheet.
            forall|i: int|
                0 <= i < self.frames ==> #[trigger] r@[i].max.x <= image.x && r@[i].max.y <= image.y,
    {
        let mut rects: Vec<PxRect> = Vec::new();
        let mut index: usize = 0;
        while index < self.frames
            invariant
                index <= self.frames,
                self.per_row >= 1,
                layout_fits(*self),
                rects.len() == index,
                forall|i: int| 0 <= i < index ==> #[trigger] rects@[i] == frame_rect(*self, image, i),
                forall|i: int|
                    0 <= i < index ==> #[trigger] rects@[i].max.x <= image.x && rects@[i].max.y <= image.y,
            decreases self.frames - index,
        {
            proof {
                assert(frame_min(*self, index as int).0 + self.frame.x <= u32::MAX);
            }
            let col = (index % self.per_row) as u32;
            let row = (index / self.per_row) as u32;
            let min_x = self.origin.x + col * self.frame.x;
            let min_y = self.origin.y + row * self.frame.y;
            let end_x = min_x + self.frame.x;
            let end_y = min_y + self.frame.y;
            let max_x = if end_x <= image.x { end_x } else { image.x };
            let max_y = if end_y <= image.y { end_y } else { image.y };
            rects.push(PxRect { min: Px2 { x: min_x, y: min_y }, max: Px2 { x: max_x, y: max_y } });
            index = index + 1;
        }
        rects
    }
}

/// Playback cursor for one entity's clips.
#[derive(Debug, Clone, Copy, PartialEq, Eq, Structural)]
pub struct AnimationPlayer {
    pub frame: usize,
    /// State the cursor was last synced to, so a change restarts playback.
    pub current: Option<ActorState>,
    /// True once a non-looping clip has shown its last frame, or the clip
    /// has a single frame.
    pub finished: bool,
}

impl Default for AnimationPlayer {
    fn default() -> (r: Self)
        ensures
            r.frame == 0,
            r.current is None,
            !r.finished,
    {
        AnimationPlayer { frame: 0, current: None, finished: false }
    }
}

/// The cursor after one step of a clip with `frames` frames.
pub open spec fn stepped(p: AnimationPlayer, frames: usize, looping: bool) -> AnimationPlayer {
    if p.frame + 1 >= frames {
        if looping {
            AnimationPlayer { frame: 0, ..p }
        } else {
            AnimationPlayer { frame: (frames - 1) as usize, finished: true, ..p }
        }
    } else {
        AnimationPlayer { frame: (p.frame + 1) as usize, ..p }
    }
}

/// The cursor after `n` steps.
pub open spec fn stepped_n(p: AnimationPlayer, frames: usize, looping: bool, n: nat) -> AnimationPlayer
    decreases n,
{
    if n == 0 {
        p
    } else {
        stepped(stepped_n(p, frames, looping, (n - 1) as nat), frames, looping)
    }
}

/// The cursor after following `state`: unchanged on the same state, and on
/// the first frame of a fresh clip after a change of state.
pub open spec fn synced(p: AnimationPlayer, state: ActorState) -> AnimationPlayer {
    if p.current == Some(state) {
        p
    } else {
        AnimationPlayer { frame: 0, current: Some(state), finished: false }
    }
}

/// Whether time moves a clip of `frames` frames on from cursor `p`.
pub open spec fn advancing(p: AnimationPlayer, frames: usize, looping: bool) -> bool {
    frames > 1 && !(p.finished && !looping)
}

/// The cursor after one frame's playback with `due` steps earned: the steps
/// of an advancing clip, or else a still clip marked finished.
pub open spec fn played(p: AnimationPlayer, frames: usize, looping: bool, due: nat) -> AnimationPlayer {
    if advancing(p, frames, looping) {
        stepped_n(p, frames, looping, due)
    } else if frames <= 1 {
        AnimationPlayer { finished: true, ..p }
    } else {
        p
    }
}

/// Taking `a` steps and then `b` more is taking `a + b` steps.
proof fn lemma_stepped_n_add(p: AnimationPlayer, frames: usize, looping: bool, a: nat, b: nat)
    ensures
        stepped_n(p, frames, looping, a + b) == stepped_n(stepped_n(p, frames, looping, a), frames, looping, b),
    decreases b,
{
    if b > 0 {
        lemma_stepped_n_add(p, frames, looping, a, (b - 1) as nat);
        assert((a + b - 1) as nat == a + (b - 1) as nat);
    }
}

/// A finished play-once cursor on its last frame stays put, however many
/// steps follow.
proof fn lemma_finished_once_clip_holds(p: AnimationPlayer, frames: usize, n: nat)
    requires
        frames >= 1,
        p.frame == frames - 1,
        p.finished,
    ensures
        stepped_n(p, frames, false, n) == p,
    decreases n,
{
    if n > 0 {
        lemma_finished_once_clip_holds(p, frames, (n - 1) as nat);
    }
}

impl AnimationPlayer {
    /// The frame being shown.
    pub fn frame(&self) -> (r: usize)
        ensures
            r == self.frame,
    {
        self.frame
    }

    /// Restarts the current clip.
    pub fn reset(&mut self)
        ensures
            final(self).frame == 0,
            !final(self).finished,
            final(self).current == old(self).current,
    {
        self.frame = 0;
        self.finished = false;
    }

    /// Follows the entity's state: a change of state restarts playback.
    /// Returns whether the state changed (the engine then shows the new
    /// clip's first frame).
    pub fn sync(&mut self, state: ActorState) -> (changed: bool)
        ensures
            changed == (old(self).current != Some(state)),
            *final(self) == synced(*old(self), state),
            final(self).current == Some(state),
            changed ==> final(self).frame == 0 && !final(self).finished,
            !changed ==> *final(self) == *old(self),
    {
        if self.current != Some(state) {
            self.current = Some(state);
            self.reset();
            true
        } else {
            false
        }
    }

    /// Whether time moves the clip on: a clip of several frames does, until
    /// a non-looping one has finished.
    pub fn advances(&self, frames: usize, looping: bool) -> (r: bool)
        ensures
            r == advancing(*self, frames, looping),
    {
        frames > 1 && !(self.finished && !looping)
    }

    /// A clip of at most one frame is finished as soon as it shows.
    pub fn settle_still(&mut self, frames: usize)
        ensures
            *final(self) == (if frames <= 1 { AnimationPlayer { finished: true, ..*old(self) } } else { *old(self) }),
    {
        if frames <= 1 {
            self.finished = true;
        }
    }

    /// One step of a clip with `frames` frames: the next frame, wrapping to
    /// the first for a looping clip and holding the last (finished) for one
    /// that plays once. Returns whether further steps are due this frame.
    pub fn step(&mut self, frames: usize, looping: bool) -> (go_on: bool)
        requires
            frames >= 1,
        ensures
            *final(self) == stepped(*old(self), frames, looping),
            go_on == !(old(self).frame + 1 >= frames && !looping),
    {
        if self.frame >= frames - 1 {
            if looping {
                self.frame = 0;
                true
            } else {
                self.frame = frames - 1;
                self.finished = true;
                false
            }
        } else {
            self.frame = self.frame + 1;
            true
        }
    }
}

impl AnimationPlayer {
    /// One frame's playback once the cursor follows the entity's state: an
    /// advancing clip takes the `due` steps that the elapsed time has earned,
    /// stopping early once a play-once clip finishes; a clip of at most one
    /// frame is marked finished.
    pub fn play(&mut self, frames: usize, looping: bool, due: u64)
        ensures
            *final(self) == played(*old(self), frames, looping, due as nat),
    {
        if self.advances(frames, looping) {
            let ghost start = *self;
            let mut taken: u64 = 0;
            while taken < due
                invariant_except_break
                    taken <= due,
                invariant
                    frames > 1,
                    *self == stepped_n(start, frames, looping, taken as nat),
                ensures
                    *self == stepped_n(start, frames, looping, due as nat),
                decreases due - taken,
            {
                let go_on = self.step(frames, looping);
                taken = taken + 1;
                if !go_on {
                    proof {
                        lemma_finished_once_clip_holds(*self, frames, (due - taken) as nat);
                        lemma_stepped_n_add(start, frames, looping, taken as nat, (due - taken) as nat);
                        assert(taken as nat + (due - taken) as nat == due as nat);
                    }
                    break;
                }
            }
        } else {
            self.settle_still(frames);
        }
    }
}

/// Stepping never leaves the clip: the frame stays below the frame count.
pub proof fn law_step_stays_in_clip(p: AnimationPlayer, frames: usize, looping: bool, n: nat)
    requires
        frames >= 1,
        p.frame < frames,
    ensures
        stepped_n(p, frames, looping, n).frame < frames,
        stepped_n(p, frames, looping, n).current == p.current,
    decreases n,
{
    if n > 0 {
        law_step_stays_in_clip(p, frames, looping, (n - 1) as nat);
    }
}

/// A looping clip never finishes by stepping.
pub proof fn law_looping_never_finishes(p: AnimationPlayer, frames: usize, n: nat)
    requires
        !p.finished,
    ensures
        !stepped_n(p, frames, true, n).finished,
    decreases n,
{
    if n > 0 {
        law_looping_never_finishes(p, frames, (n - 1) as nat);
    }
}

/// From its first frame, a clip that plays once shows each frame in turn;
/// the step after its last frame finishes it, and it stays on that frame.
pub proof fn law_once_clip_finishes_on_last_frame(p: AnimationPlayer, frames: usize, n: nat)
    requires
        frames >= 1,
        p.frame == 0,
        !p.finished,
    ensures
        n < frames ==> stepped_n(p, frames, false, n).frame == n && !stepped_n(p, frames, false, n).finished,
        n >= frames ==> stepped_n(p, frames, false, n).frame == frames - 1 && stepped_n(p, frames, false, n).finished,
    decreases n,
{
    if n > 0 {
        law_once_clip_finishes_on_last_frame(p, frames, (n - 1) as nat);
    }
}


/// One frame of playback, following the entity's state and then playing the
/// steps earned, keeps the cursor on that state and inside its clip; a clip
/// of at most one frame is finished, and a play-once clip that had already
/// finished on this state holds where it is.
pub proof fn law_one_frame_stays_in_clip(
    p: AnimationPlayer,
    state: ActorState,
    frames: usize,
    looping: bool,
    due: nat,
)
    requires
        frames >= 1,
        p.current == Some(state) ==> p.frame < frames,
    ensures
        played(synced(p, state), frames, looping, due).current == Some(state),
        played(synced(p, state), frames, looping, due).frame < frames,
        frames <= 1 ==> played(synced(p, state), frames, looping, due).finished,
        !looping && p.finished && p.current == Some(state) ==> played(synced(p, state), frames, looping, due) == p,
{
    law_step_stays_in_clip(synced(p, state), frames, looping, due);
}

} // verus!
