//! The scripted capture mode: a run that starts a level on its own, takes a
//! fixed number of numbered screenshots at an interval, then quits.
use vstd::prelude::*;

verus! {

/// Screenshot bookkeeping for a capture run.
#[derive(Debug, Clone, Copy, PartialEq, Eq, Structural)]
pub struct Capture {
    /// Screenshots still to take.
    pub remaining: u32,
    /// Number of the next screenshot.
    pub index: u32,
    /// The level has been started.
    pub started: bool,
}

/// What the capture does this frame.
#[derive(Debug, Clone, Copy, PartialEq, Eq, Structural)]
pub struct CaptureStep {
    /// Take the screenshot with this number.
    pub shot: Option<u32>,
    /// Load the chosen level and start playing.
    pub start: bool,
    /// Quit the application.
    pub exit: bool,
}

impl Capture {
    /// The numbering never runs out: every screenshot still to take gets a
    /// number.
    pub open spec fn wf(self) -> bool {
        self.index + self.remaining <= u32::MAX
    }

    /// A capture of `shots` screenshots, not started.
    pub fn new(shots: u32) -> (r: Self)
        ensures
            r.remaining == shots,
            r.index == 0,
            !r.started,
            r.wf(),
    {
        Capture { remaining: shots, index: 0, started: false }
    }

    /// One frame of the capture. `interval_elapsed` when the shot interval has
    /// run out this frame; `may_start` when the start delay is over and the
    /// main menu is showing. Before the level starts, due shots are taken
    /// while any remain and the level starts as soon as it may; after, each
    /// due interval takes the next shot, or quits once none remain.
    pub fn step(&mut self, interval_elapsed: bool, may_start: bool) -> (r: CaptureStep)
        requires
            old(self).wf(),
        ensures
            final(self).wf(),
            final(self).index + final(self).remaining == old(self).index + old(self).remaining,
            r.shot matches Some(n) ==> n == old(self).index && final(self).index == n + 1
                && final(self).remaining == old(self).remaining - 1,
            r.shot is None ==> final(self).index == old(self).index,
            r.shot is Some <==> (interval_elapsed && old(self).remaining > 0),
            !old(self).started ==> {
                &&& r.start == may_start
                &&& final(self).started == may_start
                &&& !r.exit
            },
            old(self).started ==> {
                &&& !r.start
                &&& final(self).started
                &&& r.exit == (interval_elapsed && old(self).remaining == 0)
            },
    {
        let mut shot = None;
        if interval_elapsed && self.remaining > 0 {
            shot = Some(self.index);
            self.remaining = self.remaining - 1;
            self.index = self.index + 1;
        }
        if !self.started {
            if may_start {
                self.started = true;
            }
            CaptureStep { shot, start: may_start, exit: false }
        } else {
            CaptureStep { shot, start: false, exit: interval_elapsed && shot.is_none() }
        }
    }
}

} // verus!
