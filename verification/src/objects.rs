//! Moving and triggered platforms: escalators and falling platforms.
use vstd::prelude::*;
use crate::actor::Sign;

verus! {

/// Intensity of the warning torch lit on a falling platform.
pub const WARNING_TORCH_INTENSITY: i32 = 5;

/// The motion an escalator hands to whoever rides it: its travel direction
/// while running, none while stopped (a stopped escalator still blocks).
pub fn escalator_carry(running: bool, direction: Sign) -> (r: Sign)
    ensures
        r == (if running { direction } else { Sign::Zero }),
{
    if running {
        direction
    } else {
        Sign::Zero
    }
}

/// Lifecycle of a falling platform.
#[derive(Debug, Clone, Copy, PartialEq, Eq, Structural)]
pub enum FallStage {
    Idle,
    /// Stepped on: lit by a torch, about to drop.
    Warning,
    /// Dropping out of the level.
    Falling,
}

/// A falling platform's stage, and whether its warning torch was lit.
#[derive(Debug, Clone, Copy, PartialEq, Eq, Structural)]
pub struct FallingPlatform {
    pub stage: FallStage,
    pub torch_lit: bool,
}

impl Default for FallingPlatform {
    fn default() -> (r: Self)
        ensures
            r.stage == FallStage::Idle,
            !r.torch_lit,
    {
        FallingPlatform { stage: FallStage::Idle, torch_lit: false }
    }
}

/// Position of a stage in the lifecycle.
pub open spec fn stage_rank(stage: FallStage) -> int {
    match stage {
        FallStage::Idle => 0,
        FallStage::Warning => 1,
        FallStage::Falling => 2,
    }
}

/// The stage after something lands on the platform.
pub open spec fn triggered(stage: FallStage) -> FallStage {
    if stage == FallStage::Idle { FallStage::Warning } else { stage }
}

/// The stage after one frame.
pub open spec fn advanced_stage(stage: FallStage, warning_over: bool) -> FallStage {
    if stage == FallStage::Warning && warning_over { FallStage::Falling } else { stage }
}

/// What the engine must do for a falling platform this frame.
#[derive(Debug, Clone, Copy, PartialEq, Eq, Structural)]
pub struct FallActions {
    /// Show the falling animation, mark the surface as falling (so it is
    /// not triggered again) and light the warning torch.
    pub warn: bool,
    /// Put the torch out and start the drop from where the platform is.
    pub drop: bool,
    /// The drop is over: remove the platform and its torch.
    pub remove: bool,
}

impl FallingPlatform {
    /// Something landed on the platform: an idle platform starts its
    /// warning; one already warning or falling is unaffected.
    pub fn trigger_fall(&mut self)
        ensures
            final(self).stage == triggered(old(self).stage),
            final(self).torch_lit == old(self).torch_lit,
    {
        if self.stage == FallStage::Idle {
            self.stage = FallStage::Warning;
        }
    }

    /// Advances the platform by one frame, given whether the warning time
    /// and the drop have run out.
    pub fn advance(&mut self, warning_over: bool, drop_over: bool) -> (r: FallActions)
        ensures
            final(self).stage == advanced_stage(old(self).stage, warning_over),
            old(self).stage == FallStage::Idle ==> *final(self) == *old(self) && !r.warn && !r.drop && !r.remove,
            old(self).stage == FallStage::Warning ==> {
                &&& r.warn == !old(self).torch_lit
                &&& final(self).torch_lit
                &&& r.drop == warning_over
                &&& final(self).stage == (if warning_over { FallStage::Falling } else { FallStage::Warning })
                &&& !r.remove
            },
            old(self).stage == FallStage::Falling ==> *final(self) == *old(self) && !r.warn && !r.drop
                && r.remove == drop_over,
    {
        match self.stage {
            FallStage::Idle => FallActions { warn: false, drop: false, remove: false },
            FallStage::Warning => {
                let warn = !self.torch_lit;
                self.torch_lit = true;
                if warning_over {
                    self.stage = FallStage::Falling;
                }
                FallActions { warn, drop: warning_over, remove: false }
            },
            FallStage::Falling => FallActions { warn: false, drop: false, remove: drop_over },
        }
    }
}

/// A platform's lifecycle only moves forward: once warned it never becomes
/// idle again, and once falling it keeps falling; landing on it again does
/// not restart it.
pub proof fn law_fall_only_moves_forward(stage: FallStage, warning_over: bool)
    ensures
        stage_rank(triggered(stage)) >= stage_rank(stage),
        stage_rank(advanced_stage(stage, warning_over)) >= stage_rank(stage),
        stage != FallStage::Idle ==> triggered(stage) == stage,
        triggered(triggered(stage)) == triggered(stage),
{
}

} // verus!
