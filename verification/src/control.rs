//! The control loop: when the display is redrawn, and when the loop gives up.
//!
//! The caller runs the loop: it takes a snapshot of the log, has the frame
//! rendered and drawn, and asks [`after_render`] what to do next.  A display
//! that cannot be drawn on ends the loop; the fault is handed back to the
//! caller and is not retried.

use vstd::prelude::*;

verus! {

/// Time between two redraws, in milliseconds.
pub const REFRESH_INTERVAL_MS: u32 = 1000;

/// The display could not be cleared or drawn on.
#[derive(Debug, Clone, Copy, PartialEq, Eq, Structural)]
pub struct DisplayFault;

/// What the control loop does after a redraw.
#[derive(Debug, Clone, Copy, PartialEq, Eq, Structural)]
pub enum LoopStep {
    /// Wait this many milliseconds, then redraw.
    Wait { millis: u32 },
    /// Leave the loop with this fault.
    Stop(DisplayFault),
}

/// The step that follows a redraw with the given outcome.
pub open spec fn step_after(outcome: Result<(), DisplayFault>) -> LoopStep {
    match outcome {
        Ok(()) => LoopStep::Wait { millis: REFRESH_INTERVAL_MS },
        Err(fault) => LoopStep::Stop(fault),
    }
}

/// Decides what follows a redraw: after a good one, wait for the refresh
/// interval; after a failed one, stop.
pub fn after_render(outcome: Result<(), DisplayFault>) -> (step: LoopStep)
    ensures
        step == step_after(outcome),
{
    match outcome {
        Ok(()) => LoopStep::Wait { millis: REFRESH_INTERVAL_MS },
        Err(fault) => LoopStep::Stop(fault),
    }
}

} // verus!
