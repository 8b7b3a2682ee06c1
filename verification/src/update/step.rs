use vstd::prelude::*;

use crate::error::UpdateError;
use crate::progress::Progress;

verus! {

/// What a step asks the engine to do next: stop as cancelled, stop
/// successfully ahead of the remaining steps, or advance.
#[derive(Debug)]
pub enum StepAction {
    Cancel,
    Complete,
    Continue,
}

/// One unit of work in an update procedure, run by the engine against a
/// shared payload.
pub trait UpdateStep<T> {
    /// Performs the step's work, mutating the shared payload and
    /// reporting through the shared progress.
    fn exec(&self, data: &mut T, progress: &mut Progress) -> Result<StepAction, UpdateError>;

    /// A post-condition check the engine runs after a step continues;
    /// a step without one passes by default.
    fn verify(&self, data: &T) -> bool {
        true
    }

    /// A short description of the step for display, without side effects.
    fn label(&self, data: &T) -> String;
}

/// What the engine observed of one executed step. A run's record is the
/// sequence of these, one for each step that actually ran.
pub enum StepOutcome {
    /// The step continued and its check passed.
    Continue,
    /// The step continued cleanly, but the shared progress was found
    /// flagged cancelled, so the run stopped as cancelled.
    Flagged,
    /// The step asked to stop successfully, skipping the remaining steps.
    Complete,
    /// The step observed a cancellation request and stopped the run.
    Cancel,
    /// The step continued but its post-condition check failed.
    VerifyFailed,
    /// The step failed, aborting the run with its error.
    Error(UpdateError),
}

} // verus!
