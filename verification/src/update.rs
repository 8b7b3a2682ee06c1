pub mod procedure;
pub mod step;

pub use procedure::UpdateProcedure;
pub use step::{StepAction, StepOutcome, UpdateStep};
