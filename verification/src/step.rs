//! Events fed into the pipeline workflows.
//!
//! Each workflow in this library is a state machine: the current phase names
//! the external action the embedding program must perform next (an existence
//! check, or a tool/filesystem operation), and the program answers with one
//! `StepEvent`.  The machine itself never touches the outside world.
use vstd::prelude::*;

verus! {

/// Answer to the action requested by a workflow phase.
#[derive(Debug)]
pub enum StepEvent {
    /// Answer to an existence check: the path exists (or not).
    Exists(bool),
    /// Outcome of a tool invocation or filesystem operation:
    /// `Ok` carries the captured standard output, `Err` the diagnostic text.
    Ran(Result<String, String>),
}

} // verus!
