//! What the process launcher reports of the child: that it was started,
//! that it could not be, or how it ended.

use vstd::prelude::*;

verus! {

/// The running child, by its process identifier.
#[derive(Clone, Copy, Debug, PartialEq, Eq, Structural)]
pub struct ProcessHandle {
    pub pid: i32,
}

/// Why the child could not be started, in the launcher's words.
#[derive(Clone, Debug, PartialEq, Eq)]
pub struct SpawnError {
    pub message: String,
}

/// One report from the launcher.
#[derive(Clone, Debug, PartialEq, Eq)]
pub enum ProcessOutcome {
    /// The child runs.
    Spawned(ProcessHandle),
    /// No child: the program was not found, or the system refused.
    SpawnFailed(SpawnError),
    /// The child has ended, with this status. A child that a signal ended
    /// is reported with a status other than zero.
    Exited(i32),
}

/// A launcher's report as mathematical values.
pub enum ProcessOutcomeView {
    Spawned(ProcessHandle),
    SpawnFailed(Seq<char>),
    Exited(i32),
}

impl View for ProcessOutcome {
    type V = ProcessOutcomeView;

    open spec fn view(&self) -> ProcessOutcomeView {
        match *self {
            ProcessOutcome::Spawned(handle) => ProcessOutcomeView::Spawned(handle),
            ProcessOutcome::SpawnFailed(error) => ProcessOutcomeView::SpawnFailed(error.message@),
            ProcessOutcome::Exited(status) => ProcessOutcomeView::Exited(status),
        }
    }
}

} // verus!
