//! What a command's supervision ends with.

use vstd::prelude::*;

verus! {

/// The exit status of a subprocess as the operating system reported it: the
/// numeric exit code if the process exited, the signal number if a signal
/// ended it. Nothing is interpreted or mapped.
#[derive(Clone, Copy, Debug, PartialEq, Eq, Structural)]
pub struct ExitStatus {
    pub code: Option<i32>,
    pub signal: Option<i32>,
}

/// The final result of one command.
#[derive(Clone, Debug, PartialEq, Eq)]
pub enum OutcomeKind {
    /// The subprocess exited by itself with this status.
    Completed(ExitStatus),
    /// The subprocess was terminated because cancellation won the race.
    TerminatedByCancellation,
    /// The subprocess could not be created.
    SpawnFailed(String),
    /// The exit status could not be retrieved.
    WaitFailed(String),
}

impl OutcomeKind {
    /// An outcome is acceptable when the command ran to its end or was ended
    /// by the shutdown; a nonzero exit status is still a completion.
    pub open spec fn acceptable(self) -> bool {
        self is Completed || self is TerminatedByCancellation
    }

    /// Whether the outcome is a completion or a termination by cancellation.
    pub fn is_acceptable(&self) -> (ok: bool)
        ensures
            ok == self.acceptable(),
    {
        match self {
            OutcomeKind::Completed(_) => true,
            OutcomeKind::TerminatedByCancellation => true,
            OutcomeKind::SpawnFailed(_) => false,
            OutcomeKind::WaitFailed(_) => false,
        }
    }

    /// A copy of the outcome.
    pub fn duplicate(&self) -> (copy: OutcomeKind)
        ensures
            copy == *self,
    {
        match self {
            OutcomeKind::Completed(status) => OutcomeKind::Completed(*status),
            OutcomeKind::TerminatedByCancellation => OutcomeKind::TerminatedByCancellation,
            OutcomeKind::SpawnFailed(err) => OutcomeKind::SpawnFailed(err.clone()),
            OutcomeKind::WaitFailed(err) => OutcomeKind::WaitFailed(err.clone()),
        }
    }
}

/// The outcome of the command at `index` in the configured list.
#[derive(Clone, Debug, PartialEq, Eq)]
pub struct Outcome {
    pub index: usize,
    pub kind: OutcomeKind,
}

} // verus!
