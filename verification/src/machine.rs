//! The lifecycle of one supervised command as a state machine: a function
//! from the current state and an event to the next state, the work to do next
//! and the log message for the step.

use crate::outcome::{ExitStatus, OutcomeKind};
use vstd::prelude::*;

verus! {

/// The steps of terminating a subprocess after cancellation won the race.
#[derive(Clone, Copy, Debug, PartialEq, Eq, Structural)]
pub enum Stage {
    /// Checking whether the subprocess has exited by itself in the interim.
    Probing,
    /// The kill request is on its way.
    Killing,
    /// The kill was accepted; waiting for the status of the dead process.
    Reaping,
}

/// Where a supervisor is in its lifecycle.
#[derive(Clone, Debug, PartialEq, Eq)]
pub enum Phase {
    /// The supervisor was created and not started yet.
    NotStarted,
    /// The command is being launched.
    Spawning,
    /// The subprocess runs; its exit and the cancellation token race.
    Racing,
    /// Cancellation won the race; the subprocess is being terminated.
    Terminating(Stage),
    /// The lifecycle has ended with this outcome.
    Done(OutcomeKind),
}

/// The state of one supervisor.
#[derive(Clone, Debug, PartialEq, Eq)]
pub struct State {
    pub phase: Phase,
    /// Whether the paired cancellation token has been observed as fired.
    pub cancel_seen: bool,
}

/// What the driver of a supervisor reports back to it.
#[derive(Clone, Debug, PartialEq, Eq)]
pub enum Event {
    /// The supervisor is started.
    Start,
    /// The subprocess was created.
    Spawned,
    /// The subprocess could not be created.
    SpawnError(String),
    /// A wait or a status query returned the exit status of the subprocess.
    Exited(ExitStatus),
    /// A status query found the subprocess still running.
    StillRunning,
    /// A wait or a status query failed.
    WaitError(String),
    /// The paired cancellation token was observed as fired.
    Cancelled,
    /// The operating system accepted the kill request.
    Killed,
    /// The kill request was rejected.
    KillError(String),
}

/// The work that the driver of a supervisor does next.
#[derive(Clone, Copy, Debug, PartialEq, Eq, Structural)]
pub enum Action {
    /// Nothing: the event did not move the supervisor to another phase.
    Idle,
    /// Launch the command through the shell and report `Spawned` or
    /// `SpawnError`.
    Spawn,
    /// Wait for the first of the subprocess's exit and the cancellation token,
    /// abandon the other wait, and report `Exited`, `WaitError` or `Cancelled`.
    Race,
    /// Query the subprocess without blocking and report `Exited`,
    /// `StillRunning` or `WaitError`.
    Probe,
    /// Request the termination of the subprocess and report `Killed` or
    /// `KillError`.
    Kill,
    /// Wait for the status of the killed subprocess and report `Exited` or
    /// `WaitError`.
    Reap,
    /// Hand the outcome to the aggregator.
    Report,
}

/// What a step is logged as.
#[derive(Clone, Copy, Debug, PartialEq, Eq, Structural)]
pub enum Message {
    /// The supervisor was started and launches its command.
    Launching,
    /// The subprocess was created.
    Spawned,
    /// The subprocess could not be created.
    SpawnFailed,
    /// The subprocess exited by itself.
    Exited,
    /// The wait for the subprocess's exit failed.
    WaitFailed,
    /// The cancellation token was observed as fired for the first time.
    CancellationObserved,
    /// Cancellation won the race, but the subprocess had exited by itself.
    AlreadyExited,
    /// The subprocess is still running and is killed.
    Killing,
    /// The subprocess could not be queried and is killed.
    ProbeFailed,
    /// The kill request was accepted.
    Killed,
    /// The kill request was rejected: the termination failed.
    TerminationFailed,
    /// The end of the killed subprocess was confirmed.
    Terminated,
    /// The status of the killed subprocess could not be retrieved.
    StatusLost,
}

/// The state of a supervisor before it is started.
pub open spec fn initial() -> State {
    State { phase: Phase::NotStarted, cancel_seen: false }
}

/// The states that a supervisor can be in: the race is only entered without
/// a cancellation, and termination only after one.
pub open spec fn wf(s: State) -> bool {
    &&& s.phase is Racing ==> !s.cancel_seen
    &&& s.phase is Terminating ==> s.cancel_seen
    &&& s.phase == Phase::Done(OutcomeKind::TerminatedByCancellation) ==> s.cancel_seen
}

/// The state after `e` is reported in state `s`. Events that the phase does
/// not wait for leave the state as it is; `Done` is final.
pub open spec fn next(s: State, e: Event) -> State {
    match (s.phase, e) {
        (Phase::NotStarted, Event::Start) => State { phase: Phase::Spawning, ..s },
        (Phase::NotStarted, Event::Cancelled) => State { cancel_seen: true, ..s },
        (Phase::Spawning, Event::Cancelled) => State { cancel_seen: true, ..s },
        (Phase::Spawning, Event::Spawned) => if s.cancel_seen {
            State { phase: Phase::Terminating(Stage::Probing), ..s }
        } else {
            State { phase: Phase::Racing, ..s }
        },
        (Phase::Spawning, Event::SpawnError(err)) => State {
            phase: Phase::Done(OutcomeKind::SpawnFailed(err)),
            ..s
        },
        (Phase::Racing, Event::Exited(status)) => State {
            phase: Phase::Done(OutcomeKind::Completed(status)),
            ..s
        },
        (Phase::Racing, Event::WaitError(err)) => State {
            phase: Phase::Done(OutcomeKind::WaitFailed(err)),
            ..s
        },
        (Phase::Racing, Event::Cancelled) => State {
            phase: Phase::Terminating(Stage::Probing),
            cancel_seen: true,
        },
        (Phase::Terminating(Stage::Probing), Event::Exited(status)) => State {
            phase: Phase::Done(OutcomeKind::Completed(status)),
            ..s
        },
        (Phase::Terminating(Stage::Probing), Event::StillRunning) => State {
            phase: Phase::Terminating(Stage::Killing),
            ..s
        },
        (Phase::Terminating(Stage::Probing), Event::WaitError(_)) => State {
            phase: Phase::Terminating(Stage::Killing),
            ..s
        },
        (Phase::Terminating(Stage::Killing), Event::Killed) => State {
            phase: Phase::Terminating(Stage::Reaping),
            ..s
        },
        (Phase::Terminating(Stage::Killing), Event::KillError(_)) => State {
            phase: Phase::Done(OutcomeKind::TerminatedByCancellation),
            ..s
        },
        (Phase::Terminating(Stage::Reaping), Event::Exited(_)) => State {
            phase: Phase::Done(OutcomeKind::TerminatedByCancellation),
            ..s
        },
        (Phase::Terminating(Stage::Reaping), Event::WaitError(err)) => State {
            phase: Phase::Done(OutcomeKind::WaitFailed(err)),
            ..s
        },
        _ => s,
    }
}

/// The work that a phase waits on.
pub open spec fn pending(phase: Phase) -> Action {
    match phase {
        Phase::NotStarted => Action::Idle,
        Phase::Spawning => Action::Spawn,
        Phase::Racing => Action::Race,
        Phase::Terminating(Stage::Probing) => Action::Probe,
        Phase::Terminating(Stage::Killing) => Action::Kill,
        Phase::Terminating(Stage::Reaping) => Action::Reap,
        Phase::Done(_) => Action::Report,
    }
}

/// The work to do after `e` is reported in state `s`: what the new phase
/// waits on, and nothing where the phase did not change.
pub open spec fn action(s: State, e: Event) -> Action {
    if next(s, e).phase == s.phase {
        Action::Idle
    } else {
        pending(next(s, e).phase)
    }
}

/// The log message for reporting `e` in state `s`: one for every step that
/// changes the state, none for an event that is ignored.
pub open spec fn message(s: State, e: Event) -> Option<Message> {
    match (s.phase, e) {
        (Phase::NotStarted, Event::Start) => Some(Message::Launching),
        (Phase::NotStarted, Event::Cancelled) | (Phase::Spawning, Event::Cancelled) => {
            if s.cancel_seen {
                None
            } else {
                Some(Message::CancellationObserved)
            }
        },
        (Phase::Spawning, Event::Spawned) => Some(Message::Spawned),
        (Phase::Spawning, Event::SpawnError(_)) => Some(Message::SpawnFailed),
        (Phase::Racing, Event::Exited(_)) => Some(Message::Exited),
        (Phase::Racing, Event::WaitError(_)) => Some(Message::WaitFailed),
        (Phase::Racing, Event::Cancelled) => Some(Message::CancellationObserved),
        (Phase::Terminating(Stage::Probing), Event::Exited(_)) => Some(Message::AlreadyExited),
        (Phase::Terminating(Stage::Probing), Event::StillRunning) => Some(Message::Killing),
        (Phase::Terminating(Stage::Probing), Event::WaitError(_)) => Some(Message::ProbeFailed),
        (Phase::Terminating(Stage::Killing), Event::Killed) => Some(Message::Killed),
        (Phase::Terminating(Stage::Killing), Event::KillError(_)) => Some(
            Message::TerminationFailed,
        ),
        (Phase::Terminating(Stage::Reaping), Event::Exited(_)) => Some(Message::Terminated),
        (Phase::Terminating(Stage::Reaping), Event::WaitError(_)) => Some(Message::StatusLost),
        _ => None,
    }
}

/// A step keeps a state among those that a supervisor can be in.
pub proof fn lemma_step_keeps_wf(s: State, e: Event)
    requires
        wf(s),
    ensures
        wf(next(s, e)),
{
}

/// What `advance` returns.
pub struct Advance {
    pub state: State,
    pub action: Action,
    pub message: Option<Message>,
}

impl State {
    /// The state of a supervisor before it is started.
    pub fn new() -> (s: State)
        ensures
            s == initial(),
    {
        State { phase: Phase::NotStarted, cancel_seen: false }
    }

    /// Takes one step of the state machine.
    pub fn advance(self, event: Event) -> (r: Advance)
        ensures
            r.state == next(self, event),
            r.action == action(self, event),
            r.message == message(self, event),
    {
        let cancel_seen = self.cancel_seen;
        match self.phase {
            Phase::NotStarted => match event {
                Event::Start => Advance {
                    state: State { phase: Phase::Spawning, cancel_seen },
                    action: Action::Spawn,
                    message: Some(Message::Launching),
                },
                Event::Cancelled => Advance {
                    state: State { phase: Phase::NotStarted, cancel_seen: true },
                    action: Action::Idle,
                    message: if cancel_seen {
                        None
                    } else {
                        Some(Message::CancellationObserved)
                    },
                },
                _ => Advance {
                    state: State { phase: Phase::NotStarted, cancel_seen },
                    action: Action::Idle,
                    message: None,
                },
            },
            Phase::Spawning => match event {
                Event::Cancelled => Advance {
                    state: State { phase: Phase::Spawning, cancel_seen: true },
                    action: Action::Idle,
                    message: if cancel_seen {
                        None
                    } else {
                        Some(Message::CancellationObserved)
                    },
                },
                Event::Spawned => if cancel_seen {
                    Advance {
                        state: State { phase: Phase::Terminating(Stage::Probing), cancel_seen },
                        action: Action::Probe,
                        message: Some(Message::Spawned),
                    }
                } else {
                    Advance {
                        state: State { phase: Phase::Racing, cancel_seen },
                        action: Action::Race,
                        message: Some(Message::Spawned),
                    }
                },
                Event::SpawnError(err) => Advance {
                    state: State { phase: Phase::Done(OutcomeKind::SpawnFailed(err)), cancel_seen },
                    action: Action::Report,
                    message: Some(Message::SpawnFailed),
                },
                _ => Advance {
                    state: State { phase: Phase::Spawning, cancel_seen },
                    action: Action::Idle,
                    message: None,
                },
            },
            Phase::Racing => match event {
                Event::Exited(status) => Advance {
                    state: State {
                        phase: Phase::Done(OutcomeKind::Completed(status)),
                        cancel_seen,
                    },
                    action: Action::Report,
                    message: Some(Message::Exited),
                },
                Event::WaitError(err) => Advance {
                    state: State { phase: Phase::Done(OutcomeKind::WaitFailed(err)), cancel_seen },
                    action: Action::Report,
                    message: Some(Message::WaitFailed),
                },
                Event::Cancelled => Advance {
                    state: State { phase: Phase::Terminating(Stage::Probing), cancel_seen: true },
                    action: Action::Probe,
                    message: Some(Message::CancellationObserved),
                },
                _ => Advance {
                    state: State { phase: Phase::Racing, cancel_seen },
                    action: Action::Idle,
                    message: None,
                },
            },
            Phase::Terminating(Stage::Probing) => match event {
                Event::Exited(status) => Advance {
                    state: State {
                        phase: Phase::Done(OutcomeKind::Completed(status)),
                        cancel_seen,
                    },
                    action: Action::Report,
                    message: Some(Message::AlreadyExited),
                },
                Event::StillRunning => Advance {
                    state: State { phase: Phase::Terminating(Stage::Killing), cancel_seen },
                    action: Action::Kill,
                    message: Some(Message::Killing),
                },
                Event::WaitError(_) => Advance {
                    state: State { phase: Phase::Terminating(Stage::Killing), cancel_seen },
                    action: Action::Kill,
                    message: Some(Message::ProbeFailed),
                },
                _ => Advance {
                    state: State { phase: Phase::Terminating(Stage::Probing), cancel_seen },
                    action: Action::Idle,
                    message: None,
                },
            },
            Phase::Terminating(Stage::Killing) => match event {
                Event::Killed => Advance {
                    state: State { phase: Phase::Terminating(Stage::Reaping), cancel_seen },
                    action: Action::Reap,
                    message: Some(Message::Killed),
                },
                Event::KillError(_) => Advance {
                    state: State {
                        phase: Phase::Done(OutcomeKind::TerminatedByCancellation),
                        cancel_seen,
                    },
                    action: Action::Report,
                    message: Some(Message::TerminationFailed),
                },
                _ => Advance {
                    state: State { phase: Phase::Terminating(Stage::Killing), cancel_seen },
                    action: Action::Idle,
                    message: None,
                },
            },
            Phase::Terminating(Stage::Reaping) => match event {
                Event::Exited(_) => Advance {
                    state: State {
                        phase: Phase::Done(OutcomeKind::TerminatedByCancellation),
                        cancel_seen,
                    },
                    action: Action::Report,
                    message: Some(Message::Terminated),
                },
                Event::WaitError(err) => Advance {
                    state: State { phase: Phase::Done(OutcomeKind::WaitFailed(err)), cancel_seen },
                    action: Action::Report,
                    message: Some(Message::StatusLost),
                },
                _ => Advance {
                    state: State { phase: Phase::Terminating(Stage::Reaping), cancel_seen },
                    action: Action::Idle,
                    message: None,
                },
            },
            Phase::Done(kind) => Advance {
                state: State { phase: Phase::Done(kind), cancel_seen },
                action: Action::Idle,
                message: None,
            },
        }
    }
}

} // verus!
