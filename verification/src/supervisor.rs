//! The supervisor of one command: the state machine together with the
//! command it runs and its place in the configured list.

use crate::machine::{
    action, initial, lemma_step_keeps_wf, message, next, wf, Action, Event, Message, Phase, State,
};
use crate::outcome::{Outcome, OutcomeKind};
use crate::shell::{shell_flag, shell_invocation, shell_program, Platform, ShellInvocation};
use vstd::prelude::*;

verus! {

/// How grave a log line is.
#[derive(Clone, Copy, Debug, PartialEq, Eq, Structural)]
pub enum Severity {
    Debug,
    Info,
    Error,
}

/// One structured log line of a supervisor.
#[derive(Clone, Copy, Debug, PartialEq, Eq, Structural)]
pub struct LogLine {
    pub severity: Severity,
    pub index: usize,
    pub message: Message,
}

/// Failures are errors, the observation of cancellation and the decision to
/// kill are diagnostics, every other step is information.
pub open spec fn severity(m: Message) -> Severity {
    match m {
        Message::SpawnFailed => Severity::Error,
        Message::WaitFailed => Severity::Error,
        Message::ProbeFailed => Severity::Error,
        Message::TerminationFailed => Severity::Error,
        Message::StatusLost => Severity::Error,
        Message::CancellationObserved => Severity::Debug,
        Message::Killing => Severity::Debug,
        _ => Severity::Info,
    }
}

/// The log line of the command at `index` for a step with message `m`.
pub open spec fn log_line(index: usize, m: Option<Message>) -> Option<LogLine> {
    match m {
        Some(message) => Some(LogLine { severity: severity(message), index, message }),
        None => None,
    }
}

/// What a step of a supervisor hands to its driver: the work to do next and
/// the line to log.
#[derive(Clone, Copy, Debug, PartialEq, Eq, Structural)]
pub struct Step {
    pub action: Action,
    pub log: Option<LogLine>,
}

/// The supervisor of the command at `index` in the configured list.
pub struct Supervisor {
    index: usize,
    command: String,
    state: State,
}

impl View for Supervisor {
    type V = State;

    closed spec fn view(&self) -> State {
        self.state
    }
}

impl Supervisor {
    #[verifier::type_invariant]
    spec fn well_formed(self) -> bool {
        wf(self.state)
    }

    /// The place of the command in the configured list.
    pub closed spec fn spec_index(&self) -> usize {
        self.index
    }

    /// The command line.
    pub closed spec fn spec_command(&self) -> String {
        self.command
    }

    /// A supervisor that has not been started.
    pub fn new(index: usize, command: String) -> (s: Supervisor)
        ensures
            s@ == initial(),
            s.spec_index() == index,
            s.spec_command() == command,
    {
        Supervisor { index, command, state: State::new() }
    }

    /// The place of the command in the configured list.
    #[verifier::when_used_as_spec(spec_index)]
    pub fn index(&self) -> (index: usize)
        ensures
            index == self.spec_index(),
    {
        self.index
    }

    /// The command line, as it was configured.
    pub fn command(&self) -> (command: &String)
        ensures
            *command == self.spec_command(),
    {
        &self.command
    }

    /// The command line wrapped in the shell indirection of `platform`.
    pub fn invocation(&self, platform: Platform) -> (inv: ShellInvocation)
        ensures
            inv.program@ == shell_program(platform),
            inv.args@.len() == 2,
            inv.args@[0]@ == shell_flag(platform),
            inv.args@[1]@ == self.spec_command()@,
    {
        shell_invocation(platform, self.command.as_str())
    }

    /// Whether the supervisor has reached `Done`.
    pub fn is_done(&self) -> (done: bool)
        ensures
            done == (self@.phase is Done),
    {
        match &self.state.phase {
            Phase::Done(_) => true,
            _ => false,
        }
    }

    /// Whether the supervisor has observed its cancellation token as fired.
    pub fn cancel_seen(&self) -> (seen: bool)
        ensures
            seen == self@.cancel_seen,
            self@.phase is Terminating ==> seen,
            self@.phase is Racing ==> !seen,
            self@.phase == Phase::Done(OutcomeKind::TerminatedByCancellation) ==> seen,
    {
        proof {
            use_type_invariant(self);
        }
        self.state.cancel_seen
    }

    /// The phase that the supervisor is in.
    pub fn phase(&self) -> (phase: &Phase)
        ensures
            *phase == self@.phase,
    {
        &self.state.phase
    }

    /// Reports `event` to the supervisor. The supervisor moves to the next
    /// state of the machine and answers with the work to do next and the line
    /// to log. An event that the phase does not wait for is ignored.
    pub fn step(&mut self, event: Event) -> (step: Step)
        ensures
            final(self)@ == next(old(self)@, event),
            wf(final(self)@),
            final(self).spec_index() == old(self).spec_index(),
            final(self).spec_command() == old(self).spec_command(),
            step.action == action(old(self)@, event),
            step.log == log_line(old(self).spec_index(), message(old(self)@, event)),
    {
        proof {
            use_type_invariant(&*self);
            lemma_step_keeps_wf(self.state, event);
        }
        let mut state = State::new();
        core::mem::swap(&mut self.state, &mut state);
        let advance = state.advance(event);
        self.state = advance.state;
        let log = match advance.message {
            Some(message) => Some(
                LogLine { severity: severity_of(message), index: self.index, message },
            ),
            None => None,
        };
        Step { action: advance.action, log }
    }

    /// Starts the supervisor: the same as reporting `Event::Start`.
    pub fn start(&mut self) -> (step: Step)
        ensures
            final(self)@ == next(old(self)@, Event::Start),
            wf(final(self)@),
            final(self).spec_index() == old(self).spec_index(),
            final(self).spec_command() == old(self).spec_command(),
            step.action == action(old(self)@, Event::Start),
            step.log == log_line(old(self).spec_index(), message(old(self)@, Event::Start)),
    {
        self.step(Event::Start)
    }

    /// Ends the supervisor and hands out its outcome: `Some` exactly when it
    /// has reached `Done`.
    pub fn into_outcome(self) -> (outcome: Option<Outcome>)
        ensures
            outcome == match self@.phase {
                Phase::Done(kind) => Some(Outcome { index: self.spec_index(), kind }),
                _ => None,
            },
    {
        match self.state.phase {
            Phase::Done(kind) => Some(Outcome { index: self.index, kind }),
            _ => None,
        }
    }
}

/// The severity that a message is logged with.
pub fn severity_of(m: Message) -> (s: Severity)
    ensures
        s == severity(m),
{
    match m {
        Message::SpawnFailed => Severity::Error,
        Message::WaitFailed => Severity::Error,
        Message::ProbeFailed => Severity::Error,
        Message::TerminationFailed => Severity::Error,
        Message::StatusLost => Severity::Error,
        Message::CancellationObserved => Severity::Debug,
        Message::Killing => Severity::Debug,
        _ => Severity::Info,
    }
}

/// Every failure is logged as an error: the line for a step that reports a
/// failed spawn, wait, query or kill has the severity `Error`.
pub proof fn lemma_failures_are_errors(index: usize, s: State, e: Event)
    requires
        e is SpawnError || e is WaitError || e is KillError,
    ensures
        log_line(index, message(s, e)) matches Some(line) ==> line.severity == Severity::Error
            && line.index == index,
{
}

} // verus!
