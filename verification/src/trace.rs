//! What holds of every run of a supervisor, whatever its driver reports and
//! whenever cancellation arrives.

use crate::machine::{
    action, initial, lemma_step_keeps_wf, message, next, pending, wf, Action, Event, Phase, Stage,
    State,
};
use crate::outcome::{ExitStatus, OutcomeKind};
use vstd::prelude::*;

verus! {

/// How far a phase is along the lifecycle.
pub open spec fn rank(phase: Phase) -> nat {
    match phase {
        Phase::NotStarted => 0,
        Phase::Spawning => 1,
        Phase::Racing => 2,
        Phase::Terminating(Stage::Probing) => 3,
        Phase::Terminating(Stage::Killing) => 4,
        Phase::Terminating(Stage::Reaping) => 5,
        Phase::Done(_) => 6,
    }
}

/// Whether `e` is a result that the driver can report for the work `a`.
pub open spec fn answers(a: Action, e: Event) -> bool {
    match a {
        Action::Spawn => e is Spawned || e is SpawnError,
        Action::Race => e is Exited || e is WaitError || e is Cancelled,
        Action::Probe => e is Exited || e is StillRunning || e is WaitError,
        Action::Kill => e is Killed || e is KillError,
        Action::Reap => e is Exited || e is WaitError,
        Action::Idle => false,
        Action::Report => false,
    }
}

/// Whether `e` is what the phase of `s` waits for: the start before the
/// supervisor is started, and afterwards a result of the work that the phase
/// has asked for.
pub open spec fn expected(s: State, e: Event) -> bool {
    if s.phase is NotStarted {
        e is Start
    } else {
        answers(pending(s.phase), e)
    }
}

/// The state after the events of `events` are reported one after another,
/// starting in `s`.
pub open spec fn run(s: State, events: Seq<Event>) -> State
    decreases events.len(),
{
    if events.len() == 0 {
        s
    } else {
        next(run(s, events.drop_last()), events.last())
    }
}

/// How many steps of the run of `events` from `s` ask for the work `a`.
pub open spec fn occurrences(s: State, events: Seq<Event>, a: Action) -> nat
    decreases events.len(),
{
    if events.len() == 0 {
        0
    } else {
        let before = occurrences(s, events.drop_last(), a);
        if action(run(s, events.drop_last()), events.last()) == a {
            before + 1
        } else {
            before
        }
    }
}

/// How many events of the run of `events` from `s` are what the phase they
/// arrive in waits for.
pub open spec fn answered(s: State, events: Seq<Event>) -> nat
    decreases events.len(),
{
    if events.len() == 0 {
        0
    } else {
        let before = answered(s, events.drop_last());
        if expected(run(s, events.drop_last()), events.last()) {
            before + 1
        } else {
            before
        }
    }
}

/// Whether a cancellation is among `events`.
pub open spec fn cancelled_in(events: Seq<Event>) -> bool {
    exists|j: int| 0 <= j < events.len() && #[trigger] events[j] is Cancelled
}

/// Every state of a run that starts in a state that a supervisor can be in
/// is such a state.
pub proof fn lemma_run_keeps_wf(s: State, events: Seq<Event>)
    requires
        wf(s),
    ensures
        wf(run(s, events)),
    decreases events.len(),
{
    if events.len() > 0 {
        lemma_run_keeps_wf(s, events.drop_last());
        lemma_step_keeps_wf(run(s, events.drop_last()), events.last());
    }
}

/// An event that the phase waits for moves the supervisor strictly forward;
/// any other event leaves the phase as it is. No step goes back.
pub proof fn lemma_step_progress(s: State, e: Event)
    ensures
        expected(s, e) ==> rank(next(s, e).phase) > rank(s.phase),
        !expected(s, e) ==> next(s, e).phase == s.phase,
        expected(s, e) <==> action(s, e) != Action::Idle,
        rank(next(s, e).phase) <= 6,
{
}

/// The driver's loop is sound: the work that a step asks for is what the new
/// phase waits on, so whichever result of that work the driver reports next
/// moves the supervisor forward.
pub proof fn lemma_answer_moves_forward(s: State, e: Event, answer: Event)
    requires
        action(s, e) != Action::Idle,
        answers(action(s, e), answer),
    ensures
        expected(next(s, e), answer),
        rank(next(next(s, e), answer).phase) > rank(next(s, e).phase),
{
}

/// Bounded termination: every answered event moves the supervisor forward,
/// so a supervisor that starts in `s` is done once six events, less the rank
/// of `s`, have been answered, wherever cancellations fall among them.
pub proof fn lemma_bounded_progress(s: State, events: Seq<Event>)
    ensures
        rank(run(s, events).phase) >= rank(s.phase) + answered(s, events),
        answered(s, events) + rank(s.phase) <= 6,
        answered(s, events) + rank(s.phase) == 6 ==> run(s, events).phase is Done,
    decreases events.len(),
{
    if events.len() > 0 {
        lemma_bounded_progress(s, events.drop_last());
        lemma_step_progress(run(s, events.drop_last()), events.last());
    }
}

/// A step is logged exactly when it changes the state.
pub proof fn lemma_logged_iff_changed(s: State, e: Event)
    ensures
        message(s, e) is None <==> next(s, e) == s,
{
}

/// An outcome is reported only by the step that resolves the race or the
/// termination, and that step ends the lifecycle.
pub proof fn lemma_report_resolves(s: State, e: Event)
    ensures
        action(s, e) == Action::Report <==> !(s.phase is Done) && next(s, e).phase is Done,
        action(s, e) == Action::Report ==> e is SpawnError || e is Exited || e is WaitError
            || e is KillError,
{
}

/// `Done` is final: whatever is reported afterwards, a second stop request
/// or the late result of the abandoned wait, changes neither the state nor
/// the outcome, and asks for no work.
pub proof fn lemma_done_is_final(s: State, events: Seq<Event>, a: Action)
    requires
        s.phase is Done,
    ensures
        run(s, events) == s,
        a != Action::Idle ==> occurrences(s, events, a) == 0,
    decreases events.len(),
{
    if events.len() > 0 {
        lemma_done_is_final(s, events.drop_last(), a);
    }
}

/// Observing cancellation is idempotent: a second observation changes
/// nothing, asks for no work and is not logged.
pub proof fn lemma_cancel_is_idempotent(s: State)
    ensures
        next(next(s, Event::Cancelled), Event::Cancelled) == next(s, Event::Cancelled),
        action(next(s, Event::Cancelled), Event::Cancelled) == Action::Idle,
        message(next(s, Event::Cancelled), Event::Cancelled) is None,
{
}

/// Exactly one outcome: the run of a supervisor that is not yet done asks
/// for one report if it ends in `Done`, and for none otherwise.
pub proof fn lemma_one_report(s: State, events: Seq<Event>)
    requires
        !(s.phase is Done),
    ensures
        occurrences(s, events, Action::Report) == if run(s, events).phase is Done {
            1nat
        } else {
            0nat
        },
    decreases events.len(),
{
    if events.len() > 0 {
        let before = run(s, events.drop_last());
        lemma_one_report(s, events.drop_last());
        lemma_report_resolves(before, events.last());
    }
}

/// A subprocess is terminated at most once: no run asks for more than one
/// kill, and after the kill the supervisor is past probing.
pub proof fn lemma_kill_at_most_once(s: State, events: Seq<Event>)
    ensures
        occurrences(s, events, Action::Kill) <= 1,
        occurrences(s, events, Action::Kill) == 1 ==> rank(run(s, events).phase) >= 4,
        occurrences(s, events, Action::Kill) == 1 ==> !(run(s, events).phase matches Phase::Done(
            OutcomeKind::Completed(_),
        )),
    decreases events.len(),
{
    if events.len() > 0 {
        lemma_kill_at_most_once(s, events.drop_last());
        lemma_step_progress(run(s, events.drop_last()), events.last());
    }
}

/// A completed command was never asked to terminate: a run that ends in
/// `Completed` holds no kill.
pub proof fn lemma_completed_means_no_kill(events: Seq<Event>)
    requires
        run(initial(), events).phase matches Phase::Done(OutcomeKind::Completed(_)),
    ensures
        occurrences(initial(), events, Action::Kill) == 0,
{
    lemma_kill_at_most_once(initial(), events);
}

/// A terminated command was killed exactly once: a run from the initial
/// state that is past the probe of a termination, or that ended in
/// `TerminatedByCancellation`, holds one kill.
pub proof fn lemma_terminated_means_killed_once(events: Seq<Event>)
    ensures
        ({
            let phase = run(initial(), events).phase;
            phase == Phase::Terminating(Stage::Killing) || phase == Phase::Terminating(
                Stage::Reaping,
            ) || phase == Phase::Done(OutcomeKind::TerminatedByCancellation)
        }) ==> occurrences(initial(), events, Action::Kill) == 1,
    decreases events.len(),
{
    if events.len() > 0 {
        lemma_terminated_means_killed_once(events.drop_last());
        lemma_kill_at_most_once(initial(), events);
    }
}

/// A cancellation that a state remembers was reported: in a run from a state
/// that has seen none, `cancel_seen` implies a `Cancelled` among the events.
pub proof fn lemma_cancel_seen_was_reported(s: State, events: Seq<Event>)
    requires
        !s.cancel_seen,
        run(s, events).cancel_seen,
    ensures
        cancelled_in(events),
    decreases events.len(),
{
    if events.len() > 0 {
        let prefix = events.drop_last();
        if run(s, prefix).cancel_seen {
            lemma_cancel_seen_was_reported(s, prefix);
            let j = choose|j: int| 0 <= j < prefix.len() && #[trigger] prefix[j] is Cancelled;
            assert(events[j] is Cancelled);
        } else {
            assert(events[events.len() - 1] is Cancelled);
        }
    }
}

/// Termination is never issued before cancellation is observed: the step of
/// a run from the initial state that asks for the kill comes after a
/// `Cancelled`.
pub proof fn lemma_kill_only_after_cancellation(events: Seq<Event>, i: int)
    requires
        0 <= i < events.len(),
        action(run(initial(), events.take(i)), events[i]) == Action::Kill,
    ensures
        exists|j: int| 0 <= j < i && #[trigger] events[j] is Cancelled,
{
    let prefix = events.take(i);
    lemma_run_keeps_wf(initial(), prefix);
    lemma_cancel_seen_was_reported(initial(), prefix);
    let j = choose|j: int| 0 <= j < prefix.len() && #[trigger] prefix[j] is Cancelled;
    assert(events[j] is Cancelled);
}

/// No termination without cancellation: a run from the initial state that
/// ends in `TerminatedByCancellation` holds a `Cancelled`.
pub proof fn lemma_terminated_means_cancelled(events: Seq<Event>)
    requires
        run(initial(), events).phase == Phase::Done(OutcomeKind::TerminatedByCancellation),
    ensures
        cancelled_in(events),
{
    lemma_run_keeps_wf(initial(), events);
    lemma_cancel_seen_was_reported(initial(), events);
}

/// A natural exit that wins the race stands: the outcome is `Completed` with
/// the status reported, and a stop request that arrives afterwards, like
/// anything else in `later`, neither changes it nor asks for a kill.
pub proof fn lemma_exit_before_stop_is_completed(s: State, status: ExitStatus, later: Seq<Event>)
    requires
        s.phase is Racing,
    ensures
        action(s, Event::Exited(status)) == Action::Report,
        run(next(s, Event::Exited(status)), later).phase == Phase::Done(
            OutcomeKind::Completed(status),
        ),
        occurrences(next(s, Event::Exited(status)), later, Action::Kill) == 0,
{
    lemma_done_is_final(next(s, Event::Exited(status)), later, Action::Kill);
}

/// The benign race: when cancellation wins but the probe finds that the
/// subprocess has exited by itself, no kill is asked for and the outcome is
/// `Completed` with that status, whatever is reported later.
pub proof fn lemma_exit_found_by_probe_is_completed(
    s: State,
    status: ExitStatus,
    later: Seq<Event>,
)
    requires
        s.phase is Racing,
    ensures
        action(s, Event::Cancelled) == Action::Probe,
        action(next(s, Event::Cancelled), Event::Exited(status)) == Action::Report,
        run(next(next(s, Event::Cancelled), Event::Exited(status)), later).phase == Phase::Done(
            OutcomeKind::Completed(status),
        ),
        occurrences(
            next(next(s, Event::Cancelled), Event::Exited(status)),
            later,
            Action::Kill,
        ) == 0,
{
    lemma_done_is_final(
        next(next(s, Event::Cancelled), Event::Exited(status)),
        later,
        Action::Kill,
    );
}

/// Cancellation always leads to the probe: observed in the race it wins at
/// once, and observed before the subprocess exists it is remembered, so that
/// the supervisor goes from the spawn straight to the probe and never waits
/// in a race that it could not leave.
pub proof fn lemma_cancellation_leads_to_probe(s: State)
    ensures
        s.phase is Racing ==> next(s, Event::Cancelled).phase == Phase::Terminating(
            Stage::Probing,
        ),
        s.phase is Spawning ==> next(next(s, Event::Cancelled), Event::Spawned).phase
            == Phase::Terminating(Stage::Probing),
        s.phase is NotStarted ==> next(
            next(next(s, Event::Cancelled), Event::Start),
            Event::Spawned,
        ).phase == Phase::Terminating(Stage::Probing),
{
}

/// A stop request that wins against a subprocess that is still running, or
/// whose state cannot be queried, ends in `TerminatedByCancellation` within
/// three steps of the probe, provided that the kill is accepted and the wait
/// on the killed process returns: the kill is asked for once the probe has
/// answered, and the outcome is reported only when that wait has confirmed
/// the end of the process with `confirmed`.
pub proof fn lemma_stop_before_exit_is_terminated(
    s: State,
    probe: Event,
    confirmed: ExitStatus,
    later: Seq<Event>,
)
    requires
        s.phase == Phase::Terminating(Stage::Probing),
        probe is StillRunning || probe is WaitError,
    ensures
        ({
            let killing = next(s, probe);
            let reaping = next(killing, Event::Killed);
            let done = next(reaping, Event::Exited(confirmed));
            &&& action(s, probe) == Action::Kill
            &&& action(killing, Event::Killed) == Action::Reap
            &&& action(reaping, Event::Exited(confirmed)) == Action::Report
            &&& !(reaping.phase is Done)
            &&& run(done, later).phase == Phase::Done(OutcomeKind::TerminatedByCancellation)
        }),
{
    let killing = next(s, probe);
    let reaping = next(killing, Event::Killed);
    let done = next(reaping, Event::Exited(confirmed));
    lemma_done_is_final(done, later, Action::Kill);
}

/// `TerminatedByCancellation` is reported by two steps only: the wait on the
/// killed process returned its status, or the kill request was rejected.
pub proof fn lemma_terminated_is_confirmed_or_kill_failed(s: State, e: Event)
    requires
        !(s.phase is Done),
        next(s, e).phase == Phase::Done(OutcomeKind::TerminatedByCancellation),
    ensures
        (s.phase == Phase::Terminating(Stage::Reaping) && e is Exited) || (s.phase
            == Phase::Terminating(Stage::Killing) && e is KillError),
{
}

} // verus!
