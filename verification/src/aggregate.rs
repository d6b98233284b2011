//! The outcome aggregator: collects the outcome of every supervisor and
//! combines them into the disposition of the whole process.

use crate::trace::{lemma_one_report, occurrences, run};
use crate::machine::{initial, Action, Event, Phase};
use crate::outcome::{Outcome, OutcomeKind};
use vstd::prelude::*;

verus! {

/// The exit code of a process whose commands all completed or were
/// terminated by the shutdown.
pub const EXIT_SUCCESS: u32 = 0;

/// The exit code of a process with a command that failed or a supervisor
/// that was lost.
pub const EXIT_FAILURE: u32 = 1;

/// What the aggregator knows of one command.
#[derive(Clone, Debug, PartialEq, Eq)]
pub enum Slot {
    /// The supervisor has not finished yet.
    Pending,
    /// The supervisor finished with this outcome.
    Reported(OutcomeKind),
    /// The supervisor could not be joined: its worker crashed or was lost.
    /// This is a failure of the aggregation, not an outcome of the command.
    Lost,
}

/// The combined result.
#[derive(Clone, Copy, Debug, PartialEq, Eq, Structural)]
pub enum Disposition {
    /// Some supervisor has not finished yet.
    Waiting,
    /// Every command completed or was terminated by the shutdown.
    Success,
    /// A command could not be spawned or waited for, or a supervisor was
    /// lost.
    Failure,
}

/// Whether every supervisor has finished or was given up as lost.
pub open spec fn complete(slots: Seq<Slot>) -> bool {
    forall|i: int| 0 <= i < slots.len() ==> !(#[trigger] slots[i] is Pending)
}

/// Whether a slot holds an outcome that does not fail the process. How the
/// subprocess exited does not matter: a nonzero exit status is a completion.
pub open spec fn passes(slot: Slot) -> bool {
    slot matches Slot::Reported(kind) && kind.acceptable()
}

/// Whether every command completed or was terminated by the shutdown, and no
/// supervisor was lost.
pub open spec fn successful(slots: Seq<Slot>) -> bool {
    forall|i: int| 0 <= i < slots.len() ==> passes(#[trigger] slots[i])
}

/// The combined result of `slots`.
pub open spec fn disposition(slots: Seq<Slot>) -> Disposition {
    if !complete(slots) {
        Disposition::Waiting
    } else if successful(slots) {
        Disposition::Success
    } else {
        Disposition::Failure
    }
}

/// The exit code of the process for a combined result; none while a
/// supervisor is still running.
pub open spec fn exit_code(d: Disposition) -> Option<u32> {
    match d {
        Disposition::Waiting => None,
        Disposition::Success => Some(EXIT_SUCCESS),
        Disposition::Failure => Some(EXIT_FAILURE),
    }
}

/// Whether a result for the command at `index` is still taken: the command
/// is in the list and nothing was recorded for it.
pub open spec fn accepts(slots: Seq<Slot>, index: usize) -> bool {
    index < slots.len() && slots[index as int] is Pending
}

/// The slots after `slot` is recorded for the command at `index`. The first
/// result of a command stands; a second one, or one for a command that is not
/// in the list, changes nothing.
pub open spec fn recorded(slots: Seq<Slot>, index: usize, slot: Slot) -> Seq<Slot> {
    if accepts(slots, index) {
        slots.update(index as int, slot)
    } else {
        slots
    }
}

/// The outcomes that `slots` hold, by index.
pub open spec fn reported(slots: Seq<Slot>) -> Seq<Outcome>
    decreases slots.len(),
{
    if slots.len() == 0 {
        Seq::empty()
    } else {
        let before = reported(slots.drop_last());
        match slots.last() {
            Slot::Reported(kind) => before.push(
                Outcome { index: (slots.len() - 1) as usize, kind },
            ),
            _ => before,
        }
    }
}

/// What the aggregator holds when the supervisor of each command has been
/// driven through the events of its own trace and every supervisor that is
/// done has reported.
pub open spec fn collected(traces: Seq<Seq<Event>>) -> Seq<Slot> {
    Seq::new(
        traces.len(),
        |i: int|
            match run(initial(), traces[i]).phase {
                Phase::Done(kind) => Slot::Reported(kind),
                _ => Slot::Pending,
            },
    )
}

/// Collects one result per command, in whatever order the supervisors
/// finish.
pub struct Aggregator {
    slots: Vec<Slot>,
}

impl View for Aggregator {
    type V = Seq<Slot>;

    closed spec fn view(&self) -> Seq<Slot> {
        self.slots@
    }
}

impl Aggregator {
    /// An aggregator that waits for the supervisors of `n` commands.
    pub fn new(n: usize) -> (aggregator: Aggregator)
        ensures
            aggregator@ == Seq::new(n as nat, |i: int| Slot::Pending),
    {
        let mut slots: Vec<Slot> = Vec::new();
        let mut i: usize = 0;
        while i < n
            invariant
                i <= n,
                slots@ == Seq::new(i as nat, |j: int| Slot::Pending),
            decreases n - i,
        {
            slots.push(Slot::Pending);
            i = i + 1;
            assert(slots@ =~= Seq::new(i as nat, |j: int| Slot::Pending));
        }
        Aggregator { slots }
    }

    /// The number of commands.
    pub fn len(&self) -> (n: usize)
        ensures
            n == self@.len(),
    {
        self.slots.len()
    }

    fn put(&mut self, index: usize, slot: Slot) -> (accepted: bool)
        ensures
            final(self)@ == recorded(old(self)@, index, slot),
            accepted == accepts(old(self)@, index),
    {
        if index >= self.slots.len() {
            return false;
        }
        let pending = match &self.slots[index] {
            Slot::Pending => true,
            _ => false,
        };
        if pending {
            self.slots.set(index, slot);
        }
        pending
    }

    /// Records the outcome of a supervisor. Returns whether it was taken: the
    /// first result of each command stands, and a result for a command that
    /// is not in the list is dropped.
    pub fn record(&mut self, outcome: Outcome) -> (accepted: bool)
        ensures
            final(self)@ == recorded(old(self)@, outcome.index, Slot::Reported(outcome.kind)),
            accepted == accepts(old(self)@, outcome.index),
    {
        self.put(outcome.index, Slot::Reported(outcome.kind))
    }

    /// Records that the supervisor of the command at `index` could not be
    /// joined. Returns whether this was taken, as `record` does.
    pub fn record_lost(&mut self, index: usize) -> (accepted: bool)
        ensures
            final(self)@ == recorded(old(self)@, index, Slot::Lost),
            accepted == accepts(old(self)@, index),
    {
        self.put(index, Slot::Lost)
    }

    /// Whether every supervisor has finished or was given up as lost.
    pub fn is_complete(&self) -> (done: bool)
        ensures
            done == complete(self@),
    {
        let mut i: usize = 0;
        while i < self.slots.len()
            invariant
                i <= self.slots@.len(),
                forall|j: int| 0 <= j < i ==> !(#[trigger] self.slots@[j] is Pending),
            decreases self.slots@.len() - i,
        {
            match &self.slots[i] {
                Slot::Pending => {
                    return false;
                },
                _ => {},
            }
            i = i + 1;
        }
        true
    }

    /// The combined result of what was recorded so far.
    pub fn disposition(&self) -> (d: Disposition)
        ensures
            d == disposition(self@),
    {
        if !self.is_complete() {
            return Disposition::Waiting;
        }
        let mut i: usize = 0;
        while i < self.slots.len()
            invariant
                i <= self.slots@.len(),
                complete(self@),
                forall|j: int| 0 <= j < i ==> passes(#[trigger] self.slots@[j]),
            decreases self.slots@.len() - i,
        {
            let ok = match &self.slots[i] {
                Slot::Reported(kind) => kind.is_acceptable(),
                _ => false,
            };
            if !ok {
                assert(!passes(self.slots@[i as int]));
                return Disposition::Failure;
            }
            i = i + 1;
        }
        Disposition::Success
    }

    /// The exit code of the process: none while a supervisor is still
    /// running, then `EXIT_SUCCESS` if every command completed or was
    /// terminated by the shutdown and no supervisor was lost, and
    /// `EXIT_FAILURE` otherwise.
    pub fn exit_code(&self) -> (code: Option<u32>)
        ensures
            code == exit_code(disposition(self@)),
    {
        match self.disposition() {
            Disposition::Waiting => None,
            Disposition::Success => Some(EXIT_SUCCESS),
            Disposition::Failure => Some(EXIT_FAILURE),
        }
    }

    /// The outcomes recorded so far, by index.
    pub fn outcomes(&self) -> (outcomes: Vec<Outcome>)
        ensures
            outcomes@ == reported(self@),
    {
        let mut outcomes: Vec<Outcome> = Vec::new();
        let mut i: usize = 0;
        while i < self.slots.len()
            invariant
                i <= self.slots@.len(),
                outcomes@ == reported(self.slots@.take(i as int)),
            decreases self.slots@.len() - i,
        {
            proof {
                assert(self.slots@.take(i + 1).drop_last() =~= self.slots@.take(i as int));
            }
            match &self.slots[i] {
                Slot::Reported(kind) => {
                    outcomes.push(Outcome { index: i, kind: kind.duplicate() });
                },
                _ => {},
            }
            i = i + 1;
        }
        proof {
            assert(self.slots@.take(i as int) =~= self.slots@);
        }
        outcomes
    }
}

/// The order in which supervisors finish does not matter: recording the
/// results of two different commands in either order gives the same slots.
pub proof fn lemma_record_order_is_irrelevant(
    slots: Seq<Slot>,
    i: usize,
    a: Slot,
    j: usize,
    b: Slot,
)
    requires
        i != j,
    ensures
        recorded(recorded(slots, i, a), j, b) == recorded(recorded(slots, j, b), i, a),
{
    assert(recorded(recorded(slots, i, a), j, b) =~= recorded(recorded(slots, j, b), i, a));
}

/// One result per command: once a result was recorded for a command, a
/// second one changes nothing.
pub proof fn lemma_first_record_stands(slots: Seq<Slot>, i: usize, a: Slot, b: Slot)
    requires
        !(a is Pending),
    ensures
        recorded(recorded(slots, i, a), i, b) == recorded(slots, i, a),
{
}

/// Where every slot holds an outcome, there are as many outcomes as commands
/// and the outcome at each position is that of the command at that index.
pub proof fn lemma_all_reported(slots: Seq<Slot>)
    requires
        slots.len() <= usize::MAX,
        forall|i: int| 0 <= i < slots.len() ==> #[trigger] slots[i] is Reported,
    ensures
        reported(slots).len() == slots.len(),
        forall|i: int|
            0 <= i < slots.len() ==> #[trigger] reported(slots)[i] == (Outcome {
                index: i as usize,
                kind: slots[i]->Reported_0,
            }),
    decreases slots.len(),
{
    if slots.len() > 0 {
        lemma_all_reported(slots.drop_last());
    }
}

/// Exactly one outcome per command: when every supervisor has been driven to
/// `Done`, whatever its events were and wherever the cancellation fell among
/// them, each supervisor has asked for one report, the aggregator is complete
/// and holds as many outcomes as there are commands, and the outcome at each
/// index is that of the supervisor of that command.
pub proof fn lemma_one_outcome_per_command(traces: Seq<Seq<Event>>)
    requires
        traces.len() <= usize::MAX,
        forall|i: int| 0 <= i < traces.len() ==> #[trigger] run(initial(), traces[i]).phase is Done,
    ensures
        forall|i: int|
            0 <= i < traces.len() ==> #[trigger] occurrences(initial(), traces[i], Action::Report)
                == 1,
        complete(collected(traces)),
        reported(collected(traces)).len() == traces.len(),
        forall|i: int|
            0 <= i < traces.len() ==> (#[trigger] reported(collected(traces))[i]).index == i && run(
                initial(),
                traces[i],
            ).phase == Phase::Done(reported(collected(traces))[i].kind),
{
    let slots = collected(traces);
    assert forall|i: int| 0 <= i < slots.len() implies #[trigger] slots[i] is Reported by {
        assert(run(initial(), traces[i]).phase is Done);
    }
    lemma_all_reported(slots);
    assert forall|i: int| 0 <= i < traces.len() implies (#[trigger] reported(slots)[i]).index == i
        && run(initial(), traces[i]).phase == Phase::Done(reported(slots)[i].kind) by {
        assert(run(initial(), traces[i]).phase is Done);
        assert(slots[i] is Reported);
    }
    assert forall|i: int| 0 <= i < traces.len() implies #[trigger] occurrences(
        initial(),
        traces[i],
        Action::Report,
    ) == 1 by {
        assert(run(initial(), traces[i]).phase is Done);
        lemma_one_report(initial(), traces[i]);
    }
}

/// Commands are independent: what the supervisor of one command is driven
/// through, a failure included, changes nothing of what is collected for any
/// other command.
pub proof fn lemma_commands_are_independent(traces: Seq<Seq<Event>>, j: int, other: Seq<Event>)
    requires
        0 <= j < traces.len(),
    ensures
        collected(traces.update(j, other)).len() == collected(traces).len(),
        forall|i: int|
            0 <= i < traces.len() && i != j ==> #[trigger] collected(traces.update(j, other))[i]
                == collected(traces)[i],
{
}

/// With no commands there is nothing to wait for: the aggregation is
/// complete at once and succeeds.
pub proof fn lemma_no_commands_succeed()
    ensures
        disposition(Seq::<Slot>::empty()) == Disposition::Success,
        reported(Seq::<Slot>::empty()) == Seq::<Outcome>::empty(),
{
}

/// A nonzero exit status does not fail the process: the disposition depends
/// on the kinds of the outcomes alone.
pub proof fn lemma_success_ignores_exit_status(slots: Seq<Slot>)
    requires
        forall|i: int|
            0 <= i < slots.len() ==> (#[trigger] slots[i] is Reported) && (slots[i]->Reported_0
                is Completed || slots[i]->Reported_0 is TerminatedByCancellation),
    ensures
        disposition(slots) == Disposition::Success,
{
    assert forall|i: int| 0 <= i < slots.len() implies passes(#[trigger] slots[i]) by {
        assert(slots[i] is Reported);
    }
}

/// One failure fails the process: a command that could not be spawned or
/// waited for, or a lost supervisor, makes the disposition of a complete
/// aggregation `Failure`.
pub proof fn lemma_one_failure_fails(slots: Seq<Slot>, i: int)
    requires
        complete(slots),
        0 <= i < slots.len(),
        !passes(slots[i]),
    ensures
        disposition(slots) == Disposition::Failure,
{
}

} // verus!
