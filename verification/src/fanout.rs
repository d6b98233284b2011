//! The cancellation fan-out: one observation of the stop signal fires the
//! cancellation token of every command.

use crate::token::CancellationToken;
use vstd::prelude::*;

verus! {

/// What one look at the stop signal found.
#[derive(Clone, Copy, Debug, PartialEq, Eq, Structural)]
pub enum StopPoll {
    /// No stop was requested yet.
    Quiet,
    /// The host asks the system to shut down.
    Requested,
    /// The stop signal is gone: no stop request can arrive any more.
    Disconnected,
}

/// Where the fan-out is.
#[derive(Clone, Copy, Debug, PartialEq, Eq, Structural)]
pub enum Watch {
    /// Waiting for the stop signal.
    Watching,
    /// The stop signal was observed and every token has fired.
    Fired,
    /// The stop signal was lost before it fired. This is fatal to the whole
    /// process: nothing else can shut it down.
    Failed,
}

/// The fan-out as contracts see it: where it is, and which tokens have fired.
pub struct FanOutView {
    pub watch: Watch,
    pub fired: Seq<bool>,
}

/// The state of the fan-out after a look at the stop signal found `poll`.
/// Only the first stop request fires the tokens; once the fan-out has fired
/// or failed, nothing changes it.
pub open spec fn observed(s: FanOutView, poll: StopPoll) -> FanOutView {
    match (s.watch, poll) {
        (Watch::Watching, StopPoll::Requested) => FanOutView {
            watch: Watch::Fired,
            fired: Seq::new(s.fired.len(), |i: int| true),
        },
        (Watch::Watching, StopPoll::Disconnected) => FanOutView { watch: Watch::Failed, ..s },
        _ => s,
    }
}

/// The tokens that a look at the stop signal fires, in the order in which
/// they fire: all of them by index at the first stop request, none otherwise.
pub open spec fn firing(s: FanOutView, poll: StopPoll) -> Seq<usize> {
    match (s.watch, poll) {
        (Watch::Watching, StopPoll::Requested) => Seq::new(s.fired.len(), |i: int| i as usize),
        _ => Seq::empty(),
    }
}

/// The tokens of a fan-out have fired together or not at all.
pub open spec fn consistent(s: FanOutView) -> bool {
    forall|i: int| 0 <= i < s.fired.len() ==> #[trigger] s.fired[i] == (s.watch is Fired)
}

/// One cancellation token per command, fired together.
pub struct FanOut {
    watch: Watch,
    tokens: Vec<CancellationToken>,
}

impl View for FanOut {
    type V = FanOutView;

    closed spec fn view(&self) -> FanOutView {
        FanOutView {
            watch: self.watch,
            fired: Seq::new(self.tokens@.len(), |i: int| self.tokens@[i].fired()),
        }
    }
}

impl FanOut {
    #[verifier::type_invariant]
    spec fn well_formed(self) -> bool {
        consistent(self@)
    }

    /// A fan-out with `n` pending tokens that waits for the stop signal.
    pub fn new(n: usize) -> (fan_out: FanOut)
        ensures
            fan_out@.watch == Watch::Watching,
            fan_out@.fired == Seq::new(n as nat, |i: int| false),
    {
        let mut tokens: Vec<CancellationToken> = Vec::new();
        let mut i: usize = 0;
        while i < n
            invariant
                i <= n,
                tokens@.len() == i,
                forall|j: int| 0 <= j < i ==> !(#[trigger] tokens@[j]).fired(),
            decreases n - i,
        {
            tokens.push(CancellationToken::new());
            i = i + 1;
        }
        let fan_out = FanOut { watch: Watch::Watching, tokens };
        assert(fan_out@.fired =~= Seq::new(n as nat, |i: int| false));
        fan_out
    }

    /// The number of tokens.
    pub fn len(&self) -> (n: usize)
        ensures
            n == self@.fired.len(),
    {
        self.tokens.len()
    }

    /// Where the fan-out is.
    pub fn watch(&self) -> (watch: Watch)
        ensures
            watch == self@.watch,
            consistent(self@),
    {
        proof {
            use_type_invariant(self);
        }
        self.watch
    }

    /// Whether the token of the command at `index` has fired. A command that
    /// is not in the list has no token, and nothing fired for it.
    pub fn is_fired(&self, index: usize) -> (fired: bool)
        ensures
            fired == (index < self@.fired.len() && self@.fired[index as int]),
            fired == (index < self@.fired.len() && self@.watch is Fired),
    {
        proof {
            use_type_invariant(self);
        }
        if index < self.tokens.len() {
            self.tokens[index].is_fired()
        } else {
            false
        }
    }

    /// Takes in one look at the stop signal. The first stop request fires
    /// every token in index order; the tokens fired are returned in the order
    /// in which they fired. Further requests, and requests after the signal
    /// was lost, fire nothing and change nothing.
    pub fn observe(&mut self, poll: StopPoll) -> (fired: Vec<usize>)
        ensures
            final(self)@ == observed(old(self)@, poll),
            fired@ == firing(old(self)@, poll),
            consistent(final(self)@),
    {
        proof {
            use_type_invariant(&*self);
        }
        let mut order: Vec<usize> = Vec::new();
        match self.watch {
            Watch::Watching => match poll {
                StopPoll::Quiet => {},
                StopPoll::Requested => {
                    let mut tokens: Vec<CancellationToken> = Vec::new();
                    core::mem::swap(&mut self.tokens, &mut tokens);
                    let n = tokens.len();
                    let mut i: usize = 0;
                    while i < n
                        invariant
                            i <= n,
                            tokens@.len() == n,
                            order@.len() == i,
                            forall|j: int| 0 <= j < i ==> (#[trigger] tokens@[j]).fired(),
                            forall|j: int| 0 <= j < i ==> #[trigger] order@[j] == j,
                        decreases n - i,
                    {
                        let mut token = tokens[i];
                        token.fire();
                        tokens.set(i, token);
                        order.push(i);
                        i = i + 1;
                    }
                    proof {
                        let after = FanOutView {
                            watch: Watch::Fired,
                            fired: Seq::new(n as nat, |i: int| tokens@[i].fired()),
                        };
                        assert(after.fired =~= observed(old(self)@, poll).fired);
                        assert(order@ =~= firing(old(self)@, poll));
                    }
                    *self = FanOut { watch: Watch::Fired, tokens };
                },
                StopPoll::Disconnected => {
                    self.watch = Watch::Failed;
                    assert(final(self)@.fired =~= old(self)@.fired);
                },
            },
            _ => {},
        }
        order
    }
}

/// The fan-out ends once: when a look at the stop signal has ended the
/// watch, by firing or by failing, a further look of any kind fires no token
/// and changes nothing.
pub proof fn lemma_watch_ends_once(
    s: FanOutView,
    first: StopPoll,
    again: StopPoll,
)
    requires
        !(observed(s, first).watch is Watching),
    ensures
        observed(observed(s, first), again) == observed(s, first),
        firing(observed(s, first), again) == Seq::<usize>::empty(),
{
}

/// Requesting the stop twice is the same as requesting it once: whatever the
/// fan-out was, after one stop request a further look at the stop signal, a
/// request or not, fires no token and changes nothing.
pub proof fn lemma_stop_request_is_idempotent(s: FanOutView, again: StopPoll)
    ensures
        observed(observed(s, StopPoll::Requested), again) == observed(s, StopPoll::Requested),
        firing(observed(s, StopPoll::Requested), again) == Seq::<usize>::empty(),
{
}

/// A stop request reaches every command: after the first request every token
/// has fired, and the tokens fired in index order.
pub proof fn lemma_stop_fires_every_token(s: FanOutView)
    requires
        s.watch is Watching,
    ensures
        observed(s, StopPoll::Requested).fired.len() == s.fired.len(),
        forall|i: int|
            0 <= i < s.fired.len() ==> #[trigger] observed(s, StopPoll::Requested).fired[i],
        firing(s, StopPoll::Requested).len() == s.fired.len(),
        forall|i: int| 0 <= i < s.fired.len() && i <= usize::MAX ==> #[trigger] firing(
            s,
            StopPoll::Requested,
        )[i] == i,
{
}

} // verus!
