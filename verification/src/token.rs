//! One-shot cancellation tokens.

use vstd::prelude::*;

verus! {

/// A one-shot signal with two states, pending and fired. Firing is
/// irreversible and idempotent.
#[derive(Clone, Copy, Debug, PartialEq, Eq, Structural)]
pub struct CancellationToken {
    fired: bool,
}

impl CancellationToken {
    /// Whether the token has fired.
    pub closed spec fn fired(&self) -> bool {
        self.fired
    }

    /// A pending token.
    pub fn new() -> (token: CancellationToken)
        ensures
            !token.fired(),
    {
        CancellationToken { fired: false }
    }

    /// Fires the token. Returns whether this call made the transition from
    /// pending to fired; on a token that has already fired it changes nothing.
    pub fn fire(&mut self) -> (newly: bool)
        ensures
            final(self).fired(),
            newly == !old(self).fired(),
    {
        let newly = !self.fired;
        self.fired = true;
        newly
    }

    /// Reads the token's state.
    pub fn is_fired(&self) -> (fired: bool)
        ensures
            fired == self.fired(),
    {
        self.fired
    }
}

} // verus!
