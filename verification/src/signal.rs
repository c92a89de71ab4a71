//! The completion bridge: a one-shot signal that converts a single host
//! notification (success, error, complete or abort) into a resolvable
//! result. The same handler is registered on every notification channel of
//! an operation because exactly one of them fires; the signal therefore
//! resolves exactly once, and a late notification is absorbed.

use vstd::prelude::*;

verus! {

/// The lifecycle of a one-shot signal.
#[derive(Debug, Clone, Copy, PartialEq, Eq, Structural)]
pub enum SignalState {
    Pending,
    Resolved,
}

/// A one-shot completion signal.
#[derive(Debug)]
pub struct CompletionSignal {
    state: SignalState,
}

impl CompletionSignal {
    /// Whether the signal has resolved.
    pub closed spec fn resolved(&self) -> bool {
        self.state is Resolved
    }

    /// A fresh, still pending signal.
    pub fn new() -> (s: CompletionSignal)
        ensures
            !s.resolved(),
    {
        CompletionSignal { state: SignalState::Pending }
    }

    /// Called by whichever registered notification handler fires. Resolves
    /// the signal and reports whether this call was the one that resolved
    /// it: a second notification is absorbed, never delivered twice.
    pub fn notify(&mut self) -> (first: bool)
        ensures
            final(self).resolved(),
            first == !old(self).resolved(),
    {
        let first = match self.state {
            SignalState::Pending => true,
            SignalState::Resolved => false,
        };
        self.state = SignalState::Resolved;
        first
    }

    /// Whether a waiting caller may stop suspending.
    pub fn is_resolved(&self) -> (r: bool)
        ensures
            r == self.resolved(),
    {
        match self.state {
            SignalState::Pending => false,
            SignalState::Resolved => true,
        }
    }
}

} // verus!
