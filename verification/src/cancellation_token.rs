//! A token that records that work should stop.

use vstd::prelude::*;

use crate::event::Wake;

verus! {

/// Records whether an operation should be cancelled. Once cancelled, a token
/// stays cancelled.
#[derive(Clone, Copy, Debug)]
pub struct CancellationToken {
    cancelled: bool,
}

impl View for CancellationToken {
    type V = bool;

    /// Whether the token is cancelled.
    closed spec fn view(&self) -> bool {
        self.cancelled
    }
}

impl CancellationToken {
    /// Creates a token that is not cancelled.
    pub fn new() -> (token: CancellationToken)
        ensures
            !token@,
    {
        CancellationToken { cancelled: false }
    }

    /// Whether [`Self::cancel`] has ever been called.
    pub fn is_cancelled(&self) -> (cancelled: bool)
        ensures
            cancelled == self@,
    {
        self.cancelled
    }

    /// Cancels the token and wakes everyone who waits for it.
    pub fn cancel(&mut self) -> (wake: Wake)
        ensures
            final(self)@,
            wake == Wake::Everyone,
    {
        self.cancelled = true;
        Wake::Everyone
    }

    /// Whether a wait for the cancellation is over.
    pub fn cancelled(&self) -> (ready: bool)
        ensures
            ready == self@,
    {
        self.cancelled
    }
}

impl Default for CancellationToken {
    fn default() -> (token: CancellationToken)
        ensures
            !token@,
    {
        CancellationToken::new()
    }
}

/// A token is cancelled from its cancellation on, and not before.
pub proof fn tokens_stay_cancelled(
    made: CancellationToken,
    first: &mut CancellationToken,
    second: &mut CancellationToken,
    wakes: (Wake, Wake),
    read: (bool, bool, bool),
    over: (bool, bool),
)
    requires
        call_ensures(CancellationToken::new, (), made),
        call_ensures(CancellationToken::is_cancelled, (&made,), read.0),
        call_ensures(CancellationToken::cancelled, (&made,), over.0),
        *old(first) == made,
        call_ensures(CancellationToken::cancel, (first,), wakes.0),
        call_ensures(CancellationToken::is_cancelled, (final(first),), read.1),
        call_ensures(CancellationToken::cancelled, (final(first),), over.1),
        *old(second) == *final(first),
        call_ensures(CancellationToken::cancel, (second,), wakes.1),
        call_ensures(CancellationToken::is_cancelled, (final(second),), read.2),
    ensures
        !read.0 && read.1 && read.2,
        !over.0 && over.1,
        wakes.0 == Wake::Everyone && wakes.1 == Wake::Everyone,
{
}

} // verus!
