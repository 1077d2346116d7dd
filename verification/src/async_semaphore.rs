//! A counter of tokens that tasks take and give back.

use vstd::prelude::*;

use crate::errors::CanceledError;
use crate::event::Wake;

verus! {

/// One turn of an acquire.
#[derive(Clone, Copy, Debug, PartialEq, Eq, Structural)]
pub enum AcquireStep {
    /// A token was taken.
    Acquired,
    /// No token is there. The task waits for one, then takes another turn.
    Wait,
    /// The wait before this turn was canceled.
    Canceled,
}

/// A counting semaphore. Taking and giving back need not be balanced.
#[derive(Debug)]
pub struct AsyncSemaphore {
    tokens: usize,
    available: bool,
}

impl View for AsyncSemaphore {
    type V = nat;

    /// How many tokens are there.
    closed spec fn view(&self) -> nat {
        self.tokens as nat
    }
}

/// The tokens after an attempt to take one.
pub open spec fn after_acquire(tokens: nat) -> nat {
    if tokens == 0 {
        0
    } else {
        (tokens - 1) as nat
    }
}

impl AsyncSemaphore {
    /// Waiting tasks are called exactly while a token is there.
    #[verifier::type_invariant]
    spec fn calls_waiters(self) -> bool {
        self.available == (self.tokens > 0)
    }

    /// Creates a semaphore with `initial_count` tokens.
    pub fn new(initial_count: usize) -> (semaphore: AsyncSemaphore)
        ensures
            semaphore@ == initial_count,
    {
        AsyncSemaphore { tokens: initial_count, available: initial_count > 0 }
    }

    /// Takes one turn of an acquire. `waited` says how the wait before this
    /// turn ended; the first turn follows no wait and is given `Ok`.
    pub fn acquire(&mut self, waited: Result<(), CanceledError>) -> (step: AcquireStep)
        ensures
            step == if waited is Err {
                AcquireStep::Canceled
            } else if old(self)@ == 0 {
                AcquireStep::Wait
            } else {
                AcquireStep::Acquired
            },
            final(self)@ == if waited is Err {
                old(self)@
            } else {
                after_acquire(old(self)@)
            },
    {
        proof {
            use_type_invariant(&*self);
        }
        if waited.is_err() {
            return AcquireStep::Canceled;
        }
        if self.tokens == 0 {
            return AcquireStep::Wait;
        }
        let count: usize = self.tokens - 1;
        *self = AsyncSemaphore { tokens: count, available: count > 0 };
        AcquireStep::Acquired
    }

    /// Gives a token back and wakes one waiting task.
    pub fn release(&mut self) -> (wake: Wake)
        requires
            old(self)@ < usize::MAX,
        ensures
            final(self)@ == old(self)@ + 1,
            wake == Wake::One,
    {
        let count: usize = self.tokens + 1;
        *self = AsyncSemaphore { tokens: count, available: true };
        Wake::One
    }

    /// Whether a wait for a token is over.
    pub fn is_available(&self) -> (available: bool)
        ensures
            available == (self@ > 0),
    {
        proof {
            use_type_invariant(self);
        }
        self.available
    }
}

/// What happens to a semaphore.
pub enum TokenEvent {
    /// A task tries to take a token.
    Acquire,
    /// A task gives a token back.
    Release,
}

/// The tokens of a semaphore after some events, and how many were taken and
/// given back.
pub open spec fn after_events(initial: nat, events: Seq<TokenEvent>) -> (nat, nat, nat)
    decreases events.len(),
{
    if events.len() == 0 {
        (initial, 0, 0)
    } else {
        let (tokens, taken, given) = after_events(initial, events.drop_last());
        match events.last() {
            TokenEvent::Acquire => (
                after_acquire(tokens),
                if tokens == 0 {
                    taken
                } else {
                    taken + 1
                },
                given,
            ),
            TokenEvent::Release => (tokens + 1, taken, given + 1),
        }
    }
}

/// No token is lost or made up: those that are there and those that were taken
/// are those that were there at first and those that were given back.
pub proof fn tokens_are_conserved(initial: nat, events: Seq<TokenEvent>)
    ensures
        ({
            let (tokens, taken, given) = after_events(initial, events);
            &&& tokens + taken == initial + given
            &&& taken <= initial + given
        }),
    decreases events.len(),
{
    if events.len() > 0 {
        tokens_are_conserved(initial, events.drop_last());
    }
}

/// A token that is there is taken, and one that was taken and given back is there
/// again. Without one a task waits, and a canceled wait takes none.
pub proof fn tokens_are_taken_and_given_back(
    count: usize,
    made: AsyncSemaphore,
    taken: &mut AsyncSemaphore,
    returned: &mut AsyncSemaphore,
    canceled: &mut AsyncSemaphore,
    cause: CanceledError,
    steps: (AcquireStep, AcquireStep),
    wake: Wake,
    available: bool,
)
    requires
        call_ensures(AsyncSemaphore::new, (count,), made),
        call_ensures(AsyncSemaphore::is_available, (&made,), available),
        *old(taken) == made,
        call_ensures(AsyncSemaphore::acquire, (taken, Ok(())), steps.0),
        *old(returned) == *final(taken),
        call_ensures(AsyncSemaphore::release, (returned,), wake),
        call_ensures(AsyncSemaphore::acquire, (canceled, Err(cause)), steps.1),
    ensures
        made@ == count && (available <==> count > 0),
        steps.0 is Acquired <==> count > 0,
        steps.0 is Wait <==> count == 0,
        count > 0 ==> final(taken)@ + 1 == count && final(returned)@ == count,
        count == 0 ==> final(taken)@ == 0 && final(returned)@ == 1,
        wake == Wake::One,
        steps.1 is Canceled && final(canceled)@ == old(canceled)@,
{
}

} // verus!
