//! A lock for data that tasks of one thread share.

use std::marker::PhantomData;

use vstd::prelude::*;

use crate::errors::CanceledError;
use crate::errors::TimeoutError;
use crate::event::Wake;
use crate::time::Duration;
use crate::time::Instant;

verus! {

/// The state of a lock.
pub struct LockView<T> {
    /// The protected value.
    pub value: T,
    /// Whether a task holds the lock.
    pub locked: bool,
}

/// A value that one task at a time may hold.
pub struct AsyncLock<T> {
    value: T,
    unlocked: bool,
}

/// The right to use the value of a lock. A lock gives out one at a time.
pub struct AsyncLockRef<T> {
    value: PhantomData<T>,
}

/// One turn of a lock request.
pub enum LockStep<T> {
    /// The lock is held.
    Locked(AsyncLockRef<T>),
    /// Another task holds the lock. The task waits for it, then takes another
    /// turn.
    Wait,
    /// The wait before this turn was canceled.
    Canceled(CanceledError),
}

impl<T> LockView<T> {
    /// The lock after an attempt to take it, whether that succeeded or not.
    pub open spec fn attempted(self) -> LockView<T> {
        LockView { locked: true, ..self }
    }

    /// The lock after its holder gave it back.
    pub open spec fn released(self) -> LockView<T> {
        LockView { locked: false, ..self }
    }
}

impl<T> View for AsyncLock<T> {
    type V = LockView<T>;

    closed spec fn view(&self) -> LockView<T> {
        LockView { value: self.value, locked: !self.unlocked }
    }
}

/// When a wait that starts at `now` and lasts `timeout` ends. No timeout means
/// no end.
pub fn deadline_after(now: Instant, timeout: Option<Duration>) -> (deadline: Option<Instant>)
    requires
        timeout matches Some(span) ==> crate::time::instant_after(now@, span@) is Some,
    ensures
        match timeout {
            Some(span) => deadline is Some && deadline->0@ == now@ + span@,
            None => deadline is None,
        },
{
    match timeout {
        Some(span) => now.checked_add(span),
        None => None,
    }
}

impl<T> AsyncLock<T> {
    /// Creates an unlocked lock around a value.
    pub fn new(value: T) -> (lock: AsyncLock<T>)
        ensures
            lock@.value == value,
            !lock@.locked,
    {
        AsyncLock { value, unlocked: true }
    }

    /// Takes the lock without waiting, unless a task holds it.
    pub fn try_lock(&mut self) -> (guard: Option<AsyncLockRef<T>>)
        ensures
            guard is Some == !old(self)@.locked,
            final(self)@ == old(self)@.attempted(),
    {
        if self.unlocked {
            self.unlocked = false;
            Some(AsyncLockRef { value: PhantomData })
        } else {
            None
        }
    }

    /// Ends a lock request whose wait for the lock ended as `waited` says. A
    /// lock that is still held means that the deadline passed.
    pub fn lock_with_deadline(&mut self, waited: Result<(), TimeoutError>) -> (guard: Result<
        AsyncLockRef<T>,
        TimeoutError,
    >)
        ensures
            match waited {
                Err(error) => {
                    &&& guard is Err
                    &&& guard->Err_0 == error
                    &&& final(self)@ == old(self)@
                },
                Ok(()) => {
                    &&& guard is Ok == !old(self)@.locked
                    &&& guard is Err ==> guard->Err_0 == TimeoutError::Timeout
                    &&& final(self)@ == old(self)@.attempted()
                },
            },
    {
        match waited {
            Err(error) => Err(error),
            Ok(()) => match self.try_lock() {
                Some(guard) => Ok(guard),
                None => Err(TimeoutError::Timeout),
            },
        }
    }

    /// When a lock request that starts at `now` gives up.
    pub fn lock_with_timeout(&self, now: Instant, timeout: Option<Duration>) -> (deadline: Option<
        Instant,
    >)
        requires
            timeout matches Some(span) ==> crate::time::instant_after(now@, span@) is Some,
        ensures
            match timeout {
                Some(span) => deadline is Some && deadline->0@ == now@ + span@,
                None => deadline is None,
            },
    {
        deadline_after(now, timeout)
    }

    /// Takes one turn of a lock request. `waited` says how the wait before this
    /// turn ended; the first turn follows no wait and is given `Ok`.
    pub fn lock(&mut self, waited: Result<(), CanceledError>) -> (step: LockStep<T>)
        ensures
            match waited {
                Err(error) => {
                    &&& step == LockStep::<T>::Canceled(error)
                    &&& final(self)@ == old(self)@
                },
                Ok(()) => {
                    &&& step is Locked == !old(self)@.locked
                    &&& step is Wait == old(self)@.locked
                    &&& final(self)@ == old(self)@.attempted()
                },
            },
    {
        match waited {
            Err(error) => LockStep::Canceled(error),
            Ok(()) => match self.try_lock() {
                Some(guard) => LockStep::Locked(guard),
                None => LockStep::Wait,
            },
        }
    }
}

impl<T> AsyncLockRef<T> {
    /// Reads the protected value.
    pub fn deref<'a>(&self, lock: &'a AsyncLock<T>) -> (value: &'a T)
        requires
            lock@.locked,
        ensures
            *value == lock@.value,
    {
        &lock.value
    }

    /// Gives access to the protected value.
    pub fn deref_mut<'a>(&mut self, lock: &'a mut AsyncLock<T>) -> (value: &'a mut T)
        requires
            old(lock)@.locked,
        ensures
            *value == old(lock)@.value,
            final(lock)@.value == *final(value),
            final(lock)@.locked,
    {
        &mut lock.value
    }

    /// Gives the lock back and wakes one waiting task.
    pub fn unlock(self, lock: &mut AsyncLock<T>) -> (wake: Wake)
        requires
            old(lock)@.locked,
        ensures
            final(lock)@ == old(lock)@.released(),
            wake == Wake::One,
    {
        lock.unlocked = true;
        Wake::One
    }
}

impl<T: Default> Default for AsyncLock<T> {
    fn default() -> (lock: AsyncLock<T>)
        ensures
            !lock@.locked,
            call_ensures(T::default, (), lock@.value),
    {
        AsyncLock::new(T::default())
    }
}

/// What happens to a lock.
pub enum LockEvent {
    /// A task tries to take it.
    Attempt,
    /// A task that holds it gives it back.
    Release,
}

/// A lock and the number of its guards after some events, starting from a lock
/// that nobody holds.
pub open spec fn after_events<T>(value: T, events: Seq<LockEvent>) -> (LockView<T>, int)
    decreases events.len(),
{
    if events.len() == 0 {
        (LockView { value, locked: false }, 0)
    } else {
        let (lock, guards) = after_events(value, events.drop_last());
        match events.last() {
            LockEvent::Attempt => (
                lock.attempted(),
                if lock.locked {
                    guards
                } else {
                    guards + 1
                },
            ),
            LockEvent::Release => (lock.released(), guards - 1),
        }
    }
}

/// Whether only tasks with a guard gave the lock back.
pub open spec fn released_by_holders<T>(value: T, events: Seq<LockEvent>) -> bool {
    forall|i: int|
        0 <= i < events.len() && (#[trigger] events[i]) is Release ==> after_events(
            value,
            events.take(i),
        ).1 > 0
}

/// At any time a lock has one guard when it is held, and none otherwise,
/// whatever tasks did to it. An attempt on a lock that is held thus gives no
/// second guard.
pub proof fn one_guard_at_a_time<T>(value: T, events: Seq<LockEvent>)
    requires
        released_by_holders(value, events),
    ensures
        ({
            let (lock, guards) = after_events(value, events);
            &&& guards == if lock.locked {
                1int
            } else {
                0
            }
            &&& lock.value == value
        }),
    decreases events.len(),
{
    if events.len() > 0 {
        let before = events.drop_last();
        assert forall|i: int| 0 <= i < before.len() && (
        #[trigger] before[i]) is Release implies after_events(value, before.take(i)).1 > 0 by {
            assert(events[i] is Release);
            assert(before.take(i) =~= events.take(i));
        }
        one_guard_at_a_time(value, before);
        if events.last() is Release {
            assert(events[events.len() - 1] is Release);
            assert(events.take(events.len() - 1) =~= before);
        }
    }
}

/// A lock that was taken is refused until its holder gives it back, and keeps the
/// value.
pub proof fn lock_calls_exclude_one_another<T>(
    value: T,
    made: AsyncLock<T>,
    taken: &mut AsyncLock<T>,
    refused: &mut AsyncLock<T>,
    returned: &mut AsyncLock<T>,
    again: &mut AsyncLock<T>,
    guards: (Option<AsyncLockRef<T>>, Option<AsyncLockRef<T>>, Option<AsyncLockRef<T>>),
    holder: AsyncLockRef<T>,
    wake: Wake,
    read: &T,
)
    requires
        call_ensures(AsyncLock::<T>::new, (value,), made),
        *old(taken) == made,
        call_ensures(AsyncLock::<T>::try_lock, (taken,), guards.0),
        *old(refused) == *final(taken),
        call_ensures(AsyncLock::<T>::try_lock, (refused,), guards.1),
        call_ensures(AsyncLockRef::<T>::deref, (&holder, final(refused)), read),
        *old(returned) == *final(refused),
        call_ensures(AsyncLockRef::<T>::unlock, (holder, returned), wake),
        *old(again) == *final(returned),
        call_ensures(AsyncLock::<T>::try_lock, (again,), guards.2),
    ensures
        guards.0 is Some && guards.1 is None && guards.2 is Some,
        *read == value && final(again)@.value == value,
        final(refused)@.locked && !final(returned)@.locked && final(again)@.locked,
        wake == Wake::One,
{
}

/// A request that waits gets the lock when nobody holds it. Otherwise it waits
/// on, or is told why it gave up, and the lock stays as it was.
pub proof fn lock_waits_end_with_what_came<T>(
    turn: &mut AsyncLock<T>,
    canceled: &mut AsyncLock<T>,
    last: &mut AsyncLock<T>,
    late: &mut AsyncLock<T>,
    causes: (CanceledError, TimeoutError),
    steps: (LockStep<T>, LockStep<T>),
    ends: (Result<AsyncLockRef<T>, TimeoutError>, Result<AsyncLockRef<T>, TimeoutError>),
)
    requires
        call_ensures(AsyncLock::<T>::lock, (turn, Ok(())), steps.0),
        call_ensures(AsyncLock::<T>::lock, (canceled, Err(causes.0)), steps.1),
        call_ensures(AsyncLock::<T>::lock_with_deadline, (last, Ok(())), ends.0),
        call_ensures(AsyncLock::<T>::lock_with_deadline, (late, Err(causes.1)), ends.1),
    ensures
        old(turn)@.locked ==> steps.0 is Wait,
        !old(turn)@.locked ==> steps.0 is Locked,
        final(turn)@.locked && final(turn)@.value == old(turn)@.value,
        steps.1 == LockStep::<T>::Canceled(causes.0),
        ends.0 is Ok <==> !old(last)@.locked,
        ends.0 matches Err(error) ==> error == TimeoutError::Timeout,
        final(last)@.locked && final(last)@.value == old(last)@.value,
        ends.1 == Err::<AsyncLockRef<T>, TimeoutError>(causes.1),
        final(canceled)@ == old(canceled)@ && final(late)@ == old(late)@,
{
}

/// A timeout ends as long after its start as it lasts.
pub proof fn timeouts_end_when_due<T>(
    lock: &AsyncLock<T>,
    now: Instant,
    timeout: Option<Duration>,
    deadlines: (Option<Instant>, Option<Instant>),
)
    requires
        call_ensures(deadline_after, (now, timeout), deadlines.0),
        call_ensures(AsyncLock::<T>::lock_with_timeout, (lock, now, timeout), deadlines.1),
    ensures
        deadlines.0 is Some <==> timeout is Some,
        deadlines.1 is Some <==> timeout is Some,
        timeout matches Some(span) ==> deadlines.0->0@ - now@ == span@ && deadlines.1->0@ - now@
            == span@,
{
}

/// What is written under the lock is what the next holder reads.
pub proof fn writes_are_read_under_the_lock<T>(
    guard: &mut AsyncLockRef<T>,
    lock: &mut AsyncLock<T>,
    written: &mut T,
    read: &T,
)
    requires
        call_ensures(AsyncLockRef::<T>::deref_mut, (guard, lock), written),
        call_ensures(AsyncLockRef::<T>::deref, (final(guard), final(lock)), read),
    ensures
        *old(written) == old(lock)@.value,
        *read == *final(written),
        final(lock)@.locked,
{
}

} // verus!
