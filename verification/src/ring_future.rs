//! Operations of the ring, from their first poll to their result.
//!
//! An operation is prepared, submitted at the first poll, completed by the
//! kernel and read once. The caller performs the submission and tells the
//! completion; the entry of the ring and the waker of the task are values of
//! types that it chooses.

use core::marker::PhantomData;

use vstd::prelude::*;

use crate::errno::Errno;
use crate::errno::ECANCELED;
use crate::time::Duration;

verus! {

/// How the number that an operation returned becomes its value.
pub trait MakeResult<T> {
    /// The value of a successful operation.
    spec fn success(value: u32, cqe: [u64; 2]) -> T;

    /// The value of a successful operation.
    fn make_success(value: u32, cqe: &[u64; 2]) -> (success: T)
        ensures
            success == Self::success(value, *cqe),
    ;
}

/// For operations that only succeed or fail.
#[derive(Debug)]
pub struct ResultToUnit {}

impl MakeResult<()> for ResultToUnit {
    open spec fn success(value: u32, cqe: [u64; 2]) -> () {
        ()
    }

    fn make_success(_value: u32, _cqe: &[u64; 2]) -> (success: ()) {
    }
}

/// For operations that return a count.
#[derive(Debug)]
pub struct ResultToUsize {}

impl MakeResult<usize> for ResultToUsize {
    open spec fn success(value: u32, cqe: [u64; 2]) -> usize {
        value as usize
    }

    fn make_success(value: u32, _cqe: &[u64; 2]) -> (success: usize) {
        value as usize
    }
}

/// For operations that return a descriptor: its number, which the caller then
/// owns.
#[derive(Debug)]
pub struct ResultToOwnedFd {}

impl MakeResult<i32> for ResultToOwnedFd {
    open spec fn success(value: u32, cqe: [u64; 2]) -> i32 {
        value as i32
    }

    fn make_success(value: u32, _cqe: &[u64; 2]) -> (success: i32) {
        #[verifier::truncate]
        let number: i32 = value as i32;
        number
    }
}

/// For commands that return the rest of the completion entry.
#[derive(Debug)]
pub struct ResultToCqe {}

impl MakeResult<[u64; 2]> for ResultToCqe {
    open spec fn success(value: u32, cqe: [u64; 2]) -> [u64; 2] {
        cqe
    }

    fn make_success(_value: u32, cqe: &[u64; 2]) -> (success: [u64; 2]) {
        *cqe
    }
}

/// How far an operation got.
#[derive(Debug)]
pub enum CompletionState<E, W> {
    /// Not submitted yet.
    Idle {
        /// The entry to submit.
        entry: E,
        /// Whether a timeout goes with it.
        timespec: bool,
    },
    /// With the kernel.
    Submitted {
        /// Who waits for the result.
        waker: W,
        /// The activity that submitted it.
        activity_id: u64,
        /// Its number in traces.
        tag: u32,
        /// Whether its cancellation was requested.
        canceled: bool,
    },
    /// Back from the kernel.
    Completed {
        /// What it returned.
        result: Result<u32, Errno>,
        /// The rest of the completion entry.
        big_cqe: [u64; 2],
    },
    /// Its result was read.
    Terminated,
}

impl<E, W> CompletionState<E, W> {
    /// The states in the order in which an operation passes them.
    pub open spec fn rank(self) -> int {
        match self {
            CompletionState::Idle { .. } => 0,
            CompletionState::Submitted { .. } => 1,
            CompletionState::Completed { .. } => 2,
            CompletionState::Terminated => 3,
        }
    }
}

/// A span of time as the kernel takes it.
#[derive(Clone, Copy, Debug, PartialEq, Eq, Structural)]
pub struct Timespec {
    /// Whole seconds.
    pub sec: u64,
    /// The nanoseconds beyond them.
    pub nsec: u32,
}

/// A span of time as the kernel takes it.
pub fn timespec_of(timeout: Duration) -> (timespec: Timespec)
    ensures
        timespec.sec * 1_000_000_000 + timespec.nsec == timeout@,
        timespec.nsec < 1_000_000_000,
{
    Timespec { sec: timeout.as_secs(), nsec: timeout.subsec_nanos() }
}

/// An operation and what it needs.
#[derive(Debug)]
pub struct Completion<E, W> {
    /// How far it got.
    pub state: CompletionState<E, W>,
    /// The timeout that goes with it, or zero.
    pub timespec: Timespec,
    /// Its number in traces.
    pub tag: u32,
    /// Whether it runs on the ring that is polled.
    pub iopoll: bool,
    /// Whether it owns the memory that the kernel uses. Otherwise that memory is
    /// borrowed.
    pub owns_resources: bool,
}

/// What a poll asks of the caller.
#[derive(Debug)]
pub enum RingPoll<E, T, W> {
    /// Submit the entry, and the timeout behind it when it is linked; then wait.
    Submit {
        /// The entry.
        entry: E,
        /// Whether a timeout is linked to it.
        linked: bool,
        /// How many entries that makes.
        entries: u64,
        /// Whether they go to the ring that is polled.
        iopoll: bool,
    },
    /// Wait. The waker that was there before is not needed any more.
    Pending {
        /// That waker.
        replaced: W,
    },
    /// The result.
    Ready(Result<T, Errno>),
}

/// An operation whose result is read once.
#[derive(Debug)]
pub struct RingFuture<E, W, T, C> {
    handle: Option<Completion<E, W>>,
    marker: PhantomData<(T, C)>,
}

/// An operation that only succeeds or fails.
pub type UnitFuture<E, W> = RingFuture<E, W, (), ResultToUnit>;

/// An operation that returns a count.
pub type UsizeFuture<E, W> = RingFuture<E, W, usize, ResultToUsize>;

/// An operation that returns the number of a descriptor.
pub type OwnedFdFuture<E, W> = RingFuture<E, W, i32, ResultToOwnedFd>;

/// An operation that returns the rest of the completion entry.
pub type UringCmdFuture<E, W> = RingFuture<E, W, [u64; 2], ResultToCqe>;

impl<E, W, T, C> View for RingFuture<E, W, T, C> {
    type V = Option<Completion<E, W>>;

    /// The operation, until its result was read.
    closed spec fn view(&self) -> Option<Completion<E, W>> {
        self.handle
    }
}

/// How far an operation got, with those whose result was read last.
pub open spec fn stage<E, W>(operation: Option<Completion<E, W>>) -> int {
    match operation {
        Some(completion) => completion.state.rank(),
        None => 3,
    }
}

/// Whether the kernel may still use borrowed memory for an operation.
pub open spec fn uses_borrowed<E, W>(operation: Option<Completion<E, W>>) -> bool {
    match operation {
        Some(completion) => completion.state is Submitted && !completion.owns_resources,
        None => false,
    }
}

/// What polling an operation asks of the caller.
pub open spec fn poll_answer<E, W, T, C: MakeResult<T>>(completion: Completion<E, W>) -> RingPoll<
    E,
    T,
    W,
> {
    match completion.state {
        CompletionState::Idle { entry, timespec } => RingPoll::Submit {
            entry,
            linked: timespec,
            entries: if timespec {
                2
            } else {
                1
            },
            iopoll: completion.iopoll,
        },
        CompletionState::Submitted { waker, .. } => RingPoll::Pending { replaced: waker },
        CompletionState::Completed { result, big_cqe } => RingPoll::Ready(
            match result {
                Ok(value) => Ok(C::success(value, big_cqe)),
                Err(code) => Err(code),
            },
        ),
        CompletionState::Terminated => arbitrary(),
    }
}

/// The operation after a poll.
pub open spec fn after_poll<E, W>(completion: Completion<E, W>, waker: W, activity_id: u64) -> Option<
    Completion<E, W>,
> {
    match completion.state {
        CompletionState::Idle { .. } => Some(
            Completion {
                state: CompletionState::Submitted {
                    waker,
                    activity_id,
                    tag: completion.tag,
                    canceled: false,
                },
                ..completion
            },
        ),
        CompletionState::Submitted { activity_id: by, tag, canceled, .. } => Some(
            Completion {
                state: CompletionState::Submitted { waker, activity_id: by, tag, canceled },
                ..completion
            },
        ),
        _ => None,
    }
}

/// The operation after the kernel is done with it.
pub open spec fn after_completion<E, W>(
    completion: Completion<E, W>,
    result: Result<u32, Errno>,
    big_cqe: [u64; 2],
) -> Completion<E, W> {
    Completion { state: CompletionState::Completed { result, big_cqe }, ..completion }
}

/// Whether canceling an operation means to ask the kernel.
pub open spec fn cancel_asks<E, W>(operation: Option<Completion<E, W>>) -> bool {
    match operation {
        Some(completion) => completion.state is Submitted && !completion.state->canceled,
        None => false,
    }
}

/// The operation after its cancellation.
pub open spec fn after_cancel<E, W>(operation: Option<Completion<E, W>>) -> Option<
    Completion<E, W>,
> {
    match operation {
        Some(completion) => match completion.state {
            CompletionState::Idle { .. } => Some(
                after_completion(completion, Err(Errno { raw: ECANCELED }), [0, 0]),
            ),
            CompletionState::Submitted { waker, activity_id, tag, .. } => Some(
                Completion {
                    state: CompletionState::Submitted { waker, activity_id, tag, canceled: true },
                    ..completion
                },
            ),
            _ => operation,
        },
        None => None,
    }
}

/// What an injected fault does to the next poll.
pub open spec fn fault_due(fault: Option<(u64, Errno)>) -> Option<Errno> {
    match fault {
        Some((0, errno)) => Some(errno),
        _ => None,
    }
}

/// The injected fault after a poll.
pub open spec fn fault_after(fault: Option<(u64, Errno)>) -> Option<(u64, Errno)> {
    match fault {
        Some((count, errno)) => if count > 0 {
            Some(((count - 1) as u64, errno))
        } else {
            None
        },
        None => None,
    }
}

/// Counts a poll towards an injected fault, and gives the fault when it is due.
pub fn inject_fault(fault: &mut Option<(u64, Errno)>) -> (due: Option<Errno>)
    ensures
        due == fault_due(*old(fault)),
        *final(fault) == fault_after(*old(fault)),
{
    match *fault {
        Some((count, errno)) => if count > 0 {
            *fault = Some((count - 1, errno));
            None
        } else {
            *fault = None;
            Some(errno)
        },
        None => None,
    }
}

impl<E, W, T, C: MakeResult<T>> RingFuture<E, W, T, C> {
    /// An operation on the ring that is not polled, with borrowed memory.
    pub fn new(entry: E, timeout: Option<Duration>, tag: u32) -> (future: RingFuture<E, W, T, C>)
        ensures
            match future@ {
                Some(completion) => {
                    &&& completion.state == (CompletionState::<E, W>::Idle {
                        entry,
                        timespec: timeout is Some,
                    })
                    &&& completion.tag == tag
                    &&& !completion.iopoll
                    &&& !completion.owns_resources
                    &&& completion.timespec.sec * 1_000_000_000 + completion.timespec.nsec == match timeout {
                        Some(timeout) => timeout@,
                        None => 0,
                    }
                    &&& completion.timespec.nsec < 1_000_000_000
                },
                None => false,
            },
    {
        RingFuture::with_polled(entry, timeout, tag, false, false)
    }

    /// An operation.
    pub fn with_polled(
        entry: E,
        timeout: Option<Duration>,
        tag: u32,
        iopoll: bool,
        owns_resources: bool,
    ) -> (future: RingFuture<E, W, T, C>)
        ensures
            match future@ {
                Some(completion) => {
                    &&& completion.state == (CompletionState::<E, W>::Idle {
                        entry,
                        timespec: timeout is Some,
                    })
                    &&& completion.tag == tag
                    &&& completion.iopoll == iopoll
                    &&& completion.owns_resources == owns_resources
                    &&& completion.timespec.sec * 1_000_000_000 + completion.timespec.nsec == match timeout {
                        Some(timeout) => timeout@,
                        None => 0,
                    }
                    &&& completion.timespec.nsec < 1_000_000_000
                },
                None => false,
            },
    {
        let linked = timeout.is_some();
        let timespec = match timeout {
            Some(timeout) => timespec_of(timeout),
            None => Timespec { sec: 0, nsec: 0 },
        };
        RingFuture {
            handle: Some(
                Completion {
                    state: CompletionState::Idle { entry, timespec: linked },
                    timespec,
                    tag,
                    iopoll,
                    owns_resources,
                },
            ),
            marker: PhantomData,
        }
    }

    /// Polls the operation for a task that was not aborted: submits it, waits for
    /// it or gives its result.
    pub fn poll(&mut self, waker: W, activity_id: u64) -> (poll: RingPoll<E, T, W>)
        requires
            old(self)@ is Some,
            !(old(self)@->0.state is Terminated),
        ensures
            poll == poll_answer::<E, W, T, C>(old(self)@->0),
            final(self)@ == after_poll(old(self)@->0, waker, activity_id),
    {
        let completion = self.handle.take().unwrap();
        let Completion { state, timespec, tag, iopoll, owns_resources } = completion;
        match state {
            CompletionState::Idle { entry, timespec: linked } => {
                let entries: u64 = if linked {
                    2
                } else {
                    1
                };
                let state = CompletionState::Submitted { waker, activity_id, tag, canceled: false };
                self.handle = Some(Completion { state, timespec, tag, iopoll, owns_resources });
                RingPoll::Submit { entry, linked, entries, iopoll }
            },
            CompletionState::Submitted {
                waker: replaced,
                activity_id: by,
                tag: number,
                canceled,
            } => {
                let state = CompletionState::Submitted {
                    waker,
                    activity_id: by,
                    tag: number,
                    canceled,
                };
                self.handle = Some(Completion { state, timespec, tag, iopoll, owns_resources });
                RingPoll::Pending { replaced }
            },
            CompletionState::Completed { result, big_cqe } => {
                match result {
                    Ok(value) => RingPoll::Ready(Ok(C::make_success(value, &big_cqe))),
                    Err(code) => RingPoll::Ready(Err(code)),
                }
            },
            CompletionState::Terminated => RingPoll::Ready(Err(Errno::canceled())),
        }
    }

    /// Takes note that the kernel is done with the operation, and gives the waker
    /// of who waits for it.
    pub fn complete(&mut self, result: Result<u32, Errno>, big_cqe: [u64; 2]) -> (waker: W)
        requires
            old(self)@ is Some,
            old(self)@->0.state is Submitted,
        ensures
            waker == old(self)@->0.state->waker,
            final(self)@ == Some(after_completion(old(self)@->0, result, big_cqe)),
    {
        let completion = self.handle.take().unwrap();
        let Completion { state, timespec, tag, iopoll, owns_resources } = completion;
        match state {
            CompletionState::Submitted { waker, .. } => {
                let state = CompletionState::Completed { result, big_cqe };
                self.handle = Some(Completion { state, timespec, tag, iopoll, owns_resources });
                waker
            },
            _ => vstd::pervasive::unreached(),
        }
    }

    /// Cancels the operation. One that was not submitted is over at once; for one
    /// that was, the kernel has to be asked, once.
    pub fn cancel(&mut self) -> (ask: bool)
        ensures
            ask == cancel_asks(old(self)@),
            final(self)@ == after_cancel(old(self)@),
    {
        match self.handle.take() {
            None => false,
            Some(completion) => {
                let Completion { state, timespec, tag, iopoll, owns_resources } = completion;
                let (state, ask) = match state {
                    CompletionState::Idle { .. } => {
                        let result: Result<u32, Errno> = Err(Errno::canceled());
                        (CompletionState::Completed { result, big_cqe: [0, 0] }, false)
                    },
                    CompletionState::Submitted { waker, activity_id, tag: number, canceled } => {
                        (
                            CompletionState::Submitted {
                                waker,
                                activity_id,
                                tag: number,
                                canceled: true,
                            },
                            !canceled,
                        )
                    },
                    other => (other, false),
                };
                self.handle = Some(Completion { state, timespec, tag, iopoll, owns_resources });
                ask
            },
        }
    }

    /// Whether the kernel may still use borrowed memory, so that the operation
    /// must not be forgotten yet.
    pub fn pending_io_with_borrowed_resources(&self) -> (pending: bool)
        ensures
            pending == uses_borrowed(self@),
    {
        match &self.handle {
            Some(completion) => match &completion.state {
                CompletionState::Submitted { .. } => !completion.owns_resources,
                _ => false,
            },
            None => false,
        }
    }

    /// Whether the operation runs on the ring that is polled.
    pub fn is_io_poll(&self) -> (polled: bool)
        ensures
            polled == match self@ {
                Some(completion) => completion.iopoll,
                None => false,
            },
    {
        match &self.handle {
            Some(completion) => completion.iopoll,
            None => false,
        }
    }

    /// Whether the result was read.
    pub fn is_terminated(&self) -> (terminated: bool)
        ensures
            terminated == match self@ {
                Some(completion) => completion.state is Terminated,
                None => true,
            },
    {
        match &self.handle {
            Some(completion) => match &completion.state {
                CompletionState::Terminated => true,
                _ => false,
            },
            None => true,
        }
    }
}

/// An operation only moves forward. It is submitted at most once, when it was
/// not before, and its result is read at most once, after the kernel is done.
pub proof fn operations_move_forward<E, W, T, C: MakeResult<T>>(
    completion: Completion<E, W>,
    waker: W,
    activity_id: u64,
    result: Result<u32, Errno>,
    big_cqe: [u64; 2],
)
    requires
        !(completion.state is Terminated),
    ensures
        stage(after_poll(completion, waker, activity_id)) >= stage(Some(completion)),
        poll_answer::<E, W, T, C>(completion) is Submit <==> stage(Some(completion)) == 0,
        poll_answer::<E, W, T, C>(completion) is Submit ==> stage(
            after_poll(completion, waker, activity_id),
        ) == 1,
        poll_answer::<E, W, T, C>(completion) is Ready <==> stage(Some(completion)) == 2,
        poll_answer::<E, W, T, C>(completion) is Ready ==> after_poll(
            completion,
            waker,
            activity_id,
        ) is None,
        completion.state is Submitted ==> stage(
            Some(after_completion(completion, result, big_cqe)),
        ) > stage(Some(completion)),
        stage(after_cancel(Some(completion))) >= stage(Some(completion)),
{
}

/// A canceled operation asks the kernel at most once, and the kernel only ever
/// holds borrowed memory of an operation that was submitted and is not
/// completed: what was never submitted is over at once.
pub proof fn cancellation_settles<E, W>(
    operation: Option<Completion<E, W>>,
    result: Result<u32, Errno>,
    big_cqe: [u64; 2],
)
    ensures
        !cancel_asks(after_cancel(operation)),
        after_cancel(after_cancel(operation)) == after_cancel(operation),
        uses_borrowed(after_cancel(operation)) == uses_borrowed(operation),
        uses_borrowed(operation) ==> stage(operation) == 1,
        operation is Some ==> !uses_borrowed(
            Some(after_completion(operation->0, result, big_cqe)),
        ),
        stage(operation) == 0 ==> stage(after_cancel(operation)) == 2,
{
}

/// An operation that returns a count, and that the kernel completed with `count`,
/// is ready with that count at the next poll.
pub proof fn counts_arrive_unchanged<E, W>(
    completing: &mut UsizeFuture<E, W>,
    reading: &mut UsizeFuture<E, W>,
    count: u32,
    big_cqe: [u64; 2],
    woken: W,
    waker: W,
    activity_id: u64,
    answer: RingPoll<E, usize, W>,
)
    requires
        call_ensures(UsizeFuture::<E, W>::complete, (completing, Ok(count), big_cqe), woken),
        *old(reading) == *final(completing),
        call_ensures(UsizeFuture::<E, W>::poll, (reading, waker, activity_id), answer),
    ensures
        answer matches RingPoll::Ready(Ok(read)) && read == count,
{
}

/// An operation that opens a descriptor is ready with the number that the kernel
/// gave it, and one that returns the rest of its entry with the two words of it.
pub proof fn descriptors_and_entries_arrive_unchanged<E, W>(
    opening: &mut OwnedFdFuture<E, W>,
    opened: &mut OwnedFdFuture<E, W>,
    commanding: &mut UringCmdFuture<E, W>,
    commanded: &mut UringCmdFuture<E, W>,
    number: u32,
    big_cqe: [u64; 2],
    woken: (W, W),
    waker: W,
    activity_id: u64,
    descriptor: RingPoll<E, i32, W>,
    rest: RingPoll<E, [u64; 2], W>,
)
    requires
        number <= i32::MAX,
        call_ensures(OwnedFdFuture::<E, W>::complete, (opening, Ok(number), big_cqe), woken.0),
        *old(opened) == *final(opening),
        call_ensures(OwnedFdFuture::<E, W>::poll, (opened, waker, activity_id), descriptor),
        call_ensures(
            UringCmdFuture::<E, W>::complete,
            (commanding, Ok(number), big_cqe),
            woken.1,
        ),
        *old(commanded) == *final(commanding),
        call_ensures(UringCmdFuture::<E, W>::poll, (commanded, waker, activity_id), rest),
    ensures
        descriptor matches RingPoll::Ready(Ok(read)) && read == number,
        rest matches RingPoll::Ready(Ok(words)) && words == big_cqe,
{
}

/// What the kernel refused an operation with is what its reader is told,
/// whatever the operation returns.
pub proof fn refusals_arrive_unchanged<E, W, T, C: MakeResult<T>>(
    completing: &mut RingFuture<E, W, T, C>,
    reading: &mut RingFuture<E, W, T, C>,
    refusal: Errno,
    big_cqe: [u64; 2],
    woken: W,
    waker: W,
    activity_id: u64,
    answer: RingPoll<E, T, W>,
)
    requires
        call_ensures(
            RingFuture::<E, W, T, C>::complete,
            (completing, Err(refusal), big_cqe),
            woken,
        ),
        *old(reading) == *final(completing),
        call_ensures(RingFuture::<E, W, T, C>::poll, (reading, waker, activity_id), answer),
    ensures
        answer matches RingPoll::Ready(Err(told)) && told.raw == refusal.raw,
        final(reading)@ is None,
{
}

/// The first poll of an operation hands out the entry that it was made with, on
/// the ring that it was made for, and a second entry exactly when it has a
/// timeout. Whoever polled it last is woken when it completes.
pub proof fn operations_are_submitted_as_made<E, W, T, C: MakeResult<T>>(
    entry: E,
    timeout: Option<Duration>,
    tag: u32,
    iopoll: bool,
    owns_resources: bool,
    submitting: &mut RingFuture<E, W, T, C>,
    waiting: &mut RingFuture<E, W, T, C>,
    completing: &mut RingFuture<E, W, T, C>,
    wakers: (W, W),
    activity_id: u64,
    answers: (RingPoll<E, T, W>, RingPoll<E, T, W>),
    result: Result<u32, Errno>,
    big_cqe: [u64; 2],
    woken: W,
)
    requires
        call_ensures(
            RingFuture::<E, W, T, C>::with_polled,
            (entry, timeout, tag, iopoll, owns_resources),
            *old(submitting),
        ),
        call_ensures(
            RingFuture::<E, W, T, C>::poll,
            (submitting, wakers.0, activity_id),
            answers.0,
        ),
        *old(waiting) == *final(submitting),
        call_ensures(
            RingFuture::<E, W, T, C>::poll,
            (waiting, wakers.1, activity_id),
            answers.1,
        ),
        *old(completing) == *final(waiting),
        call_ensures(
            RingFuture::<E, W, T, C>::complete,
            (completing, result, big_cqe),
            woken,
        ),
    ensures
        answers.0 matches RingPoll::Submit { entry: submitted, linked, entries, iopoll: polled } && {
            &&& submitted == entry
            &&& linked == (timeout is Some)
            &&& entries == if timeout is Some {
                2u64
            } else {
                1u64
            }
            &&& polled == iopoll
        },
        answers.1 matches RingPoll::Pending { replaced } && replaced == wakers.0,
        woken == wakers.1,
{
}

/// Canceling an operation before its first poll makes it ready with the error
/// for canceled operations, without asking the kernel. Once it was submitted the
/// kernel is asked the first time and not again, and what the kernel then
/// returns is what the reader gets.
pub proof fn cancellation_reaches_the_reader<E, W, T, C: MakeResult<T>>(
    first: &mut RingFuture<E, W, T, C>,
    second: &mut RingFuture<E, W, T, C>,
    reading: &mut RingFuture<E, W, T, C>,
    asks: (bool, bool),
    waker: W,
    activity_id: u64,
    answer: RingPoll<E, T, W>,
)
    requires
        old(first)@ is Some,
        call_ensures(RingFuture::<E, W, T, C>::cancel, (first,), asks.0),
        *old(second) == *final(first),
        call_ensures(RingFuture::<E, W, T, C>::cancel, (second,), asks.1),
        *old(reading) == *final(second),
        call_ensures(RingFuture::<E, W, T, C>::poll, (reading, waker, activity_id), answer),
    ensures
        !asks.1,
        old(first)@->0.state is Idle ==> !asks.0 && (answer matches RingPoll::Ready(Err(told))
            && told.raw == ECANCELED),
        old(first)@->0.state is Submitted ==> asks.0 == !old(first)@->0.state->canceled && (
        answer matches RingPoll::Pending { replaced } && replaced == old(first)@->0.state->waker),
        old(first)@->0.state matches CompletionState::Completed { result: Err(refusal), .. } ==> !asks.0
            && (answer matches RingPoll::Ready(Err(told)) && told == refusal),
{
}

/// An injected fault strikes once, after as many polls as it was set to wait.
pub proof fn faults_strike_when_due(fault: &mut Option<(u64, Errno)>, due: Option<Errno>)
    requires
        call_ensures(inject_fault, (fault,), due),
    ensures
        *old(fault) is None ==> due is None && *final(fault) is None,
        *old(fault) matches Some((left, errno)) ==> if left == 0 {
            due == Some(errno) && *final(fault) is None
        } else {
            due is None && (*final(fault) matches Some((after, kept)) && after == left - 1 && kept
                == errno)
        },
{
}

/// The limit of an operation is written in whole seconds and the nanoseconds
/// beyond them.
pub proof fn limits_are_written_in_seconds(timeout: Duration, timespec: Timespec)
    requires
        call_ensures(timespec_of, (timeout,), timespec),
    ensures
        timespec.sec == timeout@ / 1_000_000_000,
        timespec.nsec == timeout@ % 1_000_000_000,
{
}

/// A new operation is not submitted, not over and not polled for, and carries its
/// limit. Only an operation that is with the kernel uses what it borrowed.
pub proof fn new_operations_wait_to_be_submitted<E, W, T, C: MakeResult<T>>(
    entry: E,
    timeout: Option<Duration>,
    tag: u32,
    future: RingFuture<E, W, T, C>,
    other: &RingFuture<E, W, T, C>,
    told: (bool, bool, bool, bool, bool, bool),
)
    requires
        call_ensures(RingFuture::<E, W, T, C>::new, (entry, timeout, tag), future),
        call_ensures(RingFuture::<E, W, T, C>::is_terminated, (&future,), told.0),
        call_ensures(RingFuture::<E, W, T, C>::is_io_poll, (&future,), told.1),
        call_ensures(
            RingFuture::<E, W, T, C>::pending_io_with_borrowed_resources,
            (&future,),
            told.2,
        ),
        call_ensures(RingFuture::<E, W, T, C>::is_terminated, (other,), told.3),
        call_ensures(RingFuture::<E, W, T, C>::is_io_poll, (other,), told.4),
        call_ensures(
            RingFuture::<E, W, T, C>::pending_io_with_borrowed_resources,
            (other,),
            told.5,
        ),
    ensures
        !told.0 && !told.1 && !told.2,
        future@ matches Some(completion) && completion.tag == tag && completion.state
            == (CompletionState::<E, W>::Idle { entry, timespec: timeout is Some }),
        timeout matches Some(span) ==> future@->0.timespec.sec * 1_000_000_000
            + future@->0.timespec.nsec == span@,
        other@ is None ==> told.3 && !told.4 && !told.5,
        other@ matches Some(completion) ==> {
            &&& told.3 <==> completion.state is Terminated
            &&& told.4 <==> completion.iopoll
            &&& told.5 <==> completion.state is Submitted && !completion.owns_resources
        },
{
}

/// An operation that was submitted is canceled by asking the kernel, once; one
/// that was not is over at once, as canceled, and nobody is asked.
pub proof fn cancellations_ask_the_kernel_once<E, W, T, C: MakeResult<T>>(
    polled: &mut RingFuture<E, W, T, C>,
    canceled: &mut RingFuture<E, W, T, C>,
    again: &mut RingFuture<E, W, T, C>,
    unsubmitted: &mut RingFuture<E, W, T, C>,
    waker: W,
    activity_id: u64,
    poll: RingPoll<E, T, W>,
    asks: (bool, bool, bool),
)
    requires
        old(polled)@ is Some,
        old(polled)@->0.state is Idle,
        call_ensures(RingFuture::<E, W, T, C>::poll, (polled, waker, activity_id), poll),
        *old(canceled) == *final(polled),
        call_ensures(RingFuture::<E, W, T, C>::cancel, (canceled,), asks.0),
        *old(again) == *final(canceled),
        call_ensures(RingFuture::<E, W, T, C>::cancel, (again,), asks.1),
        *old(unsubmitted) == *old(polled),
        call_ensures(RingFuture::<E, W, T, C>::cancel, (unsubmitted,), asks.2),
    ensures
        asks.0 && !asks.1 && !asks.2,
        final(polled)@ matches Some(completion) && completion.state
            == (CompletionState::<E, W>::Submitted {
            waker,
            activity_id,
            tag: old(polled)@->0.tag,
            canceled: false,
        }),
        final(again)@ == final(canceled)@,
        final(unsubmitted)@ matches Some(completion) && (completion.state
            matches CompletionState::Completed { result, .. } && (result matches Err(error)
            && error.raw == 125)),
{
}

} // verus!
