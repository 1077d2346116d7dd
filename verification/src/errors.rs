//! Errors of channels, waits and tasks.

use vstd::prelude::*;

use crate::errno::Errno;
use crate::errno::ECANCELED;
use crate::errno::EPIPE;
use crate::errno::ETIME;
use crate::errno::ETIMEDOUT;

verus! {

/// Why a message could not be received from a channel.
#[derive(Clone, Copy, Debug, PartialEq, Eq, Structural)]
pub enum ChannelError {
    /// The channel is closed and holds no message.
    Closed,
    /// The wait was canceled.
    Canceled,
    /// The deadline passed first.
    Timeout,
}

/// Why a wait with a deadline ended without its event.
#[derive(Clone, Copy, Debug, PartialEq, Eq, Structural)]
pub enum TimeoutError {
    /// The deadline passed first.
    Timeout,
    /// The wait was canceled.
    Canceled,
}

/// A wait was canceled.
#[derive(Clone, Copy, Debug, PartialEq, Eq, Structural)]
pub struct CanceledError {}

/// What a panicking task left behind, as far as it can be read: the panic
/// message, when the panic carried a string.
#[derive(Debug)]
pub struct PanicPayload {
    /// The message, or `None` for a payload that is no string.
    pub message: Option<String>,
}

/// Why a task handle has no value.
#[derive(Debug)]
pub enum TaskHandleError {
    /// The task was canceled.
    Canceled,
    /// The task panicked.
    Panic(PanicPayload),
}

impl ChannelError {
    /// The text that describes the error.
    pub fn message(&self) -> (text: &'static str)
        ensures
            text@ == "receiving on a closed channel"@,
    {
        "receiving on a closed channel"
    }
}

impl TaskHandleError {
    /// The debug text of the error, which names the case alone.
    pub fn debug_text(&self) -> (text: &'static str)
        ensures
            text@ == match self {
                TaskHandleError::Canceled => "TaskHandleError::Canceled"@,
                TaskHandleError::Panic(_) => "TaskHandleError::Panic"@,
            },
    {
        match self {
            TaskHandleError::Canceled => "TaskHandleError::Canceled",
            TaskHandleError::Panic(_) => "TaskHandleError::Panic",
        }
    }
}

/// The error number that stands for a channel error.
pub open spec fn channel_error_code(error: ChannelError) -> i32 {
    match error {
        ChannelError::Closed => EPIPE,
        ChannelError::Canceled => ECANCELED,
        ChannelError::Timeout => ETIME,
    }
}

/// The error number that stands for a failed wait.
pub open spec fn timeout_error_code(error: TimeoutError) -> i32 {
    match error {
        TimeoutError::Timeout => ETIMEDOUT,
        TimeoutError::Canceled => ECANCELED,
    }
}

/// The channel error that a failed wait becomes.
pub open spec fn channel_error_of_timeout(error: TimeoutError) -> ChannelError {
    match error {
        TimeoutError::Timeout => ChannelError::Timeout,
        TimeoutError::Canceled => ChannelError::Canceled,
    }
}

impl From<ChannelError> for Errno {
    fn from(error: ChannelError) -> (errno: Errno) {
        match error {
            ChannelError::Closed => Errno::pipe(),
            ChannelError::Canceled => Errno::canceled(),
            ChannelError::Timeout => Errno::time(),
        }
    }
}

impl vstd::std_specs::convert::FromSpecImpl<ChannelError> for Errno {
    open spec fn obeys_from_spec() -> bool {
        true
    }

    open spec fn from_spec(error: ChannelError) -> Errno {
        Errno { raw: channel_error_code(error) }
    }
}

impl From<CanceledError> for ChannelError {
    fn from(_error: CanceledError) -> (error: ChannelError) {
        ChannelError::Canceled
    }
}

impl vstd::std_specs::convert::FromSpecImpl<CanceledError> for ChannelError {
    open spec fn obeys_from_spec() -> bool {
        true
    }

    open spec fn from_spec(error: CanceledError) -> ChannelError {
        ChannelError::Canceled
    }
}

impl From<TimeoutError> for ChannelError {
    fn from(error: TimeoutError) -> (channel_error: ChannelError) {
        match error {
            TimeoutError::Timeout => ChannelError::Timeout,
            TimeoutError::Canceled => ChannelError::Canceled,
        }
    }
}

impl vstd::std_specs::convert::FromSpecImpl<TimeoutError> for ChannelError {
    open spec fn obeys_from_spec() -> bool {
        true
    }

    open spec fn from_spec(error: TimeoutError) -> ChannelError {
        channel_error_of_timeout(error)
    }
}

impl From<CanceledError> for TimeoutError {
    fn from(_error: CanceledError) -> (error: TimeoutError) {
        TimeoutError::Canceled
    }
}

impl vstd::std_specs::convert::FromSpecImpl<CanceledError> for TimeoutError {
    open spec fn obeys_from_spec() -> bool {
        true
    }

    open spec fn from_spec(error: CanceledError) -> TimeoutError {
        TimeoutError::Canceled
    }
}

impl From<TimeoutError> for Errno {
    fn from(error: TimeoutError) -> (errno: Errno) {
        match error {
            TimeoutError::Timeout => Errno::timed_out(),
            TimeoutError::Canceled => Errno::canceled(),
        }
    }
}

impl vstd::std_specs::convert::FromSpecImpl<TimeoutError> for Errno {
    open spec fn obeys_from_spec() -> bool {
        true
    }

    open spec fn from_spec(error: TimeoutError) -> Errno {
        Errno { raw: timeout_error_code(error) }
    }
}

impl From<CanceledError> for Errno {
    fn from(_error: CanceledError) -> (errno: Errno) {
        Errno::canceled()
    }
}

impl vstd::std_specs::convert::FromSpecImpl<CanceledError> for Errno {
    open spec fn obeys_from_spec() -> bool {
        true
    }

    open spec fn from_spec(error: CanceledError) -> Errno {
        Errno { raw: ECANCELED }
    }
}

/// Flattens the result of a task that itself returns a result. A canceled task
/// becomes `ECANCELED`. A panic has to be resumed by the caller first.
pub fn errno_from_task_handle_result<R>(
    result: Result<Result<R, Errno>, TaskHandleError>,
) -> (flat: Result<R, Errno>)
    requires
        !(result matches Err(TaskHandleError::Panic(_))),
    ensures
        match result {
            Ok(inner) => flat == inner,
            Err(_) => flat == Err::<R, Errno>(Errno { raw: ECANCELED }),
        },
{
    match result {
        Ok(inner) => inner,
        Err(_) => Err(Errno::canceled()),
    }
}

/// A canceled wait is reported as `ECANCELED`, whichever error carries it.
pub proof fn cancellation_keeps_its_code(error: CanceledError)
    ensures
        channel_error_code(ChannelError::Canceled) == ECANCELED,
        timeout_error_code(TimeoutError::Canceled) == ECANCELED,
        channel_error_of_timeout(TimeoutError::Canceled) == ChannelError::Canceled,
{
}

/// An error becomes the number that says the same, by whichever way it is
/// converted: a wait that was canceled stays one, and so does one that ran out of
/// time.
pub proof fn conversions_keep_the_cause(
    canceled: CanceledError,
    timeout: TimeoutError,
    channel: ChannelError,
    waits: TimeoutError,
    channels: (ChannelError, ChannelError),
    numbers: (Errno, Errno, Errno, Errno),
)
    requires
        call_ensures(<TimeoutError as From<CanceledError>>::from, (canceled,), waits),
        call_ensures(<ChannelError as From<CanceledError>>::from, (canceled,), channels.0),
        call_ensures(<ChannelError as From<TimeoutError>>::from, (timeout,), channels.1),
        call_ensures(<Errno as From<CanceledError>>::from, (canceled,), numbers.0),
        call_ensures(<Errno as From<TimeoutError>>::from, (timeout,), numbers.1),
        call_ensures(<Errno as From<ChannelError>>::from, (channel,), numbers.2),
        call_ensures(<Errno as From<ChannelError>>::from, (channels.0,), numbers.3),
    ensures
        waits is Canceled && channels.0 is Canceled,
        timeout is Canceled <==> channels.1 is Canceled,
        timeout is Timeout <==> channels.1 is Timeout,
        numbers.0.raw == 125 && numbers.3 == numbers.0,
        timeout is Canceled <==> numbers.1 == numbers.0,
        timeout is Timeout <==> numbers.1.raw == 110,
        channel is Canceled <==> numbers.2 == numbers.0,
        channel is Timeout <==> numbers.2.raw == 62,
        channel is Closed <==> numbers.2.raw == 32,
{
}

/// What a task returned is handed on, and a task that was canceled is told by its
/// number. The texts name the case.
pub proof fn task_results_are_handed_on<R>(
    value: R,
    error: Errno,
    flat: (Result<R, Errno>, Result<R, Errno>, Result<R, Errno>),
    channel: &ChannelError,
    payload: PanicPayload,
    texts: (&'static str, &'static str, &'static str),
)
    requires
        call_ensures(errno_from_task_handle_result::<R>, (Ok(Ok(value)),), flat.0),
        call_ensures(errno_from_task_handle_result::<R>, (Ok(Err(error)),), flat.1),
        call_ensures(
            errno_from_task_handle_result::<R>,
            (Err(TaskHandleError::Canceled),),
            flat.2,
        ),
        call_ensures(ChannelError::message, (channel,), texts.0),
        call_ensures(TaskHandleError::debug_text, (&TaskHandleError::Canceled,), texts.1),
        call_ensures(TaskHandleError::debug_text, (&TaskHandleError::Panic(payload),), texts.2),
    ensures
        flat.0 == Ok::<R, Errno>(value),
        flat.1 == Err::<R, Errno>(error),
        flat.2 == Err::<R, Errno>(Errno { raw: 125 }),
        texts.0@ == "receiving on a closed channel"@,
        texts.1@ == "TaskHandleError::Canceled"@,
        texts.2@ == "TaskHandleError::Panic"@,
{
}

} // verus!
