//! Operating-system error numbers.

use vstd::prelude::*;

verus! {

/// `EINTR`: a call was interrupted by a signal.
pub const EINTR: i32 = 4;

/// `EAGAIN`: the operation would block.
pub const EAGAIN: i32 = 11;

/// `ENOMEM`: memory is exhausted.
pub const ENOMEM: i32 = 12;

/// `ENFILE`: the system's file table is full.
pub const ENFILE: i32 = 23;

/// `EMFILE`: the process has too many open files.
pub const EMFILE: i32 = 24;

/// `EPIPE`: the other end is gone.
pub const EPIPE: i32 = 32;

/// `ETIME`: a timer expired.
pub const ETIME: i32 = 62;

/// `ECONNABORTED`: the connection was aborted.
pub const ECONNABORTED: i32 = 103;

/// `ENOBUFS`: no buffer space is left.
pub const ENOBUFS: i32 = 105;

/// `ETIMEDOUT`: the operation timed out.
pub const ETIMEDOUT: i32 = 110;

/// `ECANCELED`: the operation was canceled.
pub const ECANCELED: i32 = 125;

/// An error number reported by the operating system.
#[derive(Clone, Copy, Debug, PartialEq, Eq, Structural)]
pub struct Errno {
    /// The number.
    pub raw: i32,
}

/// The error numbers that the runtime itself reports.
struct ReportedCodes {
    pipe: i32,
    time: i32,
    timed_out: i32,
    canceled: i32,
}

/// The numbers behind `rustix::io::Errno::PIPE`, `TIME`, `TIMEDOUT` and
/// `CANCELED`, read with `rustix::io::Errno::raw_os_error`. On the Linux
/// targets with the generic error numbering, x86-64 among them, they are the
/// constants above.
#[verifier::external_body]
fn reported_codes() -> (codes: ReportedCodes)
    ensures
        codes.pipe == EPIPE,
        codes.time == ETIME,
        codes.timed_out == ETIMEDOUT,
        codes.canceled == ECANCELED,
{
    ReportedCodes {
        pipe: rustix::io::Errno::PIPE.raw_os_error(),
        time: rustix::io::Errno::TIME.raw_os_error(),
        timed_out: rustix::io::Errno::TIMEDOUT.raw_os_error(),
        canceled: rustix::io::Errno::CANCELED.raw_os_error(),
    }
}

/// The error numbers by which a failed accept is classified.
struct AcceptCodes {
    interrupted: i32,
    aborted: i32,
    process_files: i32,
    system_files: i32,
    buffers: i32,
    memory: i32,
    again: i32,
}

/// `libc::EINTR`, `ECONNABORTED`, `EMFILE`, `ENFILE`, `ENOBUFS`, `ENOMEM` and
/// `EAGAIN`. On the Linux targets with the generic error numbering, x86-64
/// among them, they are the constants above.
#[verifier::external_body]
fn accept_codes() -> (codes: AcceptCodes)
    ensures
        codes.interrupted == EINTR,
        codes.aborted == ECONNABORTED,
        codes.process_files == EMFILE,
        codes.system_files == ENFILE,
        codes.buffers == ENOBUFS,
        codes.memory == ENOMEM,
        codes.again == EAGAIN,
{
    AcceptCodes {
        interrupted: libc::EINTR,
        aborted: libc::ECONNABORTED,
        process_files: libc::EMFILE,
        system_files: libc::ENFILE,
        buffers: libc::ENOBUFS,
        memory: libc::ENOMEM,
        again: libc::EAGAIN,
    }
}

/// Whether a failed accept leaves the listener usable.
pub open spec fn transient_accept_code(code: int) -> bool {
    ||| code == EINTR
    ||| code == ECONNABORTED
    ||| code == EAGAIN
    ||| resource_pressure_code(code)
}

/// Whether a failure means that the process or the system ran out of
/// descriptors, buffers or memory.
pub open spec fn resource_pressure_code(code: int) -> bool {
    code == EMFILE || code == ENFILE || code == ENOBUFS || code == ENOMEM
}

impl Errno {
    /// The number.
    pub open spec fn code(self) -> int {
        self.raw as int
    }

    /// Wraps an operating-system error number.
    pub fn from_raw_os_error(raw: i32) -> (error: Errno)
        ensures
            error.code() == raw,
    {
        Errno { raw }
    }

    /// Returns the operating-system error number.
    pub fn raw_os_error(self) -> (raw: i32)
        ensures
            raw == self.code(),
    {
        self.raw
    }

    /// The other end is gone.
    pub fn pipe() -> (error: Errno)
        ensures
            error.code() == EPIPE,
    {
        Errno { raw: reported_codes().pipe }
    }

    /// A timer expired.
    pub fn time() -> (error: Errno)
        ensures
            error.code() == ETIME,
    {
        Errno { raw: reported_codes().time }
    }

    /// The operation timed out.
    pub fn timed_out() -> (error: Errno)
        ensures
            error.code() == ETIMEDOUT,
    {
        Errno { raw: reported_codes().timed_out }
    }

    /// The operation was canceled.
    pub fn canceled() -> (error: Errno)
        ensures
            error.code() == ECANCELED,
    {
        Errno { raw: reported_codes().canceled }
    }

    /// Whether the error says that a deadline passed.
    pub open spec fn tells_timeout(self) -> bool {
        self.code() == ETIME || self.code() == ETIMEDOUT
    }

    /// Whether the error says that a deadline passed.
    pub fn is_timeout(self) -> (timeout: bool)
        ensures
            timeout == self.tells_timeout(),
    {
        let codes = reported_codes();
        self.raw == codes.time || self.raw == codes.timed_out
    }
}

/// Whether a listener that failed to accept with `error` can accept again.
pub fn is_transient_accept_error(error: Errno) -> (transient: bool)
    ensures
        transient == transient_accept_code(error.code()),
{
    let codes = accept_codes();
    error.raw == codes.interrupted || error.raw == codes.aborted || error.raw == codes.again
        || is_resource_pressure(error)
}

/// Whether `error` says that descriptors, buffers or memory ran out.
pub fn is_resource_pressure(error: Errno) -> (pressure: bool)
    ensures
        pressure == resource_pressure_code(error.code()),
{
    let codes = accept_codes();
    error.raw == codes.process_files || error.raw == codes.system_files || error.raw
        == codes.buffers || error.raw == codes.memory
}

/// Running out of resources never stops a listener.
pub proof fn resource_pressure_is_transient(code: int)
    requires
        resource_pressure_code(code),
    ensures
        transient_accept_code(code),
{
}

/// An error keeps its number, and the errors that the runtime reports have
/// different ones.
pub proof fn errors_keep_their_number(
    number: i32,
    error: Errno,
    read: i32,
    reported: (Errno, Errno, Errno, Errno),
    timeouts: (bool, bool, bool, bool, bool),
)
    requires
        call_ensures(Errno::from_raw_os_error, (number,), error),
        call_ensures(Errno::raw_os_error, (error,), read),
        call_ensures(Errno::pipe, (), reported.0),
        call_ensures(Errno::time, (), reported.1),
        call_ensures(Errno::timed_out, (), reported.2),
        call_ensures(Errno::canceled, (), reported.3),
        call_ensures(Errno::is_timeout, (error,), timeouts.0),
        call_ensures(Errno::is_timeout, (reported.0,), timeouts.1),
        call_ensures(Errno::is_timeout, (reported.1,), timeouts.2),
        call_ensures(Errno::is_timeout, (reported.2,), timeouts.3),
        call_ensures(Errno::is_timeout, (reported.3,), timeouts.4),
    ensures
        read == number,
        reported.0.raw == 32 && reported.1.raw == 62 && reported.2.raw == 110 && reported.3.raw
            == 125,
        timeouts.0 <==> error == reported.1 || error == reported.2,
        !timeouts.1 && timeouts.2 && timeouts.3 && !timeouts.4,
{
}

/// A listener goes on after an interrupted or aborted accept, after one that would
/// block and after one that lacked resources, and only the last are to wait for.
pub proof fn accept_errors_are_told_apart(error: Errno, transient: bool, pressure: bool)
    requires
        call_ensures(is_transient_accept_error, (error,), transient),
        call_ensures(is_resource_pressure, (error,), pressure),
    ensures
        pressure ==> transient,
        pressure <==> (error.raw == 12 || error.raw == 23 || error.raw == 24 || error.raw == 105),
        transient && !pressure <==> (error.raw == 4 || error.raw == 11 || error.raw == 103),
{
}

} // verus!
