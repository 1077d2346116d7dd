//! The kinds of input and output.

use vstd::prelude::*;

verus! {

/// A kind of input or output.
#[derive(Clone, Copy, Debug, PartialEq, Eq, Structural)]
pub enum IOType {
    /// Reading.
    Read,
    /// Writing.
    Write,
    /// Receiving on a socket.
    Recv,
    /// Sending on a socket.
    Send,
    /// Accepting a connection.
    Accept,
    /// Connecting a socket.
    Connect,
    /// Closing a descriptor.
    Close,
    /// Advice on the use of a file.
    FAdvise,
    /// Setting aside space for a file.
    FAllocate,
    /// Flushing a file.
    Fsync,
    /// Linking a file.
    Link,
    /// Advice on the use of memory.
    MAdvise,
    /// Making a directory.
    Mkdir,
    /// Opening a file.
    Open,
    /// Renaming a file.
    Rename,
    /// Shutting down a socket.
    Shutdown,
    /// Reading the status of a file.
    Stat,
    /// Making a symbolic link.
    Symlink,
    /// Flushing part of a file.
    SyncFileRange,
    /// Removing a file.
    Unlink,
    /// A command that the ring passes on.
    UringCmd,
    /// Making a socket.
    Socket,
    /// Waiting for a while.
    Timeout,
    /// Doing nothing.
    Nop,
    /// A command for a storage device.
    NvmeCmd,
    /// Anything else.
    Unknown,
}

impl IOType {
    /// The name of the kind.
    pub open spec fn spelled(self) -> Seq<char> {
        match self {
            IOType::Read => "read"@,
            IOType::Write => "write"@,
            IOType::Recv => "recv"@,
            IOType::Send => "send"@,
            IOType::Accept => "accept"@,
            IOType::Connect => "connect"@,
            IOType::Close => "close"@,
            IOType::FAdvise => "fadvise"@,
            IOType::FAllocate => "fallocate"@,
            IOType::Fsync => "fsync"@,
            IOType::Link => "link"@,
            IOType::MAdvise => "madvise"@,
            IOType::Mkdir => "mkdir"@,
            IOType::Open => "open"@,
            IOType::Rename => "rename"@,
            IOType::Shutdown => "shutdown"@,
            IOType::Stat => "stat"@,
            IOType::Symlink => "symlink"@,
            IOType::SyncFileRange => "sync_file_range"@,
            IOType::Unlink => "unlink"@,
            IOType::UringCmd => "uring_cmd"@,
            IOType::Socket => "socket"@,
            IOType::Timeout => "timeout"@,
            IOType::Nop => "nop"@,
            IOType::NvmeCmd => "nvme_cmd"@,
            IOType::Unknown => "unknown"@,
        }
    }

    /// The number of the kind, by which a trace knows it.
    pub open spec fn number(self) -> int {
        match self {
            IOType::Read => 0,
            IOType::Write => 1,
            IOType::Recv => 2,
            IOType::Send => 3,
            IOType::Accept => 4,
            IOType::Connect => 5,
            IOType::Close => 6,
            IOType::FAdvise => 7,
            IOType::FAllocate => 8,
            IOType::Fsync => 9,
            IOType::Link => 10,
            IOType::MAdvise => 11,
            IOType::Mkdir => 12,
            IOType::Open => 13,
            IOType::Rename => 14,
            IOType::Shutdown => 15,
            IOType::Stat => 16,
            IOType::Symlink => 17,
            IOType::SyncFileRange => 18,
            IOType::Unlink => 19,
            IOType::UringCmd => 20,
            IOType::Socket => 21,
            IOType::Timeout => 22,
            IOType::Nop => 23,
            IOType::NvmeCmd => 24,
            IOType::Unknown => 25,
        }
    }

    /// The name of the kind.
    pub fn name(self) -> (name: &'static str)
        ensures
            name@ == self.spelled(),
    {
        match self {
            IOType::Read => "read",
            IOType::Write => "write",
            IOType::Recv => "recv",
            IOType::Send => "send",
            IOType::Accept => "accept",
            IOType::Connect => "connect",
            IOType::Close => "close",
            IOType::FAdvise => "fadvise",
            IOType::FAllocate => "fallocate",
            IOType::Fsync => "fsync",
            IOType::Link => "link",
            IOType::MAdvise => "madvise",
            IOType::Mkdir => "mkdir",
            IOType::Open => "open",
            IOType::Rename => "rename",
            IOType::Shutdown => "shutdown",
            IOType::Stat => "stat",
            IOType::Symlink => "symlink",
            IOType::SyncFileRange => "sync_file_range",
            IOType::Unlink => "unlink",
            IOType::UringCmd => "uring_cmd",
            IOType::Socket => "socket",
            IOType::Timeout => "timeout",
            IOType::Nop => "nop",
            IOType::NvmeCmd => "nvme_cmd",
            IOType::Unknown => "unknown",
        }
    }

    /// The number of the kind, by which a trace knows it.
    pub fn code(self) -> (code: u8)
        ensures
            code == self.number(),
    {
        match self {
            IOType::Read => 0,
            IOType::Write => 1,
            IOType::Recv => 2,
            IOType::Send => 3,
            IOType::Accept => 4,
            IOType::Connect => 5,
            IOType::Close => 6,
            IOType::FAdvise => 7,
            IOType::FAllocate => 8,
            IOType::Fsync => 9,
            IOType::Link => 10,
            IOType::MAdvise => 11,
            IOType::Mkdir => 12,
            IOType::Open => 13,
            IOType::Rename => 14,
            IOType::Shutdown => 15,
            IOType::Stat => 16,
            IOType::Symlink => 17,
            IOType::SyncFileRange => 18,
            IOType::Unlink => 19,
            IOType::UringCmd => 20,
            IOType::Socket => 21,
            IOType::Timeout => 22,
            IOType::Nop => 23,
            IOType::NvmeCmd => 24,
            IOType::Unknown => 25,
        }
    }
}

/// No two kinds have the same number.
pub proof fn kinds_are_told_apart(first: IOType, second: IOType)
    requires
        first.number() == second.number(),
    ensures
        first == second,
{
}

/// Every kind has a name and a number of its own.
pub proof fn kinds_have_their_name_and_number(kind: IOType, name: &'static str, code: u8)
    requires
        call_ensures(IOType::name, (kind,), name),
        call_ensures(IOType::code, (kind,), code),
    ensures
        kind is Read ==> name@ == "read"@ && code == 0,
        kind is Write ==> name@ == "write"@ && code == 1,
        kind is Recv ==> name@ == "recv"@ && code == 2,
        kind is Send ==> name@ == "send"@ && code == 3,
        kind is Accept ==> name@ == "accept"@ && code == 4,
        kind is Connect ==> name@ == "connect"@ && code == 5,
        kind is Close ==> name@ == "close"@ && code == 6,
        kind is FAdvise ==> name@ == "fadvise"@ && code == 7,
        kind is FAllocate ==> name@ == "fallocate"@ && code == 8,
        kind is Fsync ==> name@ == "fsync"@ && code == 9,
        kind is Link ==> name@ == "link"@ && code == 10,
        kind is MAdvise ==> name@ == "madvise"@ && code == 11,
        kind is Mkdir ==> name@ == "mkdir"@ && code == 12,
        kind is Open ==> name@ == "open"@ && code == 13,
        kind is Rename ==> name@ == "rename"@ && code == 14,
        kind is Shutdown ==> name@ == "shutdown"@ && code == 15,
        kind is Stat ==> name@ == "stat"@ && code == 16,
        kind is Symlink ==> name@ == "symlink"@ && code == 17,
        kind is SyncFileRange ==> name@ == "sync_file_range"@ && code == 18,
        kind is Unlink ==> name@ == "unlink"@ && code == 19,
        kind is UringCmd ==> name@ == "uring_cmd"@ && code == 20,
        kind is Socket ==> name@ == "socket"@ && code == 21,
        kind is Timeout ==> name@ == "timeout"@ && code == 22,
        kind is Nop ==> name@ == "nop"@ && code == 23,
        kind is NvmeCmd ==> name@ == "nvme_cmd"@ && code == 24,
        kind is Unknown ==> name@ == "unknown"@ && code == 25,
{
}

} // verus!
