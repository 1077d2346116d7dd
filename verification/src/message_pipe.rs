//! Messages between the threads of a process.
//!
//! A message waits in a table while the bytes that stand for it travel over a
//! pipe. It is owned by exactly one side: by the sender until the bytes are
//! written, then by whoever reads them. The caller writes and reads the pipe and
//! reports what came of it.

use core::marker::PhantomData;

use vstd::prelude::*;

use crate::errno::Errno;
use crate::errno::EPIPE;
use crate::handle_table::HandleTable;
use crate::handle_table::HandleTableView;
use crate::pointer_buffer::pointer_from_buffer;
use crate::pointer_buffer::pointer_to_buffer;
use crate::pointer_buffer::IdPointerMsg;
use crate::pointer_buffer::MESSAGE_SIZE;
use crate::pointer_buffer::POINTER_SIZE;
use crate::time::Duration;

verus! {

/// A direction of a pipe that is shut down.
#[derive(Clone, Copy, Debug, PartialEq, Eq, Structural)]
pub enum PipeDirection {
    /// What the other side sends.
    Read,
    /// What this side sends.
    Write,
}

/// Whether a message may be put among those that wait.
pub open spec fn has_space<T>(waiting: HandleTable<Box<T>>) -> bool {
    &&& waiting.valid()
    &&& waiting@.free.len() > 0 || waiting@.slots < usize::MAX
}

/// A message whose bytes are being written.
#[derive(Debug)]
pub struct SendMessage<T> {
    pointer: [u8; 8],
    length: usize,
    completed: bool,
    marker: PhantomData<T>,
}

impl<T> SendMessage<T> {
    /// The bytes that stand for the message.
    pub closed spec fn pointer(&self) -> Seq<u8> {
        self.pointer@
    }

    /// How many bytes are written for the message.
    pub closed spec fn length(&self) -> usize {
        self.length
    }

    /// Whether it is known what came of writing them.
    pub closed spec fn completed(&self) -> bool {
        self.completed
    }

    /// Takes note of what came of writing the bytes. When they were written the
    /// message is the other side's; otherwise it is dropped.
    pub fn finish(
        &mut self,
        result: Result<usize, Errno>,
        waiting: &mut HandleTable<Box<T>>,
    ) -> (sent: Result<(), Errno>)
        requires
            old(waiting).valid(),
            !old(self).completed(),
            match result {
                Ok(amount) => amount == old(self).length(),
                Err(_) => crate::pointer_buffer::announces(old(waiting)@, old(self).pointer()),
            },
        ensures
            final(waiting).valid(),
            final(self).completed(),
            final(self).pointer() == old(self).pointer(),
            final(self).length() == old(self).length(),
            match result {
                Ok(_) => sent is Ok && final(waiting)@ == old(waiting)@,
                Err(error) => {
                    &&& sent == Err::<(), Errno>(error)
                    &&& final(waiting)@ == old(waiting)@.removed(
                        crate::pointer_buffer::big_endian(old(self).pointer()),
                    )
                },
            },
    {
        self.completed = true;
        match result {
            Ok(_) => Ok(()),
            Err(error) => {
                let _ = pointer_from_buffer(self.pointer, waiting);
                Err(error)
            },
        }
    }

    /// Whether the write has to be canceled, and its result awaited, before the
    /// message may be forgotten.
    pub fn must_complete(&self) -> (must: bool)
        ensures
            must == !self.completed(),
    {
        !self.completed
    }

    /// How many bytes are written for the message.
    pub fn len(&self) -> (length: usize)
        ensures
            length == self.length(),
    {
        self.length
    }
}

/// What a message that was read off a pipe comes to.
pub open spec fn read_outcome(result: Result<usize, Errno>) -> Result<(), Errno> {
    match result {
        Ok(amount) => if amount == 0 {
            Err(Errno { raw: EPIPE })
        } else {
            Ok(())
        },
        Err(error) => Err(error),
    }
}

/// What a message that was read off a pipe comes to: nothing read means that the
/// other side is gone.
fn check_read(result: Result<usize, Errno>) -> (outcome: Result<(), Errno>)
    ensures
        outcome == read_outcome(result),
{
    match result {
        Ok(amount) => if amount == 0 {
            Err(Errno::pipe())
        } else {
            Ok(())
        },
        Err(error) => Err(error),
    }
}

/// A message receive operation.
#[derive(Debug)]
pub struct RecvMessageFuture<T> {
    timeout: Option<Duration>,
    terminated: bool,
    marker: PhantomData<T>,
}

impl<T> RecvMessageFuture<T> {
    /// How long the operation may take.
    pub closed spec fn limit(&self) -> Option<Duration> {
        self.timeout
    }

    /// Whether the operation is over.
    pub closed spec fn terminated(&self) -> bool {
        self.terminated
    }

    /// How long the operation may take.
    pub fn timeout(&self) -> (timeout: Option<Duration>)
        ensures
            timeout == self.limit(),
    {
        self.timeout
    }

    /// Whether the operation is over.
    pub fn is_terminated(&self) -> (terminated: bool)
        ensures
            terminated == self.terminated(),
    {
        self.terminated
    }

    /// Takes the message whose bytes were read.
    pub fn finish(
        &mut self,
        result: Result<usize, Errno>,
        buffer: [u8; 8],
        waiting: &mut HandleTable<Box<T>>,
    ) -> (received: Result<Box<T>, Errno>)
        requires
            old(waiting).valid(),
            !old(self).terminated(),
            match result {
                Ok(amount) => amount == 0 || amount == POINTER_SIZE
                    && crate::pointer_buffer::announces(old(waiting)@, buffer@),
                Err(_) => true,
            },
        ensures
            final(waiting).valid(),
            final(self).terminated(),
            final(self).limit() == old(self).limit(),
            match read_outcome(result) {
                Ok(_) => {
                    &&& received is Ok
                    &&& received->Ok_0 == old(waiting)@.values[crate::pointer_buffer::big_endian(
                        buffer@,
                    )]
                    &&& final(waiting)@ == old(waiting)@.removed(
                        crate::pointer_buffer::big_endian(buffer@),
                    )
                },
                Err(error) => {
                    &&& received == Err::<Box<T>, Errno>(error)
                    &&& final(waiting)@ == old(waiting)@
                },
            },
    {
        self.terminated = true;
        match check_read(result) {
            Ok(_) => Ok(pointer_from_buffer(buffer, waiting)),
            Err(error) => Err(error),
        }
    }

    /// Takes the message that a read consumed although nobody waits for it any
    /// more, so that it can be dropped. Nothing is to be dropped when the read
    /// never began, failed or met the end.
    pub fn abandon(
        &mut self,
        result: Option<Result<usize, Errno>>,
        buffer: [u8; 8],
        waiting: &mut HandleTable<Box<T>>,
    ) -> (consumed: Option<Box<T>>)
        requires
            old(waiting).valid(),
            match result {
                Some(Ok(amount)) => amount == 0 || amount == POINTER_SIZE
                    && crate::pointer_buffer::announces(old(waiting)@, buffer@),
                _ => true,
            },
        ensures
            final(waiting).valid(),
            final(self).terminated(),
            match result {
                Some(Ok(amount)) if amount != 0 => {
                    &&& consumed is Some
                    &&& consumed->0 == old(waiting)@.values[crate::pointer_buffer::big_endian(
                        buffer@,
                    )]
                    &&& final(waiting)@ == old(waiting)@.removed(
                        crate::pointer_buffer::big_endian(buffer@),
                    )
                },
                _ => consumed is None && final(waiting)@ == old(waiting)@,
            },
    {
        self.terminated = true;
        match result {
            Some(Ok(amount)) => if amount != 0 {
                Some(pointer_from_buffer(buffer, waiting))
            } else {
                None
            },
            _ => None,
        }
    }
}

/// Puts a message among those that wait, and gives the bytes to write for it.
fn begin_send<T>(message: Box<T>, waiting: &mut HandleTable<Box<T>>) -> (begun: (
    SendMessage<T>,
    [u8; 8],
))
    requires
        has_space(*old(waiting)),
    ensures
        final(waiting).valid(),
        final(waiting)@ == old(waiting)@.inserted(message),
        crate::pointer_buffer::announces(final(waiting)@, begun.1@),
        crate::pointer_buffer::big_endian(begun.1@) == old(waiting)@.next(),
        begun.0.pointer() == begun.1@,
        begun.0.length() == POINTER_SIZE,
        !begun.0.completed(),
{
    let buffer: [u8; 8] = pointer_to_buffer(message, waiting);
    (
        SendMessage {
            pointer: buffer,
            length: POINTER_SIZE,
            completed: false,
            marker: PhantomData,
        },
        buffer,
    )
}

/// An in process pipe for sending messages of type T and receiving messages of
/// type R, over a descriptor of a type that the caller chooses.
#[derive(Debug)]
pub struct MessagePipe<P, T, R> {
    pipe: P,
    marker: PhantomData<(T, R)>,
}

/// Makes a pair of message pipes of the ends of a pipe. Both can be used to send
/// and to receive.
pub fn make_message_pipe<P, T1, T2>(pipe1: P, pipe2: P) -> (pair: (
    MessagePipe<P, T1, T2>,
    MessagePipe<P, T2, T1>,
))
    ensures
        pair.0@ == pipe1,
        pair.1@ == pipe2,
{
    (MessagePipe::new(pipe1), MessagePipe::new(pipe2))
}

/// Makes a message pipe of the ends of a pipe on which messages go one way, once
/// the other way was shut down on both ends.
pub fn make_message_pipe_oneway_sync<P, T>(
    pipe1: P,
    pipe2: P,
    shut_sender: Result<(), Errno>,
    shut_receiver: Result<(), Errno>,
) -> (pair: Result<(MessagePipeSender<P, T>, MessagePipeReceiver<P, T>), Errno>)
    ensures
        match (shut_sender, shut_receiver) {
            (Err(error), _) => pair matches Err(told) && told == error,
            (Ok(_), Err(error)) => pair matches Err(told) && told == error,
            (Ok(_), Ok(_)) => pair matches Ok(ends) && ends.0@ == pipe1 && ends.1@ == pipe2,
        },
{
    match MessagePipeSender::new_sync(pipe1, shut_sender) {
        Err(error) => Err(error),
        Ok(sender) => match MessagePipeReceiver::new_sync(pipe2, shut_receiver) {
            Err(error) => Err(error),
            Ok(receiver) => Ok((sender, receiver)),
        },
    }
}

impl<P, T, R> View for MessagePipe<P, T, R> {
    type V = P;

    /// The descriptor.
    closed spec fn view(&self) -> P {
        self.pipe
    }
}

impl<P, T, R> MessagePipe<P, T, R> {
    /// A pipe over a descriptor.
    pub fn new(pipe: P) -> (message_pipe: MessagePipe<P, T, R>)
        ensures
            message_pipe@ == pipe,
    {
        MessagePipe { pipe, marker: PhantomData }
    }

    /// The descriptor.
    pub fn into_inner(self) -> (pipe: P)
        ensures
            pipe == self@,
    {
        self.pipe
    }

    /// The descriptor.
    pub fn inner(&self) -> (pipe: &P)
        ensures
            *pipe == self@,
    {
        &self.pipe
    }

    /// Begins to send a message: gives the bytes to write.
    ///
    /// Cancellation waits for the I/O result. If transmission succeeded, the
    /// receiver owns the message. Otherwise, cancellation drops the message.
    pub fn send_message(&self, message: Box<T>, waiting: &mut HandleTable<Box<T>>) -> (begun: (
        SendMessage<T>,
        [u8; 8],
    ))
        requires
            has_space(*old(waiting)),
        ensures
            final(waiting).valid(),
            final(waiting)@ == old(waiting)@.inserted(message),
            crate::pointer_buffer::announces(final(waiting)@, begun.1@),
            crate::pointer_buffer::big_endian(begun.1@) == old(waiting)@.next(),
            begun.0.pointer() == begun.1@,
            begun.0.length() == POINTER_SIZE,
            !begun.0.completed(),
    {
        begin_send(message, waiting)
    }

    /// Begins to receive a message.
    pub fn recv_message(&self) -> (receiving: RecvMessageFuture<R>)
        ensures
            receiving.limit() is None,
            !receiving.terminated(),
    {
        self.recv_message_with_timeout(None)
    }

    /// Begins to receive a message with an optional timeout.
    pub fn recv_message_with_timeout(&self, timeout: Option<Duration>) -> (receiving:
        RecvMessageFuture<R>)
        ensures
            receiving.limit() == timeout,
            !receiving.terminated(),
    {
        RecvMessageFuture { timeout, terminated: false, marker: PhantomData }
    }
}

/// The end of a message pipe that only receives.
#[derive(Debug)]
pub struct MessagePipeReceiver<P, R> {
    pipe: P,
    marker: PhantomData<R>,
}

impl<P, R> View for MessagePipeReceiver<P, R> {
    type V = P;

    /// The descriptor.
    closed spec fn view(&self) -> P {
        self.pipe
    }
}

impl<P, R> MessagePipeReceiver<P, R> {
    /// The direction that is shut down on a descriptor before it is used so.
    pub fn unused_direction() -> (direction: PipeDirection)
        ensures
            direction == PipeDirection::Write,
    {
        PipeDirection::Write
    }

    /// The receiving end over a descriptor, whose other direction was shut down.
    pub fn new_sync(pipe: P, shut: Result<(), Errno>) -> (end: Result<MessagePipeReceiver<P, R>, Errno>)
        ensures
            match shut {
                Ok(_) => end matches Ok(end) && end@ == pipe,
                Err(error) => end matches Err(told) && told == error,
            },
    {
        match shut {
            Ok(_) => Ok(MessagePipeReceiver { pipe, marker: PhantomData }),
            Err(error) => Err(error),
        }
    }

    /// The descriptor.
    pub fn into_inner(self) -> (pipe: P)
        ensures
            pipe == self@,
    {
        self.pipe
    }

    /// The descriptor.
    pub fn inner(&self) -> (pipe: &P)
        ensures
            *pipe == self@,
    {
        &self.pipe
    }

    /// Begins to receive a message.
    pub fn recv_message(&self) -> (receiving: RecvMessageFuture<R>)
        ensures
            receiving.limit() is None,
            !receiving.terminated(),
    {
        self.recv_message_with_timeout(None)
    }

    /// Begins to receive a message with an optional timeout.
    pub fn recv_message_with_timeout(&self, timeout: Option<Duration>) -> (receiving:
        RecvMessageFuture<R>)
        ensures
            receiving.limit() == timeout,
            !receiving.terminated(),
    {
        RecvMessageFuture { timeout, terminated: false, marker: PhantomData }
    }
}

/// The end of a message pipe that only sends.
#[derive(Debug)]
pub struct MessagePipeSender<P, T> {
    pipe: P,
    marker: PhantomData<T>,
}

impl<P, T> View for MessagePipeSender<P, T> {
    type V = P;

    /// The descriptor.
    closed spec fn view(&self) -> P {
        self.pipe
    }
}

impl<P, T> MessagePipeSender<P, T> {
    /// The direction that is shut down on a descriptor before it is used so.
    pub fn unused_direction() -> (direction: PipeDirection)
        ensures
            direction == PipeDirection::Read,
    {
        PipeDirection::Read
    }

    /// The sending end over a descriptor, whose other direction was shut down.
    pub fn new_sync(pipe: P, shut: Result<(), Errno>) -> (end: Result<MessagePipeSender<P, T>, Errno>)
        ensures
            match shut {
                Ok(_) => end matches Ok(end) && end@ == pipe,
                Err(error) => end matches Err(told) && told == error,
            },
    {
        match shut {
            Ok(_) => Ok(MessagePipeSender { pipe, marker: PhantomData }),
            Err(error) => Err(error),
        }
    }

    /// The descriptor.
    pub fn into_inner(self) -> (pipe: P)
        ensures
            pipe == self@,
    {
        self.pipe
    }

    /// The descriptor.
    pub fn inner(&self) -> (pipe: &P)
        ensures
            *pipe == self@,
    {
        &self.pipe
    }

    /// Begins to send a message: gives the bytes to write.
    ///
    /// Cancellation waits for the I/O result. If transmission succeeded, the
    /// receiver owns the message. Otherwise, cancellation drops the message.
    pub fn send_message(&self, message: Box<T>, waiting: &mut HandleTable<Box<T>>) -> (begun: (
        SendMessage<T>,
        [u8; 8],
    ))
        requires
            has_space(*old(waiting)),
        ensures
            final(waiting).valid(),
            final(waiting)@ == old(waiting)@.inserted(message),
            crate::pointer_buffer::announces(final(waiting)@, begun.1@),
            crate::pointer_buffer::big_endian(begun.1@) == old(waiting)@.next(),
            begun.0.pointer() == begun.1@,
            begun.0.length() == POINTER_SIZE,
            !begun.0.completed(),
    {
        begin_send(message, waiting)
    }
}

/// A message pipe on which each message has an identifier.
#[derive(Debug)]
pub struct IdMessagePipe<P, T, R> {
    pipe: P,
    marker: PhantomData<(T, R)>,
}

impl<P, T, R> View for IdMessagePipe<P, T, R> {
    type V = P;

    /// The descriptor.
    closed spec fn view(&self) -> P {
        self.pipe
    }
}

impl<P, T, R> IdMessagePipe<P, T, R> {
    /// A pipe over a descriptor.
    pub fn new(pipe: P) -> (message_pipe: IdMessagePipe<P, T, R>)
        ensures
            message_pipe@ == pipe,
    {
        IdMessagePipe { pipe, marker: PhantomData }
    }

    /// The descriptor.
    pub fn into_inner(self) -> (pipe: P)
        ensures
            pipe == self@,
    {
        self.pipe
    }

    /// The descriptor.
    pub fn inner(&self) -> (pipe: &P)
        ensures
            *pipe == self@,
    {
        &self.pipe
    }

    /// Begins to send a message with an identifier: gives the bytes to write.
    pub fn send_message(
        &self,
        id: u64,
        message: Box<T>,
        waiting: &mut HandleTable<Box<T>>,
    ) -> (begun: (SendMessage<T>, IdPointerMsg))
        requires
            has_space(*old(waiting)),
        ensures
            final(waiting).valid(),
            final(waiting)@ == old(waiting)@.inserted(message),
            crate::pointer_buffer::announces(final(waiting)@, begun.1.pointer()),
            crate::pointer_buffer::big_endian(begun.1.pointer()) == old(waiting)@.next(),
            begun.1.id() == id,
            begun.0.pointer() == begun.1.pointer(),
            begun.0.length() == MESSAGE_SIZE,
            !begun.0.completed(),
    {
        let bytes = IdPointerMsg::from_id_box(id, message, waiting);
        let pointer: [u8; 8] = bytes.get_ptr();
        (SendMessage { pointer, length: MESSAGE_SIZE, completed: false, marker: PhantomData }, bytes)
    }

    /// Takes the message whose bytes were read.
    pub fn recv_message(
        &self,
        result: Result<usize, Errno>,
        buffer: IdPointerMsg,
        waiting: &mut HandleTable<Box<R>>,
    ) -> (received: Result<(u64, Box<R>), Errno>)
        requires
            old(waiting).valid(),
            match result {
                Ok(amount) => amount == 0 || amount == MESSAGE_SIZE
                    && crate::pointer_buffer::announces(old(waiting)@, buffer.pointer()),
                Err(_) => true,
            },
        ensures
            final(waiting).valid(),
            match read_outcome(result) {
                Ok(_) => {
                    &&& received is Ok
                    &&& received->Ok_0.0 == buffer.id()
                    &&& received->Ok_0.1 == old(waiting)@.values[crate::pointer_buffer::big_endian(
                        buffer.pointer(),
                    )]
                    &&& final(waiting)@ == old(waiting)@.removed(
                        crate::pointer_buffer::big_endian(buffer.pointer()),
                    )
                },
                Err(error) => {
                    &&& received == Err::<(u64, Box<R>), Errno>(error)
                    &&& final(waiting)@ == old(waiting)@
                },
            },
    {
        match check_read(result) {
            Ok(_) => Ok(buffer.into_id_box(waiting)),
            Err(error) => Err(error),
        }
    }
}

/// A message has one owner. A send that failed leaves nothing behind: the
/// messages that wait are those from before. A send that succeeded leaves the
/// message to be taken, once, as it was sent; then, too, the others are those
/// from before.
pub proof fn messages_have_one_owner<T>(before: HandleTableView<Box<T>>, message: Box<T>)
    requires
        before.valid(),
    ensures
        before.inserted(message).removed(before.next()).values == before.values,
        before.inserted(message).values[before.next()] == message,
        !before.inserted(message).removed(before.next()).values.contains_key(before.next()),
{
    crate::pointer_buffer::values_arrive_unchanged(before, message);
}

/// A message that was sent arrives as it was, once, and leaves nothing behind.
pub proof fn sent_messages_arrive<P, T, R>(
    pipe: &MessagePipe<P, T, R>,
    other: &MessagePipe<P, R, T>,
    begun: &mut HandleTable<Box<T>>,
    written: &mut HandleTable<Box<T>>,
    read: &mut HandleTable<Box<T>>,
    message: Box<T>,
    sending: (SendMessage<T>, [u8; 8]),
    finished: &mut SendMessage<T>,
    receiving: RecvMessageFuture<T>,
    ended: &mut RecvMessageFuture<T>,
    length: usize,
    sent: Result<(), Errno>,
    received: Result<Box<T>, Errno>,
    must: (bool, bool),
    over: (bool, bool),
)
    requires
        old(begun).valid(),
        call_ensures(MessagePipe::<P, T, R>::send_message, (pipe, message, begun), sending),
        call_ensures(SendMessage::<T>::len, (&sending.0,), length),
        call_ensures(SendMessage::<T>::must_complete, (&sending.0,), must.0),
        *old(finished) == sending.0,
        *old(written) == *final(begun),
        call_ensures(SendMessage::<T>::finish, (finished, Ok(length), written), sent),
        call_ensures(SendMessage::<T>::must_complete, (final(finished),), must.1),
        call_ensures(MessagePipe::<P, R, T>::recv_message, (other,), receiving),
        call_ensures(RecvMessageFuture::<T>::is_terminated, (&receiving,), over.0),
        *old(ended) == receiving,
        *old(read) == *final(written),
        call_ensures(
            RecvMessageFuture::<T>::finish,
            (ended, Ok(length), sending.1, read),
            received,
        ),
        call_ensures(RecvMessageFuture::<T>::is_terminated, (final(ended),), over.1),
    ensures
        length == 8,
        sent is Ok,
        received matches Ok(back) && back == message,
        final(read)@.values == old(begun)@.values,
        must.0 && !must.1,
        !over.0 && over.1,
{
    crate::handle_table::count_is_that_of_the_values(old(begun));
    messages_have_one_owner(old(begun)@, message);
}

/// A message that could not be sent is dropped, and the failure reported.
pub proof fn unsent_messages_are_dropped<P, T, R>(
    pipe: &MessagePipe<P, T, R>,
    begun: &mut HandleTable<Box<T>>,
    dropped: &mut HandleTable<Box<T>>,
    message: Box<T>,
    sending: (SendMessage<T>, [u8; 8]),
    finished: &mut SendMessage<T>,
    error: Errno,
    sent: Result<(), Errno>,
)
    requires
        old(begun).valid(),
        call_ensures(MessagePipe::<P, T, R>::send_message, (pipe, message, begun), sending),
        *old(finished) == sending.0,
        *old(dropped) == *final(begun),
        call_ensures(SendMessage::<T>::finish, (finished, Err(error), dropped), sent),
    ensures
        sent == Err::<(), Errno>(error),
        final(dropped)@.values == old(begun)@.values,
{
    crate::handle_table::count_is_that_of_the_values(old(begun));
    messages_have_one_owner(old(begun)@, message);
}

/// A read that met the end or failed takes no message, whether somebody waits for
/// it or not; one that nobody waits for takes the message that was read.
pub proof fn failed_reads_take_nothing<T>(
    ended: &mut RecvMessageFuture<T>,
    failed: &mut RecvMessageFuture<T>,
    given_up: &mut RecvMessageFuture<T>,
    unread: &mut RecvMessageFuture<T>,
    at_end: &mut HandleTable<Box<T>>,
    at_failure: &mut HandleTable<Box<T>>,
    consumed: &mut HandleTable<Box<T>>,
    untouched: &mut HandleTable<Box<T>>,
    bytes: [u8; 8],
    error: Errno,
    received: (Result<Box<T>, Errno>, Result<Box<T>, Errno>),
    taken: (Option<Box<T>>, Option<Box<T>>),
)
    requires
        call_ensures(RecvMessageFuture::<T>::finish, (ended, Ok(0), bytes, at_end), received.0),
        call_ensures(
            RecvMessageFuture::<T>::finish,
            (failed, Err(error), bytes, at_failure),
            received.1,
        ),
        call_ensures(
            RecvMessageFuture::<T>::abandon,
            (given_up, Some(Ok(8)), bytes, consumed),
            taken.0,
        ),
        call_ensures(RecvMessageFuture::<T>::abandon, (unread, None, bytes, untouched), taken.1),
    ensures
        received.0 matches Err(told) && told.raw == 32,
        received.1 == Err::<Box<T>, Errno>(error),
        final(at_end)@ == old(at_end)@ && final(at_failure)@ == old(at_failure)@,
        taken.0 matches Some(message) && message == old(consumed)@.values[crate::pointer_buffer::big_endian(bytes@)],
        taken.1 is None && final(untouched)@ == old(untouched)@,
        final(ended).terminated() && final(failed).terminated(),
        final(given_up).terminated() && final(unread).terminated(),
{
}

/// A message with an identifier arrives with that identifier.
pub proof fn identified_messages_arrive<P, T, R>(
    pipe: &IdMessagePipe<P, T, R>,
    other: &IdMessagePipe<P, R, T>,
    begun: &mut HandleTable<Box<T>>,
    read: &mut HandleTable<Box<T>>,
    at_end: &mut HandleTable<Box<T>>,
    id: u64,
    message: Box<T>,
    sending: (SendMessage<T>, IdPointerMsg),
    length: usize,
    received: (Result<(u64, Box<T>), Errno>, Result<(u64, Box<T>), Errno>),
)
    requires
        old(begun).valid(),
        call_ensures(IdMessagePipe::<P, T, R>::send_message, (pipe, id, message, begun), sending),
        call_ensures(SendMessage::<T>::len, (&sending.0,), length),
        *old(read) == *final(begun),
        call_ensures(
            IdMessagePipe::<P, R, T>::recv_message,
            (other, Ok(length), sending.1, read),
            received.0,
        ),
        call_ensures(
            IdMessagePipe::<P, R, T>::recv_message,
            (other, Ok(0), sending.1, at_end),
            received.1,
        ),
    ensures
        length == 16,
        received.0 == Ok::<(u64, Box<T>), Errno>((id, message)),
        final(read)@.values == old(begun)@.values,
        received.1 matches Err(told) && told.raw == 32,
        final(at_end)@ == old(at_end)@,
{
    crate::handle_table::count_is_that_of_the_values(old(begun));
    messages_have_one_owner(old(begun)@, message);
}

/// Pipes keep the descriptors that they were made of, and a one-way pipe comes
/// about only when both ends were shut down the other way.
pub proof fn pipes_keep_their_descriptors<P, T, R>(
    ends: (P, P),
    shut: (Result<(), Errno>, Result<(), Errno>),
    pair: (MessagePipe<P, T, R>, MessagePipe<P, R, T>),
    inner: (P, P),
    read: &P,
    oneway: Result<(MessagePipeSender<P, T>, MessagePipeReceiver<P, T>), Errno>,
    unused: (PipeDirection, PipeDirection),
    timeout: Option<Duration>,
    receiving: (RecvMessageFuture<R>, RecvMessageFuture<R>),
    limits: (Option<Duration>, Option<Duration>),
)
    requires
        call_ensures(make_message_pipe::<P, T, R>, (ends.0, ends.1), pair),
        call_ensures(MessagePipe::<P, T, R>::inner, (&pair.0,), read),
        call_ensures(MessagePipe::<P, T, R>::into_inner, (pair.0,), inner.0),
        call_ensures(MessagePipe::<P, R, T>::into_inner, (pair.1,), inner.1),
        call_ensures(
            make_message_pipe_oneway_sync::<P, T>,
            (ends.0, ends.1, shut.0, shut.1),
            oneway,
        ),
        call_ensures(MessagePipeSender::<P, T>::unused_direction, (), unused.0),
        call_ensures(MessagePipeReceiver::<P, T>::unused_direction, (), unused.1),
        call_ensures(
            MessagePipe::<P, T, R>::recv_message_with_timeout,
            (&pair.0, timeout),
            receiving.0,
        ),
        call_ensures(MessagePipe::<P, T, R>::recv_message, (&pair.0,), receiving.1),
        call_ensures(RecvMessageFuture::<R>::timeout, (&receiving.0,), limits.0),
        call_ensures(RecvMessageFuture::<R>::timeout, (&receiving.1,), limits.1),
    ensures
        inner == ends && *read == ends.0,
        oneway is Ok <==> shut.0 is Ok && shut.1 is Ok,
        oneway matches Ok(made) ==> made.0@ == ends.0 && made.1@ == ends.1,
        shut.0 matches Err(error) ==> (oneway matches Err(told) && told == error),
        shut.0 is Ok ==> (shut.1 matches Err(error) ==> (oneway matches Err(told) && told
            == error)),
        unused.0 is Read && unused.1 is Write,
        limits.0 == timeout && limits.1 is None,
{
}

/// The ends of a one-way pipe are made of their descriptor once its other
/// direction was shut down, and give it back.
pub proof fn ends_keep_their_descriptor<P, T>(
    pipe: P,
    error: Errno,
    sending: (Result<MessagePipeSender<P, T>, Errno>, Result<MessagePipeSender<P, T>, Errno>),
    receiving: (
        Result<MessagePipeReceiver<P, T>, Errno>,
        Result<MessagePipeReceiver<P, T>, Errno>,
    ),
    sender: MessagePipeSender<P, T>,
    receiver: MessagePipeReceiver<P, T>,
    inner: (P, P),
    read: (&P, &P),
    timeout: Option<Duration>,
    futures: (RecvMessageFuture<T>, RecvMessageFuture<T>),
    limits: (Option<Duration>, Option<Duration>),
)
    requires
        call_ensures(MessagePipeSender::<P, T>::new_sync, (pipe, Ok(())), sending.0),
        call_ensures(MessagePipeSender::<P, T>::new_sync, (pipe, Err(error)), sending.1),
        call_ensures(MessagePipeReceiver::<P, T>::new_sync, (pipe, Ok(())), receiving.0),
        call_ensures(MessagePipeReceiver::<P, T>::new_sync, (pipe, Err(error)), receiving.1),
        sending.0 == Ok::<MessagePipeSender<P, T>, Errno>(sender),
        receiving.0 == Ok::<MessagePipeReceiver<P, T>, Errno>(receiver),
        call_ensures(MessagePipeSender::<P, T>::inner, (&sender,), read.0),
        call_ensures(MessagePipeReceiver::<P, T>::inner, (&receiver,), read.1),
        call_ensures(MessagePipeSender::<P, T>::into_inner, (sender,), inner.0),
        call_ensures(MessagePipeReceiver::<P, T>::into_inner, (receiver,), inner.1),
        call_ensures(MessagePipeReceiver::<P, T>::recv_message, (&receiver,), futures.0),
        call_ensures(
            MessagePipeReceiver::<P, T>::recv_message_with_timeout,
            (&receiver, timeout),
            futures.1,
        ),
        call_ensures(RecvMessageFuture::<T>::timeout, (&futures.0,), limits.0),
        call_ensures(RecvMessageFuture::<T>::timeout, (&futures.1,), limits.1),
    ensures
        sending.1 == Err::<MessagePipeSender<P, T>, Errno>(error),
        receiving.1 == Err::<MessagePipeReceiver<P, T>, Errno>(error),
        inner == (pipe, pipe) && *read.0 == pipe && *read.1 == pipe,
        limits.0 is None && limits.1 == timeout,
{
}

/// A sender sends as a pipe does, and pipes give back the descriptor that they
/// were made of.
pub proof fn senders_send_as_pipes_do<P, T, R>(
    pipe: P,
    sender: &MessagePipeSender<P, T>,
    begun: &mut HandleTable<Box<T>>,
    message: Box<T>,
    sending: (SendMessage<T>, [u8; 8]),
    announced: bool,
    length: usize,
    must: bool,
    made: (MessagePipe<P, T, R>, IdMessagePipe<P, T, R>),
    inner: (P, P),
    read: (&P, &P),
)
    requires
        old(begun).valid(),
        call_ensures(MessagePipeSender::<P, T>::send_message, (sender, message, begun), sending),
        call_ensures(SendMessage::<T>::len, (&sending.0,), length),
        call_ensures(SendMessage::<T>::must_complete, (&sending.0,), must),
        call_ensures(
            crate::pointer_buffer::is_announced::<T>,
            (sending.1, final(begun)),
            announced,
        ),
        call_ensures(MessagePipe::<P, T, R>::new, (pipe,), made.0),
        call_ensures(IdMessagePipe::<P, T, R>::new, (pipe,), made.1),
        call_ensures(MessagePipe::<P, T, R>::inner, (&made.0,), read.0),
        call_ensures(IdMessagePipe::<P, T, R>::inner, (&made.1,), read.1),
        call_ensures(MessagePipe::<P, T, R>::into_inner, (made.0,), inner.0),
        call_ensures(IdMessagePipe::<P, T, R>::into_inner, (made.1,), inner.1),
    ensures
        announced && length == 8 && must,
        final(begun)@.values[crate::pointer_buffer::big_endian(sending.1@)] == message,
        inner == (pipe, pipe) && *read.0 == pipe && *read.1 == pipe,
{
}

} // verus!
