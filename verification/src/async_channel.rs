//! Channels between tasks of one thread.
//!
//! A channel is one value that its sender and receiver handles act on. The
//! unbounded channel queues any number of messages; the bounded one holds at
//! most one. Every operation says which waiting tasks it wakes, and an
//! operation that may wait is given as one turn of its loop.

use std::collections::VecDeque;
use std::marker::PhantomData;

use vstd::prelude::*;

use crate::errors::CanceledError;
use crate::errors::ChannelError;
use crate::errors::TimeoutError;
use crate::event::Wake;

verus! {

/// One turn of a receive that may wait.
#[derive(Debug, PartialEq, Eq)]
pub enum RecvStep<T> {
    /// The receive is over.
    Ready(Result<T, ChannelError>),
    /// The receiver waits until the channel signals, then takes another turn.
    Wait,
}

/// One turn of a send that may wait.
#[derive(Debug, PartialEq, Eq)]
pub enum SendStep<T> {
    /// The message was accepted.
    Sent(Wake),
    /// The channel is closed, or the wait for it was canceled, and here is the
    /// message.
    Returned(T),
    /// The channel is full. The sender waits until it is not, then takes
    /// another turn with the message.
    Wait(T),
}

/// The turn that follows from what a receive that does not wait returned: a
/// waiting receive goes on only while the channel is open and empty.
pub open spec fn recv_turn<T>(received: Result<Option<T>, ChannelError>) -> RecvStep<T> {
    match received {
        Ok(Some(message)) => RecvStep::Ready(Ok(message)),
        Ok(None) => RecvStep::Wait,
        Err(error) => RecvStep::Ready(Err(error)),
    }
}

/// The turn that follows from what a send that does not wait returned: a
/// waiting send goes on only while the channel is open and full.
pub open spec fn send_turn<T>(sent: Result<Wake, SendError<T>>) -> SendStep<T> {
    match sent {
        Ok(wake) => SendStep::Sent(wake),
        Err(SendError::ChannelFull(message)) => SendStep::Wait(message),
        Err(SendError::ChannelClosed(message)) => SendStep::Returned(message),
    }
}

/// The state of an unbounded channel.
#[verifier::ext_equal]
pub struct UnboundedView<T> {
    /// The queued messages, oldest first.
    pub items: Seq<T>,
    /// Whether the channel is closed.
    pub closed: bool,
    /// How many senders are left.
    pub senders: nat,
    /// Whether a waiting receiver is called.
    pub signaled: bool,
}

/// An unbounded channel.
pub struct AsyncChannelUnbounded<T> {
    items: VecDeque<T>,
    closed: bool,
    has_items: bool,
    sender_count: usize,
}

impl<T> View for AsyncChannelUnbounded<T> {
    type V = UnboundedView<T>;

    closed spec fn view(&self) -> UnboundedView<T> {
        UnboundedView {
            items: self.items@,
            closed: self.closed,
            senders: self.sender_count as nat,
            signaled: self.has_items,
        }
    }
}

impl<T> UnboundedView<T> {
    /// The channel when it has just been created.
    pub open spec fn fresh() -> UnboundedView<T> {
        UnboundedView { items: Seq::empty(), closed: false, senders: 1, signaled: false }
    }

    /// A receiver that waits is called whenever a message or the end of the
    /// channel waits for it.
    pub open spec fn calls_receiver(self) -> bool {
        (self.items.len() > 0 || self.closed) ==> self.signaled
    }

    /// The channel after a send.
    pub open spec fn sent(self, message: T) -> UnboundedView<T> {
        if self.closed {
            self
        } else {
            UnboundedView { items: self.items.push(message), signaled: true, ..self }
        }
    }

    /// The channel after it was closed.
    pub open spec fn shut(self) -> UnboundedView<T> {
        UnboundedView { closed: true, signaled: true, ..self }
    }

    /// The channel after a receive that does not wait.
    pub open spec fn received(self) -> UnboundedView<T> {
        if self.items.len() > 0 {
            UnboundedView { items: self.items.drop_first(), ..self }
        } else if self.closed {
            self
        } else {
            UnboundedView { signaled: false, ..self }
        }
    }

    /// What a receive that does not wait returns.
    pub open spec fn next(self) -> Result<Option<T>, ChannelError> {
        if self.items.len() > 0 {
            Ok(Some(self.items[0]))
        } else if self.closed {
            Err(ChannelError::Closed)
        } else {
            Ok(None)
        }
    }

    /// The channel after a sender left.
    pub open spec fn left(self) -> UnboundedView<T> {
        let rest = UnboundedView { senders: (self.senders - 1) as nat, ..self };
        if self.senders == 1 {
            rest.shut()
        } else {
            rest
        }
    }
}

impl<T> AsyncChannelUnbounded<T> {
    /// Creates an open, empty channel with one sender.
    pub fn new() -> (channel: AsyncChannelUnbounded<T>)
        ensures
            channel@ == UnboundedView::<T>::fresh(),
    {
        Self::with_capacity(0)
    }

    /// Creates an open, empty channel with one sender and room for `capacity`
    /// messages.
    pub fn with_capacity(capacity: usize) -> (channel: AsyncChannelUnbounded<T>)
        ensures
            channel@ == UnboundedView::<T>::fresh(),
    {
        AsyncChannelUnbounded {
            items: VecDeque::with_capacity(capacity),
            closed: false,
            has_items: false,
            sender_count: 1,
        }
    }

    /// Queues a message and calls the receiver, or returns the message when
    /// the channel is closed.
    pub fn send(&mut self, message: T) -> (sent: Result<Wake, T>)
        ensures
            final(self)@ == old(self)@.sent(message),
            sent == if old(self)@.closed {
                Err::<Wake, T>(message)
            } else {
                Ok(Wake::Everyone)
            },
    {
        match self.push_back(message) {
            Ok(()) => {
                self.has_items = true;
                Ok(Wake::Everyone)
            },
            Err(message) => Err(message),
        }
    }

    /// Whether no message is queued.
    pub fn is_empty(&self) -> (empty: bool)
        ensures
            empty == (self@.items.len() == 0),
    {
        self.items.len() == 0
    }

    /// How many messages are queued.
    pub fn len(&self) -> (len: usize)
        ensures
            len == self@.items.len(),
    {
        self.items.len()
    }

    /// Takes the oldest message, if any, without waiting.
    pub fn try_recv(&mut self) -> (received: Result<Option<T>, ChannelError>)
        ensures
            received == old(self)@.next(),
            final(self)@ == old(self)@.received(),
    {
        self.pop_front()
    }

    /// Takes one turn of a receive. `waited` says how the wait before this
    /// turn ended; the first turn follows no wait and is given `Ok`.
    pub fn recv(&mut self, waited: Result<(), TimeoutError>) -> (step: RecvStep<T>)
        ensures
            match waited {
                Err(error) => {
                    &&& step == RecvStep::<T>::Ready(Err(crate::errors::channel_error_of_timeout(error)))
                    &&& final(self)@ == old(self)@
                },
                Ok(()) => {
                    &&& final(self)@ == old(self)@.received()
                    &&& step == recv_turn(old(self)@.next())
                },
            },
    {
        match waited {
            Err(error) => RecvStep::Ready(Err(ChannelError::from(error))),
            Ok(()) => match self.pop_front() {
                Ok(Some(message)) => RecvStep::Ready(Ok(message)),
                Ok(None) => RecvStep::Wait,
                Err(error) => RecvStep::Ready(Err(error)),
            },
        }
    }

    /// Closes the channel. Messages that are already queued can still be
    /// received.
    pub fn close(&mut self) -> (wake: Wake)
        ensures
            final(self)@ == old(self)@.shut(),
            wake == Wake::Everyone,
    {
        self.closed = true;
        self.has_items = true;
        Wake::Everyone
    }

    fn push_back(&mut self, message: T) -> (pushed: Result<(), T>)
        ensures
            pushed == if old(self)@.closed {
                Err::<(), T>(message)
            } else {
                Ok(())
            },
            final(self)@ == if old(self)@.closed {
                old(self)@
            } else {
                UnboundedView { items: old(self)@.items.push(message), ..old(self)@ }
            },
    {
        if self.closed {
            return Err(message);
        }
        self.items.push_back(message);
        Ok(())
    }

    fn pop_front(&mut self) -> (popped: Result<Option<T>, ChannelError>)
        ensures
            popped == old(self)@.next(),
            final(self)@ == old(self)@.received(),
    {
        match self.items.pop_front() {
            Some(message) => Ok(Some(message)),
            None => {
                if self.closed {
                    Err(ChannelError::Closed)
                } else {
                    self.has_items = false;
                    Ok(None)
                }
            },
        }
    }

    /// Adds a sender.
    pub fn increment_sender_count(&mut self)
        requires
            old(self)@.senders < usize::MAX,
        ensures
            final(self)@ == (UnboundedView {
                senders: (old(self)@.senders + 1) as nat,
                ..old(self)@
            }),
    {
        self.sender_count = self.sender_count + 1;
    }

    /// Removes a sender and closes the channel when it was the last.
    pub fn decrement_sender_count(&mut self) -> (wake: Wake)
        requires
            old(self)@.senders > 0,
        ensures
            final(self)@ == old(self)@.left(),
            wake == if old(self)@.senders == 1 {
                Wake::Everyone
            } else {
                Wake::Nobody
            },
    {
        self.sender_count = self.sender_count - 1;
        if self.sender_count == 0 {
            self.close()
        } else {
            Wake::Nobody
        }
    }
}

impl<T> Default for AsyncChannelUnbounded<T> {
    fn default() -> (channel: AsyncChannelUnbounded<T>)
        ensures
            channel@ == UnboundedView::<T>::fresh(),
    {
        Self::new()
    }
}

/// A sending handle of an unbounded channel.
pub struct SenderUnbounded<T> {
    messages: PhantomData<T>,
}

/// The receiving handle of an unbounded channel.
pub struct ReceiverUnbounded<T> {
    messages: PhantomData<T>,
}

/// Creates an unbounded channel with its two handles. The channel closes when
/// its last sender leaves or closes it; messages that were queued by then are
/// still received.
pub fn async_channel_unbounded<T>() -> (channel: (
    AsyncChannelUnbounded<T>,
    SenderUnbounded<T>,
    ReceiverUnbounded<T>,
))
    ensures
        channel.0@ == UnboundedView::<T>::fresh(),
{
    async_channel_unbounded_with_capacity(0)
}

/// Creates an unbounded channel with room for `capacity` messages.
pub fn async_channel_unbounded_with_capacity<T>(capacity: usize) -> (channel: (
    AsyncChannelUnbounded<T>,
    SenderUnbounded<T>,
    ReceiverUnbounded<T>,
))
    ensures
        channel.0@ == UnboundedView::<T>::fresh(),
{
    (
        AsyncChannelUnbounded::with_capacity(capacity),
        SenderUnbounded { messages: PhantomData },
        ReceiverUnbounded { messages: PhantomData },
    )
}

impl<T> SenderUnbounded<T> {
    /// Sends a message. Sending never waits; a closed channel returns the
    /// message.
    pub fn send(&self, channel: &mut AsyncChannelUnbounded<T>, message: T) -> (sent: Result<
        Wake,
        T,
    >)
        ensures
            final(channel)@ == old(channel)@.sent(message),
            sent == if old(channel)@.closed {
                Err::<Wake, T>(message)
            } else {
                Ok(Wake::Everyone)
            },
    {
        channel.send(message)
    }

    /// Closes the channel. Later sends return their message.
    pub fn close(&self, channel: &mut AsyncChannelUnbounded<T>) -> (wake: Wake)
        ensures
            final(channel)@ == old(channel)@.shut(),
            wake == Wake::Everyone,
    {
        channel.close()
    }

    /// Whether no message is queued.
    pub fn is_empty(&self, channel: &AsyncChannelUnbounded<T>) -> (empty: bool)
        ensures
            empty == (channel@.items.len() == 0),
    {
        channel.is_empty()
    }

    /// How many messages are queued.
    pub fn len(&self, channel: &AsyncChannelUnbounded<T>) -> (len: usize)
        ensures
            len == channel@.items.len(),
    {
        channel.len()
    }

    /// Makes another sending handle.
    pub fn duplicate(&self, channel: &mut AsyncChannelUnbounded<T>) -> (sender: SenderUnbounded<T>)
        requires
            old(channel)@.senders < usize::MAX,
        ensures
            final(channel)@ == (UnboundedView {
                senders: (old(channel)@.senders + 1) as nat,
                ..old(channel)@
            }),
    {
        channel.increment_sender_count();
        SenderUnbounded { messages: PhantomData }
    }

    /// Gives the handle up, which closes the channel when it was the last.
    pub fn leave(self, channel: &mut AsyncChannelUnbounded<T>) -> (wake: Wake)
        requires
            old(channel)@.senders > 0,
        ensures
            final(channel)@ == old(channel)@.left(),
            wake == if old(channel)@.senders == 1 {
                Wake::Everyone
            } else {
                Wake::Nobody
            },
    {
        channel.decrement_sender_count()
    }
}

impl<T> ReceiverUnbounded<T> {
    /// Takes the oldest message, if any, without waiting. A closed channel
    /// fails once it is empty.
    pub fn try_recv(&self, channel: &mut AsyncChannelUnbounded<T>) -> (received: Result<
        Option<T>,
        ChannelError,
    >)
        ensures
            received == old(channel)@.next(),
            final(channel)@ == old(channel)@.received(),
    {
        channel.try_recv()
    }

    /// Takes one turn of a receive that waits without a deadline.
    pub fn recv(
        &self,
        channel: &mut AsyncChannelUnbounded<T>,
        waited: Result<(), CanceledError>,
    ) -> (step: RecvStep<T>)
        ensures
            match waited {
                Err(_) => {
                    &&& step == RecvStep::<T>::Ready(Err(ChannelError::Canceled))
                    &&& final(channel)@ == old(channel)@
                },
                Ok(()) => {
                    &&& final(channel)@ == old(channel)@.received()
                    &&& step == recv_turn(old(channel)@.next())
                },
            },
    {
        match waited {
            Err(error) => channel.recv(Err(TimeoutError::from(error))),
            Ok(()) => channel.recv(Ok(())),
        }
    }

    /// Takes one turn of a receive that waits until a deadline.
    pub fn recv_with_deadline(
        &self,
        channel: &mut AsyncChannelUnbounded<T>,
        waited: Result<(), TimeoutError>,
    ) -> (step: RecvStep<T>)
        ensures
            match waited {
                Err(error) => {
                    &&& step == RecvStep::<T>::Ready(Err(crate::errors::channel_error_of_timeout(error)))
                    &&& final(channel)@ == old(channel)@
                },
                Ok(()) => {
                    &&& final(channel)@ == old(channel)@.received()
                    &&& step == recv_turn(old(channel)@.next())
                },
            },
    {
        channel.recv(waited)
    }
}

/// Sends `messages` one after the other.
pub open spec fn unbounded_send_all<T>(
    channel: UnboundedView<T>,
    messages: Seq<T>,
) -> UnboundedView<T>
    decreases messages.len(),
{
    if messages.len() == 0 {
        channel
    } else {
        unbounded_send_all(channel, messages.drop_last()).sent(messages.last())
    }
}

/// Receives `count` times without waiting.
pub open spec fn unbounded_receive_all<T>(channel: UnboundedView<T>, count: nat) -> UnboundedView<T>
    decreases count,
{
    if count == 0 {
        channel
    } else {
        unbounded_receive_all(channel, (count - 1) as nat).received()
    }
}

/// An open channel queues what is sent, in the order in which it is sent.
pub proof fn unbounded_queues_in_order<T>(channel: UnboundedView<T>, messages: Seq<T>)
    requires
        !channel.closed,
    ensures
        unbounded_send_all(channel, messages).items == channel.items + messages,
        !unbounded_send_all(channel, messages).closed,
        unbounded_send_all(channel, messages).senders == channel.senders,
    decreases messages.len(),
{
    if messages.len() > 0 {
        unbounded_queues_in_order(channel, messages.drop_last());
        assert(channel.items + messages =~= (channel.items + messages.drop_last()).push(
            messages.last(),
        ));
    } else {
        assert(channel.items + messages =~= channel.items);
    }
}

/// Receiving takes messages from the front of the queue.
pub proof fn unbounded_receives_from_the_front<T>(channel: UnboundedView<T>, count: nat)
    requires
        count <= channel.items.len(),
    ensures
        unbounded_receive_all(channel, count).items == channel.items.skip(count as int),
        unbounded_receive_all(channel, count).closed == channel.closed,
    decreases count,
{
    if count > 0 {
        unbounded_receives_from_the_front(channel, (count - 1) as nat);
        let before = unbounded_receive_all(channel, (count - 1) as nat);
        assert(before.items == channel.items.skip(count - 1));
        assert(before.items.drop_first() =~= channel.items.skip(count as int));
    } else {
        assert(channel.items =~= channel.items.skip(0));
    }
}

/// A receiver gets back what was sent, first in first out: of messages sent to
/// an empty open channel, the receive after `taken` others returns the message
/// sent after `taken` others.
pub proof fn unbounded_is_first_in_first_out<T>(
    channel: UnboundedView<T>,
    messages: Seq<T>,
    taken: nat,
)
    requires
        !channel.closed,
        channel.items.len() == 0,
        taken < messages.len(),
    ensures
        unbounded_receive_all(unbounded_send_all(channel, messages), taken).next() == Ok::<
            Option<T>,
            ChannelError,
        >(Some(messages[taken as int])),
{
    unbounded_queues_in_order(channel, messages);
    assert(channel.items + messages =~= messages);
    unbounded_receives_from_the_front(unbounded_send_all(channel, messages), taken);
}

/// Closing loses nothing that is queued: what is queued is still received, and
/// only then does the receiver see the end.
pub proof fn unbounded_close_keeps_queued_messages<T>(channel: UnboundedView<T>, taken: nat)
    requires
        taken <= channel.items.len(),
    ensures
        taken < channel.items.len() ==> unbounded_receive_all(channel.shut(), taken).next() == Ok::<
            Option<T>,
            ChannelError,
        >(Some(channel.items[taken as int])),
        taken == channel.items.len() ==> unbounded_receive_all(channel.shut(), taken).next()
            == Err::<Option<T>, ChannelError>(ChannelError::Closed),
{
    unbounded_receives_from_the_front(channel.shut(), taken);
}

/// A closed channel stays closed and takes no message.
pub proof fn unbounded_closed_is_final<T>(channel: UnboundedView<T>, message: T)
    requires
        channel.closed,
    ensures
        channel.sent(message) == channel,
        channel.shut().closed,
        channel.received().closed,
        channel.left().closed,
{
}

/// Every operation keeps a waiting receiver informed.
pub proof fn unbounded_calls_receiver<T>(channel: UnboundedView<T>, message: T)
    requires
        channel.calls_receiver(),
    ensures
        UnboundedView::<T>::fresh().calls_receiver(),
        channel.sent(message).calls_receiver(),
        channel.shut().calls_receiver(),
        channel.received().calls_receiver(),
        channel.left().calls_receiver(),
{
}

/// The state of a one-message channel.
#[verifier::ext_equal]
pub struct BoundedView<T> {
    /// The message in flight.
    pub item: Option<T>,
    /// Whether the channel is closed.
    pub closed: bool,
    /// How many senders are left.
    pub senders: nat,
    /// Whether a waiting receiver is called. Waiting senders are called when
    /// this falls.
    pub signaled: bool,
}

/// Why a message was not accepted, with the message.
#[derive(Debug, PartialEq, Eq)]
pub enum SendError<T> {
    /// The channel is closed.
    ChannelClosed(T),
    /// The message before has not been received yet.
    ChannelFull(T),
}

/// A channel that holds at most one message.
pub struct AsyncChannel<T> {
    value: Option<T>,
    closed: bool,
    has_item: bool,
    sender_count: usize,
}

impl<T> View for AsyncChannel<T> {
    type V = BoundedView<T>;

    closed spec fn view(&self) -> BoundedView<T> {
        BoundedView {
            item: self.value,
            closed: self.closed,
            senders: self.sender_count as nat,
            signaled: self.has_item,
        }
    }
}

impl<T> BoundedView<T> {
    /// The channel when it has just been created.
    pub open spec fn fresh() -> BoundedView<T> {
        BoundedView { item: None, closed: false, senders: 1, signaled: false }
    }

    /// Whether the channel takes a message.
    pub open spec fn accepts(self) -> bool {
        !self.closed && self.item is None
    }

    /// The channel after a send that does not wait.
    pub open spec fn sent(self, message: T) -> BoundedView<T> {
        if self.accepts() {
            BoundedView { item: Some(message), signaled: true, ..self }
        } else {
            self
        }
    }

    /// What a send that does not wait returns.
    pub open spec fn send_result(self, message: T) -> Result<Wake, SendError<T>> {
        if self.closed {
            Err(SendError::ChannelClosed(message))
        } else if self.item is Some {
            Err(SendError::ChannelFull(message))
        } else {
            Ok(Wake::Everyone)
        }
    }

    /// The channel after a receive that does not wait.
    pub open spec fn received(self) -> BoundedView<T> {
        if self.item is Some {
            BoundedView { item: None, signaled: false, ..self }
        } else {
            self
        }
    }

    /// What a receive that does not wait returns.
    pub open spec fn next(self) -> Result<Option<T>, ChannelError> {
        match self.item {
            Some(message) => Ok(Some(message)),
            None => if self.closed {
                Err(ChannelError::Closed)
            } else {
                Ok(None)
            },
        }
    }

    /// The channel after it was closed.
    pub open spec fn shut(self) -> BoundedView<T> {
        BoundedView { closed: true, signaled: true, ..self }
    }

    /// The channel after a sender left.
    pub open spec fn left(self) -> BoundedView<T> {
        let rest = BoundedView { senders: (self.senders - 1) as nat, ..self };
        if self.senders == 1 {
            rest.shut()
        } else {
            rest
        }
    }
}

impl<T> AsyncChannel<T> {
    /// Creates an open, empty channel with one sender.
    pub fn new() -> (channel: AsyncChannel<T>)
        ensures
            channel@ == BoundedView::<T>::fresh(),
    {
        AsyncChannel { value: None, closed: false, has_item: false, sender_count: 1 }
    }

    /// Takes one turn of a send. `waited` says how the wait before this turn
    /// ended; the first turn follows no wait and is given `Ok`.
    pub fn send(&mut self, message: T, waited: Result<(), CanceledError>) -> (step: SendStep<T>)
        ensures
            match waited {
                Err(_) => {
                    &&& step == SendStep::Returned(message)
                    &&& final(self)@ == old(self)@
                },
                Ok(()) => {
                    &&& final(self)@ == old(self)@.sent(message)
                    &&& step == send_turn(old(self)@.send_result(message))
                },
            },
    {
        match waited {
            Err(_) => SendStep::Returned(message),
            Ok(()) => match self.try_send(message) {
                Ok(wake) => SendStep::Sent(wake),
                Err(SendError::ChannelFull(message)) => SendStep::Wait(message),
                Err(SendError::ChannelClosed(message)) => SendStep::Returned(message),
            },
        }
    }

    /// Puts a message in flight without waiting, or returns it.
    pub fn try_send(&mut self, message: T) -> (sent: Result<Wake, SendError<T>>)
        ensures
            sent == old(self)@.send_result(message),
            final(self)@ == old(self)@.sent(message),
    {
        if self.closed {
            return Err(SendError::ChannelClosed(message));
        }
        if self.value.is_some() {
            return Err(SendError::ChannelFull(message));
        }
        self.value = Some(message);
        self.has_item = true;
        Ok(Wake::Everyone)
    }

    /// Takes the message in flight, if any, without waiting.
    pub fn try_recv(&mut self) -> (received: Result<Option<T>, ChannelError>)
        ensures
            received == old(self)@.next(),
            final(self)@ == old(self)@.received(),
    {
        match self.value.take() {
            Some(message) => {
                self.has_item = false;
                Ok(Some(message))
            },
            None => if self.closed {
                Err(ChannelError::Closed)
            } else {
                Ok(None)
            },
        }
    }

    /// Takes one turn of a receive.
    pub fn recv(&mut self, waited: Result<(), CanceledError>) -> (step: RecvStep<T>)
        ensures
            match waited {
                Err(_) => {
                    &&& step == RecvStep::<T>::Ready(Err(ChannelError::Canceled))
                    &&& final(self)@ == old(self)@
                },
                Ok(()) => {
                    &&& final(self)@ == old(self)@.received()
                    &&& step == recv_turn(old(self)@.next())
                },
            },
    {
        match waited {
            Err(error) => RecvStep::Ready(Err(ChannelError::from(error))),
            Ok(()) => match self.try_recv() {
                Ok(Some(message)) => RecvStep::Ready(Ok(message)),
                Ok(None) => RecvStep::Wait,
                Err(error) => RecvStep::Ready(Err(error)),
            },
        }
    }

    /// Closes the channel. A message in flight can still be received.
    pub fn close(&mut self) -> (wake: Wake)
        ensures
            final(self)@ == old(self)@.shut(),
            wake == Wake::Everyone,
    {
        self.closed = true;
        self.has_item = true;
        Wake::Everyone
    }

    /// Adds a sender.
    pub fn increment_sender_count(&mut self)
        requires
            old(self)@.senders < usize::MAX,
        ensures
            final(self)@ == (BoundedView {
                senders: (old(self)@.senders + 1) as nat,
                ..old(self)@
            }),
    {
        self.sender_count = self.sender_count + 1;
    }

    /// Removes a sender and closes the channel when it was the last.
    pub fn decrement_sender_count(&mut self) -> (wake: Wake)
        requires
            old(self)@.senders > 0,
        ensures
            final(self)@ == old(self)@.left(),
            wake == if old(self)@.senders == 1 {
                Wake::Everyone
            } else {
                Wake::Nobody
            },
    {
        self.sender_count = self.sender_count - 1;
        if self.sender_count == 0 {
            self.close()
        } else {
            Wake::Nobody
        }
    }
}

impl<T> Default for AsyncChannel<T> {
    fn default() -> (channel: AsyncChannel<T>)
        ensures
            channel@ == BoundedView::<T>::fresh(),
    {
        Self::new()
    }
}

/// A sending handle of a one-message channel.
pub struct Sender<T> {
    messages: PhantomData<T>,
}

/// The receiving handle of a one-message channel.
pub struct Receiver<T> {
    messages: PhantomData<T>,
}

/// Creates a one-message channel with its two handles. A second send waits
/// until the first message was received. The channel closes when its receiver
/// or its last sender leaves.
pub fn async_channel<T>() -> (channel: (AsyncChannel<T>, Sender<T>, Receiver<T>))
    ensures
        channel.0@ == BoundedView::<T>::fresh(),
{
    (
        AsyncChannel::new(),
        Sender { messages: PhantomData },
        Receiver { messages: PhantomData },
    )
}

impl<T> Sender<T> {
    /// Takes one turn of a send that waits until the message before was
    /// received. A closed channel returns the message.
    pub fn send(
        &self,
        channel: &mut AsyncChannel<T>,
        message: T,
        waited: Result<(), CanceledError>,
    ) -> (step: SendStep<T>)
        ensures
            match waited {
                Err(_) => {
                    &&& step == SendStep::Returned(message)
                    &&& final(channel)@ == old(channel)@
                },
                Ok(()) => {
                    &&& final(channel)@ == old(channel)@.sent(message)
                    &&& step == send_turn(old(channel)@.send_result(message))
                },
            },
    {
        channel.send(message, waited)
    }

    /// Sends without waiting, or returns the message with the reason.
    pub fn try_send(&self, channel: &mut AsyncChannel<T>, message: T) -> (sent: Result<
        Wake,
        SendError<T>,
    >)
        ensures
            sent == old(channel)@.send_result(message),
            final(channel)@ == old(channel)@.sent(message),
    {
        channel.try_send(message)
    }

    /// Makes another sending handle.
    pub fn duplicate(&self, channel: &mut AsyncChannel<T>) -> (sender: Sender<T>)
        requires
            old(channel)@.senders < usize::MAX,
        ensures
            final(channel)@ == (BoundedView {
                senders: (old(channel)@.senders + 1) as nat,
                ..old(channel)@
            }),
    {
        channel.increment_sender_count();
        Sender { messages: PhantomData }
    }

    /// Gives the handle up, which closes the channel when it was the last.
    pub fn leave(self, channel: &mut AsyncChannel<T>) -> (wake: Wake)
        requires
            old(channel)@.senders > 0,
        ensures
            final(channel)@ == old(channel)@.left(),
            wake == if old(channel)@.senders == 1 {
                Wake::Everyone
            } else {
                Wake::Nobody
            },
    {
        channel.decrement_sender_count()
    }
}

impl<T> Receiver<T> {
    /// Takes the message in flight, if any, without waiting.
    pub fn try_recv(&self, channel: &mut AsyncChannel<T>) -> (received: Result<
        Option<T>,
        ChannelError,
    >)
        ensures
            received == old(channel)@.next(),
            final(channel)@ == old(channel)@.received(),
    {
        channel.try_recv()
    }

    /// Takes one turn of a receive that waits for a message or the end.
    pub fn recv(&self, channel: &mut AsyncChannel<T>, waited: Result<(), CanceledError>) -> (step:
        RecvStep<T>)
        ensures
            match waited {
                Err(_) => {
                    &&& step == RecvStep::<T>::Ready(Err(ChannelError::Canceled))
                    &&& final(channel)@ == old(channel)@
                },
                Ok(()) => {
                    &&& final(channel)@ == old(channel)@.received()
                    &&& step == recv_turn(old(channel)@.next())
                },
            },
    {
        channel.recv(waited)
    }

    /// Gives the handle up, which closes the channel.
    pub fn leave(self, channel: &mut AsyncChannel<T>) -> (wake: Wake)
        ensures
            final(channel)@ == old(channel)@.shut(),
            wake == Wake::Everyone,
    {
        channel.close()
    }
}

/// What the handles of a one-message channel do.
pub enum BoundedStep<T> {
    /// A sender sends without waiting.
    Send(T),
    /// The receiver receives without waiting.
    Receive,
    /// A sender makes another.
    Duplicate,
    /// A sender leaves.
    SenderLeaves,
    /// The receiver leaves.
    ReceiverLeaves,
}

impl<T> BoundedView<T> {
    /// Whether there is a handle for a step.
    pub open spec fn permits(self, step: BoundedStep<T>) -> bool {
        match step {
            BoundedStep::Send(_) | BoundedStep::Duplicate | BoundedStep::SenderLeaves => {
                self.senders > 0
            },
            BoundedStep::Receive | BoundedStep::ReceiverLeaves => true,
        }
    }

    /// The channel after one more step.
    pub open spec fn stepped(self, step: BoundedStep<T>) -> BoundedView<T> {
        match step {
            BoundedStep::Send(message) => self.sent(message),
            BoundedStep::Receive => self.received(),
            BoundedStep::Duplicate => BoundedView { senders: self.senders + 1, ..self },
            BoundedStep::SenderLeaves => self.left(),
            BoundedStep::ReceiverLeaves => self.shut(),
        }
    }
}

/// A one-message channel after steps of its handles, from the first to the last.
pub open spec fn bounded_after<T>(steps: Seq<BoundedStep<T>>) -> BoundedView<T>
    decreases steps.len(),
{
    if steps.len() == 0 {
        BoundedView::fresh()
    } else {
        bounded_after(steps.drop_last()).stepped(steps.last())
    }
}

/// Whether there was a handle for each of the steps.
pub open spec fn bounded_permits<T>(steps: Seq<BoundedStep<T>>) -> bool
    decreases steps.len(),
{
    steps.len() == 0 || {
        &&& bounded_permits(steps.drop_last())
        &&& bounded_after(steps.drop_last()).permits(steps.last())
    }
}

/// A one-message channel is closed exactly when its receiver or its last sender
/// left, whatever the handles did.
pub proof fn bounded_closes_with_its_handles<T>(steps: Seq<BoundedStep<T>>)
    requires
        bounded_permits(steps),
    ensures
        bounded_after(steps).closed <==> bounded_after(steps).senders == 0 || steps.contains(
            BoundedStep::ReceiverLeaves,
        ),
    decreases steps.len(),
{
    if steps.len() > 0 {
        let front = steps.drop_last();
        bounded_closes_with_its_handles(front);
        assert(steps.contains(BoundedStep::ReceiverLeaves) <==> front.contains(
            BoundedStep::ReceiverLeaves,
        ) || steps.last() == BoundedStep::<T>::ReceiverLeaves) by {
            if front.contains(BoundedStep::ReceiverLeaves) {
                let i = choose|i: int|
                    0 <= i < front.len() && front[i] == BoundedStep::<T>::ReceiverLeaves;
                assert(steps[i] == BoundedStep::<T>::ReceiverLeaves);
            }
            if steps.contains(BoundedStep::ReceiverLeaves) && steps.last()
                != BoundedStep::<T>::ReceiverLeaves {
                let i = choose|i: int|
                    0 <= i < steps.len() && steps[i] == BoundedStep::<T>::ReceiverLeaves;
                assert(front[i] == BoundedStep::<T>::ReceiverLeaves);
            }
        }
    }
}

/// A receive gives back what an accepted send put in, and makes room for the
/// next message.
pub proof fn bounded_receive_returns_what_was_sent<T>(channel: BoundedView<T>, message: T)
    requires
        channel.accepts(),
    ensures
        channel.sent(message).next() == Ok::<Option<T>, ChannelError>(Some(message)),
        channel.sent(message).received().accepts(),
{
}

/// Only one message is in flight: a second send is refused and changes nothing.
pub proof fn bounded_holds_one_message<T>(channel: BoundedView<T>, first: T, second: T)
    requires
        channel.accepts(),
    ensures
        channel.sent(first).send_result(second) == Err::<Wake, SendError<T>>(
            SendError::ChannelFull(second),
        ),
        channel.sent(first).sent(second) == channel.sent(first),
{
}

/// Closing keeps the message in flight, and refuses every later one.
pub proof fn bounded_close_keeps_the_message<T>(channel: BoundedView<T>, message: T)
    ensures
        channel.shut().item == channel.item,
        channel.shut().send_result(message) == Err::<Wake, SendError<T>>(
            SendError::ChannelClosed(message),
        ),
        channel.shut().sent(message) == channel.shut(),
        channel.shut().received().next() == Err::<Option<T>, ChannelError>(ChannelError::Closed),
{
}

/// What is sent to an open channel is queued behind everything before it, and
/// what is received comes from the front; a channel that is closed gives a
/// message back.
pub proof fn unbounded_calls_keep_the_order<T>(
    queued: &mut AsyncChannelUnbounded<T>,
    taken: &mut AsyncChannelUnbounded<T>,
    message: T,
    sent: Result<Wake, T>,
    received: Result<Option<T>, ChannelError>,
    lens: (usize, usize, usize),
    empty: bool,
)
    requires
        call_ensures(AsyncChannelUnbounded::<T>::send, (queued, message), sent),
        *old(taken) == *final(queued),
        call_ensures(AsyncChannelUnbounded::<T>::try_recv, (taken,), received),
        call_ensures(AsyncChannelUnbounded::<T>::len, (&*old(queued),), lens.0),
        call_ensures(AsyncChannelUnbounded::<T>::len, (final(queued),), lens.1),
        call_ensures(AsyncChannelUnbounded::<T>::len, (final(taken),), lens.2),
        call_ensures(AsyncChannelUnbounded::<T>::is_empty, (&*old(queued),), empty),
    ensures
        empty <==> lens.0 == 0,
        !old(queued)@.closed ==> {
            &&& sent == Ok::<Wake, T>(Wake::Everyone)
            &&& lens.1 == lens.0 + 1 && lens.2 == lens.0
            &&& received matches Ok(Some(first)) && seq![first] + final(taken)@.items == old(queued)@.items + seq![message]
            &&& empty ==> received == Ok::<Option<T>, ChannelError>(Some(message))
        },
        old(queued)@.closed ==> {
            &&& sent == Err::<Wake, T>(message)
            &&& lens.1 == lens.0
            &&& empty ==> received == Err::<Option<T>, ChannelError>(ChannelError::Closed)
            &&& !empty ==> (received matches Ok(Some(first)) && seq![first] + final(taken)@.items
                == old(queued)@.items)
        },
        final(taken)@.closed == old(queued)@.closed,
        final(taken)@.senders == old(queued)@.senders,
{
}

/// The last sender's leave closes a channel, and no other; closing keeps what is
/// queued.
pub proof fn unbounded_channels_close_with_their_senders<T>(
    joined: &mut AsyncChannelUnbounded<T>,
    left: &mut AsyncChannelUnbounded<T>,
    alone: &mut AsyncChannelUnbounded<T>,
    shut: &mut AsyncChannelUnbounded<T>,
    wakes: (Wake, Wake, Wake),
    fresh: AsyncChannelUnbounded<T>,
)
    requires
        call_ensures(AsyncChannelUnbounded::<T>::new, (), fresh),
        call_ensures(AsyncChannelUnbounded::<T>::increment_sender_count, (joined,), ()),
        *old(left) == *final(joined),
        call_ensures(AsyncChannelUnbounded::<T>::decrement_sender_count, (left,), wakes.0),
        old(joined)@.senders > 0,
        call_ensures(AsyncChannelUnbounded::<T>::decrement_sender_count, (alone,), wakes.1),
        call_ensures(AsyncChannelUnbounded::<T>::close, (shut,), wakes.2),
    ensures
        fresh@.items.len() == 0 && !fresh@.closed && fresh@.senders == 1 && !fresh@.signaled,
        final(left)@ == old(joined)@ && wakes.0 == Wake::Nobody,
        old(alone)@.senders == 1 ==> final(alone)@.closed && final(alone)@.signaled && wakes.1
            == Wake::Everyone,
        old(alone)@.senders > 1 ==> final(alone)@.closed == old(alone)@.closed && wakes.1
            == Wake::Nobody,
        final(alone)@.items == old(alone)@.items,
        final(shut)@.closed && final(shut)@.signaled && final(shut)@.items == old(shut)@.items,
        final(shut)@.senders == old(shut)@.senders && wakes.2 == Wake::Everyone,
{
}

/// A receive that waits ends with a message, with the channel's end or with the
/// end of its wait, and waits on only while the channel is open and empty.
pub proof fn waiting_receives_end_with_what_came<T>(
    receiver: &ReceiverUnbounded<T>,
    channel: &mut AsyncChannelUnbounded<T>,
    canceled: &mut AsyncChannelUnbounded<T>,
    late: &mut AsyncChannelUnbounded<T>,
    cause: (CanceledError, TimeoutError),
    steps: (RecvStep<T>, RecvStep<T>, RecvStep<T>),
)
    requires
        call_ensures(ReceiverUnbounded::<T>::recv, (receiver, channel, Ok(())), steps.0),
        call_ensures(ReceiverUnbounded::<T>::recv, (receiver, canceled, Err(cause.0)), steps.1),
        call_ensures(
            ReceiverUnbounded::<T>::recv_with_deadline,
            (receiver, late, Err(cause.1)),
            steps.2,
        ),
    ensures
        steps.0 is Wait <==> old(channel)@.items.len() == 0 && !old(channel)@.closed,
        steps.0 matches RecvStep::Ready(Ok(message)) ==> old(channel)@.items == seq![message]
            + final(channel)@.items,
        steps.0 matches RecvStep::Ready(Err(error)) ==> error == ChannelError::Closed && old(channel)@.items.len() == 0 && old(channel)@.closed,
        steps.1 == RecvStep::<T>::Ready(Err(ChannelError::Canceled)),
        final(canceled)@ == old(canceled)@ && final(late)@ == old(late)@,
        cause.1 is Timeout ==> steps.2 == RecvStep::<T>::Ready(Err(ChannelError::Timeout)),
        cause.1 is Canceled ==> steps.2 == RecvStep::<T>::Ready(Err(ChannelError::Canceled)),
{
}

/// The handles of a channel do what the channel does.
pub proof fn unbounded_handles_act_on_their_channel<T>(
    sender: SenderUnbounded<T>,
    receiver: &ReceiverUnbounded<T>,
    by_handle: &mut AsyncChannelUnbounded<T>,
    taken: &mut AsyncChannelUnbounded<T>,
    shut: &mut AsyncChannelUnbounded<T>,
    left: &mut AsyncChannelUnbounded<T>,
    joined: &mut AsyncChannelUnbounded<T>,
    message: T,
    sent: Result<Wake, T>,
    received: Result<Option<T>, ChannelError>,
    wakes: (Wake, Wake),
    other: SenderUnbounded<T>,
    len: usize,
    empty: bool,
    made: (AsyncChannelUnbounded<T>, SenderUnbounded<T>, ReceiverUnbounded<T>),
)
    requires
        call_ensures(async_channel_unbounded::<T>, (), made),
        call_ensures(SenderUnbounded::<T>::send, (&sender, by_handle, message), sent),
        call_ensures(ReceiverUnbounded::<T>::try_recv, (receiver, taken), received),
        call_ensures(SenderUnbounded::<T>::close, (&sender, shut), wakes.0),
        call_ensures(SenderUnbounded::<T>::leave, (sender, left), wakes.1),
        call_ensures(SenderUnbounded::<T>::duplicate, (&sender, joined), other),
        call_ensures(SenderUnbounded::<T>::len, (&sender, &*old(by_handle)), len),
        call_ensures(SenderUnbounded::<T>::is_empty, (&sender, &*old(by_handle)), empty),
        old(left)@.senders > 0,
    ensures
        made.0@.items.len() == 0 && !made.0@.closed && made.0@.senders == 1,
        len == old(by_handle)@.items.len() && (empty <==> len == 0),
        sent is Ok <==> !old(by_handle)@.closed,
        sent is Ok ==> final(by_handle)@.items == old(by_handle)@.items + seq![message],
        sent matches Err(back) ==> back == message && final(by_handle)@ == old(by_handle)@,
        received matches Ok(Some(first)) ==> old(taken)@.items == seq![first] + final(taken)@.items,
        received == Ok::<Option<T>, ChannelError>(None) <==> old(taken)@.items.len() == 0 && !old(taken)@.closed,
        received matches Err(error) ==> error == ChannelError::Closed && final(taken)@ == old(taken)@,
        final(shut)@.closed && final(shut)@.items == old(shut)@.items,
        final(left)@.closed <==> old(left)@.closed || old(left)@.senders == 1,
        final(left)@.senders + 1 == old(left)@.senders && final(left)@.items == old(left)@.items,
        final(joined)@.senders == old(joined)@.senders + 1,
        final(joined)@.items == old(joined)@.items && final(joined)@.closed == old(joined)@.closed,
{
}

/// A channel for one message takes one, gives that one out and takes the next.
/// What it refuses comes back with the reason.
pub proof fn bounded_calls_pass_one_message<T>(
    sender: &Sender<T>,
    receiver: &Receiver<T>,
    put: &mut AsyncChannel<T>,
    full: &mut AsyncChannel<T>,
    taken: &mut AsyncChannel<T>,
    again: &mut AsyncChannel<T>,
    messages: (T, T),
    sent: (Result<Wake, SendError<T>>, Result<Wake, SendError<T>>, Result<Wake, SendError<T>>),
    received: Result<Option<T>, ChannelError>,
)
    requires
        call_ensures(Sender::<T>::try_send, (sender, put, messages.0), sent.0),
        *old(full) == *final(put),
        call_ensures(Sender::<T>::try_send, (sender, full, messages.1), sent.1),
        *old(taken) == *final(full),
        call_ensures(Receiver::<T>::try_recv, (receiver, taken), received),
        *old(again) == *final(taken),
        call_ensures(Sender::<T>::try_send, (sender, again, messages.1), sent.2),
    ensures
        old(put)@.closed ==> sent.0 == Err::<Wake, SendError<T>>(
            SendError::ChannelClosed(messages.0),
        ) && sent.2 == Err::<Wake, SendError<T>>(SendError::ChannelClosed(messages.1)) && final(full)@ == old(put)@,
        !old(put)@.closed && old(put)@.item is Some ==> sent.0 == Err::<Wake, SendError<T>>(
            SendError::ChannelFull(messages.0),
        ) && received == Ok::<Option<T>, ChannelError>(old(put)@.item),
        !old(put)@.closed && old(put)@.item is None ==> sent.0 == Ok::<Wake, SendError<T>>(
            Wake::Everyone,
        ) && received == Ok::<Option<T>, ChannelError>(Some(messages.0)) && final(full)@.signaled,
        !old(put)@.closed ==> sent.1 == Err::<Wake, SendError<T>>(
            SendError::ChannelFull(messages.1),
        ) && sent.2 == Ok::<Wake, SendError<T>>(Wake::Everyone) && final(again)@.item == Some(
            messages.1,
        ) && !final(taken)@.signaled,
        final(again)@.senders == old(put)@.senders && final(again)@.closed == old(put)@.closed,
{
}

/// A send that waits is done when the channel took the message, and gives it back
/// when the channel is closed or the wait was canceled. A receive that waits is
/// done when a message or the end came.
pub proof fn bounded_waits_end_with_what_came<T>(
    sender: &Sender<T>,
    receiver: &Receiver<T>,
    sending: &mut AsyncChannel<T>,
    unsent: &mut AsyncChannel<T>,
    receiving: &mut AsyncChannel<T>,
    unreceived: &mut AsyncChannel<T>,
    message: T,
    cause: CanceledError,
    sends: (SendStep<T>, SendStep<T>),
    receives: (RecvStep<T>, RecvStep<T>),
)
    requires
        call_ensures(Sender::<T>::send, (sender, sending, message, Ok(())), sends.0),
        call_ensures(Sender::<T>::send, (sender, unsent, message, Err(cause)), sends.1),
        call_ensures(Receiver::<T>::recv, (receiver, receiving, Ok(())), receives.0),
        call_ensures(Receiver::<T>::recv, (receiver, unreceived, Err(cause)), receives.1),
    ensures
        sends.1 == SendStep::Returned(message) && final(unsent)@ == old(unsent)@,
        receives.1 == RecvStep::<T>::Ready(Err(ChannelError::Canceled)) && final(unreceived)@
            == old(unreceived)@,
        old(sending)@.closed ==> sends.0 == SendStep::Returned(message),
        !old(sending)@.closed && old(sending)@.item is Some ==> sends.0 == SendStep::Wait(message),
        !old(sending)@.closed && old(sending)@.item is None ==> sends.0 == SendStep::<T>::Sent(
            Wake::Everyone,
        ) && final(sending)@.item == Some(message),
        receives.0 is Wait <==> old(receiving)@.item is None && !old(receiving)@.closed,
        receives.0 matches RecvStep::Ready(Ok(taken)) ==> old(receiving)@.item == Some(taken)
            && final(receiving)@.item is None,
        receives.0 matches RecvStep::Ready(Err(error)) ==> error == ChannelError::Closed && old(receiving)@.closed,
{
}

/// A channel for one message closes with its receiver and with its last sender,
/// and keeps what it holds.
pub proof fn bounded_channels_close_with_their_handles<T>(
    sender: Sender<T>,
    receiver: Receiver<T>,
    joined: &mut AsyncChannel<T>,
    left: &mut AsyncChannel<T>,
    unheard: &mut AsyncChannel<T>,
    other: Sender<T>,
    wakes: (Wake, Wake),
    made: (AsyncChannel<T>, Sender<T>, Receiver<T>),
)
    requires
        call_ensures(async_channel::<T>, (), made),
        call_ensures(Sender::<T>::duplicate, (&sender, joined), other),
        call_ensures(Sender::<T>::leave, (sender, left), wakes.0),
        call_ensures(Receiver::<T>::leave, (receiver, unheard), wakes.1),
        old(left)@.senders > 0,
    ensures
        made.0@.item is None && !made.0@.closed && made.0@.senders == 1 && !made.0@.signaled,
        final(joined)@.senders == old(joined)@.senders + 1,
        final(joined)@.item == old(joined)@.item && final(joined)@.closed == old(joined)@.closed,
        final(left)@.senders + 1 == old(left)@.senders && final(left)@.item == old(left)@.item,
        final(left)@.closed <==> old(left)@.closed || old(left)@.senders == 1,
        wakes.0 == Wake::Everyone <==> old(left)@.senders == 1,
        final(unheard)@.closed && final(unheard)@.item == old(unheard)@.item && wakes.1
            == Wake::Everyone,
{
}

/// A channel for one message takes a message only when it is open and empty,
/// gives it out once, and closes when it is told to or its last sender leaves.
pub proof fn bounded_channels_hold_one_message<T>(
    put: &mut AsyncChannel<T>,
    turn: &mut AsyncChannel<T>,
    taken: &mut AsyncChannel<T>,
    awaited: &mut AsyncChannel<T>,
    shut: &mut AsyncChannel<T>,
    joined: &mut AsyncChannel<T>,
    left: &mut AsyncChannel<T>,
    made: AsyncChannel<T>,
    message: T,
    sent: (Result<Wake, SendError<T>>, SendStep<T>),
    received: (Result<Option<T>, ChannelError>, RecvStep<T>),
    wakes: (Wake, Wake),
)
    requires
        call_ensures(AsyncChannel::<T>::new, (), made),
        call_ensures(AsyncChannel::<T>::try_send, (put, message), sent.0),
        *old(turn) == *old(put),
        call_ensures(AsyncChannel::<T>::send, (turn, message, Ok(())), sent.1),
        call_ensures(AsyncChannel::<T>::try_recv, (taken,), received.0),
        *old(awaited) == *old(taken),
        call_ensures(AsyncChannel::<T>::recv, (awaited, Ok(())), received.1),
        call_ensures(AsyncChannel::<T>::close, (shut,), wakes.0),
        call_ensures(AsyncChannel::<T>::increment_sender_count, (joined,), ()),
        call_ensures(AsyncChannel::<T>::decrement_sender_count, (left,), wakes.1),
        old(left)@.senders > 0,
    ensures
        made@.item is None && !made@.closed && made@.senders == 1 && !made@.signaled,
        sent.0 is Ok <==> !old(put)@.closed && old(put)@.item is None,
        sent.0 is Ok ==> final(put)@.item == Some(message) && final(put)@.signaled,
        sent.0 is Err ==> final(put)@ == old(put)@,
        final(turn)@ == final(put)@,
        sent.0 is Ok <==> sent.1 is Sent,
        sent.0 == Err::<Wake, SendError<T>>(SendError::ChannelFull(message)) <==> sent.1
            == SendStep::Wait(message),
        sent.0 == Err::<Wake, SendError<T>>(SendError::ChannelClosed(message)) <==> sent.1
            == SendStep::Returned(message),
        old(taken)@.item matches Some(item) ==> received.0 == Ok::<Option<T>, ChannelError>(
            Some(item),
        ) && received.1 == RecvStep::Ready(Ok::<T, ChannelError>(item)),
        final(taken)@.item is None && final(awaited)@ == final(taken)@,
        old(taken)@.item is None && !old(taken)@.closed ==> received.0 == Ok::<
            Option<T>,
            ChannelError,
        >(None) && received.1 is Wait,
        final(shut)@.closed && final(shut)@.item == old(shut)@.item && wakes.0 == Wake::Everyone,
        final(joined)@.senders == old(joined)@.senders + 1 && final(joined)@.item == old(joined)@.item,
        final(left)@.closed <==> old(left)@.closed || old(left)@.senders == 1,
        final(left)@.senders + 1 == old(left)@.senders,
        wakes.1 == Wake::Everyone <==> old(left)@.senders == 1,
{
}

/// Room that is set aside for messages does not show, and a receive on the channel
/// itself goes as one on its handle.
pub proof fn capacity_does_not_show<T>(
    capacity: usize,
    made: (AsyncChannelUnbounded<T>, AsyncChannelUnbounded<T>),
    pair: (AsyncChannelUnbounded<T>, SenderUnbounded<T>, ReceiverUnbounded<T>),
    receiver: &ReceiverUnbounded<T>,
    channel: &mut AsyncChannelUnbounded<T>,
    same: &mut AsyncChannelUnbounded<T>,
    waited: Result<(), TimeoutError>,
    steps: (RecvStep<T>, RecvStep<T>),
)
    requires
        call_ensures(AsyncChannelUnbounded::<T>::new, (), made.0),
        call_ensures(AsyncChannelUnbounded::<T>::with_capacity, (capacity,), made.1),
        call_ensures(async_channel_unbounded_with_capacity::<T>, (capacity,), pair),
        *old(same) == *old(channel),
        call_ensures(AsyncChannelUnbounded::<T>::recv, (channel, waited), steps.0),
        call_ensures(
            ReceiverUnbounded::<T>::recv_with_deadline,
            (receiver, same, waited),
            steps.1,
        ),
    ensures
        made.1@ == made.0@ && pair.0@ == made.0@,
        made.1@.items.len() == 0 && !made.1@.closed && made.1@.senders == 1,
        steps.0 == steps.1 && final(channel)@ == final(same)@,
        steps.0 is Wait ==> old(channel)@.items.len() == 0 && !old(channel)@.closed,
        steps.0 matches RecvStep::Ready(Ok(message)) ==> old(channel)@.items == seq![message]
            + final(channel)@.items,
{
}

} // verus!
