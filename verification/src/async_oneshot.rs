//! A channel for a single value.

use std::marker::PhantomData;

use vstd::prelude::*;

use crate::async_channel::RecvStep;
use crate::errors::CanceledError;
use crate::errors::ChannelError;
use crate::errors::TimeoutError;
use crate::event::Wake;

verus! {

/// The state of a oneshot channel.
#[verifier::ext_equal]
pub struct OneshotView<T> {
    /// The value that was sent and not yet received.
    pub value: Option<T>,
    /// Whether either handle is gone.
    pub closed: bool,
    /// Whether a waiting receiver is called.
    pub complete: bool,
}

/// A oneshot channel.
pub struct OneshotChannel<T> {
    value: Option<T>,
    has_value: bool,
    closed: bool,
}

/// The sending handle.
pub struct SenderOneshot<T> {
    value: PhantomData<T>,
}

/// The receiving handle.
pub struct ReceiverOneshot<T> {
    value: PhantomData<T>,
}

impl<T> View for OneshotChannel<T> {
    type V = OneshotView<T>;

    closed spec fn view(&self) -> OneshotView<T> {
        OneshotView { value: self.value, closed: self.closed, complete: self.has_value }
    }
}

impl<T> OneshotView<T> {
    /// The channel when it has just been created.
    pub open spec fn fresh() -> OneshotView<T> {
        OneshotView { value: None, closed: false, complete: false }
    }

    /// The channel after a send.
    pub open spec fn sent(self, value: T) -> OneshotView<T> {
        if self.closed {
            self
        } else {
            OneshotView { value: Some(value), complete: true, ..self }
        }
    }

    /// What a receive that does not wait returns.
    pub open spec fn next(self) -> Result<Option<T>, ChannelError> {
        match self.value {
            Some(value) => Ok(Some(value)),
            None => if self.closed {
                Err(ChannelError::Closed)
            } else {
                Ok(None)
            },
        }
    }

    /// The channel after a receive that does not wait.
    pub open spec fn received(self) -> OneshotView<T> {
        OneshotView { value: None, ..self }
    }

    /// The channel after a handle left.
    pub open spec fn shut(self) -> OneshotView<T> {
        OneshotView { closed: true, complete: true, ..self }
    }
}

impl<T> OneshotChannel<T> {
    /// Creates an open, empty channel.
    pub fn new() -> (channel: OneshotChannel<T>)
        ensures
            channel@ == OneshotView::<T>::fresh(),
    {
        OneshotChannel { value: None, has_value: false, closed: false }
    }

    /// Stores the value, or returns it when the channel is closed.
    pub fn send(&mut self, value: T) -> (sent: Result<Wake, T>)
        ensures
            final(self)@ == old(self)@.sent(value),
            sent == if old(self)@.closed {
                Err::<Wake, T>(value)
            } else {
                Ok(Wake::Everyone)
            },
    {
        if self.closed {
            return Err(value);
        }
        self.value = Some(value);
        self.has_value = true;
        Ok(Wake::Everyone)
    }

    /// Takes one turn of a receive that waits without a deadline.
    pub fn recv(&mut self, waited: Result<(), CanceledError>) -> (step: RecvStep<T>)
        ensures
            match waited {
                Err(_) => {
                    &&& step == RecvStep::<T>::Ready(Err(ChannelError::Canceled))
                    &&& final(self)@ == old(self)@
                },
                Ok(()) => {
                    &&& step == crate::async_channel::recv_turn(old(self)@.next())
                    &&& final(self)@ == old(self)@.received()
                },
            },
    {
        match waited {
            Err(error) => self.recv_with_deadline(Err(TimeoutError::from(error))),
            Ok(()) => self.recv_with_deadline(Ok(())),
        }
    }

    /// Takes one turn of a receive that waits until a deadline.
    pub fn recv_with_deadline(&mut self, waited: Result<(), TimeoutError>) -> (step: RecvStep<T>)
        ensures
            match waited {
                Err(error) => {
                    &&& step == RecvStep::<T>::Ready(
                        Err(crate::errors::channel_error_of_timeout(error)),
                    )
                    &&& final(self)@ == old(self)@
                },
                Ok(()) => {
                    &&& step == crate::async_channel::recv_turn(old(self)@.next())
                    &&& final(self)@ == old(self)@.received()
                },
            },
    {
        match waited {
            Err(error) => RecvStep::Ready(Err(ChannelError::from(error))),
            Ok(()) => match self.try_recv() {
                Ok(Some(value)) => RecvStep::Ready(Ok(value)),
                Ok(None) => RecvStep::Wait,
                Err(error) => RecvStep::Ready(Err(error)),
            },
        }
    }

    /// Takes the value, if any, without waiting.
    pub fn try_recv(&mut self) -> (received: Result<Option<T>, ChannelError>)
        ensures
            received == old(self)@.next(),
            final(self)@ == old(self)@.received(),
    {
        match self.value.take() {
            Some(value) => Ok(Some(value)),
            None => if self.closed {
                Err(ChannelError::Closed)
            } else {
                Ok(None)
            },
        }
    }

    /// Closes the channel. A value that was sent can still be received.
    pub fn close(&mut self) -> (wake: Wake)
        ensures
            final(self)@ == old(self)@.shut(),
            wake == Wake::Everyone,
    {
        self.closed = true;
        self.has_value = true;
        Wake::Everyone
    }
}

/// Creates a oneshot channel with its two handles. The channel closes when
/// either handle leaves.
pub fn oneshot<T>() -> (channel: (OneshotChannel<T>, SenderOneshot<T>, ReceiverOneshot<T>))
    ensures
        channel.0@ == OneshotView::<T>::fresh(),
{
    (
        OneshotChannel::new(),
        SenderOneshot { value: PhantomData },
        ReceiverOneshot { value: PhantomData },
    )
}

impl<T> SenderOneshot<T> {
    /// Sends the value and gives the handle up, which closes the channel. A
    /// channel that was closed before returns the value.
    pub fn send(self, channel: &mut OneshotChannel<T>, value: T) -> (sent: Result<Wake, T>)
        ensures
            final(channel)@ == old(channel)@.sent(value).shut(),
            sent == if old(channel)@.closed {
                Err::<Wake, T>(value)
            } else {
                Ok(Wake::Everyone)
            },
    {
        let sent = channel.send(value);
        let _wake = channel.close();
        sent
    }

    /// Gives the handle up without sending, which closes the channel.
    pub fn leave(self, channel: &mut OneshotChannel<T>) -> (wake: Wake)
        ensures
            final(channel)@ == old(channel)@.shut(),
            wake == Wake::Everyone,
    {
        channel.close()
    }

    /// The debug text of the handle.
    pub fn debug_text(&self, channel: &OneshotChannel<T>) -> (text: &'static str)
        ensures
            text@ == if channel@.complete {
                "SenderOneshot { complete: true }"@
            } else {
                "SenderOneshot { complete: false }"@
            },
    {
        if channel.has_value {
            "SenderOneshot { complete: true }"
        } else {
            "SenderOneshot { complete: false }"
        }
    }
}

impl<T> ReceiverOneshot<T> {
    /// Takes one turn of a receive that waits without a deadline.
    pub fn recv(&self, channel: &mut OneshotChannel<T>, waited: Result<(), CanceledError>) -> (step:
        RecvStep<T>)
        ensures
            match waited {
                Err(_) => {
                    &&& step == RecvStep::<T>::Ready(Err(ChannelError::Canceled))
                    &&& final(channel)@ == old(channel)@
                },
                Ok(()) => {
                    &&& step == crate::async_channel::recv_turn(old(channel)@.next())
                    &&& final(channel)@ == old(channel)@.received()
                },
            },
    {
        channel.recv(waited)
    }

    /// Takes one turn of a receive that waits until a deadline.
    pub fn recv_with_deadline(
        &self,
        channel: &mut OneshotChannel<T>,
        waited: Result<(), TimeoutError>,
    ) -> (step: RecvStep<T>)
        ensures
            match waited {
                Err(error) => {
                    &&& step == RecvStep::<T>::Ready(
                        Err(crate::errors::channel_error_of_timeout(error)),
                    )
                    &&& final(channel)@ == old(channel)@
                },
                Ok(()) => {
                    &&& step == crate::async_channel::recv_turn(old(channel)@.next())
                    &&& final(channel)@ == old(channel)@.received()
                },
            },
    {
        channel.recv_with_deadline(waited)
    }

    /// Takes the value, if any, without waiting.
    pub fn try_recv(&self, channel: &mut OneshotChannel<T>) -> (received: Result<
        Option<T>,
        ChannelError,
    >)
        ensures
            received == old(channel)@.next(),
            final(channel)@ == old(channel)@.received(),
    {
        channel.try_recv()
    }

    /// Gives the handle up, which closes the channel.
    pub fn leave(self, channel: &mut OneshotChannel<T>) -> (wake: Wake)
        ensures
            final(channel)@ == old(channel)@.shut(),
            wake == Wake::Everyone,
    {
        channel.close()
    }

    /// The debug text of the handle.
    pub fn debug_text(&self, channel: &OneshotChannel<T>) -> (text: &'static str)
        ensures
            text@ == if channel@.complete {
                "ReceiverOneshot { complete: true }"@
            } else {
                "ReceiverOneshot { complete: false }"@
            },
    {
        if channel.has_value {
            "ReceiverOneshot { complete: true }"
        } else {
            "ReceiverOneshot { complete: false }"
        }
    }
}

/// The receiver gets the value that was sent, once, and after it the end.
pub proof fn oneshot_delivers_once<T>(value: T)
    ensures
        ({
            let channel = OneshotView::<T>::fresh().sent(value).shut();
            &&& channel.next() == Ok::<Option<T>, ChannelError>(Some(value))
            &&& channel.received().next() == Err::<Option<T>, ChannelError>(ChannelError::Closed)
        }),
{
}

/// When a handle left before a value was sent, a send returns its value and a
/// receive fails.
pub proof fn oneshot_closed_before_send<T>(value: T)
    ensures
        ({
            let channel = OneshotView::<T>::fresh().shut();
            &&& channel.sent(value) == channel
            &&& channel.next() == Err::<Option<T>, ChannelError>(ChannelError::Closed)
        }),
{
}

/// The receiver of a oneshot channel gets the value that was sent, once, and then
/// learns that the sender left.
pub proof fn oneshot_calls_deliver_once<T>(
    sender: SenderOneshot<T>,
    receiver: &ReceiverOneshot<T>,
    sent: &mut OneshotChannel<T>,
    taken: &mut OneshotChannel<T>,
    ended: &mut OneshotChannel<T>,
    value: T,
    outcome: Result<Wake, T>,
    received: (Result<Option<T>, ChannelError>, Result<Option<T>, ChannelError>),
)
    requires
        call_ensures(SenderOneshot::<T>::send, (sender, sent, value), outcome),
        *old(taken) == *final(sent),
        call_ensures(ReceiverOneshot::<T>::try_recv, (receiver, taken), received.0),
        *old(ended) == *final(taken),
        call_ensures(ReceiverOneshot::<T>::try_recv, (receiver, ended), received.1),
    ensures
        old(sent)@.closed ==> outcome == Err::<Wake, T>(value),
        !old(sent)@.closed ==> outcome == Ok::<Wake, T>(Wake::Everyone) && received.0 == Ok::<
            Option<T>,
            ChannelError,
        >(Some(value)),
        final(sent)@.closed && final(sent)@.complete,
        received.1 == Err::<Option<T>, ChannelError>(ChannelError::Closed),
{
}

/// A receive that waits ends with the value, with the end of the channel or with
/// the end of its wait.
pub proof fn oneshot_waits_end_with_what_came<T>(
    receiver: &ReceiverOneshot<T>,
    channel: &mut OneshotChannel<T>,
    timed: &mut OneshotChannel<T>,
    canceled: &mut OneshotChannel<T>,
    late: &mut OneshotChannel<T>,
    causes: (CanceledError, TimeoutError),
    steps: (RecvStep<T>, RecvStep<T>, RecvStep<T>, RecvStep<T>),
)
    requires
        call_ensures(ReceiverOneshot::<T>::recv, (receiver, channel, Ok(())), steps.0),
        call_ensures(ReceiverOneshot::<T>::recv_with_deadline, (receiver, timed, Ok(())), steps.1),
        call_ensures(ReceiverOneshot::<T>::recv, (receiver, canceled, Err(causes.0)), steps.2),
        call_ensures(
            ReceiverOneshot::<T>::recv_with_deadline,
            (receiver, late, Err(causes.1)),
            steps.3,
        ),
    ensures
        steps.0 is Wait <==> old(channel)@.value is None && !old(channel)@.closed,
        old(channel)@.value matches Some(value) ==> steps.0 == RecvStep::Ready(
            Ok::<T, ChannelError>(value),
        ) && final(channel)@.value is None,
        old(channel)@.value is None && old(channel)@.closed ==> steps.0 == RecvStep::<T>::Ready(
            Err(ChannelError::Closed),
        ),
        *old(timed) == *old(channel) ==> steps.1 == steps.0 && final(timed)@ == final(channel)@,
        steps.2 == RecvStep::<T>::Ready(Err(ChannelError::Canceled)),
        causes.1 is Timeout ==> steps.3 == RecvStep::<T>::Ready(Err(ChannelError::Timeout)),
        causes.1 is Canceled ==> steps.3 == RecvStep::<T>::Ready(Err(ChannelError::Canceled)),
        final(canceled)@ == old(canceled)@ && final(late)@ == old(late)@,
{
}

/// A oneshot channel closes with either handle and keeps a value that was sent.
pub proof fn oneshot_channels_close_with_their_handles<T>(
    sender: SenderOneshot<T>,
    receiver: ReceiverOneshot<T>,
    unsent: &mut OneshotChannel<T>,
    unheard: &mut OneshotChannel<T>,
    late: &mut OneshotChannel<T>,
    value: T,
    wakes: (Wake, Wake),
    outcome: Result<Wake, T>,
    made: (OneshotChannel<T>, SenderOneshot<T>, ReceiverOneshot<T>),
    texts: (&'static str, &'static str),
)
    requires
        call_ensures(oneshot::<T>, (), made),
        call_ensures(SenderOneshot::<T>::leave, (sender, unsent), wakes.0),
        call_ensures(ReceiverOneshot::<T>::leave, (receiver, unheard), wakes.1),
        *old(late) == *final(unheard),
        call_ensures(SenderOneshot::<T>::send, (sender, late, value), outcome),
        call_ensures(SenderOneshot::<T>::debug_text, (&sender, &made.0), texts.0),
        call_ensures(ReceiverOneshot::<T>::debug_text, (&receiver, final(unsent)), texts.1),
    ensures
        made.0@.value is None && !made.0@.closed && !made.0@.complete,
        final(unsent)@.closed && final(unsent)@.value == old(unsent)@.value,
        final(unheard)@.closed && final(unheard)@.value == old(unheard)@.value,
        wakes == (Wake::Everyone, Wake::Everyone),
        outcome == Err::<Wake, T>(value),
        texts.0@ == "SenderOneshot { complete: false }"@,
        texts.1@ == "ReceiverOneshot { complete: true }"@,
{
}

/// The channel itself delivers a value once, and stays open for it until a handle
/// leaves.
pub proof fn oneshot_channels_hold_one_value<T>(
    made: OneshotChannel<T>,
    sent: &mut OneshotChannel<T>,
    taken: &mut OneshotChannel<T>,
    awaited: &mut OneshotChannel<T>,
    timed: &mut OneshotChannel<T>,
    shut: &mut OneshotChannel<T>,
    value: T,
    outcome: Result<Wake, T>,
    received: Result<Option<T>, ChannelError>,
    steps: (RecvStep<T>, RecvStep<T>),
    wake: Wake,
)
    requires
        call_ensures(OneshotChannel::<T>::new, (), made),
        call_ensures(OneshotChannel::<T>::send, (sent, value), outcome),
        call_ensures(OneshotChannel::<T>::try_recv, (taken,), received),
        *old(awaited) == *old(taken),
        call_ensures(OneshotChannel::<T>::recv, (awaited, Ok(())), steps.0),
        *old(timed) == *old(taken),
        call_ensures(OneshotChannel::<T>::recv_with_deadline, (timed, Ok(())), steps.1),
        call_ensures(OneshotChannel::<T>::close, (shut,), wake),
    ensures
        made@.value is None && !made@.closed && !made@.complete,
        outcome is Ok <==> !old(sent)@.closed,
        outcome is Ok ==> final(sent)@.value == Some(value) && final(sent)@.complete,
        outcome matches Err(back) ==> back == value && final(sent)@ == old(sent)@,
        final(sent)@.closed == old(sent)@.closed,
        old(taken)@.value matches Some(item) ==> received == Ok::<Option<T>, ChannelError>(
            Some(item),
        ) && steps.0 == RecvStep::Ready(Ok::<T, ChannelError>(item)),
        received is Err <==> old(taken)@.value is None && old(taken)@.closed,
        received == Ok::<Option<T>, ChannelError>(None) <==> steps.0 is Wait,
        steps.1 == steps.0,
        final(taken)@.value is None && final(taken)@.closed == old(taken)@.closed,
        final(awaited)@ == final(taken)@ && final(timed)@ == final(taken)@,
        final(shut)@.closed && final(shut)@.value == old(shut)@.value && wake == Wake::Everyone,
{
}

} // verus!
