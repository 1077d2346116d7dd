//! Channels for one value.

use kimojio::async_channel::RecvStep;
use kimojio::async_oneshot::oneshot;
use kimojio::async_oneshot::OneshotChannel;
use kimojio::errors::CanceledError;
use kimojio::errors::ChannelError;
use kimojio::errors::TimeoutError;

#[test]
fn oneshot_recv_before_send() {
    let (mut channel, tx, rx) = oneshot();
    assert_eq!(rx.recv(&mut channel, Ok(())), RecvStep::Wait);
    tx.send(&mut channel, 42).unwrap();
    assert_eq!(rx.recv(&mut channel, Ok(())), RecvStep::Ready(Ok(42)));
}

#[test]
fn oneshot_recv_after_send() {
    let (mut channel, tx, rx) = oneshot();
    tx.send(&mut channel, 42).unwrap();
    assert_eq!(rx.recv(&mut channel, Ok(())), RecvStep::Ready(Ok(42)));
}

#[test]
fn oneshot_recv_and_send_dropped() {
    let (mut channel, tx, rx) = oneshot::<i32>();
    tx.leave(&mut channel);
    assert_eq!(
        rx.recv(&mut channel, Ok(())),
        RecvStep::Ready(Err(ChannelError::Closed))
    );
}

#[test]
fn oneshot_send_dropped_before_recv() {
    let (mut channel, tx, rx) = oneshot::<i32>();
    tx.leave(&mut channel);
    assert_eq!(
        rx.recv(&mut channel, Ok(())),
        RecvStep::Ready(Err(ChannelError::Closed))
    );
}

#[test]
fn oneshot_recv_with_deadline_success() {
    let (mut channel, tx, rx) = oneshot();
    assert_eq!(rx.recv_with_deadline(&mut channel, Ok(())), RecvStep::Wait);
    tx.send(&mut channel, 42).unwrap();
    assert_eq!(
        rx.recv_with_deadline(&mut channel, Ok(())),
        RecvStep::Ready(Ok(42))
    );
}

#[test]
fn oneshot_recv_with_deadline_timeout() {
    let (mut channel, _tx, rx) = oneshot::<i32>();
    assert_eq!(
        rx.recv_with_deadline(&mut channel, Err(TimeoutError::Timeout)),
        RecvStep::Ready(Err(ChannelError::Timeout))
    );
}

#[test]
fn oneshot_recv_with_deadline_no_deadline() {
    let (mut channel, tx, rx) = oneshot();
    assert_eq!(rx.recv_with_deadline(&mut channel, Ok(())), RecvStep::Wait);
    tx.send(&mut channel, 123).unwrap();
    assert_eq!(
        rx.recv_with_deadline(&mut channel, Ok(())),
        RecvStep::Ready(Ok(123))
    );
}

#[test]
fn oneshot_recv_with_deadline_closed_channel() {
    let (mut channel, tx, rx) = oneshot::<i32>();
    tx.leave(&mut channel);
    assert_eq!(
        rx.recv_with_deadline(&mut channel, Ok(())),
        RecvStep::Ready(Err(ChannelError::Closed))
    );
}

#[test]
fn oneshot_try_recv_available() {
    let (mut channel, tx, rx) = oneshot();
    tx.send(&mut channel, 42).unwrap();

    assert_eq!(rx.try_recv(&mut channel), Ok(Some(42)));
    assert_eq!(rx.try_recv(&mut channel), Err(ChannelError::Closed));
}

#[test]
fn oneshot_try_recv_not_available() {
    let (mut channel, _tx, rx) = oneshot::<i32>();

    assert_eq!(rx.try_recv(&mut channel), Ok(None));
}

#[test]
fn oneshot_try_recv_closed() {
    let (mut channel, tx, rx) = oneshot::<i32>();
    tx.leave(&mut channel);

    assert_eq!(rx.try_recv(&mut channel), Err(ChannelError::Closed));
}

#[test]
fn oneshot_try_recv_multiple_attempts() {
    let (mut channel, tx, rx) = oneshot();

    assert_eq!(rx.try_recv(&mut channel), Ok(None));

    tx.send(&mut channel, 99).unwrap();
    assert_eq!(rx.try_recv(&mut channel), Ok(Some(99)));
}

#[test]
fn oneshot_debug_sender() {
    let (mut channel, tx, _rx) = oneshot::<i32>();

    let debug_str = tx.debug_text(&channel);
    assert!(debug_str.contains("SenderOneshot"));
    assert!(debug_str.contains("complete: false"));

    tx.send(&mut channel, 42).unwrap();
}

#[test]
fn oneshot_debug_receiver() {
    let (mut channel, tx, rx) = oneshot::<i32>();

    let debug_str = rx.debug_text(&channel);
    assert!(debug_str.contains("ReceiverOneshot"));
    assert!(debug_str.contains("complete: false"));

    tx.send(&mut channel, 42).unwrap();
    let debug_str_after_send = rx.debug_text(&channel);
    assert!(debug_str_after_send.contains("ReceiverOneshot"));
    assert!(debug_str_after_send.contains("complete: true"));

    assert_eq!(rx.recv(&mut channel, Ok(())), RecvStep::Ready(Ok(42)));
}

#[test]
fn oneshot_debug_closed_sender() {
    let (mut channel, tx, rx) = oneshot::<i32>();
    rx.leave(&mut channel);

    let debug_str = tx.debug_text(&channel);
    assert!(debug_str.contains("SenderOneshot"));
    assert!(debug_str.contains("complete:"));
}

#[test]
fn oneshot_debug_closed_receiver() {
    let (mut channel, tx, rx) = oneshot::<i32>();
    tx.leave(&mut channel);

    let debug_str = rx.debug_text(&channel);
    assert!(debug_str.contains("ReceiverOneshot"));
    assert!(debug_str.contains("complete:"));
}

#[test]
fn oneshot_channel_recv_with_deadline_direct() {
    let mut channel = OneshotChannel::<i32>::new();
    assert_eq!(
        channel.recv_with_deadline(Err(TimeoutError::Timeout)),
        RecvStep::Ready(Err(ChannelError::Timeout))
    );
}

#[test]
fn oneshot_channel_recv_with_deadline_success_direct() {
    let mut channel = OneshotChannel::<i32>::new();
    assert_eq!(channel.recv_with_deadline(Ok(())), RecvStep::Wait);
    channel.send(42).unwrap();
    assert_eq!(channel.recv_with_deadline(Ok(())), RecvStep::Ready(Ok(42)));
}

#[test]
fn canceled_oneshot_receives_end() {
    let (mut channel, _tx, rx) = oneshot::<i32>();
    assert_eq!(
        rx.recv(&mut channel, Err(CanceledError {})),
        RecvStep::Ready(Err(ChannelError::Canceled))
    );
}

#[test]
fn sending_to_a_gone_receiver_returns_the_value() {
    let (mut channel, tx, rx) = oneshot::<i32>();
    rx.leave(&mut channel);
    assert_eq!(tx.send(&mut channel, 5), Err(5));
}
