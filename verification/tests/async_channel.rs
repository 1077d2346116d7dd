//! Channels.

use kimojio::async_channel::async_channel;
use kimojio::async_channel::async_channel_unbounded;
use kimojio::async_channel::async_channel_unbounded_with_capacity;
use kimojio::async_channel::AsyncChannel;
use kimojio::async_channel::AsyncChannelUnbounded;
use kimojio::async_channel::Receiver;
use kimojio::async_channel::ReceiverUnbounded;
use kimojio::async_channel::RecvStep;
use kimojio::async_channel::SendError;
use kimojio::async_channel::SendStep;
use kimojio::async_channel::Sender;
use kimojio::errno::Errno;
use kimojio::errno::ECANCELED;
use kimojio::errno::EPIPE;
use kimojio::errno::ETIME;
use kimojio::errors::CanceledError;
use kimojio::errors::ChannelError;
use kimojio::errors::TimeoutError;
use kimojio::event::Wake;

fn received<T>(step: RecvStep<T>) -> Result<T, ChannelError> {
    match step {
        RecvStep::Ready(result) => result,
        RecvStep::Wait => panic!("the receiver would wait"),
    }
}

fn recv<T>(rx: &Receiver<T>, channel: &mut AsyncChannel<T>) -> Result<T, ChannelError> {
    received(rx.recv(channel, Ok(())))
}

fn recv_unbounded<T>(
    rx: &ReceiverUnbounded<T>,
    channel: &mut AsyncChannelUnbounded<T>,
) -> Result<T, ChannelError> {
    received(rx.recv(channel, Ok(())))
}

fn send<T>(tx: &Sender<T>, channel: &mut AsyncChannel<T>, message: T) -> Result<Wake, T> {
    match tx.send(channel, message, Ok(())) {
        SendStep::Sent(wake) => Ok(wake),
        SendStep::Returned(message) => Err(message),
        SendStep::Wait(_) => panic!("the sender would wait"),
    }
}

#[test]
fn channel_test() {
    let (mut requests, client_tx, server_rx) = async_channel::<i32>();
    let (mut responses, server_tx, client_rx) = async_channel::<i32>();
    for message in 1..10 {
        send(&client_tx, &mut requests, message).expect("channel closed");
        let request = recv(&server_rx, &mut requests).unwrap();
        assert!(request > 0);
        send(&server_tx, &mut responses, request + 1).expect("channel closed");
        let response = recv(&client_rx, &mut responses).unwrap();
        assert_eq!(response, message + 1);
    }
    send(&client_tx, &mut requests, -1).expect("channel closed");
    assert_eq!(recv(&server_rx, &mut requests), Ok(-1));
}

#[test]
fn channel_test_try() {
    let (mut requests, client_tx, server_rx) = async_channel::<i32>();
    let (mut responses, server_tx, client_rx) = async_channel::<i32>();
    for message in 1..10 {
        for _ in 0..2 {
            send(&client_tx, &mut requests, message).expect("channel closed");
            let request = server_rx
                .try_recv(&mut requests)
                .expect("channel closed")
                .unwrap();
            assert_eq!(Ok(None), server_rx.try_recv(&mut requests));
            send(&server_tx, &mut responses, request + 1).expect("channel closed");
            let response = client_rx
                .try_recv(&mut responses)
                .expect("channel closed")
                .unwrap();
            assert_eq!(response, message + 1);
        }
    }
}

#[test]
fn unbounded_channel_test() {
    let (mut channel1, channel1_tx, channel1_rx) = async_channel_unbounded::<i32>();
    let (mut channel2, channel2_tx, channel2_rx) = async_channel_unbounded::<i32>();
    for message in 1..10 {
        channel1_tx.send(&mut channel1, message).unwrap();
        let request = recv_unbounded(&channel1_rx, &mut channel1).unwrap();
        channel2_tx.send(&mut channel2, request + 1).unwrap();
        let response = recv_unbounded(&channel2_rx, &mut channel2).unwrap();
        assert_eq!(response, message + 1);
    }
    for message in 1..10 {
        channel1_tx.send(&mut channel1, message).unwrap();
        channel1_tx.send(&mut channel1, 10 * message).unwrap();
        for _ in 0..2 {
            let request = recv_unbounded(&channel1_rx, &mut channel1).unwrap();
            channel2_tx.send(&mut channel2, request + 1).unwrap();
        }
        let response = recv_unbounded(&channel2_rx, &mut channel2).unwrap();
        assert_eq!(response, message + 1);
        let response = recv_unbounded(&channel2_rx, &mut channel2).unwrap();
        assert_eq!(response, 10 * message + 1);
    }
}

#[test]
fn test_recv_when_sender_dropped() {
    let (mut channel, tx, rx) = async_channel_unbounded();
    tx.send(&mut channel, 1).unwrap();
    tx.send(&mut channel, 2).unwrap();
    tx.leave(&mut channel);

    assert_eq!(1, recv_unbounded(&rx, &mut channel).unwrap());
    assert_eq!(2, recv_unbounded(&rx, &mut channel).unwrap());
    assert_eq!(Err(ChannelError::Closed), recv_unbounded(&rx, &mut channel));
}

#[test]
fn test_send_when_receiver_dropped() {
    let (mut channel, tx, rx) = async_channel();
    rx.leave(&mut channel);
    assert_eq!(
        Err(SendError::ChannelClosed(3)),
        tx.try_send(&mut channel, 3)
    );
}

#[test]
fn test_async_channel_recv_when_sender_dropped() {
    let (mut channel, tx, rx) = async_channel();
    send(&tx, &mut channel, 1).unwrap();
    tx.leave(&mut channel);

    assert_eq!(1, recv(&rx, &mut channel).unwrap());
    assert_eq!(Err(ChannelError::Closed), recv(&rx, &mut channel));

    let (mut channel, tx, rx) = async_channel::<i32>();
    tx.leave(&mut channel);

    assert_eq!(Err(ChannelError::Closed), recv(&rx, &mut channel));
}

#[test]
fn test_async_channel_unbounded_with_capacity() {
    let (mut channel, tx, rx) = async_channel_unbounded_with_capacity(5);

    for i in 1..=10 {
        tx.send(&mut channel, i).unwrap();
    }

    for i in 1..=10 {
        let received = recv_unbounded(&rx, &mut channel).unwrap();
        assert_eq!(received, i);
    }
}

#[test]
fn test_sender_unbounded_close_and_status() {
    let (mut channel, tx, rx) = async_channel_unbounded();

    assert!(tx.is_empty(&channel));
    assert_eq!(tx.len(&channel), 0);

    tx.send(&mut channel, 1).unwrap();
    tx.send(&mut channel, 2).unwrap();
    tx.send(&mut channel, 3).unwrap();

    assert!(!tx.is_empty(&channel));
    assert_eq!(tx.len(&channel), 3);

    let msg = recv_unbounded(&rx, &mut channel).unwrap();
    assert_eq!(msg, 1);
    assert_eq!(tx.len(&channel), 2);

    tx.close(&mut channel);

    let msg = recv_unbounded(&rx, &mut channel).unwrap();
    assert_eq!(msg, 2);
    let msg = recv_unbounded(&rx, &mut channel).unwrap();
    assert_eq!(msg, 3);

    assert_eq!(Err(ChannelError::Closed), recv_unbounded(&rx, &mut channel));
}

#[test]
fn test_receiver_unbounded_try_recv() {
    let (mut channel, tx, rx) = async_channel_unbounded();

    assert_eq!(Ok(None), rx.try_recv(&mut channel));

    tx.send(&mut channel, 42).unwrap();

    assert_eq!(Ok(Some(42)), rx.try_recv(&mut channel));

    assert_eq!(Ok(None), rx.try_recv(&mut channel));

    tx.close(&mut channel);

    assert_eq!(Err(ChannelError::Closed), rx.try_recv(&mut channel));
}

#[test]
fn test_receiver_unbounded_recv_with_deadline() {
    let (mut channel, tx, rx) = async_channel_unbounded();

    assert_eq!(RecvStep::Wait, rx.recv_with_deadline(&mut channel, Ok(())));
    let result = received(rx.recv_with_deadline(&mut channel, Err(TimeoutError::Timeout)));
    assert_eq!(result, Err(ChannelError::Timeout));

    tx.send(&mut channel, 123).unwrap();
    let result = received(rx.recv_with_deadline(&mut channel, Ok(()))).unwrap();
    assert_eq!(result, 123);

    assert_eq!(RecvStep::Wait, rx.recv_with_deadline(&mut channel, Ok(())));
    assert_eq!(tx.send(&mut channel, 456), Ok(Wake::Everyone));
    let result = received(rx.recv_with_deadline(&mut channel, Ok(()))).unwrap();
    assert_eq!(result, 456);
}

#[test]
fn test_sender_unbounded_clone() {
    let (mut channel, tx, rx) = async_channel_unbounded();
    let tx_clone = tx.duplicate(&mut channel);

    tx.send(&mut channel, 1).unwrap();
    tx_clone.send(&mut channel, 2).unwrap();

    assert_eq!(1, recv_unbounded(&rx, &mut channel).unwrap());
    assert_eq!(2, recv_unbounded(&rx, &mut channel).unwrap());

    tx.leave(&mut channel);

    tx_clone.send(&mut channel, 3).unwrap();
    assert_eq!(3, recv_unbounded(&rx, &mut channel).unwrap());

    tx_clone.leave(&mut channel);
    assert_eq!(Err(ChannelError::Closed), recv_unbounded(&rx, &mut channel));
}

#[test]
fn test_sender_clone() {
    let (mut channel, tx, rx) = async_channel();
    let tx_clone = tx.duplicate(&mut channel);

    send(&tx, &mut channel, 1).unwrap();
    let waiting = match tx_clone.send(&mut channel, 2, Ok(())) {
        SendStep::Wait(message) => message,
        _ => panic!("the channel is full"),
    };
    let msg1 = recv(&rx, &mut channel).unwrap();
    send(&tx_clone, &mut channel, waiting).unwrap();
    let msg2 = recv(&rx, &mut channel).unwrap();

    let mut msgs = vec![msg1, msg2];
    msgs.sort();
    assert_eq!(msgs, vec![1, 2]);
}

#[test]
fn test_sender_clone_drop_behavior() {
    let (mut channel, tx, rx) = async_channel();
    let tx_clone = tx.duplicate(&mut channel);

    send(&tx, &mut channel, 1).unwrap();
    assert_eq!(1, recv(&rx, &mut channel).unwrap());

    tx.leave(&mut channel);

    send(&tx_clone, &mut channel, 2).unwrap();
    assert_eq!(2, recv(&rx, &mut channel).unwrap());

    tx_clone.leave(&mut channel);

    assert_eq!(Err(ChannelError::Closed), recv(&rx, &mut channel));
}

#[test]
fn test_multiple_sender_unbounded_clones() {
    let (mut channel, tx, rx) = async_channel_unbounded();

    let tx1 = tx.duplicate(&mut channel);
    let tx2 = tx.duplicate(&mut channel);
    let tx3 = tx.duplicate(&mut channel);

    tx.send(&mut channel, 1).unwrap();
    tx1.send(&mut channel, 2).unwrap();
    tx2.send(&mut channel, 3).unwrap();
    tx3.send(&mut channel, 4).unwrap();

    let mut received = Vec::new();
    for _ in 0..4 {
        received.push(recv_unbounded(&rx, &mut channel).unwrap());
    }
    received.sort();
    assert_eq!(received, vec![1, 2, 3, 4]);

    tx.leave(&mut channel);
    tx1.leave(&mut channel);
    tx2.leave(&mut channel);

    tx3.send(&mut channel, 5).unwrap();
    assert_eq!(5, recv_unbounded(&rx, &mut channel).unwrap());

    tx3.leave(&mut channel);
    assert_eq!(Err(ChannelError::Closed), recv_unbounded(&rx, &mut channel));
}

#[test]
fn test_channel_try_send_error_variants() {
    let (mut channel, tx, rx) = async_channel();

    assert_eq!(Ok(()), tx.try_send(&mut channel, 1).map(|_| ()));

    match tx.try_send(&mut channel, 2) {
        Err(SendError::ChannelFull(2)) => {}
        other => panic!("Expected ChannelFull(2), got {other:?}"),
    }

    assert_eq!(1, recv(&rx, &mut channel).unwrap());

    assert_eq!(Ok(()), tx.try_send(&mut channel, 2).map(|_| ()));

    rx.leave(&mut channel);

    match tx.try_send(&mut channel, 3) {
        Err(SendError::ChannelClosed(3)) => {}
        other => panic!("Expected ChannelClosed(3), got {other:?}"),
    }
}

#[test]
fn sends_to_closed_channels_return_the_message() {
    let (mut channel, tx, _rx) = async_channel_unbounded();
    tx.close(&mut channel);
    assert_eq!(tx.send(&mut channel, 7), Err(7));

    let (mut channel, tx, rx) = async_channel();
    rx.leave(&mut channel);
    assert_eq!(send(&tx, &mut channel, 8), Err(8));
}

#[test]
fn canceled_waits_end_channel_operations() {
    let (mut channel, tx, rx) = async_channel();
    assert_eq!(
        rx.recv(&mut channel, Err(CanceledError {})),
        RecvStep::Ready(Err(ChannelError::Canceled))
    );
    send(&tx, &mut channel, 1).unwrap();
    assert_eq!(
        tx.send(&mut channel, 2, Err(CanceledError {})),
        SendStep::Returned(2)
    );
    assert_eq!(recv(&rx, &mut channel), Ok(1));
}

#[test]
fn channel_errors_have_error_numbers() {
    assert_eq!(Errno::from(ChannelError::Closed).raw_os_error(), EPIPE);
    assert_eq!(
        Errno::from(ChannelError::Canceled).raw_os_error(),
        ECANCELED
    );
    assert_eq!(Errno::from(ChannelError::Timeout).raw_os_error(), ETIME);
    assert_eq!(ChannelError::from(CanceledError {}), ChannelError::Canceled);
    assert_eq!(
        ChannelError::from(TimeoutError::Timeout),
        ChannelError::Timeout
    );
    assert_eq!(
        ChannelError::Closed.message(),
        "receiving on a closed channel"
    );
}
