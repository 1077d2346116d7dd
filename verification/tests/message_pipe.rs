//! Message pipes over sockets of the system.

use std::cell::Cell;
use std::rc::Rc;

use kimojio::errno::Errno;
use kimojio::handle_table::HandleTable;
use kimojio::message_pipe::make_message_pipe;
use kimojio::message_pipe::make_message_pipe_oneway_sync;
use kimojio::message_pipe::IdMessagePipe;
use kimojio::message_pipe::MessagePipe;
use kimojio::message_pipe::MessagePipeReceiver;
use kimojio::message_pipe::MessagePipeSender;
use kimojio::message_pipe::PipeDirection;
use kimojio::message_pipe::RecvMessageFuture;
use kimojio::message_pipe::SendMessage;
use kimojio::pointer_buffer::IdPointerMsg;
use kimojio::time::Duration;
use rustix::fd::OwnedFd;
use rustix::net::AddressFamily;
use rustix::net::RecvFlags;
use rustix::net::SendFlags;
use rustix::net::Shutdown;
use rustix::net::SocketFlags;
use rustix::net::SocketType;

type Waiting<T> = HandleTable<Box<T>>;

struct DropCounter(Rc<Cell<usize>>);

impl Drop for DropCounter {
    fn drop(&mut self) {
        self.0.set(self.0.get() + 1);
    }
}

fn counted_message() -> (Box<DropCounter>, Rc<Cell<usize>>) {
    let count = Rc::new(Cell::new(0));
    (Box::new(DropCounter(Rc::clone(&count))), count)
}

fn bipipe() -> (OwnedFd, OwnedFd) {
    rustix::net::socketpair(
        AddressFamily::UNIX,
        SocketType::STREAM,
        SocketFlags::CLOEXEC,
        None,
    )
    .unwrap()
}

fn errno(error: rustix::io::Errno) -> Errno {
    Errno::from_raw_os_error(error.raw_os_error())
}

fn shut(pipe: &OwnedFd, direction: PipeDirection) -> Result<(), Errno> {
    let how = match direction {
        PipeDirection::Read => Shutdown::Read,
        PipeDirection::Write => Shutdown::Write,
    };
    rustix::net::shutdown(pipe, how).map_err(errno)
}

fn oneway<T>() -> (MessagePipeSender<OwnedFd, T>, MessagePipeReceiver<OwnedFd, T>) {
    let (pipe1, pipe2) = bipipe();
    let sender = shut(&pipe1, MessagePipeSender::<OwnedFd, T>::unused_direction());
    let receiver = shut(&pipe2, MessagePipeReceiver::<OwnedFd, T>::unused_direction());
    make_message_pipe_oneway_sync(pipe1, pipe2, sender, receiver).unwrap()
}

fn sender_of<T>(pipe: OwnedFd) -> MessagePipeSender<OwnedFd, T> {
    let outcome = shut(&pipe, MessagePipeSender::<OwnedFd, T>::unused_direction());
    MessagePipeSender::new_sync(pipe, outcome).unwrap()
}

fn receiver_of<T>(pipe: OwnedFd) -> MessagePipeReceiver<OwnedFd, T> {
    let outcome = shut(&pipe, MessagePipeReceiver::<OwnedFd, T>::unused_direction());
    MessagePipeReceiver::new_sync(pipe, outcome).unwrap()
}

fn write(pipe: &OwnedFd, bytes: &[u8]) -> Result<usize, Errno> {
    rustix::net::send(pipe, bytes, SendFlags::NOSIGNAL | SendFlags::DONTWAIT).map_err(errno)
}

/// The bytes that are there, or `None` when the reader would have to wait.
fn read(pipe: &OwnedFd, buffer: &mut [u8]) -> Option<Result<usize, Errno>> {
    match rustix::net::recv(pipe, buffer, RecvFlags::DONTWAIT) {
        Ok((amount, _)) => Some(Ok(amount)),
        Err(error) if error == rustix::io::Errno::AGAIN => None,
        Err(error) => Some(Err(errno(error))),
    }
}

fn transmit<T>(
    pipe: &OwnedFd,
    begun: (SendMessage<T>, [u8; 8]),
    waiting: &mut Waiting<T>,
) -> Result<(), Errno> {
    let (mut sending, bytes) = begun;
    sending.finish(write(pipe, &bytes), waiting)
}

fn collect<T>(
    pipe: &OwnedFd,
    mut receiving: RecvMessageFuture<T>,
    waiting: &mut Waiting<T>,
) -> Result<Box<T>, Errno> {
    let mut buffer = [0u8; 8];
    let result = match read(pipe, &mut buffer) {
        Some(result) => result,
        None => Err(Errno::time()),
    };
    receiving.finish(result, buffer, waiting)
}

fn send<T, R>(
    pipe: &MessagePipe<OwnedFd, T, R>,
    message: T,
    waiting: &mut Waiting<T>,
) -> Result<(), Errno> {
    let begun = pipe.send_message(Box::new(message), waiting);
    transmit(pipe.inner(), begun, waiting)
}

fn receive<T, R>(
    pipe: &MessagePipe<OwnedFd, T, R>,
    waiting: &mut Waiting<R>,
) -> Result<Box<R>, Errno> {
    collect(pipe.inner(), pipe.recv_message(), waiting)
}

fn send_oneway<T>(
    pipe: &MessagePipeSender<OwnedFd, T>,
    message: T,
    waiting: &mut Waiting<T>,
) -> Result<(), Errno> {
    let begun = pipe.send_message(Box::new(message), waiting);
    transmit(pipe.inner(), begun, waiting)
}

fn receive_oneway<T>(
    pipe: &MessagePipeReceiver<OwnedFd, T>,
    waiting: &mut Waiting<T>,
) -> Result<Box<T>, Errno> {
    collect(pipe.inner(), pipe.recv_message(), waiting)
}

fn send_with_id<T, R>(
    pipe: &IdMessagePipe<OwnedFd, T, R>,
    id: u64,
    message: T,
    waiting: &mut Waiting<T>,
) -> Result<(), Errno> {
    let (mut sending, bytes) = pipe.send_message(id, Box::new(message), waiting);
    sending.finish(write(pipe.inner(), &bytes.0), waiting)
}

fn receive_with_id<T, R>(
    pipe: &IdMessagePipe<OwnedFd, T, R>,
    waiting: &mut Waiting<R>,
) -> Result<(u64, Box<R>), Errno> {
    let mut bytes = [0u8; 16];
    let result = match read(pipe.inner(), &mut bytes) {
        Some(result) => result,
        None => Err(Errno::time()),
    };
    pipe.recv_message(result, IdPointerMsg(bytes), waiting)
}

fn fill_socket(pipe: &OwnedFd) {
    while write(pipe, &[0; 4096]).is_ok() {}
}

#[test]
fn canceled_sends_drop_unsent_messages() {
    let (fd, _peer) = bipipe();
    fill_socket(&fd);
    let sender = MessagePipe::<OwnedFd, DropCounter, ()>::new(fd);
    let mut waiting = HandleTable::new();
    let (message, count) = counted_message();
    let (mut sending, bytes) = sender.send_message(message, &mut waiting);
    assert!(write(sender.inner(), &bytes).is_err());
    assert!(sending.must_complete());
    assert!(sending.finish(Err(Errno::canceled()), &mut waiting).is_err());
    assert_eq!(count.get(), 1);

    let (fd, _peer) = bipipe();
    fill_socket(&fd);
    let sender = sender_of::<DropCounter>(fd);
    let (message, count) = counted_message();
    let (mut sending, bytes) = sender.send_message(message, &mut waiting);
    assert!(write(sender.inner(), &bytes).is_err());
    assert!(sending.finish(Err(Errno::canceled()), &mut waiting).is_err());
    assert_eq!(count.get(), 1);

    let (fd, _peer) = bipipe();
    fill_socket(&fd);
    let sender = IdMessagePipe::<OwnedFd, DropCounter, ()>::new(fd);
    let (message, count) = counted_message();
    let (mut sending, bytes) = sender.send_message(42, message, &mut waiting);
    assert!(write(sender.inner(), &bytes.0).is_err());
    assert!(sending.finish(Err(Errno::canceled()), &mut waiting).is_err());
    assert_eq!(count.get(), 1);
}

#[test]
fn dropped_sends_preserve_transmitted_messages() {
    let (pipe1, pipe2) = bipipe();
    let (sender, receiver) = make_message_pipe::<OwnedFd, DropCounter, ()>(pipe1, pipe2);
    let mut waiting = HandleTable::new();
    let (message, count) = counted_message();
    let (mut sending, bytes) = sender.send_message(message, &mut waiting);
    let written = write(sender.inner(), &bytes);
    let received = receive(&receiver, &mut waiting).unwrap();
    assert!(sending.finish(written, &mut waiting).is_ok());
    drop(sending);
    assert_eq!(count.get(), 0);
    drop(received);
    assert_eq!(count.get(), 1);

    let (fd, peer) = bipipe();
    let sender = IdMessagePipe::<OwnedFd, DropCounter, ()>::new(fd);
    let receiver = IdMessagePipe::<OwnedFd, (), DropCounter>::new(peer);
    let (message, count) = counted_message();
    let (mut sending, bytes) = sender.send_message(42, message, &mut waiting);
    let written = write(sender.inner(), &bytes.0);
    let (id, received) = receive_with_id(&receiver, &mut waiting).unwrap();
    assert_eq!(id, 42);
    assert!(sending.finish(written, &mut waiting).is_ok());
    drop(sending);
    assert_eq!(count.get(), 0);
    drop(received);
    assert_eq!(count.get(), 1);
}

#[test]
fn dropped_receives_release_consumed_messages() {
    let (pipe1, pipe2) = bipipe();
    let (sender, receiver) = make_message_pipe::<OwnedFd, DropCounter, ()>(pipe1, pipe2);
    let mut waiting = HandleTable::new();
    let (message, count) = counted_message();
    transmit(
        sender.inner(),
        sender.send_message(message, &mut waiting),
        &mut waiting,
    )
    .unwrap();
    {
        let mut receiving = receiver.recv_message();
        let mut buffer = [0u8; 8];
        let result = read(receiver.inner(), &mut buffer);
        drop(receiving.abandon(result, buffer, &mut waiting));
    }
    assert_eq!(count.get(), 1);

    let (sender, receiver) = oneway::<DropCounter>();
    let (message, count) = counted_message();
    transmit(
        sender.inner(),
        sender.send_message(message, &mut waiting),
        &mut waiting,
    )
    .unwrap();
    {
        let mut receiving = receiver.recv_message();
        let mut buffer = [0u8; 8];
        let result = read(receiver.inner(), &mut buffer);
        drop(receiving.abandon(result, buffer, &mut waiting));
    }
    assert_eq!(count.get(), 1);
}

#[test]
fn unpolled_operations_preserve_ownership() {
    let (pipe1, pipe2) = bipipe();
    let (sender, receiver) = make_message_pipe::<OwnedFd, DropCounter, ()>(pipe1, pipe2);
    let mut waiting = HandleTable::new();
    let (message, count) = counted_message();
    let (mut sending, _) = sender.send_message(message, &mut waiting);
    assert!(sending.finish(Err(Errno::canceled()), &mut waiting).is_err());
    assert_eq!(count.get(), 1);
    let (message, count) = counted_message();
    transmit(
        sender.inner(),
        sender.send_message(message, &mut waiting),
        &mut waiting,
    )
    .unwrap();
    drop(receiver.recv_message());
    assert_eq!(count.get(), 0);
    drop(receive(&receiver, &mut waiting).unwrap());
    assert_eq!(count.get(), 1);
}

#[test]
fn pending_receive_cancellation_allows_reuse() {
    let (pipe1, pipe2) = bipipe();
    let (sender, receiver) = make_message_pipe::<OwnedFd, DropCounter, ()>(pipe1, pipe2);
    let mut waiting = HandleTable::new();
    {
        let mut receiving = receiver.recv_message();
        let mut buffer = [0u8; 8];
        let result = read(receiver.inner(), &mut buffer);
        assert!(result.is_none());
        assert!(receiving.abandon(result, buffer, &mut waiting).is_none());
    }
    let (message, count) = counted_message();
    transmit(
        sender.inner(),
        sender.send_message(message, &mut waiting),
        &mut waiting,
    )
    .unwrap();
    drop(receive(&receiver, &mut waiting).unwrap());
    assert_eq!(count.get(), 1);
}

#[test]
fn test_message_pipe_behavior_send() {
    let (tx, rx) = oneway::<String>();
    let mut waiting = HandleTable::new();
    let rx2 = rustix::io::dup(rx.inner()).unwrap();
    drop(rx);
    drop(rx2);
    assert!(send_oneway(&tx, "message".to_string(), &mut waiting).is_err());
    assert!(waiting.is_empty());
}

#[test]
fn test_message_pipe_behavior_recv() {
    let (tx, rx) = oneway::<String>();
    let mut waiting = HandleTable::new();
    let tx2 = rustix::io::dup(tx.inner()).unwrap();
    drop(tx);
    drop(tx2);
    assert!(receive_oneway(&rx, &mut waiting).is_err());
}

#[test]
fn test_make_message_pipe() {
    let (fd1, fd2) = bipipe();
    let (pipe1, pipe2) = make_message_pipe::<OwnedFd, String, i32>(fd1, fd2);
    let mut texts = HandleTable::new();
    let mut numbers = HandleTable::new();
    send(&pipe1, "hello".to_string(), &mut texts).unwrap();
    assert_eq!(*receive(&pipe2, &mut texts).unwrap(), "hello");
    send(&pipe2, 42, &mut numbers).unwrap();
    assert_eq!(*receive(&pipe1, &mut numbers).unwrap(), 42);
}

#[test]
fn test_make_message_pipe_oneway_sync() {
    let (tx, rx) = oneway::<String>();
    let mut waiting = HandleTable::new();
    send_oneway(&tx, "sync test".to_string(), &mut waiting).unwrap();
    assert_eq!(*receive_oneway(&rx, &mut waiting).unwrap(), "sync test");
}

#[test]
fn test_message_pipe_new_and_into_inner() {
    let (pipe1, pipe2) = bipipe();
    let msg_pipe: MessagePipe<OwnedFd, String, i32> = MessagePipe::new(pipe1);
    let fd = msg_pipe.into_inner();
    let msg_pipe2: MessagePipe<OwnedFd, i32, String> = MessagePipe::new(pipe2);
    let msg_pipe1: MessagePipe<OwnedFd, String, i32> = MessagePipe::new(fd);
    let mut waiting = HandleTable::new();
    send(&msg_pipe1, "test".to_string(), &mut waiting).unwrap();
    assert_eq!(*receive(&msg_pipe2, &mut waiting).unwrap(), "test");
}

#[test]
fn test_message_pipe_recv_with_timeout() {
    let (fd1, fd2) = bipipe();
    let (pipe1, pipe2) = make_message_pipe::<OwnedFd, String, i32>(fd1, fd2);
    let mut waiting = HandleTable::new();
    let receiving = pipe1.recv_message_with_timeout(Some(Duration::from_millis(10)));
    assert_eq!(receiving.timeout(), Some(Duration::from_millis(10)));
    let timeout_result = collect(pipe1.inner(), receiving, &mut waiting);
    assert!(timeout_result.is_err());
    send(&pipe2, 123, &mut waiting).unwrap();
    let receiving = pipe1.recv_message_with_timeout(Some(Duration::from_millis(100)));
    assert_eq!(*collect(pipe1.inner(), receiving, &mut waiting).unwrap(), 123);
}

#[test]
fn test_message_pipe_sync_operations() {
    let (fd1, fd2) = bipipe();
    let (pipe1, pipe2) = make_message_pipe::<OwnedFd, String, i32>(fd1, fd2);
    let mut texts = HandleTable::new();
    let mut numbers = HandleTable::new();
    send(&pipe1, "sync message".to_string(), &mut texts).unwrap();
    assert_eq!(*receive(&pipe2, &mut texts).unwrap(), "sync message");
    send(&pipe2, 456, &mut numbers).unwrap();
    assert_eq!(*receive(&pipe1, &mut numbers).unwrap(), 456);
}

#[test]
fn test_message_pipe_sender_new_sync_and_into_inner() {
    let (pipe1, pipe2) = bipipe();
    let sender = sender_of::<String>(pipe1);
    let fd = sender.into_inner();
    let receiver = receiver_of::<String>(pipe2);
    let sender = sender_of::<String>(fd);
    let mut waiting = HandleTable::new();
    send_oneway(&sender, "test sender".to_string(), &mut waiting).unwrap();
    assert_eq!(*receive_oneway(&receiver, &mut waiting).unwrap(), "test sender");
}

#[test]
fn test_message_pipe_sender_sync_operations() {
    let (tx, rx) = oneway::<String>();
    let mut waiting = HandleTable::new();
    send_oneway(&tx, "sync sender test".to_string(), &mut waiting).unwrap();
    assert_eq!(*receive_oneway(&rx, &mut waiting).unwrap(), "sync sender test");
}

#[test]
fn test_message_pipe_receiver_new_sync_and_into_inner() {
    let (pipe1, pipe2) = bipipe();
    let receiver = receiver_of::<String>(pipe2);
    let fd = receiver.into_inner();
    let sender = sender_of::<String>(pipe1);
    let receiver = receiver_of::<String>(fd);
    let mut waiting = HandleTable::new();
    send_oneway(&sender, "test receiver".to_string(), &mut waiting).unwrap();
    assert_eq!(*receive_oneway(&receiver, &mut waiting).unwrap(), "test receiver");
}

#[test]
fn test_message_pipe_receiver_recv_with_timeout() {
    let (tx, rx) = oneway::<String>();
    let mut waiting = HandleTable::new();
    let receiving = rx.recv_message_with_timeout(Some(Duration::from_millis(10)));
    assert!(collect(rx.inner(), receiving, &mut waiting).is_err());
    send_oneway(&tx, "timeout test".to_string(), &mut waiting).unwrap();
    let receiving = rx.recv_message_with_timeout(Some(Duration::from_millis(100)));
    assert_eq!(*collect(rx.inner(), receiving, &mut waiting).unwrap(), "timeout test");
}

#[test]
fn test_id_message_pipe_new_and_into_inner() {
    let (pipe1, pipe2) = bipipe();
    let id_pipe: IdMessagePipe<OwnedFd, String, i32> = IdMessagePipe::new(pipe1);
    let fd = id_pipe.into_inner();
    let id_pipe1: IdMessagePipe<OwnedFd, String, i32> = IdMessagePipe::new(fd);
    let id_pipe2: IdMessagePipe<OwnedFd, i32, String> = IdMessagePipe::new(pipe2);
    let mut waiting = HandleTable::new();
    send_with_id(&id_pipe1, 123, "id test".to_string(), &mut waiting).unwrap();
    let (id, message) = receive_with_id(&id_pipe2, &mut waiting).unwrap();
    assert_eq!(id, 123);
    assert_eq!(*message, "id test");
}

#[test]
fn test_id_message_pipe_async_operations() {
    let (pipe1, pipe2) = bipipe();
    let id_pipe1: IdMessagePipe<OwnedFd, String, i32> = IdMessagePipe::new(pipe1);
    let id_pipe2: IdMessagePipe<OwnedFd, i32, String> = IdMessagePipe::new(pipe2);
    let mut texts = HandleTable::new();
    let mut numbers = HandleTable::new();
    send_with_id(&id_pipe1, 456, "async id test".to_string(), &mut texts).unwrap();
    let (id, message) = receive_with_id(&id_pipe2, &mut texts).unwrap();
    assert_eq!(id, 456);
    assert_eq!(*message, "async id test");
    send_with_id(&id_pipe2, 789, 999, &mut numbers).unwrap();
    let (response_id, response) = receive_with_id(&id_pipe1, &mut numbers).unwrap();
    assert_eq!(response_id, 789);
    assert_eq!(*response, 999);
}

#[test]
fn test_id_message_pipe_sync_operations() {
    let (pipe1, pipe2) = bipipe();
    let id_pipe1: IdMessagePipe<OwnedFd, String, i32> = IdMessagePipe::new(pipe1);
    let id_pipe2: IdMessagePipe<OwnedFd, i32, String> = IdMessagePipe::new(pipe2);
    let mut texts = HandleTable::new();
    let mut numbers = HandleTable::new();
    send_with_id(&id_pipe1, 321, "sync id test".to_string(), &mut texts).unwrap();
    let (id, message) = receive_with_id(&id_pipe2, &mut texts).unwrap();
    assert_eq!(id, 321);
    assert_eq!(*message, "sync id test");
    send_with_id(&id_pipe2, 654, 888, &mut numbers).unwrap();
    let (response_id, response) = receive_with_id(&id_pipe1, &mut numbers).unwrap();
    assert_eq!(response_id, 654);
    assert_eq!(*response, 888);
}

#[test]
fn test_id_message_pipe_multiple_instances() {
    let (pipe1, pipe2) = bipipe();
    let (pipe3, pipe4) = bipipe();
    let id_pipe1: IdMessagePipe<OwnedFd, String, i32> = IdMessagePipe::new(pipe1);
    let id_pipe2: IdMessagePipe<OwnedFd, i32, String> = IdMessagePipe::new(pipe2);
    let id_pipe3: IdMessagePipe<OwnedFd, String, i32> = IdMessagePipe::new(pipe3);
    let id_pipe4: IdMessagePipe<OwnedFd, i32, String> = IdMessagePipe::new(pipe4);
    let mut waiting = HandleTable::new();
    send_with_id(&id_pipe1, 111, "test 1".to_string(), &mut waiting).unwrap();
    send_with_id(&id_pipe3, 222, "test 2".to_string(), &mut waiting).unwrap();
    let (id, message) = receive_with_id(&id_pipe2, &mut waiting).unwrap();
    assert_eq!(id, 111);
    assert_eq!(*message, "test 1");
    let (id, message) = receive_with_id(&id_pipe4, &mut waiting).unwrap();
    assert_eq!(id, 222);
    assert_eq!(*message, "test 2");
}

#[test]
fn test_recv_message_future_is_terminated() {
    let (tx, rx) = oneway::<String>();
    let mut waiting = HandleTable::new();
    let mut future = rx.recv_message();
    assert!(!future.is_terminated());
    send_oneway(&tx, "terminate test".to_string(), &mut waiting).unwrap();
    let mut buffer = [0u8; 8];
    let result = read(rx.inner(), &mut buffer).unwrap();
    let message = future.finish(result, buffer, &mut waiting).unwrap();
    assert_eq!(*message, "terminate test");
    assert!(future.is_terminated());
}

#[test]
fn test_message_pipe_clone() {
    let (fd1, fd2) = bipipe();
    let (pipe1, pipe2) = make_message_pipe::<OwnedFd, String, i32>(fd1, fd2);
    let pipe1_clone: MessagePipe<OwnedFd, String, i32> =
        MessagePipe::new(rustix::io::dup(pipe1.inner()).unwrap());
    let mut waiting = HandleTable::new();
    send(&pipe1_clone, "clone test".to_string(), &mut waiting).unwrap();
    assert_eq!(*receive(&pipe2, &mut waiting).unwrap(), "clone test");
}

#[test]
fn test_message_pipe_error_handling() {
    let (fd1, fd2) = bipipe();
    let (pipe1, pipe2) = make_message_pipe::<OwnedFd, String, i32>(fd1, fd2);
    drop(pipe2);
    let mut texts = HandleTable::new();
    let mut numbers = HandleTable::new();
    assert!(send(&pipe1, "should fail".to_string(), &mut texts).is_err());
    assert!(receive(&pipe1, &mut numbers).is_err());
}

#[test]
fn test_id_message_pipe_error_handling() {
    let (pipe1, pipe2) = bipipe();
    let id_pipe: IdMessagePipe<OwnedFd, String, i32> = IdMessagePipe::new(pipe1);
    drop(pipe2);
    let mut texts = HandleTable::new();
    let mut numbers = HandleTable::new();
    assert!(send_with_id(&id_pipe, 123, "should fail".to_string(), &mut texts).is_err());
    assert!(receive_with_id(&id_pipe, &mut numbers).is_err());
}
