//! Buffers that grow to the front, kinds of I/O, cells and ring operations.

use kimojio::errno::Errno;
use kimojio::errors::PanicPayload;
use kimojio::io_scope::begin_cancel;
use kimojio::io_scope::retain_incomplete;
use kimojio::io_scope::IoScope;
use kimojio::io_scope::IoScopeCompletions;
use kimojio::io_scope::IoStage;
use kimojio::io_scope::ScopeOutcome;
use kimojio::io_scope::ScopePoll;
use kimojio::io_scope::ScopedIo;
use kimojio::io_type::IOType;
use kimojio::mut_in_place_cell::MutInPlaceCell;
use kimojio::mut_in_place_cell::RecursionCheck;
use kimojio::prefix_buffer::BufferView;
use kimojio::prefix_buffer::OwnedBuffer;
use kimojio::prefix_buffer::PrefixBuffer;
use kimojio::prefix_buffer::StaticBuffer;
use kimojio::ring_future::inject_fault;
use kimojio::ring_future::timespec_of;
use kimojio::ring_future::OwnedFdFuture;
use kimojio::ring_future::RingPoll;
use kimojio::ring_future::Timespec;
use kimojio::ring_future::UnitFuture;
use kimojio::ring_future::UringCmdFuture;
use kimojio::ring_future::UsizeFuture;
use kimojio::time::Duration;

fn buffer_impl_tests<B: PrefixBuffer>(mut buffer: B, size: usize) {
    let assert_buffer = |buffer: &B, expected: &[u8]| {
        assert_eq!(buffer.len(), expected.len());
        assert_eq!(buffer.as_slice(), expected);
        assert_eq!(buffer.available(), size - buffer.len());
        assert_eq!(buffer.is_empty(), buffer.len() == 0);
    };

    buffer.prefix(&[1, 2, 3]);
    assert_buffer(&buffer, &[1, 2, 3]);
    buffer.prefix(&[4, 5, 6]);
    assert_buffer(&buffer, &[4, 5, 6, 1, 2, 3]);
    buffer.reset();
    assert_buffer(&buffer, &[]);
    buffer.prefix(&[4, 5, 6]);
    assert_buffer(&buffer, &[4, 5, 6]);
    buffer.prefix(&[1, 2, 3]);
    assert_buffer(&buffer, &[1, 2, 3, 4, 5, 6]);

    buffer.take(2);
    assert_buffer(&buffer, &[3, 4, 5, 6]);

    buffer.reset();
    assert_buffer(&buffer, &[]);
    let reserved = buffer.reserve(3);
    reserved.copy_from_slice(&[1, 2, 3]);
    assert_buffer(&buffer, &[1, 2, 3]);

    buffer.set(&[1, 0, 0, 0, 5]);
    assert_eq!(buffer.as_slice(), &[1, 0, 0, 0, 5]);

    let value = buffer.take_u32();
    assert_buffer(&buffer, &[5]);
    assert_eq!(value, 1);
}

#[test]
fn buffer_tests() {
    let mut buffer = [0; 768];
    let len = buffer.len();
    let view = BufferView::new(&mut buffer);
    buffer_impl_tests(view, len);
}

#[test]
fn owned_buffer_tests() {
    const SIZE: usize = 1024;
    let mut buffer = OwnedBuffer::new(SIZE);

    buffer.set(b"abcd");
    buffer.keep(2);
    assert_eq!(buffer.as_slice(), b"ab");
    buffer.reset();

    buffer_impl_tests(buffer.view(), SIZE);
    buffer_impl_tests(buffer, SIZE);

    let mut buffer = OwnedBuffer::with(SIZE, b"abcd");
    assert_eq!(buffer.as_slice(), b"abcd");
    buffer.as_slice_mut().copy_from_slice(b"1234");
    assert_eq!(buffer.as_slice(), b"1234");
}

#[test]
fn static_buffer_tests() {
    const SIZE: usize = 1023;
    let mut buffer = StaticBuffer::<1023>::default();

    buffer.set(b"abcd");
    buffer.keep(2);
    assert_eq!(buffer.as_slice(), b"ab");
    buffer.reset();

    buffer_impl_tests(buffer.view(), SIZE);
    buffer_impl_tests(buffer, SIZE);

    let mut buffer = StaticBuffer::<1023>::with(b"abcd");
    assert_eq!(buffer.as_slice(), b"abcd");
    buffer.as_slice_mut().copy_from_slice(b"1234");
    assert_eq!(buffer.as_slice(), b"1234");
}

#[test]
fn buffer_view_tests() {
    let mut buffer = [0; 256];
    let mut view = BufferView::with_prefix(&mut buffer, b"abcd");
    assert_eq!(view.as_slice(), b"abcd");
    view.as_slice_mut().copy_from_slice(b"1234");
    assert_eq!(view.as_slice(), b"1234");
    let mut view2 = view.view();
    view2.prefix(b"5678");
    assert_eq!(view.as_slice(), b"1234");
    assert_eq!(view.available(), 252);
}

#[test]
fn numbers_are_taken_least_significant_byte_first() {
    let mut buffer = OwnedBuffer::with(16, &[1, 2, 3, 4, 9]);
    assert_eq!(buffer.take_u32(), 0x0403_0201);
    assert_eq!(buffer.as_slice(), &[9]);
}

#[test]
fn test_io_type_display() {
    assert_eq!(IOType::Read.name(), "read");
    assert_eq!(IOType::Write.name(), "write");
    assert_eq!(IOType::Recv.name(), "recv");
    assert_eq!(IOType::Send.name(), "send");
    assert_eq!(IOType::Accept.name(), "accept");
    assert_eq!(IOType::Connect.name(), "connect");
    assert_eq!(IOType::Unknown.name(), "unknown");
    assert_eq!(IOType::Close.name(), "close");
    assert_eq!(IOType::FAdvise.name(), "fadvise");
    assert_eq!(IOType::FAllocate.name(), "fallocate");
    assert_eq!(IOType::Fsync.name(), "fsync");
    assert_eq!(IOType::Link.name(), "link");
    assert_eq!(IOType::MAdvise.name(), "madvise");
    assert_eq!(IOType::Mkdir.name(), "mkdir");
    assert_eq!(IOType::Open.name(), "open");
    assert_eq!(IOType::Rename.name(), "rename");
    assert_eq!(IOType::Shutdown.name(), "shutdown");
    assert_eq!(IOType::Stat.name(), "stat");
    assert_eq!(IOType::Symlink.name(), "symlink");
    assert_eq!(IOType::SyncFileRange.name(), "sync_file_range");
    assert_eq!(IOType::Unlink.name(), "unlink");
    assert_eq!(IOType::UringCmd.name(), "uring_cmd");
    assert_eq!(IOType::Socket.name(), "socket");
    assert_eq!(IOType::Nop.name(), "nop");
    assert_eq!(IOType::Timeout.name(), "timeout");
    assert_eq!(IOType::NvmeCmd.name(), "nvme_cmd");
}

#[test]
fn kinds_of_io_are_numbered_in_order() {
    assert_eq!(IOType::Read.code(), 0);
    assert_eq!(IOType::Accept.code(), 4);
    assert_eq!(IOType::Unknown.code(), 25);
}

#[test]
fn cells_are_changed_in_place() {
    let mut x = MutInPlaceCell::new(0i32);
    x.use_mut(|x| *x = 5);
    let y = x.use_mut(|x| *x + 1);
    assert_eq!(y, 6);
    let mut z = MutInPlaceCell::<Vec<u8>>::default();
    z.use_mut(|z| z.push(1));
    assert_eq!(z.use_mut(|z| z.len()), 1);
}

#[test]
fn changes_are_not_nested() {
    let mut check = RecursionCheck::new();
    assert!(!check.is_entered());
    let guard = check.enter();
    assert!(check.is_entered());
    check.leave(guard);
    assert!(!check.is_entered());
    let guard = check.enter();
    check.leave(guard);
}

#[test]
fn operations_are_submitted_once() {
    let mut future = UsizeFuture::<&str, u8>::new("read", None, 7);
    assert!(!future.is_terminated());
    assert!(!future.is_io_poll());
    match future.poll(1, 9) {
        RingPoll::Submit {
            entry,
            linked,
            entries,
            iopoll,
        } => {
            assert_eq!(entry, "read");
            assert!(!linked);
            assert_eq!(entries, 1);
            assert!(!iopoll);
        }
        other => panic!("{other:?}"),
    }
    assert!(future.pending_io_with_borrowed_resources());
    assert!(matches!(
        future.poll(2, 9),
        RingPoll::Pending { replaced: 1 }
    ));
    assert_eq!(future.complete(Ok(12), [0, 0]), 2);
    assert!(!future.pending_io_with_borrowed_resources());
    assert!(matches!(future.poll(3, 9), RingPoll::Ready(Ok(12))));
    assert!(future.is_terminated());
}

#[test]
fn timeouts_are_linked_to_operations() {
    let timeout = Duration::from_millis(1_250);
    assert_eq!(
        timespec_of(timeout),
        Timespec {
            sec: 1,
            nsec: 250_000_000
        }
    );
    let mut future =
        UnitFuture::<u8, u8>::with_polled(1, Some(timeout), 7, true, true);
    assert!(future.is_io_poll());
    match future.poll(1, 9) {
        RingPoll::Submit {
            linked, entries, ..
        } => {
            assert!(linked);
            assert_eq!(entries, 2);
        }
        other => panic!("{other:?}"),
    }
    assert!(!future.pending_io_with_borrowed_resources());
    future.complete(Err(Errno::time()), [0, 0]);
    match future.poll(1, 9) {
        RingPoll::Ready(result) => assert_eq!(result, Err(Errno::time())),
        other => panic!("{other:?}"),
    }
}

#[test]
fn canceled_operations_ask_the_kernel_once() {
    let mut idle = OwnedFdFuture::<u8, u8>::new(1, None, 7);
    assert!(!idle.cancel());
    match idle.poll(1, 9) {
        RingPoll::Ready(result) => assert_eq!(result, Err(Errno::canceled())),
        other => panic!("{other:?}"),
    }
    let mut submitted = OwnedFdFuture::<u8, u8>::new(1, None, 7);
    submitted.poll(1, 9);
    assert!(submitted.cancel());
    assert!(!submitted.cancel());
    submitted.complete(Ok(5), [0, 0]);
    match submitted.poll(1, 9) {
        RingPoll::Ready(result) => assert_eq!(result, Ok(5)),
        other => panic!("{other:?}"),
    }
    assert!(!submitted.cancel());
}

#[test]
fn commands_return_the_rest_of_the_entry() {
    let mut command = UringCmdFuture::<u8, u8>::new(1, None, 7);
    command.poll(1, 9);
    command.complete(Ok(0), [3, 4]);
    match command.poll(1, 9) {
        RingPoll::Ready(result) => assert_eq!(result, Ok([3, 4])),
        other => panic!("{other:?}"),
    }
}

#[test]
fn faults_are_injected_after_a_count() {
    let mut fault = Some((1, Errno::pipe()));
    assert_eq!(inject_fault(&mut fault), None);
    assert_eq!(inject_fault(&mut fault), Some(Errno::pipe()));
    assert_eq!(inject_fault(&mut fault), None);
    assert_eq!(fault, None);
}

fn io(id: u64, stage: IoStage) -> ScopedIo {
    ScopedIo { id, stage }
}

#[test]
fn operations_that_are_over_are_given_back() {
    let mut operations = vec![
        io(1, IoStage::Completed),
        io(2, IoStage::Idle),
        io(3, IoStage::Terminated),
        io(4, IoStage::Submitted),
    ];
    let returned = retain_incomplete(&mut operations);
    let mut kept: Vec<u64> = operations.iter().map(|io| io.id).collect();
    kept.sort();
    let mut given: Vec<u64> = returned.iter().map(|io| io.id).collect();
    given.sort();
    assert_eq!(kept, vec![2, 4]);
    assert_eq!(given, vec![1, 3]);
}

#[test]
fn canceling_a_scope_withdraws_what_was_not_submitted() {
    let mut gathered = IoScopeCompletions {
        completions: vec![
            io(1, IoStage::Idle),
            io(2, IoStage::Submitted),
            io(3, IoStage::Completed),
        ],
        waits: vec![8, 9],
    };
    let cancellation = begin_cancel(&mut gathered);
    assert_eq!(cancellation.remaining, vec![io(2, IoStage::Submitted)]);
    assert_eq!(cancellation.withdrawn, vec![io(1, IoStage::Idle)]);
    assert_eq!(cancellation.finished, vec![io(3, IoStage::Completed)]);
    assert_eq!(cancellation.waits, vec![8, 9]);
    assert!(gathered.completions.is_empty());
    assert!(gathered.waits.is_empty());
}

#[test]
fn scopes_are_left_when_their_io_is_over() {
    let mut scope = IoScope::<u8>::new();
    assert!(!scope.is_draining());
    let mut gathered = scope.resume().unwrap();
    gathered.completions.push(io(1, IoStage::Submitted));
    let (poll, cancellation) = scope.finish(ScopeOutcome::Value(6), gathered);
    assert!(matches!(poll, ScopePoll::Drain));
    assert_eq!(cancellation.remaining.len(), 1);
    assert!(scope.is_draining());
    assert!(matches!(scope.drain().0, ScopePoll::Drain));
    scope.settle(1);
    let (poll, returned) = scope.drain();
    assert!(matches!(poll, ScopePoll::Ready(6)));
    assert_eq!(returned, vec![io(1, IoStage::Completed)]);
}

#[test]
fn scopes_without_io_are_left_at_once() {
    let mut scope = IoScope::<u8>::new();
    let gathered = scope.resume().unwrap();
    scope.suspend(Some(gathered));
    let gathered = scope.resume().unwrap();
    let (poll, _) = scope.finish(ScopeOutcome::Value(6), gathered);
    assert!(matches!(poll, ScopePoll::Ready(6)));
}

#[test]
fn panics_are_resumed_after_the_io_is_over() {
    let payload = || PanicPayload {
        message: Some("deliberate".to_string()),
    };
    let mut scope = IoScope::<u8>::new();
    let mut gathered = scope.resume().unwrap();
    gathered.completions.push(io(1, IoStage::Submitted));
    scope.finish(ScopeOutcome::Panic(payload()), gathered);
    scope.settle(1);
    assert!(matches!(scope.drain().0, ScopePoll::Panic(_)));

    for panicking in [false, true] {
        let mut scope = IoScope::<u8>::new();
        let mut gathered = scope.resume().unwrap();
        gathered.completions.push(io(1, IoStage::Submitted));
        scope.finish(ScopeOutcome::Panic(payload()), gathered);
        assert!(scope.abandon().is_none());
        assert!(scope.must_block().0);
        scope.settle(1);
        assert!(!scope.must_block().0);
        assert_eq!(scope.leave(panicking).is_some(), !panicking);
    }
}

#[test]
fn abandoned_scopes_cancel_their_io() {
    let mut scope = IoScope::<u8>::new();
    let mut gathered = scope.resume().unwrap();
    gathered.completions.push(io(1, IoStage::Submitted));
    gathered.waits.push(5);
    scope.suspend(Some(gathered));
    let cancellation = scope.abandon().unwrap();
    assert_eq!(cancellation.waits, vec![5]);
    assert!(scope.must_block().0);
    scope.settle(1);
    assert!(!scope.must_block().0);
    assert!(scope.leave(false).is_none());
    assert!(IoScope::<u8>::new().abandon().is_none());
}
