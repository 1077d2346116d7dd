//! Locks, semaphores and cancellation.

use std::collections::HashSet;

use kimojio::async_lock::AsyncLock;
use kimojio::async_lock::AsyncLockRef;
use kimojio::async_lock::LockStep;
use kimojio::async_reader_writer_lock::AsyncReaderWriterLock;
use kimojio::async_reader_writer_lock::ReadRef;
use kimojio::async_reader_writer_lock::ReadStep;
use kimojio::async_reader_writer_lock::WriteRef;
use kimojio::async_reader_writer_lock::WriteStep;
use kimojio::async_semaphore::AcquireStep;
use kimojio::async_semaphore::AsyncSemaphore;
use kimojio::cancellation_token::CancellationToken;
use kimojio::configuration::BusyPoll;
use kimojio::configuration::Configuration;
use kimojio::errno::Errno;
use kimojio::errno::ECANCELED;
use kimojio::errors::errno_from_task_handle_result;
use kimojio::errors::CanceledError;
use kimojio::errors::PanicPayload;
use kimojio::errors::TaskHandleError;
use kimojio::errors::TimeoutError;
use kimojio::event::Wake;
use kimojio::time::Duration;
use kimojio::time::Instant;

fn lock<T>(lock: &mut AsyncLock<T>) -> Option<AsyncLockRef<T>> {
    match lock.lock(Ok(())) {
        LockStep::Locked(guard) => Some(guard),
        LockStep::Wait => None,
        LockStep::Canceled(_) => panic!("the wait was canceled"),
    }
}

fn lock_read<T>(lock: &mut AsyncReaderWriterLock<T>) -> Option<ReadRef<T>> {
    match lock.lock_read(Ok(())) {
        ReadStep::Locked(guard) => Some(guard),
        ReadStep::Wait => None,
        ReadStep::Canceled(_) => panic!("the wait was canceled"),
    }
}

fn locked<T>(step: WriteStep<T>) -> Option<WriteRef<T>> {
    match step {
        WriteStep::Locked(guard) => Some(guard),
        WriteStep::Wait => None,
        WriteStep::Canceled(_) => panic!("the wait was canceled"),
    }
}

fn lock_write<T>(lock: &mut AsyncReaderWriterLock<T>) -> Option<WriteRef<T>> {
    locked(lock.lock_write(Ok(())))
}

#[test]
fn async_lock_test() {
    let mut l: AsyncLock<usize> = Default::default();
    let mut l_ref = lock(&mut l).unwrap();
    for _ in 0..100 {
        assert!(lock(&mut l).is_none());
    }
    *l_ref.deref_mut(&mut l) = 100;
    assert_eq!(l_ref.unlock(&mut l), Wake::One);

    let mut other = lock(&mut l).unwrap();
    *other.deref_mut(&mut l) += 1;
    other.unlock(&mut l);

    let guard = lock(&mut l).unwrap();
    assert_eq!(*guard.deref(&l), 101);
}

#[test]
fn async_timeout_test() {
    let mut l = AsyncLock::new(0);
    let now = Instant::origin();
    let deadline = l.lock_with_timeout(now, Some(Duration::from_millis(1)));
    assert_eq!(deadline, now.checked_add(Duration::from_millis(1)));
    let guard = lock(&mut l).unwrap();
    let wait = l.lock_with_deadline(Err(TimeoutError::Timeout));
    assert!(matches!(wait, Err(TimeoutError::Timeout)));
    guard.unlock(&mut l);
    let wait = match l.lock_with_deadline(Ok(())) {
        Ok(guard) => guard,
        Err(_) => panic!("the lock is free"),
    };
    assert_eq!(*wait.deref(&l), 0);
}

#[test]
fn lock_from_parallel_futures() {
    let mut l = AsyncLock::new(0);
    let mut first = lock(&mut l).unwrap();
    assert!(lock(&mut l).is_none());
    *first.deref_mut(&mut l) += 2;
    first.unlock(&mut l);
    let mut second = lock(&mut l).unwrap();
    *second.deref_mut(&mut l) += 1;
    second.unlock(&mut l);
    let guard = lock(&mut l).unwrap();
    assert_eq!(*guard.deref(&l), 3);
}

#[test]
fn locks_without_waiting() {
    let mut l = AsyncLock::new(1);
    let guard = l.try_lock().unwrap();
    assert!(l.try_lock().is_none());
    guard.unlock(&mut l);
    assert!(matches!(
        l.lock(Err(CanceledError {})),
        LockStep::Canceled(_)
    ));
    assert!(l.try_lock().is_some());
}

#[test]
fn readers_block_writer_test() {
    let mut l = AsyncReaderWriterLock::new(0i32);
    let reader = lock_read(&mut l).unwrap();
    assert!(lock_write(&mut l).is_none());

    assert_eq!(*reader.deref(&l), 0);
    {
        let nested = lock_read(&mut l).unwrap();
        assert_eq!(*nested.deref(&l), 0);
        nested.unlock(&mut l);
    }
    assert!(lock_write(&mut l).is_none());
    reader.unlock(&mut l);
    let mut writer = lock_write(&mut l).unwrap();
    *writer.deref_mut(&mut l) = 5;
    writer.unlock(&mut l, false);

    let reader = lock_read(&mut l).unwrap();
    assert_eq!(*reader.deref(&l), 5);
}

#[test]
fn writer_blocks_readers_test() {
    let mut l = AsyncReaderWriterLock::new(0i32);
    let writer = lock_write(&mut l).unwrap();
    for _ in 0..4 {
        assert!(lock_read(&mut l).is_none());
    }
    writer.unlock(&mut l, false);

    let mut readers = Vec::new();
    for _ in 0..4 {
        readers.push(lock_read(&mut l).unwrap());
    }
    assert_eq!(readers.len(), 4);
}

#[test]
fn writer_blocks_writer_test() {
    let mut l: AsyncReaderWriterLock<i32> = Default::default();
    let mut writer = lock_write(&mut l).unwrap();
    *writer.deref_mut(&mut l) = 4;
    assert!(lock_write(&mut l).is_none());
    assert_eq!(*writer.deref(&l), 4);
    writer.unlock(&mut l, true);

    let mut writer = lock_write(&mut l).unwrap();
    *writer.deref_mut(&mut l) = 5;
    writer.unlock(&mut l, false);

    let reader = lock_read(&mut l).unwrap();
    assert_eq!(*reader.deref(&l), 5);
}

#[test]
fn simple_upgrade() {
    let mut l = AsyncReaderWriterLock::new(0i32);
    let read = lock_read(&mut l).unwrap();
    let mut write = locked(read.upgrade(&mut l)).unwrap();
    *write.deref_mut(&mut l) = 5;
    write.unlock(&mut l, false);

    let reader = lock_read(&mut l).unwrap();
    assert_eq!(*reader.deref(&l), 5);
}

#[test]
fn many_readers_can_upgrade() {
    let mut l = AsyncReaderWriterLock::new(HashSet::new());
    let mut indices = HashSet::new();
    let mut readers = Vec::new();
    for index in 0..10 {
        indices.insert(index);
        readers.push((index, lock_read(&mut l).unwrap()));
    }
    let mut waiting = Vec::new();
    for (index, reader) in readers {
        match locked(reader.upgrade(&mut l)) {
            Some(mut writer) => {
                writer.deref_mut(&mut l).insert(index);
                writer.unlock(&mut l, !waiting.is_empty());
            }
            None => waiting.push(index),
        }
    }
    assert_eq!(waiting.len(), 9);
    for index in waiting {
        let mut writer = lock_write(&mut l).unwrap();
        writer.deref_mut(&mut l).insert(index);
        writer.unlock(&mut l, true);
    }
    let results = lock_read(&mut l).unwrap();
    assert_eq!(results.deref(&l), &indices);
}

#[test]
fn semaphore_test() {
    let mut semaphore = AsyncSemaphore::new(3);
    let mut counter = 0i32;
    for _ in 0..4 {
        match semaphore.acquire(Ok(())) {
            AcquireStep::Acquired => counter += 1,
            AcquireStep::Wait => {}
            AcquireStep::Canceled => panic!("nobody cancels"),
        }
    }
    assert_eq!(counter, 3);
    assert!(!semaphore.is_available());
    assert_eq!(semaphore.release(), Wake::One);
    assert_eq!(semaphore.acquire(Ok(())), AcquireStep::Acquired);
    counter += 1;
    assert_eq!(counter, 4);
    assert_eq!(
        semaphore.acquire(Err(CanceledError {})),
        AcquireStep::Canceled
    );
}

#[test]
fn test_cancellation_token() {
    let mut token = CancellationToken::new();
    assert!(!token.is_cancelled());
    token.cancel();
    assert!(token.is_cancelled());

    let mut token = CancellationToken::new();
    assert!(!token.cancelled());
    assert!(!token.is_cancelled());
    assert_eq!(token.cancel(), Wake::Everyone);
    assert!(token.cancelled());
    assert!(token.is_cancelled());
}

#[test]
fn test_cancel_select() {
    let mut token = CancellationToken::new();
    let result = if token.cancelled() {
        "cancelled"
    } else {
        "not cancelled"
    };
    assert_eq!("not cancelled", result);

    token.cancel();

    let result = if token.cancelled() {
        "cancelled"
    } else {
        "not cancelled"
    };
    assert_eq!("cancelled", result);
}

#[test]
fn configuration_default_test() {
    let config = Configuration::<(), ()>::new();
    assert_eq!(config.busy_poll, BusyPoll::Never);
    assert!(config.trace_buffer_manager.is_none());
}

#[test]
fn configuration_keeps_what_was_set() {
    let config = Configuration::<u8, u16>::default()
        .set_busy_poll(BusyPoll::from(Some(Duration::from_secs(2))))
        .set_trace_buffer_manager(3)
        .set_clock(4);
    assert_eq!(config.busy_poll, BusyPoll::Until(Duration::from_secs(2)));
    assert_eq!(config.trace_buffer_manager, Some(3));
    assert_eq!(config.clock, Some(4));
}

#[test]
fn task_results_are_flattened() {
    let fine: Result<Result<u8, Errno>, TaskHandleError> = Ok(Ok(1));
    assert_eq!(errno_from_task_handle_result(fine), Ok(1));
    let failed: Result<Result<u8, Errno>, TaskHandleError> = Ok(Err(Errno::pipe()));
    assert_eq!(errno_from_task_handle_result(failed), Err(Errno::pipe()));
    let canceled: Result<Result<u8, Errno>, TaskHandleError> = Err(TaskHandleError::Canceled);
    assert_eq!(
        errno_from_task_handle_result(canceled).map_err(|error| error.raw_os_error()),
        Err(ECANCELED)
    );
    let panicked = TaskHandleError::Panic(PanicPayload { message: None });
    assert_eq!(panicked.debug_text(), "TaskHandleError::Panic");
}
