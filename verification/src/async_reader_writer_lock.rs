//! A lock that many readers or one writer may hold.

use std::marker::PhantomData;

use vstd::prelude::*;

use crate::errors::CanceledError;
use crate::event::Wake;

verus! {

/// The state of a reader-writer lock.
pub struct ReaderWriterView<T> {
    /// The protected value.
    pub data: T,
    /// How many readers hold the lock.
    pub readers: nat,
    /// Whether a writer holds the lock.
    pub writer: bool,
}

/// What releasing a lock does to waiting readers and writers.
#[derive(Clone, Copy, Debug, PartialEq, Eq, Structural)]
pub struct ReleaseWake {
    /// Which waiting writers are woken.
    pub writers: Wake,
    /// Which waiting readers are woken.
    pub readers: Wake,
}

/// A value that many readers or one writer may hold.
pub struct AsyncReaderWriterLock<T> {
    data: T,
    readers: usize,
    writer: bool,
    read_ready: bool,
    write_ready: bool,
}

/// The right to change the value. A lock gives out one, and only while there
/// is no reader.
pub struct WriteRef<T> {
    data: PhantomData<T>,
}

/// The right to read the value. A lock gives out any number, and only while
/// there is no writer.
pub struct ReadRef<T> {
    data: PhantomData<T>,
}

/// One turn of a write request.
pub enum WriteStep<T> {
    /// The lock is held for writing.
    Locked(WriteRef<T>),
    /// The task waits until writers are called, then takes another turn.
    Wait,
    /// The wait before this turn was canceled.
    Canceled(CanceledError),
}

/// One turn of a read request.
pub enum ReadStep<T> {
    /// The lock is held for reading.
    Locked(ReadRef<T>),
    /// The task waits until readers are called, then takes another turn.
    Wait,
    /// The wait before this turn was canceled.
    Canceled(CanceledError),
}

impl<T> View for AsyncReaderWriterLock<T> {
    type V = ReaderWriterView<T>;

    closed spec fn view(&self) -> ReaderWriterView<T> {
        ReaderWriterView { data: self.data, readers: self.readers as nat, writer: self.writer }
    }
}

impl<T> ReaderWriterView<T> {
    /// A writer excludes readers.
    pub open spec fn valid(self) -> bool {
        self.writer ==> self.readers == 0
    }

    /// Whether a request to read succeeds.
    pub open spec fn admits_reader(self) -> bool {
        !self.writer
    }

    /// Whether a request to write succeeds.
    pub open spec fn admits_writer(self) -> bool {
        self.readers == 0 && !self.writer
    }

    /// The lock with a writer.
    pub open spec fn taken_by_writer(self) -> ReaderWriterView<T> {
        ReaderWriterView { writer: true, ..self }
    }

    /// The lock with one more reader.
    pub open spec fn taken_by_reader(self) -> ReaderWriterView<T> {
        ReaderWriterView { readers: self.readers + 1, ..self }
    }

    /// The lock without its writer.
    pub open spec fn left_by_writer(self) -> ReaderWriterView<T> {
        ReaderWriterView { writer: false, ..self }
    }

    /// The lock with one reader less.
    pub open spec fn left_by_reader(self) -> ReaderWriterView<T> {
        ReaderWriterView { readers: (self.readers - 1) as nat, ..self }
    }

    /// The lock after a reader gave its place up to become a writer, which it
    /// is at once when it was the only one.
    pub open spec fn upgraded(self) -> ReaderWriterView<T> {
        ReaderWriterView {
            readers: (self.readers - 1) as nat,
            writer: self.readers == 1,
            ..self
        }
    }
}

impl<T> AsyncReaderWriterLock<T> {
    /// A writer excludes readers.
    pub open spec fn valid(&self) -> bool {
        self@.valid()
    }

    /// Whether a wait to read is over.
    pub closed spec fn calls_readers(&self) -> bool {
        self.read_ready
    }

    /// Whether a wait to write is over.
    pub closed spec fn calls_writers(&self) -> bool {
        self.write_ready
    }

    /// Creates a lock that nobody holds.
    pub fn new(value: T) -> (lock: AsyncReaderWriterLock<T>)
        ensures
            lock.valid(),
            lock@ == (ReaderWriterView { data: value, readers: 0, writer: false }),
            lock.calls_readers(),
            lock.calls_writers(),
    {
        AsyncReaderWriterLock {
            data: value,
            readers: 0,
            writer: false,
            read_ready: true,
            write_ready: true,
        }
    }

    /// Takes one turn of a write request, which waits while there is a reader
    /// or a writer. `waited` says how the wait before this turn ended; the
    /// first turn follows no wait and is given `Ok`.
    pub fn lock_write(&mut self, waited: Result<(), CanceledError>) -> (step: WriteStep<T>)
        requires
            old(self).valid(),
        ensures
            final(self).valid(),
            match waited {
                Err(error) => step == WriteStep::<T>::Canceled(error),
                Ok(()) => {
                    &&& step is Locked == old(self)@.admits_writer()
                    &&& step is Wait == !old(self)@.admits_writer()
                },
            },
            step is Locked ==> {
                &&& final(self)@ == old(self)@.taken_by_writer()
                &&& !final(self).calls_readers()
                &&& !final(self).calls_writers()
            },
            !(step is Locked) ==> *final(self) == *old(self),
    {
        if let Err(error) = waited {
            return WriteStep::Canceled(error);
        }
        if self.readers > 0 || self.writer {
            return WriteStep::Wait;
        }
        self.writer = true;
        self.write_ready = false;
        self.read_ready = false;
        WriteStep::Locked(WriteRef { data: PhantomData })
    }

    /// Takes one turn of a read request, which waits while there is a writer.
    pub fn lock_read(&mut self, waited: Result<(), CanceledError>) -> (step: ReadStep<T>)
        requires
            old(self).valid(),
            old(self)@.readers < usize::MAX,
        ensures
            final(self).valid(),
            match waited {
                Err(error) => step == ReadStep::<T>::Canceled(error),
                Ok(()) => {
                    &&& step is Locked == old(self)@.admits_reader()
                    &&& step is Wait == !old(self)@.admits_reader()
                },
            },
            step is Locked ==> {
                &&& final(self)@ == old(self)@.taken_by_reader()
                &&& final(self).calls_readers() == old(self).calls_readers()
                &&& !final(self).calls_writers()
            },
            !(step is Locked) ==> *final(self) == *old(self),
    {
        if let Err(error) = waited {
            return ReadStep::Canceled(error);
        }
        if self.writer {
            return ReadStep::Wait;
        }
        self.readers = self.readers + 1;
        self.write_ready = false;
        ReadStep::Locked(ReadRef { data: PhantomData })
    }
}

impl<T> WriteRef<T> {
    /// Reads the protected value.
    pub fn deref<'a>(&self, lock: &'a AsyncReaderWriterLock<T>) -> (value: &'a T)
        requires
            lock@.writer,
        ensures
            *value == lock@.data,
    {
        &lock.data
    }

    /// Gives access to the protected value.
    pub fn deref_mut<'a>(&mut self, lock: &'a mut AsyncReaderWriterLock<T>) -> (value: &'a mut T)
        requires
            old(lock)@.writer,
            old(lock).valid(),
        ensures
            *value == old(lock)@.data,
            final(lock)@ == (ReaderWriterView { data: *final(value), ..old(lock)@ }),
            final(lock).calls_readers() == old(lock).calls_readers(),
            final(lock).calls_writers() == old(lock).calls_writers(),
    {
        &mut lock.data
    }

    /// Gives the lock back. One waiting writer is woken when there is one,
    /// which then competes with later readers; otherwise every waiting task is
    /// woken.
    pub fn unlock(self, lock: &mut AsyncReaderWriterLock<T>, writer_waits: bool) -> (wake:
        ReleaseWake)
        requires
            old(lock)@.writer,
            old(lock).valid(),
        ensures
            final(lock).valid(),
            final(lock)@ == old(lock)@.left_by_writer(),
            final(lock).calls_readers(),
            final(lock).calls_writers(),
            wake == if writer_waits {
                ReleaseWake { writers: Wake::One, readers: Wake::Nobody }
            } else {
                ReleaseWake { writers: Wake::Everyone, readers: Wake::Everyone }
            },
    {
        lock.writer = false;
        lock.write_ready = true;
        lock.read_ready = true;
        if writer_waits {
            ReleaseWake { writers: Wake::One, readers: Wake::Nobody }
        } else {
            ReleaseWake { writers: Wake::Everyone, readers: Wake::Everyone }
        }
    }
}

impl<T> ReadRef<T> {
    /// Reads the protected value.
    pub fn deref<'a>(&self, lock: &'a AsyncReaderWriterLock<T>) -> (value: &'a T)
        requires
            lock@.readers > 0,
        ensures
            *value == lock@.data,
    {
        &lock.data
    }

    /// Gives the read lock up and takes the first turn of a write request,
    /// which later turns of [`AsyncReaderWriterLock::lock_write`] continue.
    pub fn upgrade(self, lock: &mut AsyncReaderWriterLock<T>) -> (step: WriteStep<T>)
        requires
            old(lock)@.readers > 0,
            old(lock).valid(),
        ensures
            final(lock).valid(),
            step is Locked == (old(lock)@.readers == 1),
            step is Wait == (old(lock)@.readers > 1),
            final(lock)@ == old(lock)@.upgraded(),
            final(lock).calls_readers() == (old(lock).calls_readers() && step is Wait),
            final(lock).calls_writers() == (old(lock).calls_writers() && step is Wait),
    {
        lock.readers = lock.readers - 1;
        lock.lock_write(Ok(()))
    }

    /// Gives the lock back. The last reader wakes every waiting writer.
    pub fn unlock(self, lock: &mut AsyncReaderWriterLock<T>) -> (wake: Wake)
        requires
            old(lock)@.readers > 0,
            old(lock).valid(),
        ensures
            final(lock).valid(),
            final(lock)@ == old(lock)@.left_by_reader(),
            final(lock).calls_readers() == old(lock).calls_readers(),
            final(lock).calls_writers() == (old(lock)@.readers == 1 || old(lock).calls_writers()),
            wake == if old(lock)@.readers == 1 {
                Wake::Everyone
            } else {
                Wake::Nobody
            },
    {
        lock.readers = lock.readers - 1;
        if lock.readers == 0 {
            lock.write_ready = true;
            Wake::Everyone
        } else {
            Wake::Nobody
        }
    }
}

impl<T: Default> Default for AsyncReaderWriterLock<T> {
    fn default() -> (lock: AsyncReaderWriterLock<T>)
        ensures
            lock.valid(),
            lock@.readers == 0,
            !lock@.writer,
            call_ensures(T::default, (), lock@.data),
    {
        AsyncReaderWriterLock::new(T::default())
    }
}

/// A writer is alone: while there is one neither a reader nor another writer
/// is admitted, and it is admitted only where there is neither.
pub proof fn writers_are_alone<T>(lock: ReaderWriterView<T>)
    requires
        lock.valid(),
    ensures
        lock.writer ==> !lock.admits_reader() && !lock.admits_writer() && lock.readers == 0,
        lock.admits_writer() ==> lock.admits_reader() && lock.readers == 0,
        lock.admits_writer() ==> lock.taken_by_writer().valid(),
{
}

/// Readers share: one more is admitted while there are others, and as long as
/// there is one no writer is.
pub proof fn readers_share<T>(lock: ReaderWriterView<T>)
    requires
        lock.valid(),
        lock.readers > 0,
    ensures
        lock.admits_reader(),
        !lock.admits_writer(),
        lock.taken_by_reader().valid(),
{
}

/// What happens to a lock.
pub enum LockEvent {
    /// A task tries to take it for writing.
    Write,
    /// A task tries to take it for reading.
    Read,
    /// The writer gives it back.
    WriterLeaves,
    /// A reader gives it back.
    ReaderLeaves,
    /// A reader gives it back and tries to take it for writing.
    Upgrade,
}

/// A lock with its guards.
pub struct Guarded<T> {
    /// The lock.
    pub lock: ReaderWriterView<T>,
    /// How many tasks have the right to change the value.
    pub write_refs: int,
    /// How many tasks have the right to read the value.
    pub read_refs: int,
}

/// A lock with its guards after some events, starting from a lock that nobody
/// holds.
pub open spec fn after_events<T>(value: T, events: Seq<LockEvent>) -> Guarded<T>
    decreases events.len(),
{
    if events.len() == 0 {
        Guarded {
            lock: ReaderWriterView { data: value, readers: 0, writer: false },
            write_refs: 0,
            read_refs: 0,
        }
    } else {
        let before = after_events(value, events.drop_last());
        let lock = before.lock;
        match events.last() {
            LockEvent::Write => if lock.admits_writer() {
                Guarded {
                    lock: lock.taken_by_writer(),
                    write_refs: before.write_refs + 1,
                    ..before
                }
            } else {
                before
            },
            LockEvent::Read => if lock.admits_reader() {
                Guarded { lock: lock.taken_by_reader(), read_refs: before.read_refs + 1, ..before }
            } else {
                before
            },
            LockEvent::WriterLeaves => Guarded {
                lock: lock.left_by_writer(),
                write_refs: before.write_refs - 1,
                ..before
            },
            LockEvent::ReaderLeaves => Guarded {
                lock: lock.left_by_reader(),
                read_refs: before.read_refs - 1,
                ..before
            },
            LockEvent::Upgrade => Guarded {
                lock: lock.upgraded(),
                write_refs: if lock.readers == 1 {
                    before.write_refs + 1
                } else {
                    before.write_refs
                },
                read_refs: before.read_refs - 1,
            },
        }
    }
}

/// Whether only tasks with a guard gave it up.
pub open spec fn given_up_by_holders<T>(value: T, events: Seq<LockEvent>) -> bool {
    forall|i: int|
        #![trigger events[i]]
        0 <= i < events.len() ==> {
            let before = after_events(value, events.take(i));
            match events[i] {
                LockEvent::WriterLeaves => before.write_refs > 0,
                LockEvent::ReaderLeaves => before.read_refs > 0,
                LockEvent::Upgrade => before.read_refs > 0,
                _ => true,
            }
        }
}

/// At any time there is at most one task that may change the value, and then
/// none that may read it, whatever tasks did to the lock.
pub proof fn one_writer_or_readers<T>(value: T, events: Seq<LockEvent>)
    requires
        given_up_by_holders(value, events),
    ensures
        ({
            let after = after_events(value, events);
            &&& after.lock.valid()
            &&& 0 <= after.write_refs <= 1
            &&& after.read_refs >= 0
            &&& after.write_refs == 1 ==> after.read_refs == 0
            &&& after.write_refs == 1 <==> after.lock.writer
            &&& after.read_refs == after.lock.readers
        }),
    decreases events.len(),
{
    if events.len() > 0 {
        let before = events.drop_last();
        assert forall|i: int| #![trigger before[i]] 0 <= i < before.len() implies {
            let earlier = after_events(value, before.take(i));
            match before[i] {
                LockEvent::WriterLeaves => earlier.write_refs > 0,
                LockEvent::ReaderLeaves => earlier.read_refs > 0,
                LockEvent::Upgrade => earlier.read_refs > 0,
                _ => true,
            }
        } by {
            assert(events[i] == before[i]);
            assert(before.take(i) =~= events.take(i));
        }
        one_writer_or_readers(value, before);
        assert(events[events.len() - 1] == events.last());
        assert(events.take(events.len() - 1) =~= before);
    }
}

/// Many readers share a lock, a writer has it alone, and each gets it only where
/// the others leave room. A request that is not granted changes nothing.
pub proof fn lock_requests_are_granted_where_there_is_room<T>(
    reading: &mut AsyncReaderWriterLock<T>,
    writing: &mut AsyncReaderWriterLock<T>,
    unread: &mut AsyncReaderWriterLock<T>,
    unwritten: &mut AsyncReaderWriterLock<T>,
    cause: CanceledError,
    reads: (ReadStep<T>, ReadStep<T>),
    writes: (WriteStep<T>, WriteStep<T>),
    value: T,
    made: AsyncReaderWriterLock<T>,
)
    requires
        call_ensures(AsyncReaderWriterLock::<T>::new, (value,), made),
        call_ensures(AsyncReaderWriterLock::<T>::lock_read, (reading, Ok(())), reads.0),
        call_ensures(AsyncReaderWriterLock::<T>::lock_write, (writing, Ok(())), writes.0),
        call_ensures(AsyncReaderWriterLock::<T>::lock_read, (unread, Err(cause)), reads.1),
        call_ensures(AsyncReaderWriterLock::<T>::lock_write, (unwritten, Err(cause)), writes.1),
    ensures
        made@.data == value && made@.readers == 0 && !made@.writer,
        reads.0 is Locked <==> !old(reading)@.writer,
        reads.0 is Wait <==> old(reading)@.writer,
        reads.0 is Locked ==> final(reading)@.readers == old(reading)@.readers + 1,
        reads.0 is Wait ==> *final(reading) == *old(reading),
        final(reading)@.data == old(reading)@.data && final(reading)@.writer == old(reading)@.writer,
        writes.0 is Locked <==> old(writing)@.readers == 0 && !old(writing)@.writer,
        writes.0 is Wait <==> old(writing)@.readers > 0 || old(writing)@.writer,
        writes.0 is Locked ==> final(writing)@.writer,
        writes.0 is Wait ==> *final(writing) == *old(writing),
        final(writing)@.data == old(writing)@.data && final(writing)@.readers == old(writing)@.readers,
        reads.1 == ReadStep::<T>::Canceled(cause) && *final(unread) == *old(unread),
        writes.1 == WriteStep::<T>::Canceled(cause) && *final(unwritten) == *old(unwritten),
{
}

/// Giving a lock back undoes taking it, and calls those that wait when there is
/// room for them.
pub proof fn released_locks_make_room<T>(
    read: &mut AsyncReaderWriterLock<T>,
    unread: &mut AsyncReaderWriterLock<T>,
    written: &mut AsyncReaderWriterLock<T>,
    unwritten: &mut AsyncReaderWriterLock<T>,
    reads: ReadStep<T>,
    writes: WriteStep<T>,
    reader: ReadRef<T>,
    writer: WriteRef<T>,
    writer_waits: bool,
    wakes: (Wake, ReleaseWake),
)
    requires
        call_ensures(AsyncReaderWriterLock::<T>::lock_read, (read, Ok(())), reads),
        reads is Locked,
        *old(unread) == *final(read),
        call_ensures(ReadRef::<T>::unlock, (reader, unread), wakes.0),
        call_ensures(AsyncReaderWriterLock::<T>::lock_write, (written, Ok(())), writes),
        writes is Locked,
        *old(unwritten) == *final(written),
        call_ensures(WriteRef::<T>::unlock, (writer, unwritten, writer_waits), wakes.1),
    ensures
        final(unread)@ == old(read)@,
        final(unwritten)@ == old(written)@,
        wakes.0 == Wake::Everyone <==> old(read)@.readers == 0,
        wakes.0 == Wake::Nobody <==> old(read)@.readers > 0,
        old(read)@.readers == 0 ==> final(unread).calls_writers(),
        final(unwritten).calls_readers() && final(unwritten).calls_writers(),
        writer_waits ==> wakes.1.writers == Wake::One && wakes.1.readers == Wake::Nobody,
        !writer_waits ==> wakes.1.writers == Wake::Everyone && wakes.1.readers == Wake::Everyone,
{
}

/// The only reader of a lock becomes its writer at once; with others it gives its
/// place up and waits.
pub proof fn readers_become_writers_when_alone<T>(
    lock: &mut AsyncReaderWriterLock<T>,
    reader: ReadRef<T>,
    step: WriteStep<T>,
)
    requires
        call_ensures(ReadRef::<T>::upgrade, (reader, lock), step),
        old(lock)@.readers > 0,
        old(lock)@.valid(),
    ensures
        step is Locked || step is Wait,
        step is Locked <==> old(lock)@.readers == 1,
        step is Locked <==> final(lock)@.writer,
        final(lock)@.readers + 1 == old(lock)@.readers,
        final(lock)@.data == old(lock)@.data,
{
}

/// What a writer leaves is what readers see.
pub proof fn readers_see_what_was_written<T>(
    writer: &mut WriteRef<T>,
    reader: &ReadRef<T>,
    lock: &mut AsyncReaderWriterLock<T>,
    later: &AsyncReaderWriterLock<T>,
    written: &mut T,
    read: (&T, &T),
)
    requires
        call_ensures(WriteRef::<T>::deref_mut, (writer, lock), written),
        call_ensures(WriteRef::<T>::deref, (&*final(writer), final(lock)), read.0),
        later@.data == final(lock)@.data,
        call_ensures(ReadRef::<T>::deref, (reader, later), read.1),
    ensures
        *old(written) == old(lock)@.data,
        *read.0 == *final(written) && *read.1 == *final(written),
        final(lock)@.writer == old(lock)@.writer && final(lock)@.readers == old(lock)@.readers,
{
}

} // verus!
