//! The bounded input buffer of a connection.

use vstd::prelude::*;

use crate::web::error::Error;
use crate::web::error::ErrorView;

verus! {

/// What an input buffer holds.
#[verifier::ext_equal]
pub struct ReadBufferView {
    /// The bytes that were received and not yet consumed.
    pub unread: Seq<u8>,
    /// The room behind them, where the next bytes go.
    pub spare: Seq<u8>,
    /// How many bytes the buffer can hold.
    pub capacity: nat,
}

/// The bounded input buffer of a connection.
pub struct ReadBuffer {
    bytes: Vec<u8>,
    start: usize,
    end: usize,
}

impl View for ReadBuffer {
    type V = ReadBufferView;

    closed spec fn view(&self) -> ReadBufferView {
        ReadBufferView {
            unread: self.bytes@.subrange(self.start as int, self.end as int),
            spare: self.bytes@.skip(self.end as int),
            capacity: self.bytes@.len(),
        }
    }
}

impl ReadBuffer {
    /// The unread bytes lie inside the buffer.
    pub closed spec fn valid(&self) -> bool {
        self.start <= self.end <= self.bytes@.len() && self.bytes@.len() > 0
    }

    /// Creates an empty buffer of `limit` bytes.
    pub fn new(limit: usize) -> (buffer: Result<ReadBuffer, Error>)
        ensures
            match buffer {
                Ok(buffer) => {
                    &&& limit > 0
                    &&& buffer.valid()
                    &&& buffer@.unread.len() == 0
                    &&& buffer@.capacity == limit
                    &&& buffer@.spare.len() == limit
                },
                Err(error) => limit == 0 && error@ == ErrorView::InvalidConfiguration(
                    "read buffer size must be greater than zero"@,
                ),
            },
    {
        if limit == 0 {
            return Err(Error::InvalidConfiguration("read buffer size must be greater than zero"));
        }
        Ok(ReadBuffer { bytes: vec![0u8; limit], start: 0, end: 0 })
    }

    /// The bytes that were received and not yet consumed.
    pub fn available(&self) -> (bytes: &[u8])
        requires
            self.valid(),
        ensures
            bytes@ == self@.unread,
    {
        vstd::slice::slice_subrange(self.bytes.as_slice(), self.start, self.end)
    }

    /// Drops `amount` bytes from the front of the unread ones.
    pub fn consume(&mut self, amount: usize)
        requires
            old(self).valid(),
            amount <= old(self)@.unread.len(),
        ensures
            final(self).valid(),
            final(self)@.unread == old(self)@.unread.skip(amount as int),
            final(self)@.capacity == old(self)@.capacity,
    {
        self.start = self.start + amount;
        if self.start == self.end {
            self.start = 0;
            self.end = 0;
        }
        assert(self@.unread =~= old(self)@.unread.skip(amount as int));
    }

    /// Moves the unread bytes to the front when they reach the end of the
    /// buffer.
    fn compact(&mut self)
        requires
            old(self).valid(),
        ensures
            final(self).valid(),
            final(self)@.unread == old(self)@.unread,
            final(self)@.capacity == old(self)@.capacity,
            final(self).end == final(self).bytes@.len() ==> final(self).start == 0,
    {
        if self.end == self.bytes.len() && self.start != 0 {
            let count: usize = self.end - self.start;
            let start: usize = self.start;
            let mut index: usize = 0;
            let ghost before = self.bytes@;
            while index < count
                invariant
                    start > 0,
                    start + count == before.len(),
                    self.bytes@.len() == before.len(),
                    index <= count,
                    forall|i: int| 0 <= i < index ==> self.bytes@[i] == before[start + i],
                    forall|i: int| index <= i < before.len() ==> self.bytes@[i] == before[i],
                    self.start == start,
                    self.end == start + count,
                decreases count - index,
            {
                let byte: u8 = self.bytes[start + index];
                self.bytes.set(index, byte);
                index = index + 1;
            }
            self.start = 0;
            self.end = count;
            assert(self@.unread =~= old(self)@.unread);
        }
    }

    /// The room for the next bytes, which is never empty. A buffer that holds
    /// nothing but unread bytes has none. Whatever is written to the room, the
    /// unread bytes stay.
    pub fn spare_mut(&mut self) -> (spare: Result<&mut [u8], Error>)
        requires
            old(self).valid(),
        ensures
            match spare {
                Ok(spare) => {
                    &&& old(self)@.unread.len() < old(self)@.capacity
                    &&& spare@.len() > 0
                    &&& final(spare)@.len() == spare@.len() ==> {
                        &&& final(self).valid()
                        &&& final(self)@ == (ReadBufferView {
                            unread: old(self)@.unread,
                            spare: final(spare)@,
                            capacity: old(self)@.capacity,
                        })
                    }
                },
                Err(error) => {
                    &&& final(self).valid()
                    &&& final(self)@.unread == old(self)@.unread
                    &&& final(self)@.capacity == old(self)@.capacity
                    &&& old(self)@.unread.len() == old(self)@.capacity
                    &&& error@ == ErrorView::InputBufferFull {
                        limit: old(self)@.capacity as usize,
                    }
                },
            },
    {
        self.compact();
        if self.end == self.bytes.len() {
            return Err(Error::InputBufferFull { limit: self.bytes.len() });
        }
        let end: usize = self.end;
        let ghost before = self.bytes@;
        let (used, spare) = self.bytes.as_mut_slice().split_at_mut(end);
        assert(used@ == before.subrange(0, end as int));
        Ok(spare)
    }

    /// Makes the first `amount` bytes of the spare room unread ones.
    pub fn commit_read(&mut self, amount: usize)
        requires
            old(self).valid(),
            amount <= old(self)@.spare.len(),
        ensures
            final(self).valid(),
            final(self)@.unread == old(self)@.unread + old(self)@.spare.take(amount as int),
            final(self)@.spare == old(self)@.spare.skip(amount as int),
            final(self)@.capacity == old(self)@.capacity,
    {
        let capacity: usize = self.bytes.len();
        assert(self.end + amount <= capacity);
        self.end = self.end + amount;
        assert(self@.unread =~= old(self)@.unread + old(self)@.spare.take(amount as int));
        assert(self@.spare =~= old(self)@.spare.skip(amount as int));
    }

    /// Takes what a read into the spare room returned.
    pub fn read_from_with_deadline(&mut self, read: Result<usize, crate::errno::Errno>) -> (amount:
        Result<usize, Error>)
        requires
            old(self).valid(),
            read matches Ok(amount) ==> amount <= old(self)@.spare.len(),
        ensures
            final(self).valid(),
            final(self)@.capacity == old(self)@.capacity,
            match read {
                Ok(count) => {
                    &&& amount == Ok::<usize, Error>(count)
                    &&& final(self)@.unread == old(self)@.unread + old(self)@.spare.take(
                        count as int,
                    )
                },
                Err(errno) => {
                    &&& amount matches Err(error) && error@ == ErrorView::Io(errno)
                    &&& final(self)@ == old(self)@
                },
            },
    {
        match read {
            Ok(count) => {
                self.commit_read(count);
                Ok(count)
            },
            Err(errno) => Err(Error::Io(errno)),
        }
    }
}

/// The buffer hands out every byte once, in the order in which they came: a
/// byte that is received behind others is read after they were consumed.
pub proof fn bytes_keep_their_order(unread: Seq<u8>, received: Seq<u8>, consumed: int)
    requires
        0 <= consumed <= unread.len(),
    ensures
        (unread + received).skip(consumed) == unread.skip(consumed) + received,
        unread.take(consumed) + unread.skip(consumed) == unread,
{
    assert((unread + received).skip(consumed) =~= unread.skip(consumed) + received);
    assert(unread.take(consumed) + unread.skip(consumed) =~= unread);
}

/// What is received stands behind what was not consumed yet, and consuming takes
/// from the front: no byte is lost, repeated or moved.
pub proof fn buffers_give_back_what_was_received(
    receiving: &mut ReadBuffer,
    consuming: &mut ReadBuffer,
    count: usize,
    amount: Result<usize, Error>,
    consumed: usize,
    bytes: (&[u8], &[u8], &[u8]),
)
    requires
        count <= old(receiving)@.spare.len(),
        call_ensures(ReadBuffer::available, (&*old(receiving),), bytes.0),
        call_ensures(ReadBuffer::read_from_with_deadline, (receiving, Ok(count)), amount),
        call_ensures(ReadBuffer::available, (final(receiving),), bytes.1),
        *old(consuming) == *final(receiving),
        consumed <= bytes.1@.len(),
        call_ensures(ReadBuffer::consume, (consuming, consumed), ()),
        call_ensures(ReadBuffer::available, (final(consuming),), bytes.2),
    ensures
        amount == Ok::<usize, Error>(count),
        bytes.1@ == bytes.0@ + old(receiving)@.spare.take(count as int),
        bytes.1@ == bytes.1@.take(consumed as int) + bytes.2@,
        final(consuming)@.capacity == old(receiving)@.capacity,
{
}

/// A read that failed leaves the buffer as it was and reports the failure, a
/// buffer has the size that it was asked for, and none has no room at all.
pub proof fn failed_reads_change_nothing(
    reading: &mut ReadBuffer,
    errno: crate::errno::Errno,
    amount: Result<usize, Error>,
    limit: usize,
    made: Result<ReadBuffer, Error>,
)
    requires
        call_ensures(ReadBuffer::read_from_with_deadline, (reading, Err(errno)), amount),
        call_ensures(ReadBuffer::new, (limit,), made),
    ensures
        amount matches Err(error) && error@ == ErrorView::Io(errno),
        final(reading)@ == old(reading)@,
        made is Ok <==> limit > 0,
        made matches Ok(buffer) ==> buffer@.unread.len() == 0 && buffer@.capacity == limit
            && buffer@.spare.len() == limit,
{
}

/// Committing part of the room makes those bytes readable and leaves the rest as
/// room.
pub proof fn committed_bytes_become_readable(
    buffer: &mut ReadBuffer,
    amount: usize,
    before: &[u8],
    after: &[u8],
)
    requires
        amount <= old(buffer)@.spare.len(),
        call_ensures(ReadBuffer::available, (&*old(buffer),), before),
        call_ensures(ReadBuffer::commit_read, (buffer, amount), ()),
        call_ensures(ReadBuffer::available, (final(buffer),), after),
    ensures
        after@.len() == before@.len() + amount,
        forall|i: int| 0 <= i < before@.len() ==> after@[i] == before@[i],
        forall|i: int|
            0 <= i < amount ==> after@[before@.len() + i] == old(buffer)@.spare[i],
        final(buffer)@.spare == old(buffer)@.spare.skip(amount as int),
{
}

/// A buffer has space exactly while it is not full of unread bytes; what is read
/// into the space is not unread before it is committed.
pub proof fn space_is_what_is_not_unread(
    buffer: &mut ReadBuffer,
    space: &mut [u8],
    full: &mut ReadBuffer,
    error: Error,
)
    requires
        call_ensures(ReadBuffer::spare_mut, (buffer,), Ok(space)),
        final(space)@.len() == old(space)@.len(),
        call_ensures(ReadBuffer::spare_mut, (full,), Err(error)),
    ensures
        old(buffer)@.unread.len() < old(buffer)@.capacity,
        old(space)@.len() > 0,
        final(buffer)@.unread == old(buffer)@.unread && final(buffer)@.spare == final(space)@,
        final(buffer)@.capacity == old(buffer)@.capacity,
        old(full)@.unread.len() == old(full)@.capacity && final(full)@.unread == old(full)@.unread,
        error@ matches ErrorView::InputBufferFull { limit } && limit == old(full)@.capacity as usize,
{
}

} // verus!
