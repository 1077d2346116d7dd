//! A simple in-memory pipe.
//!
//! A [`BufferStream`] holds a bounded number of bytes in a ring. A
//! [`BufferPipe`] is one end of two such streams, which cross. Reading and
//! writing go as far as they can and say when to wait: a reader waits for bytes,
//! a writer for room.

use vstd::prelude::*;

use crate::errno::Errno;
use crate::errno::EPIPE;

verus! {

/// How many bytes a stream holds.
pub const STREAM_CAPACITY: usize = 1024;

/// What a stream holds.
#[verifier::ext_equal]
pub struct StreamView {
    /// The bytes that were written and not read, the oldest first.
    pub queued: Seq<u8>,
    /// Where in the ring the oldest byte lies, or the next one will.
    pub head: int,
    /// Whether nothing more may be written.
    pub closed: bool,
    /// Whether readers go on.
    pub available: bool,
    /// Whether writers go on.
    pub not_full: bool,
}

impl StreamView {
    /// Readers go on while bytes are queued, writers while there is room. Closing
    /// wakes both once.
    pub open spec fn valid(self) -> bool {
        &&& self.queued.len() <= STREAM_CAPACITY
        &&& 0 <= self.head < STREAM_CAPACITY
        &&& self.queued.len() > 0 ==> self.available
        &&& self.queued.len() < STREAM_CAPACITY ==> self.not_full
        &&& !self.closed && self.available ==> self.queued.len() > 0
        &&& !self.closed && self.not_full ==> self.queued.len() < STREAM_CAPACITY
    }

    /// How many queued bytes lie before the end of the ring.
    pub open spec fn contiguous(self) -> int {
        if self.queued.len() <= STREAM_CAPACITY - self.head {
            self.queued.len() as int
        } else {
            STREAM_CAPACITY - self.head
        }
    }

    /// How many more bytes fit.
    pub open spec fn room(self) -> int {
        STREAM_CAPACITY - self.queued.len()
    }

    /// The stream when a number of bytes were read.
    pub open spec fn after_read(self, count: int) -> StreamView {
        StreamView {
            queued: self.queued.skip(count),
            head: (self.head + count) % (STREAM_CAPACITY as int),
            available: self.queued.len() > count,
            not_full: self.queued.len() - count < STREAM_CAPACITY,
            closed: self.closed,
        }
    }

    /// The stream when bytes were written.
    pub open spec fn after_write(self, bytes: Seq<u8>) -> StreamView {
        StreamView {
            queued: self.queued + bytes,
            head: self.head,
            available: self.queued.len() + bytes.len() > 0,
            not_full: self.queued.len() + bytes.len() < STREAM_CAPACITY,
            closed: self.closed,
        }
    }

    /// The stream when it was closed.
    pub open spec fn after_close(self) -> StreamView {
        StreamView { closed: true, available: true, not_full: true, ..self }
    }
}

/// How an attempt to read some bytes ended.
#[derive(Clone, Copy, Debug, PartialEq, Eq, Structural)]
pub enum ReadStep {
    /// The reader has to wait until bytes are available, and then to go on.
    Wait,
    /// So many bytes were read.
    Read(usize),
    /// Nothing will come.
    Refused(Errno),
}

/// How far filling or emptying a buffer got.
#[derive(Clone, Copy, Debug, PartialEq, Eq, Structural)]
pub enum Progress {
    /// So many bytes are done; the caller has to wait, and then to go on.
    Wait(usize),
    /// All bytes are done.
    Done,
    /// The other end is gone.
    Refused(Errno),
}

/// The smaller of two numbers.
pub open spec fn smaller(first: int, second: int) -> int {
    if first <= second {
        first
    } else {
        second
    }
}

/// How an attempt to read some bytes ends, after a wait or not. A closed stream
/// that holds nothing refuses it.
pub open spec fn read_step(stream: StreamView, space: int, woken: bool) -> ReadStep {
    if stream.closed && stream.queued.len() == 0 {
        ReadStep::Refused(Errno { raw: EPIPE })
    } else if !woken && !stream.available {
        ReadStep::Wait
    } else {
        ReadStep::Read(smaller(stream.contiguous(), space) as usize)
    }
}

/// Whether filling a buffer stops before a byte is read, and how.
pub open spec fn read_stops(stream: StreamView, space: int, filled: int, woken: bool) -> Option<
    Progress,
> {
    if filled == 0 && !woken && stream.closed && !stream.available {
        Some(Progress::Refused(Errno { raw: EPIPE }))
    } else if filled >= space {
        Some(Progress::Done)
    } else if !stream.available {
        Some(
            if woken && stream.closed {
                Progress::Refused(Errno { raw: EPIPE })
            } else {
                Progress::Wait(filled as usize)
            },
        )
    } else {
        None
    }
}

/// How filling a buffer ends that does not stop before a byte is read.
pub open spec fn read_ends(stream: StreamView, space: int, filled: int) -> Progress {
    if stream.queued.len() == 0 {
        Progress::Refused(Errno { raw: EPIPE })
    } else if filled + stream.queued.len() >= space {
        Progress::Done
    } else {
        Progress::Wait((filled + stream.queued.len()) as usize)
    }
}

/// Whether emptying a buffer stops before a byte is written, and how.
pub open spec fn write_stops(stream: StreamView, length: int, written: int, woken: bool) -> Option<
    Progress,
> {
    if written == 0 && !woken && stream.closed {
        Some(Progress::Refused(Errno { raw: EPIPE }))
    } else if written >= length {
        Some(Progress::Done)
    } else if !woken && !stream.not_full {
        Some(Progress::Wait(written as usize))
    } else {
        None
    }
}

/// How emptying a buffer ends that does not stop before a byte is written.
pub open spec fn write_ends(stream: StreamView, length: int, written: int) -> Progress {
    if written + stream.room() >= length {
        Progress::Done
    } else {
        Progress::Wait((written + stream.room()) as usize)
    }
}

/// What reading some bytes does to a stream and to a buffer.
pub open spec fn reads_some(
    before: StreamView,
    after: StreamView,
    given: Seq<u8>,
    got: Seq<u8>,
    woken: bool,
    step: ReadStep,
) -> bool {
    &&& step == read_step(before, given.len() as int, woken)
    &&& match step {
        ReadStep::Read(count) => {
            &&& after == before.after_read(count as int)
            &&& got == before.queued.take(count as int) + given.skip(count as int)
        },
        _ => after == before && got == given,
    }
}

/// What filling the rest of a buffer does to a stream and to the buffer.
pub open spec fn fills(
    before: StreamView,
    after: StreamView,
    given: Seq<u8>,
    got: Seq<u8>,
    filled: int,
    woken: bool,
    progress: Progress,
) -> bool {
    match read_stops(before, given.len() as int, filled, woken) {
        Some(stop) => progress == stop && after == before && got == given,
        None => {
            let count = smaller(before.queued.len() as int, given.len() - filled);
            &&& progress == read_ends(before, given.len() as int, filled)
            &&& after == before.after_read(count)
            &&& got == given.take(filled) + before.queued.take(count) + given.skip(filled + count)
        },
    }
}

/// What writing the rest of a buffer does to a stream.
pub open spec fn empties(
    before: StreamView,
    after: StreamView,
    bytes: Seq<u8>,
    written: int,
    woken: bool,
    progress: Progress,
) -> bool {
    match write_stops(before, bytes.len() as int, written, woken) {
        Some(stop) => progress == stop && after == before,
        None => {
            let count = smaller(before.room(), bytes.len() - written);
            &&& progress == write_ends(before, bytes.len() as int, written)
            &&& after == before.after_write(bytes.subrange(written, written + count))
        },
    }
}

/// The bytes in a ring from a place on.
spec fn ring(buffer: Seq<u8>, head: int, amount: int) -> Seq<u8> {
    Seq::new(amount as nat, |i: int| buffer[(head + i) % (STREAM_CAPACITY as int)])
}

/// Moving the start of a ring leaves out the first bytes.
proof fn ring_skips(buffer: Seq<u8>, head: int, amount: int, count: int)
    requires
        0 <= head < STREAM_CAPACITY,
        0 <= count <= amount,
        head + count <= STREAM_CAPACITY,
    ensures
        ring(buffer, (head + count) % (STREAM_CAPACITY as int), amount - count) == ring(
            buffer,
            head,
            amount,
        ).skip(count),
{
    let moved = (head + count) % (STREAM_CAPACITY as int);
    assert forall|i: int| 0 <= i < amount - count implies #[trigger] ring(
        buffer,
        moved,
        amount - count,
    )[i] == ring(buffer, head, amount).skip(count)[i] by {
        assert((moved + i) % (STREAM_CAPACITY as int) == (head + (count + i)) % (
        STREAM_CAPACITY as int));
    }
    assert(ring(buffer, moved, amount - count) =~= ring(buffer, head, amount).skip(count));
}

/// Reading twice is reading once as much.
proof fn reading_adds_up(stream: StreamView, first: int, second: int)
    requires
        0 <= first,
        0 <= second,
        first + second <= stream.queued.len(),
        stream.queued.len() <= STREAM_CAPACITY,
        0 <= stream.head < STREAM_CAPACITY,
    ensures
        stream.after_read(first).after_read(second) == stream.after_read(first + second),
{
    assert(stream.queued.skip(first).skip(second) =~= stream.queued.skip(first + second));
    assert(stream.after_read(first).after_read(second) =~= stream.after_read(first + second));
}

/// Filling a buffer twice is filling it once with both parts.
proof fn filling_adds_up(given: Seq<u8>, bytes: Seq<u8>, filled: int, first: int, second: int)
    requires
        0 <= first,
        0 <= second,
        0 <= filled,
        filled + first + second <= given.len(),
        first + second <= bytes.len(),
    ensures
        ({
            let half = given.take(filled) + bytes.take(first) + given.skip(filled + first);
            half.take(filled + first) + bytes.skip(first).take(second) + half.skip(
                filled + first + second,
            )
        }) == given.take(filled) + bytes.take(first + second) + given.skip(
            filled + first + second,
        ),
{
    let half = given.take(filled) + bytes.take(first) + given.skip(filled + first);
    assert(half.take(filled + first) =~= given.take(filled) + bytes.take(first));
    assert(half.skip(filled + first + second) =~= given.skip(filled + first + second));
    assert(bytes.take(first) + bytes.skip(first).take(second) =~= bytes.take(first + second));
    assert(given.take(filled) + bytes.take(first) + bytes.skip(first).take(second)
        =~= given.take(filled) + bytes.take(first + second));
}

/// A single-direction in-memory buffer stream.
pub struct BufferStream {
    buffer: [u8; 1024],
    head: usize,
    amount: usize,
    closed: bool,
    available: bool,
    not_full: bool,
}

impl View for BufferStream {
    type V = StreamView;

    closed spec fn view(&self) -> StreamView {
        StreamView {
            queued: ring(self.buffer@, self.head as int, self.amount as int),
            head: self.head as int,
            closed: self.closed,
            available: self.available,
            not_full: self.not_full,
        }
    }
}

impl Default for BufferStream {
    fn default() -> (stream: BufferStream)
        ensures
            stream@.valid(),
            stream@.queued == Seq::<u8>::empty(),
            stream@.head == 0,
            !stream@.closed,
    {
        BufferStream::new()
    }
}

impl BufferStream {
    /// Creates a new empty buffer stream.
    pub fn new() -> (stream: BufferStream)
        ensures
            stream@.valid(),
            stream@.queued == Seq::<u8>::empty(),
            stream@.head == 0,
            !stream@.closed,
    {
        BufferStream {
            buffer: [0;1024],
            head: 0,
            amount: 0,
            closed: false,
            available: false,
            not_full: true,
        }
    }

    /// Whether readers go on.
    pub fn is_available(&self) -> (available: bool)
        ensures
            available == self@.available,
    {
        self.available
    }

    /// Whether writers go on.
    pub fn is_not_full(&self) -> (not_full: bool)
        ensures
            not_full == self@.not_full,
    {
        self.not_full
    }

    /// Whether the stream was closed.
    pub fn is_closed(&self) -> (closed: bool)
        ensures
            closed == self@.closed,
    {
        self.closed
    }

    /// Lets readers and writers go on as far as bytes and room allow.
    fn update_events(&mut self)
        requires
            old(self).amount <= STREAM_CAPACITY,
        ensures
            final(self)@ == (StreamView {
                available: old(self).amount > 0,
                not_full: old(self).amount < STREAM_CAPACITY,
                ..old(self)@
            }),
            final(self).buffer == old(self).buffer,
            final(self).head == old(self).head,
            final(self).amount == old(self).amount,
    {
        self.available = self.amount > 0;
        self.not_full = self.amount < STREAM_CAPACITY;
        assert(self@.queued =~= old(self)@.queued);
    }

    /// Moves queued bytes, as many as lie before the end of the ring, to a place
    /// in a buffer.
    fn take(&mut self, buffer: &mut [u8], start: usize) -> (count: usize)
        requires
            old(self)@.valid(),
            start <= old(buffer)@.len(),
        ensures
            final(self)@.valid(),
            count == smaller(old(self)@.contiguous(), old(buffer)@.len() - start),
            final(self)@ == old(self)@.after_read(count as int),
            final(buffer)@ == old(buffer)@.take(start as int) + old(self)@.queued.take(
                count as int,
            ) + old(buffer)@.skip(start + count),
    {
        let length: usize = buffer.len();
        let mut count: usize = if self.amount <= STREAM_CAPACITY - self.head {
            self.amount
        } else {
            STREAM_CAPACITY - self.head
        };
        if count > length - start {
            count = length - start;
        }
        self.copy_out(buffer, start, count);
        proof {
            ring_skips(self.buffer@, self.head as int, self.amount as int, count as int);
        }
        self.head = (self.head + count) % STREAM_CAPACITY;
        self.amount = self.amount - count;
        self.update_events();
        assert(self@ =~= old(self)@.after_read(count as int));
        count
    }

    /// Copies the oldest bytes, which lie before the end of the ring.
    fn copy_out(&self, buffer: &mut [u8], start: usize, count: usize)
        requires
            self.head + count <= STREAM_CAPACITY,
            count <= self.amount <= STREAM_CAPACITY,
            start + count <= old(buffer)@.len(),
        ensures
            final(buffer)@ == old(buffer)@.take(start as int) + self@.queued.take(count as int)
                + old(buffer)@.skip(start + count),
    {
        let length: usize = buffer.len();
        let mut index: usize = 0;
        assert(buffer@ =~= buffer@.take(start as int) + self@.queued.take(0) + buffer@.skip(
            start as int,
        ));
        while index < count
            invariant
                index <= count,
                start + count <= length,
                buffer@.len() == length,
                old(buffer)@.len() == length,
                count <= self.amount <= STREAM_CAPACITY,
                self.head + count <= STREAM_CAPACITY,
                buffer@ == old(buffer)@.take(start as int) + self@.queued.take(index as int)
                    + old(buffer)@.skip(start + index),
            decreases count - index,
        {
            let byte: u8 = self.buffer[self.head + index];
            assert(byte == self@.queued[index as int]);
            buffer[start + index] = byte;
            index = index + 1;
            assert(buffer@ =~= old(buffer)@.take(start as int) + self@.queued.take(index as int)
                + old(buffer)@.skip(start + index));
        }
    }

    /// Adds bytes from a place in a buffer, as many as fit before the end of the
    /// ring.
    fn put(&mut self, buffer: &[u8], start: usize) -> (count: usize)
        requires
            old(self)@.valid(),
            start <= buffer@.len(),
        ensures
            final(self)@.valid(),
            count <= buffer@.len() - start,
            count <= old(self)@.room(),
            count == 0 ==> start == buffer@.len() || old(self)@.room() == 0,
            final(self)@ == old(self)@.after_write(buffer@.subrange(start as int, start + count)),
    {
        let free: usize = STREAM_CAPACITY - self.amount;
        let tail: usize = (self.head + self.amount) % STREAM_CAPACITY;
        let length: usize = buffer.len();
        let space: usize = length - start;
        let mut count: usize = if free <= STREAM_CAPACITY - tail {
            free
        } else {
            STREAM_CAPACITY - tail
        };
        if count > space {
            count = space;
        }
        let mut index: usize = 0;
        while index < count
            invariant
                index <= count,
                length == buffer@.len(),
                start + count <= length,
                self.amount == old(self).amount,
                self.head == old(self).head,
                self.closed == old(self).closed,
                self.head < STREAM_CAPACITY,
                tail == (self.head + self.amount) % (STREAM_CAPACITY as int),
                tail + count <= STREAM_CAPACITY,
                self.amount + count <= STREAM_CAPACITY,
                self@.queued == old(self)@.queued,
                forall|i: int|
                    0 <= i < index ==> #[trigger] self.buffer@[tail + i] == buffer@[start + i],
            decreases count - index,
        {
            let ghost before = *self;
            self.buffer[tail + index] = buffer[start + index];
            assert forall|i: int| 0 <= i < self.amount implies self@.queued[i]
                == before@.queued[i] by {
                assert((self.head + i) % (STREAM_CAPACITY as int) != tail + index);
            }
            assert(self@.queued =~= before@.queued);
            index = index + 1;
        }
        let ghost before = *self;
        self.amount = self.amount + count;
        proof {
            let added = buffer@.subrange(start as int, start + count);
            assert forall|i: int| 0 <= i < self.amount implies self@.queued[i] == (
            before@.queued + added)[i] by {
                if i < before.amount {
                    assert(self@.queued[i] == before@.queued[i]);
                } else {
                    let offset = i - before.amount;
                    assert((self.head + i) % (STREAM_CAPACITY as int) == tail + offset);
                    assert(self.buffer@[tail + offset] == buffer@[start + offset]);
                }
            }
            assert(self@.queued =~= old(self)@.queued + added);
        }
        self.update_events();
        assert(self@ =~= old(self)@.after_write(buffer@.subrange(start as int, start + count)));
        count
    }

    /// Reads some bytes: those that lie together, as far as the buffer has
    /// space. A reader that waited says so. From a closed stream that holds
    /// nothing there is nothing to be read, and it fails.
    pub fn try_read(&mut self, buffer: &mut [u8], woken: bool) -> (step: ReadStep)
        requires
            old(self)@.valid(),
        ensures
            final(self)@.valid(),
            reads_some(old(self)@, final(self)@, old(buffer)@, final(buffer)@, woken, step),
    {
        if self.closed && self.amount == 0 {
            return ReadStep::Refused(Errno::pipe());
        }
        if !woken && !self.available {
            return ReadStep::Wait;
        }
        let count: usize = self.take(buffer, 0);
        assert(buffer@ =~= old(self)@.queued.take(count as int) + old(buffer)@.skip(count as int));
        ReadStep::Read(count)
    }

    /// Fills the rest of a buffer, behind the bytes that are already filled. A
    /// reader that waited says so.
    pub fn read(&mut self, buffer: &mut [u8], filled: usize, woken: bool) -> (progress: Progress)
        requires
            old(self)@.valid(),
            filled <= old(buffer)@.len(),
        ensures
            final(self)@.valid(),
            fills(
                old(self)@,
                final(self)@,
                old(buffer)@,
                final(buffer)@,
                filled as int,
                woken,
                progress,
            ),
    {
        if filled == 0 && !woken && self.closed && !self.available {
            return Progress::Refused(Errno::pipe());
        }
        let length: usize = buffer.len();
        if filled >= length {
            return Progress::Done;
        }
        if !self.available {
            return if woken && self.closed {
                Progress::Refused(Errno::pipe())
            } else {
                Progress::Wait(filled)
            };
        }
        let ghost stream = self@;
        let ghost given = buffer@;
        let first: usize = self.take(buffer, filled);
        if first == 0 {
            assert(buffer@ =~= given.take(filled as int) + stream.queued.take(0) + given.skip(
                filled as int,
            ));
            return Progress::Refused(Errno::pipe());
        }
        let reached: usize = filled + first;
        if reached >= length {
            return Progress::Done;
        }
        if !self.available {
            return Progress::Wait(reached);
        }
        let ghost between = self@;
        let ghost half = buffer@;
        let second: usize = self.take(buffer, reached);
        proof {
            assert(between.contiguous() == between.queued.len());
            reading_adds_up(stream, first as int, second as int);
            filling_adds_up(given, stream.queued, filled as int, first as int, second as int);
        }
        let done: usize = reached + second;
        if done >= length {
            Progress::Done
        } else {
            Progress::Wait(done)
        }
    }

    /// Writes the rest of a buffer, behind the bytes that are already written. A
    /// writer that waited says so.
    pub fn write(&mut self, buffer: &[u8], written: usize, woken: bool) -> (progress: Progress)
        requires
            old(self)@.valid(),
            written <= buffer@.len(),
        ensures
            final(self)@.valid(),
            empties(old(self)@, final(self)@, buffer@, written as int, woken, progress),
    {
        if written == 0 && !woken && self.closed {
            return Progress::Refused(Errno::pipe());
        }
        let length: usize = buffer.len();
        if written >= length {
            return Progress::Done;
        }
        if !woken && !self.not_full {
            return Progress::Wait(written);
        }
        let mut done: usize = written;
        let mut go_on: bool = true;
        while done < length && go_on
            invariant
                written <= done <= length,
                length == buffer@.len(),
                self@.valid(),
                old(self)@.valid(),
                done - written <= old(self)@.room(),
                go_on ==> self@ == old(self)@ && done == written || self@.not_full,
                !go_on ==> self@.room() == 0,
                self@.closed == old(self)@.closed,
                self@.queued.len() == old(self)@.queued.len() + (done - written),
                self@.queued == old(self)@.queued + buffer@.subrange(written as int, done as int),
                self@.head == old(self)@.head,
                done > written ==> self@ == old(self)@.after_write(
                    buffer@.subrange(written as int, done as int),
                ),
                !go_on ==> self@ == old(self)@.after_write(
                    buffer@.subrange(written as int, done as int),
                ),
            decreases length - done, if go_on {
                1int
            } else {
                0int
            },
        {
            let ghost before = self@;
            let count: usize = self.put(buffer, done);
            let ghost reached = done;
            done = done + count;
            go_on = self.not_full;
            proof {
                assert(buffer@.subrange(written as int, reached as int) + buffer@.subrange(
                    reached as int,
                    done as int,
                ) =~= buffer@.subrange(written as int, done as int));
                assert(self@ =~= old(self)@.after_write(
                    buffer@.subrange(written as int, done as int),
                ));
            }
        }
        if done >= length {
            Progress::Done
        } else {
            Progress::Wait(done)
        }
    }

    /// Ends the stream: nothing more may be written, and what waits goes on.
    pub fn shutdown(&mut self)
        requires
            old(self)@.valid(),
        ensures
            final(self)@.valid(),
            final(self)@ == old(self)@.after_close(),
    {
        self.closed = true;
        self.available = true;
        self.not_full = true;
        assert(self@.queued =~= old(self)@.queued);
    }

    /// Ends the stream, see [`BufferStream::shutdown`].
    pub fn close(&mut self)
        requires
            old(self)@.valid(),
        ensures
            final(self)@.valid(),
            final(self)@ == old(self)@.after_close(),
    {
        self.shutdown();
    }

    /// The halves of the stream.
    pub fn split(&self) -> (halves: (BufferReadStream, BufferWriteStream))
        ensures
            halves.0.stream == halves.1.stream,
    {
        (
            BufferReadStream { stream: StreamId::First },
            BufferWriteStream { stream: StreamId::First },
        )
    }
}

/// Which of two crossed streams.
#[derive(Clone, Copy, Debug, PartialEq, Eq, Structural)]
pub enum StreamId {
    /// The one.
    First,
    /// The other.
    Second,
}

/// The read half of a pipe after splitting.
#[derive(Clone, Copy, Debug)]
pub struct BufferReadStream {
    /// The stream that it reads.
    pub stream: StreamId,
}

impl BufferReadStream {
    /// Reads some bytes, see [`BufferStream::try_read`].
    pub fn try_read(&self, stream: &mut BufferStream, buffer: &mut [u8], woken: bool) -> (step:
        ReadStep)
        requires
            old(stream)@.valid(),
        ensures
            final(stream)@.valid(),
            reads_some(old(stream)@, final(stream)@, old(buffer)@, final(buffer)@, woken, step),
    {
        stream.try_read(buffer, woken)
    }

    /// Fills the rest of a buffer, see [`BufferStream::read`].
    pub fn read(
        &self,
        stream: &mut BufferStream,
        buffer: &mut [u8],
        filled: usize,
        woken: bool,
    ) -> (progress: Progress)
        requires
            old(stream)@.valid(),
            filled <= old(buffer)@.len(),
        ensures
            final(stream)@.valid(),
            fills(
                old(stream)@,
                final(stream)@,
                old(buffer)@,
                final(buffer)@,
                filled as int,
                woken,
                progress,
            ),
    {
        stream.read(buffer, filled, woken)
    }
}

/// The write half of a pipe after splitting.
#[derive(Clone, Copy, Debug)]
pub struct BufferWriteStream {
    /// The stream that it writes.
    pub stream: StreamId,
}

impl BufferWriteStream {
    /// Writes the rest of a buffer, see [`BufferStream::write`].
    pub fn write(&self, stream: &mut BufferStream, buffer: &[u8], written: usize, woken: bool) -> (progress:
        Progress)
        requires
            old(stream)@.valid(),
            written <= buffer@.len(),
        ensures
            final(stream)@.valid(),
            empties(old(stream)@, final(stream)@, buffer@, written as int, woken, progress),
    {
        stream.write(buffer, written, woken)
    }

    /// Ends the stream, see [`BufferStream::shutdown`].
    pub fn shutdown(&self, stream: &mut BufferStream)
        requires
            old(stream)@.valid(),
        ensures
            final(stream)@.valid(),
            final(stream)@ == old(stream)@.after_close(),
    {
        stream.shutdown();
    }

    /// Ends the stream, see [`BufferStream::shutdown`].
    pub fn close(&self, stream: &mut BufferStream)
        requires
            old(stream)@.valid(),
        ensures
            final(stream)@.valid(),
            final(stream)@ == old(stream)@.after_close(),
    {
        stream.close();
    }
}

/// The two streams between the ends of a pipe.
pub struct CrossedStreams {
    /// The one that the first end reads.
    pub first: BufferStream,
    /// The one that the second end reads.
    pub second: BufferStream,
}

impl CrossedStreams {
    /// One of the streams.
    pub open spec fn stream(self, id: StreamId) -> StreamView {
        match id {
            StreamId::First => self.first@,
            StreamId::Second => self.second@,
        }
    }

    /// Both streams are valid.
    pub open spec fn valid(self) -> bool {
        self.first@.valid() && self.second@.valid()
    }
}

/// One end of a pipe: the stream that it reads and the one that it writes.
#[derive(Clone, Copy, Debug)]
pub struct BufferPipe {
    /// The stream that it reads.
    pub read: StreamId,
    /// The stream that it writes.
    pub write: StreamId,
}

impl BufferPipe {
    /// Creates a pair of connected buffer pipes for bidirectional communication,
    /// and the streams between them.
    pub fn new() -> (pipe: (CrossedStreams, BufferPipe, BufferPipe))
        ensures
            pipe.0.valid(),
            pipe.0.first@.queued == Seq::<u8>::empty(),
            pipe.0.second@.queued == Seq::<u8>::empty(),
            !pipe.0.first@.closed && !pipe.0.second@.closed,
            pipe.1.read == StreamId::First && pipe.1.write == StreamId::Second,
            pipe.2.read == StreamId::Second && pipe.2.write == StreamId::First,
    {
        (
            CrossedStreams { first: BufferStream::new(), second: BufferStream::new() },
            BufferPipe { read: StreamId::First, write: StreamId::Second },
            BufferPipe { read: StreamId::Second, write: StreamId::First },
        )
    }

    /// Reads some bytes, see [`BufferStream::try_read`].
    pub fn try_read(&self, streams: &mut CrossedStreams, buffer: &mut [u8], woken: bool) -> (step:
        ReadStep)
        requires
            old(streams).valid(),
            self.read != self.write,
        ensures
            final(streams).valid(),
            final(streams).stream(self.write) == old(streams).stream(self.write),
            reads_some(
                old(streams).stream(self.read),
                final(streams).stream(self.read),
                old(buffer)@,
                final(buffer)@,
                woken,
                step,
            ),
    {
        match self.read {
            StreamId::First => streams.first.try_read(buffer, woken),
            StreamId::Second => streams.second.try_read(buffer, woken),
        }
    }

    /// Fills the rest of a buffer, see [`BufferStream::read`].
    pub fn read(
        &self,
        streams: &mut CrossedStreams,
        buffer: &mut [u8],
        filled: usize,
        woken: bool,
    ) -> (progress: Progress)
        requires
            old(streams).valid(),
            self.read != self.write,
            filled <= old(buffer)@.len(),
        ensures
            final(streams).valid(),
            final(streams).stream(self.write) == old(streams).stream(self.write),
            fills(
                old(streams).stream(self.read),
                final(streams).stream(self.read),
                old(buffer)@,
                final(buffer)@,
                filled as int,
                woken,
                progress,
            ),
    {
        match self.read {
            StreamId::First => streams.first.read(buffer, filled, woken),
            StreamId::Second => streams.second.read(buffer, filled, woken),
        }
    }

    /// Writes the rest of a buffer, see [`BufferStream::write`].
    pub fn write(
        &self,
        streams: &mut CrossedStreams,
        buffer: &[u8],
        written: usize,
        woken: bool,
    ) -> (progress: Progress)
        requires
            old(streams).valid(),
            self.read != self.write,
            written <= buffer@.len(),
        ensures
            final(streams).valid(),
            final(streams).stream(self.read) == old(streams).stream(self.read),
            empties(
                old(streams).stream(self.write),
                final(streams).stream(self.write),
                buffer@,
                written as int,
                woken,
                progress,
            ),
    {
        match self.write {
            StreamId::First => streams.first.write(buffer, written, woken),
            StreamId::Second => streams.second.write(buffer, written, woken),
        }
    }

    /// Ends the stream that this end writes.
    pub fn shutdown(&self, streams: &mut CrossedStreams)
        requires
            old(streams).valid(),
            self.read != self.write,
        ensures
            final(streams).valid(),
            final(streams).stream(self.read) == old(streams).stream(self.read),
            final(streams).stream(self.write) == old(streams).stream(self.write).after_close(),
    {
        match self.write {
            StreamId::First => streams.first.shutdown(),
            StreamId::Second => streams.second.shutdown(),
        }
    }

    /// Closes both streams.
    pub fn close(&self, streams: &mut CrossedStreams)
        requires
            old(streams).valid(),
        ensures
            final(streams).valid(),
            final(streams).first@ == old(streams).first@.after_close(),
            final(streams).second@ == old(streams).second@.after_close(),
    {
        streams.first.close();
        streams.second.close();
    }

    /// The halves of this end.
    pub fn split(self) -> (halves: (BufferReadStream, BufferWriteStream))
        ensures
            halves.0.stream == self.read,
            halves.1.stream == self.write,
    {
        (BufferReadStream { stream: self.read }, BufferWriteStream { stream: self.write })
    }
}

/// Bytes come out in the order in which they went in, and none is lost or made
/// up: what was read and what is queued together are what was written, and
/// reading and writing keep that so.
pub proof fn bytes_keep_their_order(
    stream: StreamView,
    read: Seq<u8>,
    written: Seq<u8>,
    count: int,
    bytes: Seq<u8>,
)
    requires
        read + stream.queued == written,
        0 <= count <= stream.queued.len(),
    ensures
        (read + stream.queued.take(count)) + stream.after_read(count).queued == written,
        read + stream.after_write(bytes).queued == written + bytes,
        read + stream.after_close().queued == written,
{
    assert((read + stream.queued.take(count)) + stream.queued.skip(count) =~= read
        + stream.queued);
    assert(read + (stream.queued + bytes) =~= (read + stream.queued) + bytes);
}

/// A buffer that fits is written at once, and read back as it was: the bytes of
/// one end reach the other unchanged.
pub proof fn what_is_written_is_read(
    before: StreamView,
    between: StreamView,
    after: StreamView,
    bytes: Seq<u8>,
    given: Seq<u8>,
    got: Seq<u8>,
    sent: Progress,
    received: Progress,
)
    requires
        before.valid(),
        between.valid(),
        !before.closed,
        before.queued.len() == 0,
        0 < bytes.len() <= STREAM_CAPACITY,
        given.len() == bytes.len(),
        empties(before, between, bytes, 0, false, sent),
        fills(between, after, given, got, 0, false, received),
    ensures
        sent == Progress::Done,
        received == Progress::Done,
        got == bytes,
        after.queued == before.queued,
{
    assert(bytes.subrange(0, bytes.len() as int) =~= bytes);
    assert(before.queued + bytes =~= bytes);
    assert(given.take(0) + bytes.take(bytes.len() as int) + given.skip(bytes.len() as int)
        =~= bytes);
    assert(after.queued =~= before.queued);
}

/// A closed stream takes nothing more and gives what it holds; then reading from
/// it fails, whether the reader waited or not.
pub proof fn closing_drains(stream: StreamView, space: int, bytes: Seq<u8>, woken: bool)
    requires
        stream.valid(),
        space > 0,
        bytes.len() > 0,
    ensures
        write_stops(stream.after_close(), bytes.len() as int, 0, false) == Some(
            Progress::Refused(Errno { raw: EPIPE }),
        ),
        stream.after_close().queued == stream.queued,
        stream.queued.len() > 0 ==> {
            &&& read_step(stream.after_close(), space, woken) is Read
            &&& read_step(stream.after_close(), space, woken) != ReadStep::Read(0)
        },
        stream.queued.len() == 0 ==> read_step(stream.after_close(), space, woken)
            == ReadStep::Refused(Errno { raw: EPIPE }),
        read_step(
            stream.after_close().after_read(stream.queued.len() as int),
            space,
            woken,
        ) == ReadStep::Refused(Errno { raw: EPIPE }),
        stream.queued.len() == 0 ==> read_ends(stream.after_close(), space, 0)
            == Progress::Refused(Errno { raw: EPIPE }),
        read_stops(
            stream.after_close().after_read(stream.queued.len() as int),
            space,
            0,
            false,
        ) == Some(Progress::Refused(Errno { raw: EPIPE })),
{
}

/// Bytes that are written stand behind those that were written before. A write
/// that is not done has filled the stream and says how far it got, and one that
/// is refused changes nothing.
pub proof fn written_bytes_are_queued_in_order(
    stream: &mut BufferStream,
    bytes: &[u8],
    written: usize,
    woken: bool,
    progress: Progress,
)
    requires
        old(stream)@.valid(),
        written <= bytes@.len(),
        call_ensures(BufferStream::write, (stream, bytes, written, woken), progress),
    ensures
        progress is Refused <==> written == 0 && !woken && old(stream)@.closed,
        progress matches Progress::Refused(error) ==> error.raw == 32 && final(stream)@ == old(stream)@,
        progress is Done ==> final(stream)@.queued == old(stream)@.queued + bytes@.skip(
            written as int,
        ),
        progress matches Progress::Wait(done) ==> {
            &&& written <= done < bytes@.len()
            &&& final(stream)@.queued == old(stream)@.queued + bytes@.subrange(
                written as int,
                done as int,
            )
            &&& final(stream)@.queued.len() == 1024
        },
        final(stream)@.closed == old(stream)@.closed,
        final(stream)@.queued.len() <= 1024,
{
    assert(bytes.len() == bytes@.len());
    assert(bytes@.subrange(written as int, written as int) == Seq::<u8>::empty());
    assert(bytes@.skip(bytes@.len() as int) == Seq::<u8>::empty());
    assert(bytes@.subrange(written as int, bytes@.len() as int) == bytes@.skip(written as int));
}

/// A buffer is filled with the oldest bytes, behind what it holds already, and
/// those bytes leave the stream. A read that is not done has emptied the stream,
/// and one is refused only where nothing will come.
pub proof fn read_bytes_are_the_oldest(
    stream: &mut BufferStream,
    buffer: &mut [u8],
    filled: usize,
    woken: bool,
    progress: Progress,
)
    requires
        old(stream)@.valid(),
        filled <= old(buffer)@.len(),
        call_ensures(BufferStream::read, (stream, buffer, filled, woken), progress),
    ensures
        progress matches Progress::Refused(error) ==> {
            &&& error.raw == 32
            &&& old(stream)@.closed && old(stream)@.queued.len() == 0
            &&& final(buffer)@ == old(buffer)@
        },
        old(stream)@.closed && old(stream)@.queued.len() == 0 && filled == 0 && old(buffer)@.len() > 0 && !woken ==> progress is Refused,
        progress is Done ==> final(buffer)@ + final(stream)@.queued == old(buffer)@.take(
            filled as int,
        ) + old(stream)@.queued,
        progress matches Progress::Wait(done) ==> {
            &&& done == filled + old(stream)@.queued.len() < old(buffer)@.len()
            &&& final(buffer)@.take(done as int) == old(buffer)@.take(filled as int) + old(stream)@.queued
            &&& final(stream)@.queued.len() == 0
        },
        final(buffer)@.len() == old(buffer)@.len(),
        final(stream)@.closed == old(stream)@.closed,
{
    assert(old(buffer).len() == old(buffer)@.len());
    let before = old(stream)@;
    let count = smaller(before.queued.len() as int, old(buffer)@.len() - filled);
    assert(before.queued == before.queued.take(count) + before.queued.skip(count));
    assert(before.queued.take(before.queued.len() as int) == before.queued);
    if filled == old(buffer)@.len() {
        assert(old(buffer)@.take(filled as int) == old(buffer)@);
    }
    assert(old(buffer)@.skip(old(buffer)@.len() as int) == Seq::<u8>::empty());
    if read_stops(before, old(buffer)@.len() as int, filled as int, woken) is None {
        if before.queued.len() == 0 {
            assert(final(buffer)@ == old(buffer)@);
        } else if progress is Wait {
            assert(final(buffer)@.take(filled + count) == old(buffer)@.take(filled as int)
                + before.queued);
        } else {
            assert(final(buffer)@ == old(buffer)@.take(filled as int) + before.queued.take(count));
            assert(final(buffer)@ + before.queued.skip(count) == old(buffer)@.take(filled as int)
                + before.queued);
        }
    } else if progress is Wait {
        assert(old(buffer)@.take(filled as int) + before.queued == old(buffer)@.take(
            filled as int,
        ));
    }
}

/// An attempt to read gives the oldest bytes, at least one where there is one and
/// space for it. It waits where nothing is queued, and fails at the end.
pub proof fn attempts_read_the_oldest_bytes(
    stream: &mut BufferStream,
    buffer: &mut [u8],
    woken: bool,
    step: ReadStep,
)
    requires
        old(stream)@.valid(),
        call_ensures(BufferStream::try_read, (stream, buffer, woken), step),
    ensures
        step is Refused <==> old(stream)@.closed && old(stream)@.queued.len() == 0,
        step matches ReadStep::Refused(error) ==> error.raw == 32,
        step is Wait <==> !old(stream)@.closed && old(stream)@.queued.len() == 0 && !woken,
        step matches ReadStep::Read(count) ==> {
            &&& count <= old(buffer)@.len()
            &&& old(stream)@.queued.len() > 0 && old(buffer)@.len() > 0 ==> count > 0
            &&& final(buffer)@.take(count as int) + final(stream)@.queued == old(stream)@.queued
            &&& final(buffer)@.skip(count as int) == old(buffer)@.skip(count as int)
        },
        !(step is Read) ==> final(stream)@ == old(stream)@ && final(buffer)@ == old(buffer)@,
        final(stream)@.closed == old(stream)@.closed,
{
    if let ReadStep::Read(count) = step {
        let queued = old(stream)@.queued;
        assert(queued == queued.take(count as int) + queued.skip(count as int));
        assert(final(buffer)@.take(count as int) == queued.take(count as int));
        assert(final(buffer)@.skip(count as int) == old(buffer)@.skip(count as int));
    }
}

/// A stream that is ended is closed, lets whoever waits go on and keeps what it
/// holds; a new one is open, empty and ready for writers.
pub proof fn ended_streams_keep_their_bytes(
    shut: &mut BufferStream,
    closed: &mut BufferStream,
    made: BufferStream,
    read: (bool, bool, bool, bool, bool, bool),
)
    requires
        call_ensures(BufferStream::new, (), made),
        call_ensures(BufferStream::is_available, (&made,), read.0),
        call_ensures(BufferStream::is_not_full, (&made,), read.1),
        call_ensures(BufferStream::is_closed, (&made,), read.2),
        call_ensures(BufferStream::shutdown, (shut,), ()),
        call_ensures(BufferStream::close, (closed,), ()),
        call_ensures(BufferStream::is_available, (final(shut),), read.3),
        call_ensures(BufferStream::is_not_full, (final(shut),), read.4),
        call_ensures(BufferStream::is_closed, (final(shut),), read.5),
    ensures
        made@.queued.len() == 0,
        !read.0 && read.1 && !read.2,
        read.3 && read.4 && read.5,
        final(shut)@.queued == old(shut)@.queued,
        *old(closed) == *old(shut) ==> final(closed)@ == final(shut)@,
{
}

/// What one end of a pipe writes is what the other end reads, in either
/// direction, and the other direction is not touched.
pub proof fn ends_of_a_pipe_are_connected(
    made: (CrossedStreams, BufferPipe, BufferPipe),
    sent: &mut CrossedStreams,
    received: &mut CrossedStreams,
    back: &mut CrossedStreams,
    home: &mut CrossedStreams,
    bytes: &[u8],
    reply: &[u8],
    buffer: &mut [u8],
    answer: &mut [u8],
    progress: (Progress, Progress, Progress, Progress),
)
    requires
        call_ensures(BufferPipe::new, (), made),
        *old(sent) == made.0,
        0 < bytes@.len() <= STREAM_CAPACITY,
        0 < reply@.len() <= STREAM_CAPACITY,
        old(buffer)@.len() == bytes@.len(),
        old(answer)@.len() == reply@.len(),
        call_ensures(BufferPipe::write, (&made.1, sent, bytes, 0, false), progress.0),
        *old(received) == *final(sent),
        call_ensures(BufferPipe::read, (&made.2, received, buffer, 0, false), progress.1),
        *old(back) == *final(received),
        call_ensures(BufferPipe::write, (&made.2, back, reply, 0, false), progress.2),
        *old(home) == *final(back),
        call_ensures(BufferPipe::read, (&made.1, home, answer, 0, false), progress.3),
    ensures
        progress.0 is Done && progress.1 is Done && progress.2 is Done && progress.3 is Done,
        final(buffer)@ == bytes@,
        final(answer)@ == reply@,
        final(home).first@.queued.len() == 0 && final(home).second@.queued.len() == 0,
{
    what_is_written_is_read(
        made.0.second@,
        final(sent).second@,
        final(received).second@,
        bytes@,
        old(buffer)@,
        final(buffer)@,
        progress.0,
        progress.1,
    );
    what_is_written_is_read(
        final(received).first@,
        final(back).first@,
        final(home).first@,
        reply@,
        old(answer)@,
        final(answer)@,
        progress.2,
        progress.3,
    );
}

/// The halves of an end do what the end does, and shutting an end down closes
/// what it writes alone, while closing it closes both directions.
pub proof fn halves_act_on_their_streams(
    end: BufferPipe,
    halves: (BufferReadStream, BufferWriteStream),
    shut: &mut CrossedStreams,
    closed: &mut CrossedStreams,
    written: &mut BufferStream,
    same: &mut BufferStream,
    ended: &mut BufferStream,
    bytes: &[u8],
    progress: (Progress, Progress),
)
    requires
        end.read != end.write,
        call_ensures(BufferPipe::split, (end,), halves),
        call_ensures(BufferPipe::shutdown, (&end, shut), ()),
        call_ensures(BufferPipe::close, (&end, closed), ()),
        *old(same) == *old(written),
        call_ensures(BufferWriteStream::write, (&halves.1, written, bytes, 0, false), progress.0),
        call_ensures(BufferStream::write, (same, bytes, 0, false), progress.1),
        call_ensures(BufferWriteStream::shutdown, (&halves.1, ended), ()),
    ensures
        halves.0.stream == end.read && halves.1.stream == end.write,
        final(shut).stream(end.write).closed,
        final(shut).stream(end.write).queued == old(shut).stream(end.write).queued,
        final(shut).stream(end.read) == old(shut).stream(end.read),
        final(closed).first@.closed && final(closed).second@.closed,
        final(closed).first@.queued == old(closed).first@.queued,
        final(closed).second@.queued == old(closed).second@.queued,
        progress.0 == progress.1 && final(written)@ == final(same)@,
        final(ended)@.closed && final(ended)@.queued == old(ended)@.queued,
{
}

/// The reading half of a pipe reads as the stream does, and an end reads only the
/// stream that it is to read.
pub proof fn halves_read_their_streams(
    half: &BufferReadStream,
    end: &BufferPipe,
    writer: &BufferWriteStream,
    filled: &mut BufferStream,
    same_filled: &mut BufferStream,
    tried: &mut BufferStream,
    same_tried: &mut BufferStream,
    streams: &mut CrossedStreams,
    closed: &mut BufferStream,
    first: &mut [u8],
    second: &mut [u8],
    third: &mut [u8],
    fourth: &mut [u8],
    fifth: &mut [u8],
    woken: bool,
    progress: (Progress, Progress),
    steps: (ReadStep, ReadStep, ReadStep),
    stream: &BufferStream,
    halves: (BufferReadStream, BufferWriteStream),
)
    requires
        end.read != end.write,
        old(streams).valid(),
        *old(same_filled) == *old(filled),
        *old(same_tried) == *old(tried),
        old(first)@ == old(second)@,
        old(third)@ == old(fourth)@,
        call_ensures(BufferReadStream::read, (half, filled, first, 0, woken), progress.0),
        call_ensures(BufferStream::read, (same_filled, second, 0, woken), progress.1),
        call_ensures(BufferReadStream::try_read, (half, tried, third, woken), steps.0),
        call_ensures(BufferStream::try_read, (same_tried, fourth, woken), steps.1),
        call_ensures(BufferPipe::try_read, (end, streams, fifth, woken), steps.2),
        call_ensures(BufferWriteStream::close, (writer, closed), ()),
        call_ensures(BufferStream::split, (stream,), halves),
    ensures
        progress.0 == progress.1 && final(filled)@ == final(same_filled)@,
        final(first)@ == final(second)@,
        steps.0 == steps.1 && final(tried)@ == final(same_tried)@,
        final(third)@ == final(fourth)@,
        final(streams).stream(end.write) == old(streams).stream(end.write),
        steps.2 matches ReadStep::Read(count) ==> final(fifth)@.take(count as int) == old(streams).stream(end.read).queued.take(count as int),
        steps.2 is Refused <==> old(streams).stream(end.read).closed && old(streams).stream(
            end.read,
        ).queued.len() == 0,
        final(closed)@.closed && final(closed)@.queued == old(closed)@.queued,
        halves.0.stream == halves.1.stream,
{
    if let ReadStep::Read(count) = steps.2 {
        assert(fifth.len() == old(fifth)@.len());
        assert(final(fifth)@.take(count as int) =~= old(streams).stream(end.read).queued.take(
            count as int,
        ));
    }
}

} // verus!
