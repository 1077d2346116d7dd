//! Buffers that grow at their front.
//!
//! The layers of a protocol each put data in front of what the layer above
//! gave them. With room left in front from the start none of them has to
//! allocate or to move what is there.

use vstd::prelude::*;
use vstd::slice::slice_subrange;

verus! {

/// A little endian number of four bytes.
pub open spec fn little_endian(bytes: Seq<u8>) -> int {
    bytes[0] + bytes[1] * 256 + bytes[2] * 65536 + bytes[3] * 16777216
}

/// A buffer that can be prefixed with data.
pub trait PrefixBuffer: Sized {
    /// The bytes that are there.
    spec fn bytes(&self) -> Seq<u8>;

    /// How many bytes can be put in front of them.
    spec fn room(&self) -> nat;

    /// How many bytes there is room for in all once the buffer is reset.
    spec fn capacity(&self) -> nat;

    /// Whether the bytes lie inside the buffer.
    spec fn valid(&self) -> bool;

    /// Returns the initialized portion of the buffer as a slice.
    fn as_slice(&self) -> (slice: &[u8])
        requires
            self.valid(),
        ensures
            slice@ == self.bytes(),
    ;

    /// Returns the initialized portion of the buffer as a mutable slice.
    fn as_slice_mut(&mut self) -> (slice: &mut [u8])
        requires
            old(self).valid(),
        ensures
            slice@ == old(self).bytes(),
            final(slice)@.len() == slice@.len() ==> {
                &&& final(self).valid()
                &&& final(self).bytes() == final(slice)@
                &&& final(self).room() == old(self).room()
                &&& final(self).capacity() == old(self).capacity()
            },
    ;

    /// Returns the number of prefix bytes available. This is the largest amount
    /// that can be passed to `reserve`.
    fn available(&self) -> (available: usize)
        requires
            self.valid(),
        ensures
            available == self.room(),
    ;

    /// Returns the length of the initialized portion of the buffer.
    fn len(&self) -> (len: usize)
        requires
            self.valid(),
        ensures
            len == self.bytes().len(),
    ;

    /// Reserves space in the prefix position of the buffer. The caller must
    /// initialize all the bytes in the resulting mutable slice, or call `take`
    /// with the number of those that were not.
    fn reserve(&mut self, size: usize) -> (slice: &mut [u8])
        requires
            old(self).valid(),
            size <= old(self).room(),
        ensures
            slice@.len() == size,
            final(slice)@.len() == slice@.len() ==> {
                &&& final(self).valid()
                &&& final(self).bytes() == final(slice)@ + old(self).bytes()
                &&& final(self).room() == old(self).room() - size
                &&& final(self).capacity() == old(self).capacity()
            },
    ;

    /// Returns the specified number of bytes to prefix position. `amount` must
    /// not be more than is there.
    fn take(&mut self, amount: usize)
        requires
            old(self).valid(),
            amount <= old(self).bytes().len(),
        ensures
            final(self).valid(),
            final(self).bytes() == old(self).bytes().skip(amount as int),
            final(self).room() == old(self).room() + amount,
            final(self).capacity() == old(self).capacity(),
    ;

    /// `view` allows you to create a PrefixBuffer to pass to a function without
    /// consuming your owned buffer. What is put in front of the view's bytes
    /// does not become part of the buffer's.
    fn view<'a>(&'a mut self) -> (view: BufferView<'a>)
        requires
            old(self).valid(),
        ensures
            view.head <= view.data@.len(),
            view.head == old(self).room(),
            view.data@.skip(view.head as int) == old(self).bytes(),
            final(view.data)@.len() == view.data@.len() ==> {
                &&& final(self).valid()
                &&& final(self).bytes() == final(view.data)@.skip(view.head as int)
                &&& final(self).room() == old(self).room()
                &&& final(self).capacity() == old(self).capacity()
            },
    ;

    /// Set the buffer to a state where all bytes are uninitialized.
    fn reset(&mut self)
        requires
            old(self).valid(),
        ensures
            final(self).valid(),
            final(self).bytes() == Seq::<u8>::empty(),
            final(self).room() == old(self).capacity(),
            final(self).capacity() == old(self).capacity(),
    ;

    /// A convenience method to remove the first four bytes from the initialized
    /// portion of the buffer and to interpret them as a little endian number.
    fn take_u32(&mut self) -> (value: u32)
        requires
            old(self).valid(),
            old(self).bytes().len() >= 4,
        ensures
            final(self).valid(),
            value == little_endian(old(self).bytes()),
            final(self).bytes() == old(self).bytes().skip(4),
            final(self).room() == old(self).room() + 4,
            final(self).capacity() == old(self).capacity(),
    {
        let bytes = self.as_slice();
        let value: u32 = bytes[0] as u32 + bytes[1] as u32 * 256 + bytes[2] as u32 * 65536
            + bytes[3] as u32 * 16777216;
        self.take(4);
        value
    }

    /// Set the last N bytes to initialized with the value `value`, maximizing
    /// the prefix size. This function will replace all data in the buffer.
    fn set(&mut self, value: &[u8])
        requires
            old(self).valid(),
            value@.len() <= old(self).capacity(),
        ensures
            final(self).valid(),
            final(self).bytes() == value@,
            final(self).room() == old(self).capacity() - value@.len(),
            final(self).capacity() == old(self).capacity(),
    {
        self.reset();
        let _ = self.prefix(value);
        assert(value@ + Seq::<u8>::empty() =~= value@);
    }

    /// Allocate room from the uninitialized bytes just prior to the initialized
    /// bytes with the contents of `value`.
    fn prefix(&mut self, value: &[u8]) -> (same: &mut Self)
        requires
            old(self).valid(),
            value@.len() <= old(self).room(),
        ensures
            same.valid(),
            same.bytes() == value@ + old(self).bytes(),
            same.room() == old(self).room() - value@.len(),
            same.capacity() == old(self).capacity(),
            *final(self) == *final(same),
    {
        let room = self.reserve(value.len());
        fill(room, value);
        self
    }

    /// True when there are no initialized bytes in the buffer.
    fn is_empty(&self) -> (empty: bool)
        requires
            self.valid(),
        ensures
            empty == (self.bytes().len() == 0),
    {
        self.len() == 0
    }
}

/// Copies bytes into a slice of their length.
fn fill(target: &mut [u8], value: &[u8])
    requires
        old(target)@.len() == value@.len(),
    ensures
        final(target)@ == value@,
{
    let mut index: usize = 0;
    while index < value.len()
        invariant
            index <= value@.len(),
            target@.len() == value@.len(),
            forall|i: int| 0 <= i < index ==> target@[i] == value@[i],
        decreases value@.len() - index,
    {
        target[index] = value[index];
        index = index + 1;
    }
    assert(target@ =~= value@);
}

/// A PrefixBuffer implementation that wraps an existing slice without taking
/// ownership of the underlying buffer.
pub struct BufferView<'a> {
    /// Where the bytes begin.
    pub head: usize,
    /// The slice.
    pub data: &'a mut [u8],
}

impl<'a> BufferView<'a> {
    /// Create a BufferView from a mutable slice where no bytes are considered
    /// initialized initially.
    pub fn new(data: &'a mut [u8]) -> (view: BufferView<'a>)
        ensures
            view.valid(),
            view.bytes() == Seq::<u8>::empty(),
            view.room() == old(data)@.len(),
            view.capacity() == old(data)@.len(),
            view.data@ == old(data)@,
            final(data)@ == final(view.data)@,
    {
        let head: usize = data.len();
        let view = BufferView { head, data };
        assert(view.bytes() =~= Seq::<u8>::empty());
        view
    }

    /// Create a BufferView from a mutable slice where 0..available is
    /// uninitialized, and available.. is initialized.
    pub fn with_available(available: usize, data: &'a mut [u8]) -> (view: BufferView<'a>)
        requires
            available <= old(data)@.len(),
        ensures
            view.valid(),
            view.bytes() == old(data)@.skip(available as int),
            view.room() == available,
            view.capacity() == old(data)@.len(),
            view.head == available,
            view.data@ == old(data)@,
            final(data)@ == final(view.data)@,
    {
        BufferView { head: available, data }
    }

    /// Create a BufferView from a mutable slice where the last value.len()
    /// bytes are initialized with `value` and the remaining bytes at the
    /// beginning are uninitialized.
    pub fn with_prefix(data: &'a mut [u8], value: &[u8]) -> (view: BufferView<'a>)
        requires
            value@.len() <= old(data)@.len(),
        ensures
            view.valid(),
            view.bytes() == value@,
            view.room() == old(data)@.len() - value@.len(),
            view.capacity() == old(data)@.len(),
            final(data)@ == final(view.data)@,
    {
        let mut view = BufferView::new(data);
        view.set(value);
        view
    }
}

impl<'a> PrefixBuffer for BufferView<'a> {
    open spec fn bytes(&self) -> Seq<u8> {
        self.data@.skip(self.head as int)
    }

    open spec fn room(&self) -> nat {
        self.head as nat
    }

    open spec fn capacity(&self) -> nat {
        self.data@.len()
    }

    open spec fn valid(&self) -> bool {
        self.head <= self.data@.len()
    }

    fn as_slice(&self) -> (slice: &[u8]) {
        let slice = slice_subrange(&*self.data, self.head, self.data.len());
        assert(slice@ =~= self.bytes());
        slice
    }

    /// What is written to the slice is written to the borrowed one.
    fn as_slice_mut(&mut self) -> (slice: &mut [u8])
        ensures
            final(final(self).data)@ == final(old(self).data)@,
            final(slice)@.len() == slice@.len() ==> final(self).head == old(self).head,
    {
        let (_, slice) = self.data.split_at_mut(self.head);
        slice
    }

    fn available(&self) -> (available: usize) {
        self.head
    }

    fn len(&self) -> (len: usize) {
        self.data.len() - self.head
    }

    /// Of the borrowed slice only the room is written, so that the bytes which
    /// were there stay where they are.
    fn reserve(&mut self, size: usize) -> (slice: &mut [u8])
        ensures
            final(final(self).data)@ == final(old(self).data)@,
            final(slice)@.len() == slice@.len() ==> {
                &&& final(self).data@.len() == old(self).data@.len()
                &&& final(self).data@.skip(old(self).head as int) == old(self).bytes()
            },
    {
        let start: usize = self.head - size;
        self.head = start;
        let (_, back) = self.data.split_at_mut(start);
        let (slice, _) = back.split_at_mut(size);
        slice
    }

    /// The borrowed slice stays as it is.
    fn take(&mut self, amount: usize)
        ensures
            final(self).data@ == old(self).data@,
            final(final(self).data)@ == final(old(self).data)@,
    {
        let total: usize = self.data.len();
        assert(self.head + amount <= total);
        self.head = self.head + amount;
        assert(self.bytes() =~= old(self).bytes().skip(amount as int));
    }

    /// The new view borrows the same slice.
    fn view<'b>(&'b mut self) -> (view: BufferView<'b>)
        ensures
            view.data@ == old(self).data@,
            final(self).data@ == final(view.data)@,
            final(self).head == old(self).head,
            final(final(self).data)@ == final(old(self).data)@,
    {
        BufferView { head: self.head, data: &mut *self.data }
    }

    /// The borrowed slice stays as it is.
    fn reset(&mut self)
        ensures
            final(self).data@ == old(self).data@,
            final(final(self).data)@ == final(old(self).data)@,
    {
        self.head = self.data.len();
        assert(self.bytes() =~= Seq::<u8>::empty());
    }

    /// The borrowed slice stays as it is.
    fn take_u32(&mut self) -> (value: u32)
        ensures
            final(self).data@ == old(self).data@,
            final(final(self).data)@ == final(old(self).data)@,
    {
        let bytes = self.as_slice();
        let value: u32 = bytes[0] as u32 + bytes[1] as u32 * 256 + bytes[2] as u32 * 65536
            + bytes[3] as u32 * 16777216;
        self.take(4);
        value
    }

    /// The end of the borrowed slice is written.
    fn set(&mut self, value: &[u8])
        ensures
            final(final(self).data)@ == final(old(self).data)@,
    {
        self.reset();
        let _ = self.prefix(value);
        assert(value@ + Seq::<u8>::empty() =~= value@);
    }

    /// Of the borrowed slice only the room is written, so that the bytes which
    /// were there stay where they are.
    fn prefix(&mut self, value: &[u8]) -> (same: &mut Self)
        ensures
            final(same.data)@ == final(old(self).data)@,
            same.data@.len() == old(self).data@.len(),
            same.data@.skip(old(self).head as int) == old(self).bytes(),
    {
        let room = self.reserve(value.len());
        fill(room, value);
        self
    }
}

/// A PrefixBuffer that allocates a fixed size array on the heap.
pub struct OwnedBuffer {
    head: usize,
    tail: usize,
    data: Vec<u8>,
}

impl OwnedBuffer {
    /// Create a OwnedBuffer where all bytes are uninitialized.
    pub fn new(size: usize) -> (buffer: OwnedBuffer)
        ensures
            buffer.valid(),
            buffer.bytes() == Seq::<u8>::empty(),
            buffer.room() == size,
            buffer.capacity() == size,
    {
        let buffer = OwnedBuffer { head: size, tail: size, data: vec![0; size] };
        assert(buffer.bytes() =~= Seq::<u8>::empty());
        buffer
    }

    /// Create a OwnedBuffer where the last N bytes are initialized with
    /// `value`.
    pub fn with(size: usize, value: &[u8]) -> (buffer: OwnedBuffer)
        requires
            value@.len() <= size,
        ensures
            buffer.valid(),
            buffer.bytes() == value@,
            buffer.room() == size - value@.len(),
            buffer.capacity() == size,
    {
        let mut buffer = OwnedBuffer::new(size);
        buffer.set(value);
        buffer
    }

    /// Truncate the initialized portion of the buffer to `size`.
    pub fn keep(&mut self, size: usize)
        requires
            old(self).valid(),
            size <= old(self).bytes().len(),
        ensures
            final(self).valid(),
            final(self).bytes() == old(self).bytes().take(size as int),
            final(self).room() == old(self).room(),
            final(self).capacity() == old(self).capacity(),
    {
        let total: usize = self.data.len();
        assert(self.head + size <= total);
        self.tail = self.head + size;
        assert(self.bytes() =~= old(self).bytes().take(size as int));
    }
}

impl PrefixBuffer for OwnedBuffer {
    closed spec fn bytes(&self) -> Seq<u8> {
        self.data@.subrange(self.head as int, self.tail as int)
    }

    closed spec fn room(&self) -> nat {
        self.head as nat
    }

    closed spec fn capacity(&self) -> nat {
        self.data@.len()
    }

    closed spec fn valid(&self) -> bool {
        self.head <= self.tail <= self.data@.len()
    }

    fn as_slice(&self) -> (slice: &[u8]) {
        slice_subrange(self.data.as_slice(), self.head, self.tail)
    }

    fn as_slice_mut(&mut self) -> (slice: &mut [u8]) {
        let size: usize = self.tail - self.head;
        let (_, back) = self.data.as_mut_slice().split_at_mut(self.head);
        let (slice, _) = back.split_at_mut(size);
        slice
    }

    fn available(&self) -> (available: usize) {
        self.head
    }

    fn len(&self) -> (len: usize) {
        self.tail - self.head
    }

    fn reserve(&mut self, size: usize) -> (slice: &mut [u8]) {
        let start: usize = self.head - size;
        self.head = start;
        let (_, back) = self.data.as_mut_slice().split_at_mut(start);
        let (slice, _) = back.split_at_mut(size);
        slice
    }

    fn take(&mut self, amount: usize) {
        let total: usize = self.data.len();
        assert(self.head + amount <= total);
        self.head = self.head + amount;
        assert(self.bytes() =~= old(self).bytes().skip(amount as int));
    }

    fn view<'a>(&'a mut self) -> (view: BufferView<'a>) {
        let head: usize = self.head;
        let (front, _) = self.data.as_mut_slice().split_at_mut(self.tail);
        BufferView { head, data: front }
    }

    fn reset(&mut self) {
        self.head = self.data.len();
        self.tail = self.data.len();
        assert(self.bytes() =~= Seq::<u8>::empty());
    }
}

/// `<[u8; SIZE]>::as_mut_slice`: the array as a slice. What is written to the
/// slice is written to the array.
#[verifier::external_body]
fn array_as_mut_slice<const SIZE: usize>(data: &mut [u8; SIZE]) -> (slice: &mut [u8])
    ensures
        slice@ == old(data)@,
        final(slice)@.len() == slice@.len() ==> final(data)@ == final(slice)@,
{
    data.as_mut_slice()
}

/// A PrefixBuffer that stores a fixed size array without allocating on the
/// heap.
pub struct StaticBuffer<const SIZE: usize> {
    head: usize,
    tail: usize,
    data: [u8; SIZE],
}

impl<const SIZE: usize> StaticBuffer<SIZE> {
    /// Create a StaticBuffer where all bytes are uninitialized.
    pub fn new() -> (buffer: StaticBuffer<SIZE>)
        ensures
            buffer.valid(),
            buffer.bytes() == Seq::<u8>::empty(),
            buffer.room() == SIZE,
            buffer.capacity() == SIZE,
    {
        let buffer = StaticBuffer { head: SIZE, tail: SIZE, data: [0; SIZE] };
        assert(buffer.bytes() =~= Seq::<u8>::empty());
        buffer
    }

    /// Create a StaticBuffer where the last N bytes are initialized with
    /// `value`.
    pub fn with(value: &[u8]) -> (buffer: StaticBuffer<SIZE>)
        requires
            value@.len() <= SIZE,
        ensures
            buffer.valid(),
            buffer.bytes() == value@,
            buffer.room() == SIZE - value@.len(),
            buffer.capacity() == SIZE,
    {
        let mut buffer = StaticBuffer::<SIZE>::new();
        buffer.set(value);
        buffer
    }

    /// Truncate the initialized portion of the buffer to `size`.
    pub fn keep(&mut self, size: usize)
        requires
            old(self).valid(),
            size <= old(self).bytes().len(),
        ensures
            final(self).valid(),
            final(self).bytes() == old(self).bytes().take(size as int),
            final(self).room() == old(self).room(),
            final(self).capacity() == old(self).capacity(),
    {
        self.tail = self.head + size;
        assert(self.bytes() =~= old(self).bytes().take(size as int));
    }
}

impl<const SIZE: usize> Default for StaticBuffer<SIZE> {
    fn default() -> (buffer: StaticBuffer<SIZE>)
        ensures
            buffer.valid(),
            buffer.bytes() == Seq::<u8>::empty(),
            buffer.room() == SIZE,
            buffer.capacity() == SIZE,
    {
        StaticBuffer::new()
    }
}

impl<const SIZE: usize> PrefixBuffer for StaticBuffer<SIZE> {
    closed spec fn bytes(&self) -> Seq<u8> {
        self.data@.subrange(self.head as int, self.tail as int)
    }

    closed spec fn room(&self) -> nat {
        self.head as nat
    }

    closed spec fn capacity(&self) -> nat {
        SIZE as nat
    }

    closed spec fn valid(&self) -> bool {
        self.head <= self.tail <= SIZE
    }

    fn as_slice(&self) -> (slice: &[u8]) {
        slice_subrange(self.data.as_slice(), self.head, self.tail)
    }

    fn as_slice_mut(&mut self) -> (slice: &mut [u8]) {
        let size: usize = self.tail - self.head;
        let (_, back) = array_as_mut_slice(&mut self.data).split_at_mut(self.head);
        let (slice, _) = back.split_at_mut(size);
        slice
    }

    fn available(&self) -> (available: usize) {
        self.head
    }

    fn len(&self) -> (len: usize) {
        self.tail - self.head
    }

    fn reserve(&mut self, size: usize) -> (slice: &mut [u8]) {
        let start: usize = self.head - size;
        self.head = start;
        let (_, back) = array_as_mut_slice(&mut self.data).split_at_mut(start);
        let (slice, _) = back.split_at_mut(size);
        slice
    }

    fn take(&mut self, amount: usize) {
        self.head = self.head + amount;
        assert(self.bytes() =~= old(self).bytes().skip(amount as int));
    }

    fn view<'a>(&'a mut self) -> (view: BufferView<'a>) {
        let head: usize = self.head;
        let (front, _) = array_as_mut_slice(&mut self.data).split_at_mut(self.tail);
        BufferView { head, data: front }
    }

    fn reset(&mut self) {
        self.head = SIZE;
        self.tail = SIZE;
        assert(self.bytes() =~= Seq::<u8>::empty());
    }
}

/// A buffer in an array has room for as many bytes as the array holds, and those
/// that are there and the room for more fit into it.
pub proof fn static_capacity_is_its_size<const SIZE: usize>(buffer: StaticBuffer<SIZE>)
    requires
        buffer.valid(),
    ensures
        buffer.capacity() == SIZE,
        buffer.room() + buffer.bytes().len() <= SIZE,
{
}

/// An owned buffer's bytes and the room for more fit into what was allocated.
pub proof fn owned_bytes_fit(buffer: OwnedBuffer)
    requires
        buffer.valid(),
    ensures
        buffer.room() + buffer.bytes().len() <= buffer.capacity(),
{
}

/// Layers unwrap what layers wrapped: taking as many bytes as were put in front
/// gives back what was there, and the room for them.
pub proof fn taking_undoes_prefixing<B: PrefixBuffer>(
    before: B,
    prefixed: B,
    taken: B,
    value: Seq<u8>,
)
    requires
        prefixed.bytes() == value + before.bytes(),
        prefixed.room() == before.room() - value.len(),
        taken.bytes() == prefixed.bytes().skip(value.len() as int),
        taken.room() == prefixed.room() + value.len(),
    ensures
        prefixed.bytes().take(value.len() as int) == value,
        taken.bytes() == before.bytes(),
        taken.room() == before.room(),
{
    assert(prefixed.bytes().take(value.len() as int) =~= value);
    assert(taken.bytes() =~= before.bytes());
}

/// A buffer that is set holds those bytes at its end, gives them out from the
/// front and takes others there, as far as it has room.
pub proof fn buffers_hold_what_was_put<B: PrefixBuffer>(
    set: &mut B,
    taken: &mut B,
    cleared: &mut B,
    value: &[u8],
    amount: usize,
    slices: (&[u8], &[u8]),
    lens: (usize, usize, usize),
    rooms: (usize, usize, usize),
    empty: (bool, bool),
)
    requires
        call_ensures(B::set, (set, value), ()),
        call_ensures(B::as_slice, (final(set),), slices.0),
        call_ensures(B::len, (final(set),), lens.0),
        call_ensures(B::available, (final(set),), rooms.0),
        call_ensures(B::is_empty, (final(set),), empty.0),
        *old(taken) == *final(set),
        amount <= value@.len(),
        call_ensures(B::take, (taken, amount), ()),
        call_ensures(B::as_slice, (final(taken),), slices.1),
        call_ensures(B::len, (final(taken),), lens.1),
        call_ensures(B::available, (final(taken),), rooms.1),
        *old(cleared) == *final(taken),
        call_ensures(B::reset, (cleared,), ()),
        call_ensures(B::len, (final(cleared),), lens.2),
        call_ensures(B::available, (final(cleared),), rooms.2),
        call_ensures(B::is_empty, (final(cleared),), empty.1),
    ensures
        slices.0@ == value@,
        lens.0 == value@.len() && rooms.0 + lens.0 == old(set).capacity(),
        empty.0 <==> value@.len() == 0,
        slices.1@ == value@.subrange(amount as int, value@.len() as int),
        lens.1 + amount == lens.0 && rooms.1 == rooms.0 + amount,
        lens.2 == 0 && rooms.2 == old(set).capacity() && empty.1,
{
}

/// What is put in front of the bytes comes out first, and the first four bytes
/// make up a number with the least significant in front.
pub proof fn prefixes_come_out_first<B: PrefixBuffer>(
    prefixed: &mut B,
    same: &mut B,
    taken: &mut B,
    value: &[u8],
    number: u32,
)
    requires
        call_ensures(B::prefix, (prefixed, value), same),
        value@.len() == 4,
        *old(taken) == *old(same),
        call_ensures(B::take_u32, (taken,), number),
    ensures
        old(same).bytes() == value@ + old(prefixed).bytes(),
        old(same).room() + 4 == old(prefixed).room(),
        number % 256 == value@[0],
        number / 256 % 256 == value@[1],
        number / 0x1_0000 % 256 == value@[2],
        number / 0x100_0000 == value@[3],
        final(taken).bytes() == old(prefixed).bytes(),
        final(taken).room() == old(prefixed).room(),
{
    assert((value@ + old(prefixed).bytes()).skip(4) == old(prefixed).bytes());
}

/// What is written into a reserved place stands in front of the bytes, and what
/// is written over them replaces them.
pub proof fn reserved_places_are_in_front<B: PrefixBuffer>(
    reserved: &mut B,
    place: &mut [u8],
    changed: &mut B,
    bytes: &mut [u8],
    size: usize,
)
    requires
        call_ensures(B::reserve, (reserved, size), place),
        final(place)@.len() == old(place)@.len(),
        call_ensures(B::as_slice_mut, (changed,), bytes),
        final(bytes)@.len() == old(bytes)@.len(),
    ensures
        old(place)@.len() == size,
        final(reserved).bytes() == final(place)@ + old(reserved).bytes(),
        final(reserved).room() + size == old(reserved).room(),
        old(bytes)@ == old(changed).bytes(),
        final(changed).bytes() == final(bytes)@,
        final(changed).room() == old(changed).room(),
{
}

/// New buffers hold what they are given at their end and have the rest as room;
/// keeping leaves the first bytes.
pub proof fn new_buffers_hold_what_they_are_given<const SIZE: usize>(
    size: usize,
    value: &[u8],
    owned: (OwnedBuffer, OwnedBuffer),
    in_array: (StaticBuffer<SIZE>, StaticBuffer<SIZE>),
    cut: &mut OwnedBuffer,
    cut_array: &mut StaticBuffer<SIZE>,
    kept: usize,
)
    requires
        value@.len() <= size,
        value@.len() <= SIZE,
        kept <= value@.len(),
        call_ensures(OwnedBuffer::new, (size,), owned.0),
        call_ensures(OwnedBuffer::with, (size, value), owned.1),
        call_ensures(StaticBuffer::<SIZE>::new, (), in_array.0),
        call_ensures(StaticBuffer::<SIZE>::with, (value,), in_array.1),
        *old(cut) == owned.1,
        call_ensures(OwnedBuffer::keep, (cut, kept), ()),
        *old(cut_array) == in_array.1,
        call_ensures(StaticBuffer::<SIZE>::keep, (cut_array, kept), ()),
    ensures
        owned.0.bytes().len() == 0 && owned.0.room() == size,
        in_array.0.bytes().len() == 0 && in_array.0.room() == SIZE,
        owned.1.bytes() == value@ && owned.1.room() + value@.len() == size,
        in_array.1.bytes() == value@ && in_array.1.room() + value@.len() == SIZE,
        final(cut).bytes() == value@.subrange(0, kept as int),
        final(cut_array).bytes() == value@.subrange(0, kept as int),
        final(cut).room() == owned.1.room() && final(cut_array).room() == in_array.1.room(),
{
}

/// A view of a slice holds the bytes that it is told are there.
pub proof fn views_hold_the_end_of_their_slice(
    blank: &mut [u8],
    filled: &mut [u8],
    written: &mut [u8],
    available: usize,
    value: &[u8],
    views: (BufferView, BufferView, BufferView),
)
    requires
        available <= old(filled)@.len(),
        value@.len() <= old(written)@.len(),
        call_ensures(BufferView::new, (blank,), views.0),
        call_ensures(BufferView::with_available, (available, filled), views.1),
        call_ensures(BufferView::with_prefix, (written, value), views.2),
    ensures
        views.0.bytes().len() == 0 && views.0.room() == old(blank)@.len(),
        views.1.bytes() == old(filled)@.subrange(available as int, old(filled)@.len() as int),
        views.1.room() == available,
        views.2.bytes() == value@ && views.2.room() + value@.len() == old(written)@.len(),
{
}

} // verus!
