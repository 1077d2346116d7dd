//! Values that travel over a pipe inside one process.
//!
//! A pipe carries bytes. A value that is sent over one waits in a
//! [`HandleTable`]; what travels is the number under which the other side takes
//! it out, once.

use vstd::prelude::*;

use crate::handle_table::HandleTable;
use crate::handle_table::HandleTableView;
use crate::handle_table::Index;

verus! {

/// How many bytes the number of a value takes.
pub const POINTER_SIZE: usize = 8;

/// How many bytes an identifier and the number of a value take.
pub const MESSAGE_SIZE: usize = 16;

/// The identifier of a message that has none.
pub const ZERO_ID: u64 = 0;

/// The number that bytes stand for, the most significant first.
pub open spec fn big_endian(bytes: Seq<u8>) -> int
    decreases bytes.len(),
{
    if bytes.len() == 0 {
        0
    } else {
        256 * big_endian(bytes.drop_last()) + bytes.last()
    }
}

/// The most significant byte, and what the others stand for.
proof fn big_endian_of_eight(bytes: Seq<u8>)
    requires
        bytes.len() == 8,
    ensures
        big_endian(bytes) == bytes[7] + 256 * (bytes[6] + 256 * (bytes[5] + 256 * (bytes[4] + 256
            * (bytes[3] + 256 * (bytes[2] + 256 * (bytes[1] + 256 * bytes[0])))))),
{
    reveal_with_fuel(big_endian, 9);
}

/// Eight bytes are told apart by the number that they stand for.
proof fn big_endian_tells_apart(first: Seq<u8>, second: Seq<u8>)
    requires
        first.len() == second.len(),
        big_endian(first) == big_endian(second),
    ensures
        first == second,
    decreases first.len(),
{
    if first.len() > 0 {
        big_endian_tells_apart(first.drop_last(), second.drop_last());
        assert(first =~= first.drop_last().push(first.last()));
        assert(second =~= second.drop_last().push(second.last()));
    } else {
        assert(first =~= second);
    }
}

/// Converts an identifier to bytes, the most significant first.
pub fn id_to_buffer(id: u64) -> (buffer: [u8; 8])
    ensures
        big_endian(buffer@) == id,
{
    let rest1: u64 = id / 256;
    let rest2: u64 = rest1 / 256;
    let rest3: u64 = rest2 / 256;
    let rest4: u64 = rest3 / 256;
    let rest5: u64 = rest4 / 256;
    let rest6: u64 = rest5 / 256;
    let rest7: u64 = rest6 / 256;
    let buffer: [u8; 8] = [
        rest7 as u8,
        (rest6 % 256) as u8,
        (rest5 % 256) as u8,
        (rest4 % 256) as u8,
        (rest3 % 256) as u8,
        (rest2 % 256) as u8,
        (rest1 % 256) as u8,
        (id % 256) as u8,
    ];
    proof {
        big_endian_of_eight(buffer@);
    }
    buffer
}

/// Converts bytes to an identifier.
pub fn id_from_buffer(buffer: [u8; 8]) -> (id: u64)
    ensures
        id == big_endian(buffer@),
{
    proof {
        big_endian_of_eight(buffer@);
    }
    let part1: u64 = buffer[0] as u64 * 256 + buffer[1] as u64;
    let part2: u64 = part1 * 256 + buffer[2] as u64;
    let part3: u64 = part2 * 256 + buffer[3] as u64;
    let part4: u64 = part3 * 256 + buffer[4] as u64;
    let part5: u64 = part4 * 256 + buffer[5] as u64;
    let part6: u64 = part5 * 256 + buffer[6] as u64;
    part6 * 256 + buffer[7] as u64
}

/// Whether bytes stand for a value that waits to be taken.
pub open spec fn announces<T>(waiting: HandleTableView<Box<T>>, bytes: Seq<u8>) -> bool {
    &&& waiting.values.contains_key(big_endian(bytes))
    &&& 0 < big_endian(bytes) <= usize::MAX
}

/// Puts a value among those that wait, and gives the bytes that stand for it.
pub fn pointer_to_buffer<T>(pointer: Box<T>, waiting: &mut HandleTable<Box<T>>) -> (buffer: [u8; 8])
    requires
        old(waiting).valid(),
        old(waiting)@.free.len() > 0 || old(waiting)@.slots < usize::MAX,
    ensures
        final(waiting).valid(),
        big_endian(buffer@) == old(waiting)@.next(),
        final(waiting)@ == old(waiting)@.inserted(pointer),
        final(waiting).count() == old(waiting).count() + 1,
        announces(final(waiting)@, buffer@),
{
    let index = waiting.insert(pointer);
    let number: usize = index.get();
    id_to_buffer(number as u64)
}

/// Takes the value that bytes stand for. Bytes stand for a value from when
/// [`pointer_to_buffer`] gave them until they are used here.
pub fn pointer_from_buffer<T>(buf: [u8; 8], waiting: &mut HandleTable<Box<T>>) -> (pointer: Box<T>)
    requires
        old(waiting).valid(),
        announces(old(waiting)@, buf@),
    ensures
        final(waiting).valid(),
        pointer == old(waiting)@.values[big_endian(buf@)],
        final(waiting)@ == old(waiting)@.removed(big_endian(buf@)),
        final(waiting).count() == old(waiting).count() - 1,
        !announces(final(waiting)@, buf@),
{
    let number: u64 = id_from_buffer(buf);
    let index = Index::new(number as usize).unwrap();
    waiting.remove(index).unwrap()
}

/// Takes the value that bytes stand for, see [`pointer_from_buffer`].
pub fn pointer_from_buffer_ref<T>(
    buf: &[u8; 8],
    waiting: &mut HandleTable<Box<T>>,
) -> (pointer: Box<T>)
    requires
        old(waiting).valid(),
        announces(old(waiting)@, buf@),
    ensures
        final(waiting).valid(),
        pointer == old(waiting)@.values[big_endian(buf@)],
        final(waiting)@ == old(waiting)@.removed(big_endian(buf@)),
        final(waiting).count() == old(waiting).count() - 1,
        !announces(final(waiting)@, buf@),
{
    pointer_from_buffer(*buf, waiting)
}

/// Whether bytes stand for a value that waits to be taken.
pub fn is_announced<T>(buf: [u8; 8], waiting: &HandleTable<Box<T>>) -> (announced: bool)
    requires
        waiting.valid(),
    ensures
        announced == announces(waiting@, buf@),
{
    let number: u64 = id_from_buffer(buf);
    if number > usize::MAX as u64 {
        return false;
    }
    match Index::new(number as usize) {
        Some(index) => waiting.get(index).is_some(),
        None => false,
    }
}

/// A message with an identifier: eight bytes for the identifier and eight for
/// the number of the value.
#[derive(Clone, Copy, Debug)]
pub struct IdPointerMsg(pub [u8; 16]);

impl IdPointerMsg {
    /// The identifier of the message.
    pub open spec fn id(self) -> int {
        big_endian(self.0@.take(8))
    }

    /// The bytes that stand for the value.
    pub open spec fn pointer(self) -> Seq<u8> {
        self.0@.skip(8)
    }

    /// The identifier of the message.
    pub fn get_id(&self) -> (id: u64)
        ensures
            id == self.id(),
    {
        let bytes = self.0;
        let buffer: [u8; 8] = [
            bytes[0],
            bytes[1],
            bytes[2],
            bytes[3],
            bytes[4],
            bytes[5],
            bytes[6],
            bytes[7],
        ];
        assert(buffer@ =~= self.0@.take(8));
        id_from_buffer(buffer)
    }

    /// The bytes that stand for the value.
    pub fn get_ptr(&self) -> (buffer: [u8; 8])
        ensures
            buffer@ == self.pointer(),
    {
        let bytes = self.0;
        let buffer: [u8; 8] = [
            bytes[8],
            bytes[9],
            bytes[10],
            bytes[11],
            bytes[12],
            bytes[13],
            bytes[14],
            bytes[15],
        ];
        assert(buffer@ =~= self.pointer());
        buffer
    }

    /// The identifier, and the value taken from those that wait.
    pub fn into_id_box<T>(self, waiting: &mut HandleTable<Box<T>>) -> (message: (u64, Box<T>))
        requires
            old(waiting).valid(),
            announces(old(waiting)@, self.pointer()),
        ensures
            final(waiting).valid(),
            message.0 == self.id(),
            message.1 == old(waiting)@.values[big_endian(self.pointer())],
            final(waiting)@ == old(waiting)@.removed(big_endian(self.pointer())),
            final(waiting).count() == old(waiting).count() - 1,
            !announces(final(waiting)@, self.pointer()),
    {
        let id: u64 = self.get_id();
        (id, pointer_from_buffer(self.get_ptr(), waiting))
    }

    /// The message for an identifier and a value, which then waits to be taken.
    pub fn from_id_box<T>(id: u64, pointer: Box<T>, waiting: &mut HandleTable<Box<T>>) -> (message:
        IdPointerMsg)
        requires
            old(waiting).valid(),
            old(waiting)@.free.len() > 0 || old(waiting)@.slots < usize::MAX,
        ensures
            final(waiting).valid(),
            message.id() == id,
            big_endian(message.pointer()) == old(waiting)@.next(),
            final(waiting)@ == old(waiting)@.inserted(pointer),
            final(waiting).count() == old(waiting).count() + 1,
            announces(final(waiting)@, message.pointer()),
    {
        let head: [u8; 8] = id_to_buffer(id);
        let tail: [u8; 8] = pointer_to_buffer(pointer, waiting);
        let message = IdPointerMsg(
            [
                head[0],
                head[1],
                head[2],
                head[3],
                head[4],
                head[5],
                head[6],
                head[7],
                tail[0],
                tail[1],
                tail[2],
                tail[3],
                tail[4],
                tail[5],
                tail[6],
                tail[7],
            ],
        );
        assert(message.0@.take(8) =~= head@);
        assert(message.pointer() =~= tail@);
        message
    }
}

/// An identifier is read back as it was written, and no other eight bytes stand
/// for it.
pub proof fn identifiers_read_back(written: Seq<u8>, bytes: Seq<u8>)
    requires
        written.len() == 8,
        bytes.len() == 8,
    ensures
        big_endian(bytes) == big_endian(written) <==> bytes == written,
{
    if big_endian(bytes) == big_endian(written) {
        big_endian_tells_apart(bytes, written);
    }
}

/// What was put among the values that wait is what its bytes take out, whatever
/// is sent or taken in between under other numbers; afterwards all is as before
/// but for the number being the next one to use.
pub proof fn values_arrive_unchanged<T>(before: HandleTableView<Box<T>>, value: Box<T>)
    requires
        before.valid(),
    ensures
        !before.values.contains_key(before.next()),
        before.inserted(value).values[before.next()] == value,
        before.inserted(value).removed(before.next()).values == before.values,
        before.inserted(value).removed(before.next()).next() == before.next(),
        forall|number: int| #[trigger]
            before.values.contains_key(number) ==> before.inserted(value).values[number]
                == before.values[number],
{
    if before.free.len() > 0 {
        assert(before.free.contains(before.free.last()));
    }
    assert(before.inserted(value).removed(before.next()).values =~= before.values);
}

/// An identifier comes back from its bytes, which are those of the number, the
/// most significant first.
pub proof fn identifiers_survive_their_bytes(
    id: u64,
    bytes: [u8; 8],
    read: u64,
    given: [u8; 8],
    of_given: u64,
)
    requires
        call_ensures(id_to_buffer, (id,), bytes),
        call_ensures(id_from_buffer, (bytes,), read),
        call_ensures(id_from_buffer, (given,), of_given),
    ensures
        read == id,
        bytes@[7] == id % 256,
        bytes@[6] == id / 256 % 256,
        bytes@[0] == id / 0x100_0000_0000_0000,
        of_given % 256 == given@[7],
        of_given / 0x100_0000_0000_0000 == given@[0],
{
    big_endian_of_eight(bytes@);
    big_endian_of_eight(given@);
}

/// A value that is sent is the value that its bytes bring back, once; another
/// value is left alone.
pub proof fn sent_values_come_back<T>(
    sent: &mut HandleTable<Box<T>>,
    taken: &mut HandleTable<Box<T>>,
    value: Box<T>,
    bytes: [u8; 8],
    other: [u8; 8],
    back: Box<T>,
    announced: (bool, bool, bool, bool, bool),
)
    requires
        old(sent).valid(),
        call_ensures(is_announced::<T>, (bytes, &*old(sent)), announced.0),
        call_ensures(is_announced::<T>, (other, &*old(sent)), announced.1),
        call_ensures(pointer_to_buffer::<T>, (value, sent), bytes),
        call_ensures(is_announced::<T>, (bytes, final(sent)), announced.2),
        *old(taken) == *final(sent),
        call_ensures(pointer_from_buffer::<T>, (bytes, taken), back),
        call_ensures(is_announced::<T>, (bytes, final(taken)), announced.3),
        call_ensures(is_announced::<T>, (other, final(taken)), announced.4),
    ensures
        back == value,
        !announced.0 && announced.2 && !announced.3,
        announced.4 == announced.1,
{
    crate::handle_table::count_is_that_of_the_values(old(sent));
    values_arrive_unchanged(old(sent)@, value);
}

/// Bytes bring the same value back whether they are given away or lent.
pub proof fn lent_bytes_bring_the_same_value<T>(
    given: &mut HandleTable<Box<T>>,
    lent: &mut HandleTable<Box<T>>,
    bytes: [u8; 8],
    values: (Box<T>, Box<T>),
)
    requires
        *old(given) == *old(lent),
        call_ensures(pointer_from_buffer::<T>, (bytes, given), values.0),
        call_ensures(pointer_from_buffer_ref::<T>, (&bytes, lent), values.1),
    ensures
        values.0 == values.1,
        final(given)@ == final(lent)@,
{
}

/// A message brings its identifier and its value back.
pub proof fn messages_bring_back_what_was_sent<T>(
    sent: &mut HandleTable<Box<T>>,
    taken: &mut HandleTable<Box<T>>,
    id: u64,
    value: Box<T>,
    message: IdPointerMsg,
    back: (u64, Box<T>),
    read: u64,
    bytes: [u8; 8],
)
    requires
        old(sent).valid(),
        call_ensures(IdPointerMsg::from_id_box::<T>, (id, value, sent), message),
        call_ensures(IdPointerMsg::get_id, (&message,), read),
        call_ensures(IdPointerMsg::get_ptr, (&message,), bytes),
        *old(taken) == *final(sent),
        call_ensures(IdPointerMsg::into_id_box::<T>, (message, taken), back),
    ensures
        back == (id, value),
        read == id,
        bytes@ == message.0@.subrange(8, 16),
        final(taken)@.values == old(sent)@.values,
{
    crate::handle_table::count_is_that_of_the_values(old(sent));
    values_arrive_unchanged(old(sent)@, value);
}

} // verus!
