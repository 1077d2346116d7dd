//! Trailers behind bodies.
//!
//! Clones of a body share the trailers that are still to come: those that arrive
//! behind it while it is read, and the one-shot callback that produces those
//! that are sent behind it. A [`TrailerTable`] keeps what is shared; bodies know
//! it by number.

use std::collections::HashMap;
use std::collections::HashSet;

use vstd::prelude::*;

use crate::web::headers::Headers;

verus! {

broadcast use vstd::std_specs::hash::group_hash_axioms;

/// What is known of trailers that arrive.
#[verifier::ext_equal]
pub struct InboundView {
    /// The fields of the trailers, once they arrived.
    pub fields: Option<Map<Seq<u8>, Seq<Seq<u8>>>>,
    /// Whether the body in front of them was read to its end.
    pub drained: bool,
}

impl InboundView {
    /// No trailers yet, for a body that is still to be read.
    pub open spec fn fresh() -> InboundView {
        InboundView { fields: None, drained: false }
    }

    /// The trailers, once the body was read to its end.
    pub open spec fn readable(self) -> Option<Map<Seq<u8>, Seq<Seq<u8>>>> {
        if self.drained {
            self.fields
        } else {
            None
        }
    }
}

/// Trailers that arrive behind a body.
pub struct InboundTrailers {
    headers: Option<Headers>,
    drained: bool,
}

impl View for InboundTrailers {
    type V = InboundView;

    closed spec fn view(&self) -> InboundView {
        InboundView {
            fields: match self.headers {
                Some(headers) => Some(headers@),
                None => None,
            },
            drained: self.drained,
        }
    }
}

impl InboundTrailers {
    /// No trailers yet, for a body that is still to be read.
    pub fn streaming() -> (trailers: InboundTrailers)
        ensures
            trailers@ == InboundView::fresh(),
    {
        InboundTrailers { headers: None, drained: false }
    }

    /// Stores the trailers, once. Later ones are returned.
    pub fn set(&mut self, headers: Headers) -> (stored: Result<(), Headers>)
        ensures
            if old(self)@.fields is None {
                &&& stored is Ok
                &&& final(self)@ == (InboundView { fields: Some(headers@), ..old(self)@ })
            } else {
                &&& stored == Err::<(), Headers>(headers)
                &&& final(self)@ == old(self)@
            },
    {
        if self.headers.is_some() {
            return Err(headers);
        }
        self.headers = Some(headers);
        Ok(())
    }

    /// Records that the body was read to its end.
    pub fn mark_drained(&mut self)
        ensures
            final(self)@ == (InboundView { drained: true, ..old(self)@ }),
    {
        self.drained = true;
    }

    /// The trailers, once the body was read to its end.
    pub fn get(&self) -> (headers: Option<&Headers>)
        ensures
            match headers {
                Some(headers) => self@.readable() == Some(headers@),
                None => self@.readable() is None,
            },
    {
        if self.drained {
            self.headers.as_ref()
        } else {
            None
        }
    }
}

/// The trailers behind a received body.
pub enum ReceivedTrailers {
    /// They are all there.
    Complete(Headers),
    /// They arrive while the body is read. A table keeps them under a number.
    Arriving(u64),
}

/// The trailers behind a received body.
#[verifier::ext_equal]
pub enum ReceivedView {
    /// They are all there.
    Complete(Map<Seq<u8>, Seq<Seq<u8>>>),
    /// They arrive while the body is read. A table keeps them under a number.
    Arriving(u64),
}

impl View for ReceivedTrailers {
    type V = ReceivedView;

    open spec fn view(&self) -> ReceivedView {
        match self {
            ReceivedTrailers::Complete(headers) => ReceivedView::Complete(headers@),
            ReceivedTrailers::Arriving(number) => ReceivedView::Arriving(*number),
        }
    }
}

impl ReceivedTrailers {
    /// The same trailers again. Those that arrive are shared, not copied.
    pub fn duplicate(&self) -> (copy: ReceivedTrailers)
        ensures
            copy@ == self@,
    {
        match self {
            ReceivedTrailers::Complete(headers) => ReceivedTrailers::Complete(headers.duplicate()),
            ReceivedTrailers::Arriving(number) => ReceivedTrailers::Arriving(*number),
        }
    }
}

/// What bodies share.
#[verifier::ext_equal]
pub struct TrailerTableView {
    /// The number that is handed out next.
    pub next: int,
    /// The callbacks for outbound trailers that were not taken yet.
    pub unused: Set<u64>,
    /// The inbound trailers.
    pub inbound: Map<u64, InboundView>,
}

/// What is done to a table.
pub enum TrailerStep {
    /// A callback is attached to a body.
    Attach,
    /// A response takes a callback, if it is there.
    Take(u64),
    /// A body starts to arrive.
    Open,
    /// Trailers arrive, if the number is there.
    Keep(u64, Map<Seq<u8>, Seq<Seq<u8>>>),
    /// A body was read to its end.
    Drain(u64),
    /// A body that arrived is no longer needed.
    Close(u64),
}

impl TrailerTableView {
    /// Nothing is shared yet.
    pub open spec fn fresh() -> TrailerTableView {
        TrailerTableView { next: 0, unused: Set::empty(), inbound: Map::empty() }
    }

    /// Every number in use was handed out.
    pub open spec fn valid(self) -> bool {
        &&& 0 <= self.next <= u64::MAX
        &&& forall|number: u64| #[trigger] self.unused.contains(number) ==> number < self.next
        &&& forall|number: u64| #[trigger]
            self.inbound.contains_key(number) ==> number < self.next
    }

    /// The table with one callback more.
    pub open spec fn attached(self) -> TrailerTableView {
        TrailerTableView {
            next: self.next + 1,
            unused: self.unused.insert(self.next as u64),
            ..self
        }
    }

    /// The table without a callback.
    pub open spec fn taken(self, callback: u64) -> TrailerTableView {
        TrailerTableView { unused: self.unused.remove(callback), ..self }
    }

    /// The table with one arriving body more.
    pub open spec fn opened(self) -> TrailerTableView {
        TrailerTableView {
            next: self.next + 1,
            inbound: self.inbound.insert(self.next as u64, InboundView::fresh()),
            ..self
        }
    }

    /// The table with trailers that arrived. The first ones are kept.
    pub open spec fn kept(
        self,
        number: u64,
        fields: Map<Seq<u8>, Seq<Seq<u8>>>,
    ) -> TrailerTableView {
        if self.inbound.contains_key(number) && self.inbound[number].fields is None {
            TrailerTableView {
                inbound: self.inbound.insert(
                    number,
                    InboundView { fields: Some(fields), ..self.inbound[number] },
                ),
                ..self
            }
        } else {
            self
        }
    }

    /// The table when a body was read to its end.
    pub open spec fn drained(self, number: u64) -> TrailerTableView {
        if self.inbound.contains_key(number) {
            TrailerTableView {
                inbound: self.inbound.insert(
                    number,
                    InboundView { drained: true, ..self.inbound[number] },
                ),
                ..self
            }
        } else {
            self
        }
    }

    /// The table without an arriving body.
    pub open spec fn closed(self, number: u64) -> TrailerTableView {
        TrailerTableView { inbound: self.inbound.remove(number), ..self }
    }

    /// The table after one more step.
    pub open spec fn stepped(self, step: TrailerStep) -> TrailerTableView {
        match step {
            TrailerStep::Attach => self.attached(),
            TrailerStep::Take(callback) => self.taken(callback),
            TrailerStep::Open => self.opened(),
            TrailerStep::Keep(number, fields) => self.kept(number, fields),
            TrailerStep::Drain(number) => self.drained(number),
            TrailerStep::Close(number) => self.closed(number),
        }
    }

    /// The trailers that can be read behind a body. Those of a body that is
    /// there as a whole can be read at once, others once it was read to its end.
    pub open spec fn readable(self, received: Option<ReceivedView>) -> Option<
        Map<Seq<u8>, Seq<Seq<u8>>>,
    > {
        match received {
            None => None,
            Some(ReceivedView::Complete(fields)) => Some(fields),
            Some(ReceivedView::Arriving(number)) => if self.inbound.contains_key(number) {
                self.inbound[number].readable()
            } else {
                None
            },
        }
    }

    /// Whether a body can be sent: it has no trailers, or nobody took the
    /// callback that produces them.
    pub open spec fn sendable(self, outbound: Option<u64>) -> bool {
        outbound matches Some(callback) ==> self.unused.contains(callback)
    }

    /// The table when a body was sent.
    pub open spec fn sent(self, outbound: Option<u64>) -> TrailerTableView {
        match outbound {
            Some(callback) => self.taken(callback),
            None => self,
        }
    }
}

/// What bodies share: the trailers that arrive behind them, and which of the
/// callbacks that produce outbound trailers were not taken yet.
pub struct TrailerTable {
    next: u64,
    unused: HashSet<u64>,
    inbound: HashMap<u64, InboundTrailers>,
}

impl View for TrailerTable {
    type V = TrailerTableView;

    closed spec fn view(&self) -> TrailerTableView {
        TrailerTableView {
            next: self.next as int,
            unused: self.unused@,
            inbound: self.inbound@.map_values(|trailers: InboundTrailers| trailers@),
        }
    }
}

impl TrailerTable {
    /// Nothing is shared yet.
    pub fn new() -> (table: TrailerTable)
        ensures
            table@ == TrailerTableView::fresh(),
            table@.valid(),
    {
        let table = TrailerTable { next: 0, unused: HashSet::new(), inbound: HashMap::new() };
        assert(table@.inbound =~= Map::empty());
        table
    }

    /// A number for a new callback that produces outbound trailers.
    pub fn attach(&mut self) -> (callback: u64)
        requires
            old(self)@.valid(),
            old(self)@.next < u64::MAX,
        ensures
            final(self)@.valid(),
            callback == old(self)@.next,
            final(self)@ == old(self)@.attached(),
    {
        let callback: u64 = self.next;
        self.next = callback + 1;
        self.unused.insert(callback);
        proof {
            assert(self@ =~= old(self)@.attached());
            assert forall|number: u64| #[trigger] self@.unused.contains(number) implies number
                < self@.next by {
                assert(number == callback || old(self)@.unused.contains(number));
            }
            assert forall|number: u64| #[trigger] self@.inbound.contains_key(number) implies number
                < self@.next by {
                assert(old(self)@.inbound.contains_key(number));
            }
        }
        callback
    }

    /// Takes a callback, once.
    pub fn take(&mut self, callback: u64) -> (taken: bool)
        ensures
            taken == old(self)@.unused.contains(callback),
            final(self)@ == old(self)@.taken(callback),
            old(self)@.valid() ==> final(self)@.valid(),
    {
        let taken = self.unused.remove(&callback);
        assert(self@.unused =~= old(self)@.unused.remove(callback));
        taken
    }

    /// A number for the trailers of a body that starts to arrive.
    pub fn open(&mut self) -> (number: u64)
        requires
            old(self)@.valid(),
            old(self)@.next < u64::MAX,
        ensures
            final(self)@.valid(),
            number == old(self)@.next,
            final(self)@ == old(self)@.opened(),
    {
        let number: u64 = self.next;
        self.next = number + 1;
        self.inbound.insert(number, InboundTrailers::streaming());
        proof {
            assert(self@.inbound =~= old(self)@.inbound.insert(number, InboundView::fresh()));
            assert forall|other: u64| #[trigger] self@.unused.contains(other) implies other
                < self@.next by {
                assert(old(self)@.unused.contains(other));
            }
            assert forall|other: u64| #[trigger] self@.inbound.contains_key(other) implies other
                < self@.next by {
                assert(other == number || old(self)@.inbound.contains_key(other));
            }
        }
        number
    }

    /// Whether the table keeps trailers under a number.
    pub fn is_open(&self, number: u64) -> (open: bool)
        ensures
            open == self@.inbound.contains_key(number),
    {
        self.inbound.contains_key(&number)
    }

    /// Whether another number can be handed out.
    pub fn has_numbers(&self) -> (has: bool)
        ensures
            has == (self@.next < u64::MAX),
    {
        self.next < u64::MAX
    }

    /// Keeps trailers that arrived, once. Later ones are returned.
    pub fn keep(&mut self, number: u64, headers: Headers) -> (kept: Result<(), Headers>)
        requires
            old(self)@.inbound.contains_key(number),
        ensures
            final(self)@ == old(self)@.kept(number, headers@),
            old(self)@.valid() ==> final(self)@.valid(),
            if old(self)@.inbound[number].fields is None {
                kept is Ok
            } else {
                kept == Err::<(), Headers>(headers)
            },
    {
        match self.inbound.remove(&number) {
            Some(mut trailers) => {
                let kept = trailers.set(headers);
                let ghost after = trailers@;
                self.inbound.insert(number, trailers);
                proof {
                    assert(self@.inbound =~= old(self)@.inbound.insert(number, after));
                    assert(self@.inbound =~= old(self)@.kept(number, headers@).inbound);
                }
                kept
            },
            None => Err(headers),
        }
    }

    /// Records that a body was read to its end.
    pub fn drain(&mut self, number: u64)
        ensures
            final(self)@ == old(self)@.drained(number),
            old(self)@.valid() ==> final(self)@.valid(),
    {
        match self.inbound.remove(&number) {
            Some(mut trailers) => {
                trailers.mark_drained();
                let ghost after = trailers@;
                self.inbound.insert(number, trailers);
                assert(self@.inbound =~= old(self)@.inbound.insert(number, after));
            },
            None => {
                assert(self@.inbound =~= old(self)@.inbound);
            },
        }
    }

    /// Forgets the trailers of a body that is no longer needed.
    pub fn close(&mut self, number: u64)
        ensures
            final(self)@ == old(self)@.closed(number),
            old(self)@.valid() ==> final(self)@.valid(),
    {
        self.inbound.remove(&number);
        assert(self@.inbound =~= old(self)@.inbound.remove(number));
    }

    /// The trailers under a number, once the body was read to its end.
    pub fn get(&self, number: u64) -> (headers: Option<&Headers>)
        ensures
            match headers {
                Some(headers) => self@.readable(Some(ReceivedView::Arriving(number))) == Some(
                    headers@,
                ),
                None => self@.readable(Some(ReceivedView::Arriving(number))) is None,
            },
    {
        match self.inbound.get(&number) {
            Some(trailers) => {
                assert(self@.inbound[number] == trailers@);
                trailers.get()
            },
            None => None,
        }
    }
}

impl Default for TrailerTable {
    fn default() -> (table: TrailerTable)
        ensures
            table@ == TrailerTableView::fresh(),
            table@.valid(),
    {
        TrailerTable::new()
    }
}

/// Of the clones of a body only one can send the trailers: once a callback was
/// taken, no other body with it can be sent, whatever else is done.
pub proof fn one_clone_sends_the_trailers(
    table: TrailerTableView,
    callback: u64,
    steps: Seq<TrailerStep>,
)
    requires
        table.valid(),
        table.unused.contains(callback),
        table.next + steps.len() <= u64::MAX,
    ensures
        table.sendable(Some(callback)),
        !steps.fold_left(
            table.sent(Some(callback)),
            |table: TrailerTableView, step: TrailerStep| table.stepped(step),
        ).sendable(Some(callback)),
{
    used_callbacks_stay_used(table.sent(Some(callback)), callback, steps);
}

proof fn used_callbacks_stay_used(table: TrailerTableView, callback: u64, steps: Seq<TrailerStep>)
    requires
        table.valid(),
        callback < table.next,
        !table.unused.contains(callback),
        table.next + steps.len() <= u64::MAX,
    ensures
        ({
            let after = steps.fold_left(
                table,
                |table: TrailerTableView, step: TrailerStep| table.stepped(step),
            );
            &&& after.valid()
            &&& callback < after.next <= table.next + steps.len()
            &&& !after.unused.contains(callback)
        }),
    decreases steps.len(),
{
    reveal_with_fuel(Seq::fold_left, 2);
    if steps.len() > 0 {
        let front = steps.drop_last();
        used_callbacks_stay_used(table, callback, front);
        let before = front.fold_left(
            table,
            |table: TrailerTableView, step: TrailerStep| table.stepped(step),
        );
        let after = before.stepped(steps.last());
        assert(steps.fold_left(
            table,
            |table: TrailerTableView, step: TrailerStep| table.stepped(step),
        ) == after);
        assert(after.valid());
    }
}

/// A callback that was attached can be sent, and the number is new: it produces
/// the trailers of no other body.
pub proof fn attached_callbacks_can_be_sent(table: TrailerTableView)
    requires
        table.valid(),
        table.next < u64::MAX,
    ensures
        table.attached().valid(),
        table.attached().sendable(Some(table.next as u64)),
        !table.sendable(Some(table.next as u64)),
{
}

/// Clones of a body that arrives share its trailers: reading any of them to its
/// end makes the trailers readable behind all, and before that they are readable
/// behind none.
pub proof fn clones_read_the_same_trailers(
    table: TrailerTableView,
    number: u64,
    fields: Map<Seq<u8>, Seq<Seq<u8>>>,
)
    requires
        table.valid(),
        table.inbound.contains_key(number),
        table.inbound[number] == InboundView::fresh(),
    ensures
        ({
            let shared = Some(ReceivedView::Arriving(number));
            &&& table.readable(shared) is None
            &&& table.kept(number, fields).readable(shared) is None
            &&& table.kept(number, fields).drained(number).readable(shared) == Some(fields)
            &&& table.drained(number).kept(number, fields).readable(shared) == Some(fields)
            &&& table.drained(number).readable(shared) is None
        }),
{
}

/// The first trailers that arrive behind a body stay, whatever arrives later.
pub proof fn first_trailers_stay(
    table: TrailerTableView,
    number: u64,
    first: Map<Seq<u8>, Seq<Seq<u8>>>,
    second: Map<Seq<u8>, Seq<Seq<u8>>>,
)
    ensures
        table.kept(number, first).kept(number, second) == table.kept(number, first),
{
}

/// The trailers of a body that is there as a whole can be read at once.
pub proof fn complete_trailers_are_readable(
    table: TrailerTableView,
    fields: Map<Seq<u8>, Seq<Seq<u8>>>,
)
    ensures
        table.readable(Some(ReceivedView::Complete(fields))) == Some(fields),
{
}

/// Trailers that arrive behind a body are read as they arrived, once the body was
/// read to its end and not before; the first that arrive stay.
pub proof fn trailers_are_read_after_their_body(
    opening: &mut TrailerTable,
    keeping: &mut TrailerTable,
    again: &mut TrailerTable,
    draining: &mut TrailerTable,
    closing: &mut TrailerTable,
    number: u64,
    headers: (Headers, Headers),
    kept: (Result<(), Headers>, Result<(), Headers>),
    found: (Option<&Headers>, Option<&Headers>, Option<&Headers>),
    open: (bool, bool),
)
    requires
        old(opening)@.next < u64::MAX,
        call_ensures(TrailerTable::open, (opening,), number),
        call_ensures(TrailerTable::is_open, (final(opening), number), open.0),
        *old(keeping) == *final(opening),
        call_ensures(TrailerTable::keep, (keeping, number, headers.0), kept.0),
        call_ensures(TrailerTable::get, (final(keeping), number), found.0),
        *old(again) == *final(keeping),
        call_ensures(TrailerTable::keep, (again, number, headers.1), kept.1),
        *old(draining) == *final(again),
        call_ensures(TrailerTable::drain, (draining, number), ()),
        call_ensures(TrailerTable::get, (final(draining), number), found.1),
        *old(closing) == *final(draining),
        call_ensures(TrailerTable::close, (closing, number), ()),
        call_ensures(TrailerTable::get, (final(closing), number), found.2),
        call_ensures(TrailerTable::is_open, (final(closing), number), open.1),
    ensures
        open.0 && !open.1,
        kept.0 is Ok,
        kept.1 == Err::<(), Headers>(headers.1),
        found.0 is None,
        found.1 matches Some(fields) && fields@ == headers.0@,
        found.2 is None,
{
}

/// A callback is taken once. Its number is its own, and taking it takes no
/// other.
pub proof fn callbacks_are_taken_once(
    first: &mut TrailerTable,
    second: &mut TrailerTable,
    taking: &mut TrailerTable,
    again: &mut TrailerTable,
    other: &mut TrailerTable,
    callbacks: (u64, u64),
    taken: (bool, bool, bool),
)
    requires
        old(first)@.next + 1 < u64::MAX,
        0 <= old(first)@.next,
        call_ensures(TrailerTable::attach, (first,), callbacks.0),
        *old(second) == *final(first),
        call_ensures(TrailerTable::attach, (second,), callbacks.1),
        *old(taking) == *final(second),
        call_ensures(TrailerTable::take, (taking, callbacks.0), taken.0),
        *old(again) == *final(taking),
        call_ensures(TrailerTable::take, (again, callbacks.0), taken.1),
        *old(other) == *final(again),
        call_ensures(TrailerTable::take, (other, callbacks.1), taken.2),
    ensures
        callbacks.0 != callbacks.1,
        taken.0 && !taken.1 && taken.2,
{
}

/// The trailers of one body are its own: what arrives behind another, or is read
/// of it, changes nothing.
pub proof fn trailers_belong_to_one_body(
    table: TrailerTableView,
    number: u64,
    other: u64,
    fields: Map<Seq<u8>, Seq<Seq<u8>>>,
    callback: u64,
)
    requires
        number != other,
    ensures
        ({
            let mine = Some(ReceivedView::Arriving(number));
            &&& table.kept(other, fields).readable(mine) == table.readable(mine)
            &&& table.drained(other).readable(mine) == table.readable(mine)
            &&& table.closed(other).readable(mine) == table.readable(mine)
            &&& table.taken(callback).readable(mine) == table.readable(mine)
            &&& table.kept(other, fields).unused == table.unused
            &&& table.drained(other).unused == table.unused
            &&& table.readable(None) is None
        }),
{
}

/// Trailers of a single body are stored once and found once its body was read.
pub proof fn stored_trailers_are_found(
    fresh: InboundTrailers,
    storing: &mut InboundTrailers,
    marking: &mut InboundTrailers,
    headers: Headers,
    stored: Result<(), Headers>,
    found: (Option<&Headers>, Option<&Headers>),
)
    requires
        call_ensures(InboundTrailers::streaming, (), fresh),
        *old(storing) == fresh,
        call_ensures(InboundTrailers::set, (storing, headers), stored),
        call_ensures(InboundTrailers::get, (final(storing),), found.0),
        *old(marking) == *final(storing),
        call_ensures(InboundTrailers::mark_drained, (marking,), ()),
        call_ensures(InboundTrailers::get, (final(marking),), found.1),
    ensures
        stored is Ok,
        found.0 is None,
        found.1 matches Some(fields) && fields@ == headers@,
{
}

/// A new table is empty and has numbers to hand out, and the copy of trailers
/// stands for the same.
pub proof fn new_tables_have_numbers(
    made: TrailerTable,
    has: bool,
    table: &TrailerTable,
    more: bool,
    trailers: &ReceivedTrailers,
    copy: ReceivedTrailers,
)
    requires
        call_ensures(TrailerTable::new, (), made),
        call_ensures(TrailerTable::has_numbers, (&made,), has),
        call_ensures(TrailerTable::has_numbers, (table,), more),
        call_ensures(ReceivedTrailers::duplicate, (trailers,), copy),
    ensures
        made@.next == 0 && made@.unused == Set::<u64>::empty(),
        forall|number: u64| !#[trigger] made@.inbound.contains_key(number),
        has,
        more <==> table@.next < 0xffff_ffff_ffff_ffff,
        copy@ == trailers@,
{
}

} // verus!
