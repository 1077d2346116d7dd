//! Clocks: the system's, and one that tests move by hand.

use vstd::prelude::*;

use crate::time::Duration;
use crate::time::Instant;

verus! {

/// How far a clock moves when it cannot move as far as it was told, in seconds:
/// a hundred years.
pub const SATURATED_ADVANCE_SECS: u64 = 3_153_600_000;

/// Opaque identifier for a registered virtual timer.
#[derive(Clone, Copy, Debug, PartialEq, Eq, Hash, Structural)]
pub struct TimerId(u64);

impl View for TimerId {
    type V = int;

    /// The number of the timer.
    closed spec fn view(&self) -> int {
        self.0 as int
    }
}

impl TimerId {
    /// The identifier with a number.
    pub fn from_number(number: u64) -> (id: TimerId)
        ensures
            id@ == number,
    {
        TimerId(number)
    }
}

/// Clock provider for runtime timing operations. `W` is what a timer wakes.
pub trait Clock<W> {
    /// Whether the clock goes by the system's time.
    spec fn goes_by_system(&self) -> bool;

    /// What this clock shows while the system's clock shows `system`.
    spec fn shows(&self, system: Instant) -> Instant;

    /// Returns the current instant according to this clock. `system` is what
    /// the system's clock shows.
    fn now(&self, system: Instant) -> (now: Instant)
        ensures
            now == self.shows(system),
    ;

    /// Registers a timer to fire at `deadline`, returning its identifier.
    fn register_timer(&mut self, deadline: Instant, waker: W) -> (id: TimerId)
        requires
            old(self).sound(),
            old(self).may_register(),
        ensures
            final(self).sound(),
    ;

    /// Whether the clock's timers are in order.
    spec fn sound(&self) -> bool;

    /// Whether one more timer can be told from the others.
    spec fn may_register(&self) -> bool;

    /// Cancels a previously registered timer. If the timer has already fired or
    /// does not exist, this is a no-op.
    fn cancel_timer(&mut self, id: TimerId)
        requires
            old(self).sound(),
        ensures
            final(self).sound(),
    ;

    /// Returns `true` if this clock uses real system time.
    fn is_real(&self) -> (is: bool)
        ensures
            is == self.goes_by_system(),
    ;

    /// If auto-advance is enabled, advances time to `deadline`. Returns what is
    /// to be woken if it did.
    fn try_auto_advance(&mut self, deadline: Instant) -> (fired: Option<Vec<W>>)
        requires
            old(self).sound(),
        ensures
            final(self).sound(),
            old(self).goes_by_system() ==> fired is None,
    ;
}

/// Real system clock implementation. Its timers are the kernel's, so that
/// registering and canceling them does nothing here.
#[derive(Clone, Copy, Debug, PartialEq, Eq, Structural)]
pub struct SystemClock {}

impl<W> Clock<W> for SystemClock {
    open spec fn goes_by_system(&self) -> bool {
        true
    }

    open spec fn shows(&self, system: Instant) -> Instant {
        system
    }

    open spec fn sound(&self) -> bool {
        true
    }

    open spec fn may_register(&self) -> bool {
        true
    }

    fn now(&self, system: Instant) -> (now: Instant) {
        system
    }

    fn register_timer(&mut self, deadline: Instant, waker: W) -> (id: TimerId)
        ensures
            id@ == 0,
            *final(self) == *old(self),
    {
        TimerId(0)
    }

    fn cancel_timer(&mut self, id: TimerId)
        ensures
            *final(self) == *old(self),
    {
    }

    fn is_real(&self) -> (is: bool) {
        true
    }

    fn try_auto_advance(&mut self, deadline: Instant) -> (fired: Option<Vec<W>>) {
        None
    }
}

/// A timer of a virtual clock.
pub struct VirtualTimer<W> {
    /// Its identifier.
    pub id: TimerId,
    /// When it fires.
    pub deadline: Instant,
    /// What it wakes.
    pub waker: W,
}

/// What a virtual clock knows.
#[verifier::ext_equal]
pub struct ClockView<W> {
    /// When it started.
    pub epoch: Instant,
    /// What it shows.
    pub current: Instant,
    /// Whether a sleep moves it.
    pub auto_advance: bool,
    /// Its timers, the next to fire first.
    pub timers: Seq<VirtualTimer<W>>,
    /// The number of the next timer.
    pub next_timer_id: int,
}

/// Whether a timer fires before another: at an earlier deadline, or at the same
/// one but registered earlier.
pub open spec fn fires_before<W>(first: VirtualTimer<W>, second: VirtualTimer<W>) -> bool {
    first.deadline@ < second.deadline@ || (first.deadline@ == second.deadline@ && first.id@
        < second.id@)
}

/// How many timers at the front are due.
pub open spec fn due_count<W>(timers: Seq<VirtualTimer<W>>, now: int) -> nat
    decreases timers.len(),
{
    if timers.len() == 0 || timers[0].deadline@ > now {
        0
    } else {
        1 + due_count(timers.drop_first(), now)
    }
}

/// Timers with one more, behind all that fire no later.
pub open spec fn registered<W>(
    timers: Seq<VirtualTimer<W>>,
    timer: VirtualTimer<W>,
) -> Seq<VirtualTimer<W>> {
    let position = due_count(timers, timer.deadline@);
    timers.take(position as int) + seq![timer] + timers.skip(position as int)
}

/// Timers without those of an identifier.
pub open spec fn canceled<W>(timers: Seq<VirtualTimer<W>>, id: int) -> Seq<VirtualTimer<W>>
    decreases timers.len(),
{
    if timers.len() == 0 {
        timers
    } else if timers.last().id@ == id {
        canceled(timers.drop_last(), id)
    } else {
        canceled(timers.drop_last(), id).push(timers.last())
    }
}

impl<W> ClockView<W> {
    /// Timers stand in the order in which they fire, no two have the same number,
    /// and none has a number that was not handed out.
    pub open spec fn valid(self) -> bool {
        &&& forall|i: int, j: int|
            0 <= i < j < self.timers.len() ==> fires_before(
                #[trigger] self.timers[i],
                #[trigger] self.timers[j],
            )
        &&& forall|i: int, j: int|
            0 <= i < j < self.timers.len() ==> (#[trigger] self.timers[i]).id@ != (
            #[trigger] self.timers[j]).id@
        &&& forall|i: int|
            0 <= i < self.timers.len() ==> (#[trigger] self.timers[i]).id@ < self.next_timer_id
    }

    /// Whether a timer with a number is there.
    pub open spec fn has_timer(self, id: TimerId) -> bool {
        exists|i: int| 0 <= i < self.timers.len() && (#[trigger] self.timers[i]).id@ == id@
    }

    /// Whether a timer with a number is there, at a deadline.
    pub open spec fn has_timer_at(self, id: TimerId, deadline: Instant) -> bool {
        exists|i: int|
            0 <= i < self.timers.len() && (#[trigger] self.timers[i]).id@ == id@
                && self.timers[i].deadline == deadline
    }

    /// What the clock's move to a time wakes, in that order. A time before the
    /// one that it shows wakes nothing.
    pub open spec fn fired(self, target: Instant) -> Seq<W> {
        if target@ < self.current@ {
            Seq::empty()
        } else {
            self.timers.take(due_count(self.timers, target@) as int).map_values(
                |timer: VirtualTimer<W>| timer.waker,
            )
        }
    }

    /// The clock after its move to a time. A time before the one that it shows
    /// leaves it as it is.
    pub open spec fn moved(self, target: Instant) -> ClockView<W> {
        if target@ < self.current@ {
            self
        } else {
            ClockView {
                current: target,
                timers: self.timers.skip(due_count(self.timers, target@) as int),
                ..self
            }
        }
    }

    /// The clock with one timer more.
    pub open spec fn with_timer(self, deadline: Instant, waker: W, id: TimerId) -> ClockView<W> {
        ClockView {
            timers: registered(self.timers, VirtualTimer { id, deadline, waker }),
            next_timer_id: self.next_timer_id + 1,
            ..self
        }
    }

    /// The clock without a timer.
    pub open spec fn without_timer(self, id: TimerId) -> ClockView<W> {
        ClockView { timers: canceled(self.timers, id@), ..self }
    }
}

/// Virtual clock for deterministic test timing. It moves only when it is told
/// to, and then fires its timers in the order of their deadlines, and those
/// with the same deadline in the order in which they were registered.
pub struct VirtualClock<W> {
    epoch: Instant,
    current: Instant,
    auto_advance: bool,
    timers: Vec<VirtualTimer<W>>,
    next_timer_id: u64,
}

impl<W> View for VirtualClock<W> {
    type V = ClockView<W>;

    closed spec fn view(&self) -> ClockView<W> {
        ClockView {
            epoch: self.epoch,
            current: self.current,
            auto_advance: self.auto_advance,
            timers: self.timers@,
            next_timer_id: self.next_timer_id as int,
        }
    }
}

impl<W> VirtualClock<W> {
    /// Creates a new virtual clock starting at the given instant.
    pub fn new(start: Instant) -> (clock: VirtualClock<W>)
        ensures
            clock@ == (ClockView::<W> {
                epoch: start,
                current: start,
                auto_advance: false,
                timers: Seq::empty(),
                next_timer_id: 1,
            }),
            clock@.valid(),
    {
        VirtualClock {
            epoch: start,
            current: start,
            auto_advance: false,
            timers: Vec::new(),
            next_timer_id: 1,
        }
    }

    /// Returns the start time (epoch) of this virtual clock.
    pub fn epoch(&self) -> (epoch: Instant)
        ensures
            epoch == self@.epoch,
    {
        self.epoch
    }

    /// Returns the current virtual time.
    pub fn now(&self) -> (now: Instant)
        ensures
            now == self@.current,
    {
        self.current
    }

    /// Advances virtual time by the given duration, or by a hundred years when
    /// that is too long. Returns what is to be woken, in that order.
    pub fn advance(&mut self, duration: Duration) -> (fired: Vec<W>)
        requires
            old(self)@.valid(),
            crate::time::instant_after(old(self)@.current@, duration@) is Some
                || crate::time::instant_after(
                old(self)@.current@,
                SATURATED_ADVANCE_SECS * crate::time::NANOS_PER_SEC,
            ) is Some,
        ensures
            final(self)@.valid(),
            ({
                let reach = match crate::time::instant_after(old(self)@.current@, duration@) {
                    Some(reach) => reach,
                    None => old(self)@.current@ + SATURATED_ADVANCE_SECS
                        * crate::time::NANOS_PER_SEC,
                };
                &&& final(self)@.current@ == reach
                &&& final(self)@ == old(self)@.moved(final(self)@.current)
                &&& fired@ == old(self)@.fired(final(self)@.current)
            }),
    {
        let target = match self.current.checked_add(duration) {
            Some(target) => target,
            None => match self.current.checked_add(Duration::from_secs(SATURATED_ADVANCE_SECS)) {
                Some(target) => target,
                None => self.current,
            },
        };
        let fired = self.advance_to(target);
        proof {
            crate::time::duration_is_not_negative(duration);
            crate::time::instant_is_its_time(target, self@.current);
        }
        fired
    }

    /// Advances virtual time to a specific instant. All timers with deadlines
    /// at or before `target` fire in deadline order. If `target` is before the
    /// current time, no timers fire and the clock is not moved backward. Returns
    /// what is to be woken, in that order.
    pub fn advance_to(&mut self, target: Instant) -> (fired: Vec<W>)
        requires
            old(self)@.valid(),
        ensures
            final(self)@ == old(self)@.moved(target),
            final(self)@.valid(),
            fired@ == old(self)@.fired(target),
    {
        let mut fired: Vec<W> = Vec::new();
        if !target.reached(self.current) {
            assert(fired@ =~= Seq::empty());
            return fired;
        }
        self.current = target;
        let ghost timers = self.timers@;
        let now = target;
        while self.timers.len() > 0 && now.reached(self.timers[0].deadline)
            invariant
                now == target,
                self.current == target,
                self.epoch == old(self).epoch,
                self.auto_advance == old(self).auto_advance,
                self.next_timer_id == old(self).next_timer_id,
                fired@.len() + self.timers@.len() == timers.len(),
                self.timers@ == timers.skip(fired@.len() as int),
                fired@ == timers.take(fired@.len() as int).map_values(
                    |timer: VirtualTimer<W>| timer.waker,
                ),
                due_count(timers, now@) == fired@.len() + due_count(self.timers@, now@),
            decreases self.timers@.len(),
        {
            let ghost before = self.timers@;
            let timer = self.timers.remove(0);
            proof {
                assert(self.timers@ =~= before.drop_first());
                assert(timer == timers[fired@.len() as int]);
            }
            fired.push(timer.waker);
            proof {
                assert(self.timers@ =~= timers.skip(fired@.len() as int));
                assert(fired@ =~= timers.take(fired@.len() as int).map_values(
                    |timer: VirtualTimer<W>| timer.waker,
                ));
            }
        }
        proof {
            assert(self@.timers =~= timers.skip(fired@.len() as int));
        }
        fired
    }

    /// Advances virtual time to the end of a sleep when auto-advance mode is
    /// enabled and the end is still to come. Returns what is to be woken if it
    /// did.
    pub fn advance_for(&mut self, deadline: Instant) -> (fired: Option<Vec<W>>)
        requires
            old(self)@.valid(),
        ensures
            final(self)@.valid(),
            if old(self)@.auto_advance && old(self)@.current@ < deadline@ {
                &&& final(self)@ == old(self)@.moved(deadline)
                &&& fired is Some
                &&& fired->0@ == old(self)@.fired(deadline)
            } else {
                &&& final(self)@ == old(self)@
                &&& fired is None
            },
    {
        if self.auto_advance && !self.current.reached(deadline) {
            Some(self.advance_to(deadline))
        } else {
            None
        }
    }

    /// Returns the deadline of the next pending timer, if any.
    pub fn next_deadline(&self) -> (deadline: Option<Instant>)
        ensures
            deadline == if self@.timers.len() > 0 {
                Some(self@.timers[0].deadline)
            } else {
                None
            },
    {
        if self.timers.len() > 0 {
            Some(self.timers[0].deadline)
        } else {
            None
        }
    }

    /// Returns the number of pending (unfired) timers.
    pub fn pending_timers(&self) -> (pending: usize)
        ensures
            pending == self@.timers.len(),
    {
        self.timers.len()
    }

    /// Enables or disables auto-advance mode, in which a sleep moves the clock
    /// to its end.
    pub fn set_auto_advance(&mut self, enabled: bool)
        ensures
            final(self)@ == (ClockView { auto_advance: enabled, ..old(self)@ }),
    {
        self.auto_advance = enabled;
    }

    /// Returns whether auto-advance mode is enabled.
    pub fn is_auto_advance(&self) -> (enabled: bool)
        ensures
            enabled == self@.auto_advance,
    {
        self.auto_advance
    }
}

/// The timers at the front that are counted are due, and the next is not.
proof fn due_count_is_exact<W>(timers: Seq<VirtualTimer<W>>, now: int)
    ensures
        due_count(timers, now) <= timers.len(),
        forall|i: int| 0 <= i < due_count(timers, now) ==> (#[trigger] timers[i]).deadline@ <= now,
        due_count(timers, now) < timers.len() ==> timers[due_count(timers, now) as int].deadline@
            > now,
    decreases timers.len(),
{
    if timers.len() > 0 && timers[0].deadline@ <= now {
        let rest = timers.drop_first();
        due_count_is_exact(rest, now);
        assert forall|i: int| 0 <= i < due_count(timers, now) implies (
        #[trigger] timers[i]).deadline@ <= now by {
            if i > 0 {
                assert(rest[i - 1] == timers[i]);
            }
        }
        if due_count(timers, now) < timers.len() {
            assert(rest[due_count(rest, now) as int] == timers[due_count(timers, now) as int]);
        }
    }
}

proof fn due_count_is<W>(timers: Seq<VirtualTimer<W>>, now: int, count: int)
    requires
        0 <= count <= timers.len(),
        forall|i: int| 0 <= i < count ==> (#[trigger] timers[i]).deadline@ <= now,
        count < timers.len() ==> timers[count].deadline@ > now,
    ensures
        due_count(timers, now) == count,
{
    due_count_is_exact(timers, now);
    if due_count(timers, now) < count {
        assert(timers[due_count(timers, now) as int].deadline@ <= now);
    }
}

proof fn registering_keeps_order<W>(clock: ClockView<W>, timer: VirtualTimer<W>)
    requires
        clock.valid(),
        timer.id@ == clock.next_timer_id,
    ensures
        (ClockView {
            timers: registered(clock.timers, timer),
            next_timer_id: clock.next_timer_id + 1,
            ..clock
        }).valid(),
{
    let timers = clock.timers;
    let now = timer.deadline@;
    let position = due_count(timers, now) as int;
    due_count_is_exact(timers, now);
    let after = registered(timers, timer);
    assert forall|i: int, j: int| 0 <= i < j < after.len() implies fires_before(
        #[trigger] after[i],
        #[trigger] after[j],
    ) by {
        if j < position {
            assert(fires_before(timers[i], timers[j]));
        } else if j == position {
            assert(timers[i].deadline@ <= now);
            assert(timers[i].id@ < clock.next_timer_id);
        } else if i == position {
            assert(timers[position].deadline@ > now);
            if j - 1 > position {
                assert(fires_before(timers[position], timers[j - 1]));
            }
        } else if i < position {
            assert(fires_before(timers[i], timers[j - 1]));
        } else {
            assert(fires_before(timers[i - 1], timers[j - 1]));
        }
    }
    assert forall|i: int, j: int| 0 <= i < j < after.len() implies (#[trigger] after[i]).id@ != (
    #[trigger] after[j]).id@ by {
        let first = if i < position { i } else { i - 1 };
        let second = if j < position { j } else { j - 1 };
        if i == position {
            assert(timers[second].id@ < clock.next_timer_id);
        } else if j == position {
            assert(timers[first].id@ < clock.next_timer_id);
        } else {
            assert(timers[first].id@ != timers[second].id@);
        }
    }
    assert forall|i: int| 0 <= i < after.len() implies (#[trigger] after[i]).id@
        < clock.next_timer_id + 1 by {
        if i < position {
            assert(timers[i].id@ < clock.next_timer_id);
        } else if i > position {
            assert(timers[i - 1].id@ < clock.next_timer_id);
        }
    }
}

/// Every timer that is left was there before, and those left keep their order.
proof fn canceling_keeps_order<W>(timers: Seq<VirtualTimer<W>>, id: int)
    requires
        forall|i: int, j: int|
            0 <= i < j < timers.len() ==> fires_before(#[trigger] timers[i], #[trigger] timers[j]),
        forall|i: int, j: int|
            0 <= i < j < timers.len() ==> (#[trigger] timers[i]).id@ != (#[trigger] timers[j]).id@,
    ensures
        forall|i: int, j: int|
            0 <= i < j < canceled(timers, id).len() ==> (#[trigger] canceled(timers, id)[i]).id@
                != (#[trigger] canceled(timers, id)[j]).id@,
        forall|i: int, j: int|
            0 <= i < j < canceled(timers, id).len() ==> fires_before(
                #[trigger] canceled(timers, id)[i],
                #[trigger] canceled(timers, id)[j],
            ),
        forall|i: int|
            0 <= i < canceled(timers, id).len() ==> timers.contains(
                #[trigger] canceled(timers, id)[i],
            ),
    decreases timers.len(),
{
    if timers.len() > 0 {
        let front = timers.drop_last();
        canceling_keeps_order(front, id);
        let left = canceled(front, id);
        let after = canceled(timers, id);
        assert forall|i: int| 0 <= i < after.len() implies timers.contains(#[trigger] after[i]) by {
            if i < left.len() {
                assert(front.contains(left[i]));
                let k = choose|k: int| 0 <= k < front.len() && front[k] == left[i];
                assert(timers[k] == after[i]);
            } else {
                assert(timers[timers.len() - 1] == after[i]);
            }
        }
        assert forall|i: int, j: int| 0 <= i < j < after.len() implies fires_before(
            #[trigger] after[i],
            #[trigger] after[j],
        ) by {
            if j < left.len() {
                assert(fires_before(left[i], left[j]));
            } else {
                assert(front.contains(left[i]));
                let k = choose|k: int| 0 <= k < front.len() && front[k] == left[i];
                assert(fires_before(timers[k], timers[timers.len() - 1]));
            }
        }
        assert forall|i: int, j: int| 0 <= i < j < after.len() implies (#[trigger] after[i]).id@
            != (#[trigger] after[j]).id@ by {
            if j < left.len() {
                assert(left[i].id@ != left[j].id@);
            } else {
                assert(front.contains(left[i]));
                let k = choose|k: int| 0 <= k < front.len() && front[k] == left[i];
                assert(timers[k].id@ != timers[timers.len() - 1].id@);
            }
        }
    }
}

impl<W> Clock<W> for VirtualClock<W> {
    open spec fn goes_by_system(&self) -> bool {
        false
    }

    open spec fn shows(&self, system: Instant) -> Instant {
        self@.current
    }

    open spec fn sound(&self) -> bool {
        self@.valid()
    }

    open spec fn may_register(&self) -> bool {
        self@.next_timer_id < u64::MAX
    }

    fn now(&self, system: Instant) -> (now: Instant) {
        self.current
    }

    fn register_timer(&mut self, deadline: Instant, waker: W) -> (id: TimerId)
        ensures
            id@ == old(self)@.next_timer_id,
            final(self)@ == old(self)@.with_timer(deadline, waker, id),
    {
        let id = TimerId(self.next_timer_id);
        let mut position: usize = 0;
        while position < self.timers.len() && deadline.reached(self.timers[position].deadline)
            invariant
                position <= self.timers@.len(),
                forall|i: int|
                    0 <= i < position ==> (#[trigger] self.timers@[i]).deadline@ <= deadline@,
            decreases self.timers@.len() - position,
        {
            position = position + 1;
        }
        proof {
            due_count_is(self.timers@, deadline@, position as int);
            registering_keeps_order(self@, VirtualTimer { id, deadline, waker });
        }
        let ghost timer = VirtualTimer { id, deadline, waker };
        self.timers.insert(position, VirtualTimer { id, deadline, waker });
        self.next_timer_id = self.next_timer_id + 1;
        assert(self@.timers =~= registered(old(self)@.timers, timer));
        id
    }

    fn cancel_timer(&mut self, id: TimerId)
        ensures
            final(self)@ == old(self)@.without_timer(id),
    {
        let ghost before = self.timers@;
        let ghost mut seen: int = 0;
        let mut position: usize = 0;
        assert(before.take(0) =~= Seq::empty());
        while position < self.timers.len()
            invariant
                0 <= seen <= before.len(),
                position == canceled(before.take(seen), id@).len(),
                self.timers@ == canceled(before.take(seen), id@) + before.skip(seen),
                self.epoch == old(self).epoch,
                self.current == old(self).current,
                self.auto_advance == old(self).auto_advance,
                self.next_timer_id == old(self).next_timer_id,
            decreases before.len() - seen,
        {
            proof {
                assert(before.take(seen + 1).drop_last() =~= before.take(seen));
                assert(before.take(seen + 1).last() == before[seen]);
                assert(self.timers@[position as int] == before[seen]);
            }
            if self.timers[position].id.0 == id.0 {
                self.timers.remove(position);
                assert(self.timers@ =~= canceled(before.take(seen), id@) + before.skip(seen + 1));
            } else {
                position = position + 1;
                assert(self.timers@ =~= canceled(before.take(seen), id@).push(before[seen])
                    + before.skip(seen + 1));
            }
            proof {
                seen = seen + 1;
            }
        }
        proof {
            assert(before.take(seen) =~= before);
            assert(self.timers@ =~= canceled(before, id@));
            assert(old(self).sound());
            assert(old(self)@.timers == before);
            canceling_keeps_order(before, id@);
            assert forall|i: int| 0 <= i < self@.timers.len() implies (
            #[trigger] self@.timers[i]).id@ < self@.next_timer_id by {
                assert(before.contains(canceled(before, id@)[i]));
                let k = choose|k: int| 0 <= k < before.len() && before[k] == self@.timers[i];
                assert(old(self)@.timers[k].id@ < old(self)@.next_timer_id);
            }
        }
    }

    fn is_real(&self) -> (is: bool) {
        false
    }

    fn try_auto_advance(&mut self, deadline: Instant) -> (fired: Option<Vec<W>>)
        ensures
            if old(self)@.auto_advance && old(self)@.current@ < deadline@ {
                &&& final(self)@ == old(self)@.moved(deadline)
                &&& fired is Some
                &&& fired->0@ == old(self)@.fired(deadline)
            } else {
                &&& final(self)@ == old(self)@
                &&& fired is None
            },
    {
        self.advance_for(deadline)
    }
}

/// What a sleep is up to after it was looked at.
pub enum SleepPoll<W> {
    /// It is over.
    Ready,
    /// It waits. `W` was given to the clock, or not needed.
    Pending(Option<W>),
}

/// A sleep on a virtual clock.
#[derive(Debug)]
pub struct VirtualSleep {
    /// When it is over.
    pub deadline: Instant,
    /// Its timer, while it waits.
    pub timer_id: Option<TimerId>,
    /// Whether it is over, or was canceled.
    pub completed: bool,
}

/// A clock after a sleep on it was looked at and found over, or not.
pub open spec fn slept<W>(clock: ClockView<W>, deadline: Instant) -> ClockView<W> {
    if clock.auto_advance && clock.current@ < deadline@ {
        clock.moved(deadline)
    } else {
        clock
    }
}

/// What has to be woken because a sleep moved its clock.
pub open spec fn woken<W>(clock: ClockView<W>, deadline: Instant) -> Seq<W> {
    if clock.auto_advance && clock.current@ < deadline@ {
        clock.fired(deadline)
    } else {
        Seq::empty()
    }
}

impl VirtualSleep {
    /// Whether the sleep is in step with its clock. A sleep that waits has one
    /// timer, at its deadline, until the clock reached that and fired it; the
    /// timer is then gone. A sleep that is over has none.
    pub open spec fn in_step<W>(self, clock: ClockView<W>) -> bool {
        self.timer_id matches Some(id) ==> {
            &&& !self.completed
            &&& id@ < clock.next_timer_id
            &&& if clock.current@ < self.deadline@ {
                clock.has_timer_at(id, self.deadline)
            } else {
                !clock.has_timer(id)
            }
        }
    }

    /// A sleep until a deadline.
    pub fn new(deadline: Instant) -> (sleep: VirtualSleep)
        ensures
            sleep == (VirtualSleep { deadline, timer_id: None, completed: false }),
    {
        VirtualSleep { deadline, timer_id: None, completed: false }
    }

    /// Whether the sleep is over, or was canceled.
    pub fn is_terminated(&self) -> (terminated: bool)
        ensures
            terminated == self.completed,
    {
        self.completed
    }

    /// Looks at the sleep. In auto-advance mode this moves the clock to the
    /// sleep's end. A sleep that goes on has one timer; `same_waker` says
    /// whether the one that it has wakes the same task, and then it is kept, so
    /// that it stays in its place among those with the same deadline. The
    /// result lists what is to be woken.
    pub fn poll<W>(&mut self, clock: &mut VirtualClock<W>, waker: W, same_waker: bool) -> (polled: (
        SleepPoll<W>,
        Vec<W>,
    ))
        requires
            !old(self).completed,
            old(clock)@.valid(),
            old(clock)@.next_timer_id < u64::MAX,
        ensures
            final(clock)@.valid(),
            old(self).in_step(old(clock)@) ==> final(self).in_step(final(clock)@),
            final(self).deadline == old(self).deadline,
            polled.1@ == woken(old(clock)@, old(self).deadline),
            ({
                let deadline = old(self).deadline;
                let reached = slept(old(clock)@, deadline);
                if reached.current@ >= deadline@ {
                    &&& polled.0 is Ready
                    &&& final(self).completed
                    &&& final(self).timer_id is None
                    &&& final(clock)@ == match old(self).timer_id {
                        Some(id) => reached.without_timer(id),
                        None => reached,
                    }
                } else {
                    &&& !final(self).completed
                    &&& if old(self).timer_id is Some && same_waker {
                        &&& polled.0 == SleepPoll::<W>::Pending(Some(waker))
                        &&& final(self).timer_id == old(self).timer_id
                        &&& final(clock)@ == reached
                    } else {
                        let cleared = match old(self).timer_id {
                            Some(id) => reached.without_timer(id),
                            None => reached,
                        };
                        &&& polled.0 == SleepPoll::<W>::Pending(None)
                        &&& final(self).timer_id is Some
                        &&& final(self).timer_id->0@ == cleared.next_timer_id
                        &&& final(clock)@ == cleared.with_timer(
                            deadline,
                            waker,
                            final(self).timer_id->0,
                        )
                    }
                }
            }),
    {
        let fired = match clock.advance_for(self.deadline) {
            Some(fired) => fired,
            None => {
                let none: Vec<W> = Vec::new();
                assert(none@ =~= Seq::empty());
                none
            },
        };
        if clock.now().reached(self.deadline) {
            self.completed = true;
            if let Some(id) = self.timer_id {
                clock.cancel_timer(id);
            }
            self.timer_id = None;
            return (SleepPoll::Ready, fired);
        }
        if self.timer_id.is_some() && same_waker {
            return (SleepPoll::Pending(Some(waker)), fired);
        }
        if let Some(id) = self.timer_id {
            clock.cancel_timer(id);
        }
        let ghost before = clock@;
        let id = clock.register_timer(self.deadline, waker);
        self.timer_id = Some(id);
        proof {
            due_count_is_exact(before.timers, self.deadline@);
            let position = due_count(before.timers, self.deadline@) as int;
            assert(clock@.timers[position].id == id);
        }
        (SleepPoll::Pending(None), fired)
    }

    /// Cancels the sleep, which leaves no timer behind.
    pub fn cancel<W>(&mut self, clock: &mut VirtualClock<W>)
        requires
            old(clock)@.valid(),
        ensures
            final(clock)@.valid(),
            final(self).in_step(final(clock)@),
            old(self).timer_id matches Some(id) ==> !final(clock)@.has_timer(id),
            *final(self) == (VirtualSleep { timer_id: None, completed: true, ..*old(self) }),
            final(clock)@ == match old(self).timer_id {
                Some(id) => old(clock)@.without_timer(id),
                None => old(clock)@,
            },
    {
        if let Some(id) = self.timer_id {
            proof {
                canceled_timers_are_gone(clock@, id);
            }
            clock.cancel_timer(id);
        }
        self.timer_id = None;
        self.completed = true;
    }
}

/// A sleep stays in step with its clock, whatever is done to the clock: the
/// clock moves, another timer is registered, or another one is canceled.
pub proof fn sleeps_stay_in_step<W>(
    sleep: VirtualSleep,
    clock: ClockView<W>,
    target: Instant,
    deadline: Instant,
    waker: W,
    added: TimerId,
    other: TimerId,
)
    requires
        clock.valid(),
        sleep.in_step(clock),
        added@ == clock.next_timer_id,
        sleep.timer_id matches Some(id) ==> other@ != id@,
    ensures
        sleep.in_step(clock.moved(target)),
        sleep.in_step(clock.with_timer(deadline, waker, added)),
        sleep.in_step(clock.without_timer(other)),
{
    if let Some(id) = sleep.timer_id {
        moved_clocks_keep_later_timers(sleep, clock, target, id);
        let position = due_count(clock.timers, deadline@) as int;
        due_count_is_exact(clock.timers, deadline@);
        let added_to = clock.with_timer(deadline, waker, added);
        assert forall|i: int| 0 <= i < clock.timers.len() implies (#[trigger] clock.timers[i])
            == added_to.timers[if i < position {
            i
        } else {
            i + 1
        }] by {}
        assert forall|i: int|
            0 <= i < added_to.timers.len() && (#[trigger] added_to.timers[i]).id@
                == id@ implies clock.timers[if i < position {
            i
        } else {
            i - 1
        }] == added_to.timers[i] by {
            assert(i != position);
        }
        canceling_keeps_others(clock.timers, other@, id@);
        let left = clock.without_timer(other).timers;
        if clock.current@ < sleep.deadline@ {
            let k = choose|k: int|
                0 <= k < clock.timers.len() && (#[trigger] clock.timers[k]).id@ == id@
                    && clock.timers[k].deadline == sleep.deadline;
            assert(left.contains(clock.timers[k]));
            let i = choose|i: int| 0 <= i < left.len() && left[i] == clock.timers[k];
            assert(left[i].id@ == id@);
        } else {
            assert forall|i: int| 0 <= i < left.len() implies (#[trigger] left[i]).id@ != id@ by {
                assert(clock.timers.contains(left[i]));
                let k = choose|k: int| 0 <= k < clock.timers.len() && clock.timers[k] == left[i];
                assert(clock.timers[k].id@ != id@);
            }
        }
    }
}

proof fn moved_clocks_keep_later_timers<W>(
    sleep: VirtualSleep,
    clock: ClockView<W>,
    target: Instant,
    id: TimerId,
)
    requires
        clock.valid(),
        sleep.in_step(clock),
        sleep.timer_id == Some(id),
    ensures
        sleep.in_step(clock.moved(target)),
{
    if target@ >= clock.current@ {
        let after = clock.moved(target);
        let count = due_count(clock.timers, target@) as int;
        due_count_is_exact(clock.timers, target@);
        moving_never_goes_back(clock, target);
        assert forall|i: int| 0 <= i < after.timers.len() implies (#[trigger] after.timers[i])
            == clock.timers[i + count] by {}
        if clock.current@ < sleep.deadline@ {
            let k = choose|k: int|
                0 <= k < clock.timers.len() && (#[trigger] clock.timers[k]).id@ == id@
                    && clock.timers[k].deadline == sleep.deadline;
            if target@ < sleep.deadline@ {
                assert(k >= count);
                assert(after.timers[k - count] == clock.timers[k]);
            } else {
                assert forall|i: int| 0 <= i < after.timers.len() implies (
                #[trigger] after.timers[i]).id@ != id@ by {
                    assert(after.timers[i].deadline@ > target@);
                    assert(clock.timers[i + count] == after.timers[i]);
                    if i + count < k {
                        assert(clock.timers[i + count].id@ != clock.timers[k].id@);
                    } else if i + count > k {
                        assert(clock.timers[k].id@ != clock.timers[i + count].id@);
                    }
                }
            }
        }
    }
}

/// Canceling one timer leaves those with another number.
proof fn canceling_keeps_others<W>(timers: Seq<VirtualTimer<W>>, id: int, kept: int)
    requires
        id != kept,
    ensures
        forall|i: int|
            0 <= i < timers.len() && (#[trigger] timers[i]).id@ == kept ==> canceled(
                timers,
                id,
            ).contains(timers[i]),
        forall|i: int|
            0 <= i < canceled(timers, id).len() ==> timers.contains(
                #[trigger] canceled(timers, id)[i],
            ),
    decreases timers.len(),
{
    if timers.len() > 0 {
        let front = timers.drop_last();
        canceling_keeps_others(front, id, kept);
        let left = canceled(front, id);
        let after = canceled(timers, id);
        assert forall|i: int|
            0 <= i < timers.len() && (#[trigger] timers[i]).id@ == kept implies after.contains(
            timers[i],
        ) by {
            if i < front.len() {
                assert(front[i] == timers[i]);
                assert(left.contains(front[i]));
                let k = choose|k: int| 0 <= k < left.len() && left[k] == front[i];
                assert(after[k] == timers[i]);
            } else {
                assert(after[left.len() as int] == timers[i]);
            }
        }
        assert forall|i: int| 0 <= i < after.len() implies timers.contains(#[trigger] after[i]) by {
            if i < left.len() {
                assert(front.contains(left[i]));
                let k = choose|k: int| 0 <= k < front.len() && front[k] == left[i];
                assert(timers[k] == after[i]);
            } else {
                assert(timers[timers.len() - 1] == after[i]);
            }
        }
    }
}

/// A clock that moves, or is told the time that it shows, fires every timer
/// that is due, in the order of their deadlines, and no other. One that is told
/// an earlier time fires none and keeps them all.
pub proof fn moving_fires_what_is_due<W>(clock: ClockView<W>, target: Instant, index: int)
    requires
        clock.valid(),
        0 <= index < clock.timers.len(),
    ensures
        ({
            let fired = clock.fired(target);
            if target@ >= clock.current@ && clock.timers[index].deadline@ <= target@ {
                &&& index < fired.len()
                &&& fired[index] == clock.timers[index].waker
            } else {
                &&& index >= fired.len()
                &&& clock.moved(target).timers[index - fired.len()] == clock.timers[index]
            }
        }),
{
    let now = target@;
    let count = due_count(clock.timers, now) as int;
    due_count_is_exact(clock.timers, now);
    if index < count {
        assert(clock.timers[index].deadline@ <= now);
    } else if index > count {
        assert(fires_before(clock.timers[count], clock.timers[index]));
    }
}

/// A clock never goes back: it shows the time that it was told, or is left
/// exactly as it was when that lies before its own. After it moved none of its
/// timers is due.
pub proof fn moving_never_goes_back<W>(clock: ClockView<W>, target: Instant)
    requires
        clock.valid(),
    ensures
        clock.moved(target).current@ >= clock.current@,
        clock.moved(target).current@ >= target@,
        clock.moved(target).valid(),
        target@ < clock.current@ ==> clock.moved(target) == clock && clock.fired(target).len() == 0,
        target@ >= clock.current@ ==> clock.moved(target).current == target,
        target@ >= clock.current@ ==> forall|i: int|
            0 <= i < clock.moved(target).timers.len() ==> (
            #[trigger] clock.moved(target).timers[i]).deadline@ > target@,
{
    if target@ >= clock.current@ {
        let now = target@;
        let count = due_count(clock.timers, now) as int;
        due_count_is_exact(clock.timers, now);
        assert forall|i: int| 0 <= i < clock.moved(target).timers.len() implies (
        #[trigger] clock.moved(target).timers[i]).deadline@ > now by {
            if i > 0 {
                assert(fires_before(clock.timers[count], clock.timers[count + i]));
            }
        }
    }
}

/// A timer that was registered fires after those with the same deadline that
/// were there before it.
pub proof fn equal_deadlines_fire_in_registration_order<W>(
    clock: ClockView<W>,
    deadline: Instant,
    waker: W,
    id: TimerId,
    index: int,
)
    requires
        clock.valid(),
        id@ == clock.next_timer_id,
        0 <= index < clock.timers.len(),
        clock.timers[index].deadline@ == deadline@,
    ensures
        ({
            let after = clock.with_timer(deadline, waker, id);
            let position = due_count(clock.timers, deadline@) as int;
            &&& after.valid()
            &&& after.timers[position].id == id
            &&& index < position
            &&& after.timers[index] == clock.timers[index]
        }),
{
    let timer = VirtualTimer { id, deadline, waker };
    registering_keeps_order(clock, timer);
    due_count_is_exact(clock.timers, deadline@);
    let position = due_count(clock.timers, deadline@) as int;
    if index >= position {
        if index > position {
            assert(fires_before(clock.timers[position], clock.timers[index]));
        }
    }
}

/// A timer that was canceled never fires.
pub proof fn canceled_timers_are_gone<W>(clock: ClockView<W>, id: TimerId)
    ensures
        forall|i: int|
            0 <= i < clock.without_timer(id).timers.len() ==> (
            #[trigger] clock.without_timer(id).timers[i]).id@ != id@,
    decreases clock.timers.len(),
{
    if clock.timers.len() > 0 {
        canceled_timers_are_gone(
            ClockView { timers: clock.timers.drop_last(), ..clock },
            id,
        );
        let left = canceled(clock.timers.drop_last(), id@);
        let after = clock.without_timer(id).timers;
        let inner = (ClockView { timers: clock.timers.drop_last(), ..clock }).without_timer(
            id,
        ).timers;
        assert forall|i: int| 0 <= i < after.len() implies (#[trigger] after[i]).id@ != id@ by {
            if i < left.len() {
                assert(inner[i] == after[i]);
            }
        }
    }
}

/// The wakers of timers, in their order.
pub open spec fn wakers<W>(timers: Seq<VirtualTimer<W>>) -> Seq<W> {
    timers.map_values(|timer: VirtualTimer<W>| timer.waker)
}

/// A clock that moves wakes those whose time has come, in the order of their
/// deadlines, and keeps the others in theirs. It shows the time that it was told
/// unless that lies behind.
pub proof fn moves_wake_those_that_are_due<W>(
    clock: &mut VirtualClock<W>,
    target: Instant,
    fired: Vec<W>,
    now: (Instant, Instant),
    epochs: (Instant, Instant),
)
    requires
        old(clock)@.valid(),
        call_ensures(VirtualClock::<W>::now, (&*old(clock),), now.0),
        call_ensures(VirtualClock::<W>::epoch, (&*old(clock),), epochs.0),
        call_ensures(VirtualClock::<W>::advance_to, (clock, target), fired),
        call_ensures(VirtualClock::<W>::now, (final(clock),), now.1),
        call_ensures(VirtualClock::<W>::epoch, (final(clock),), epochs.1),
    ensures
        fired@ + wakers(final(clock)@.timers) == wakers(old(clock)@.timers),
        target@ >= now.0@ ==> now.1 == target,
        target@ < now.0@ ==> now.1 == now.0 && fired@.len() == 0,
        target@ >= now.0@ ==> forall|i: int|
            0 <= i < fired@.len() ==> (#[trigger] old(clock)@.timers[i]).deadline@ <= target@,
        target@ >= now.0@ ==> forall|i: int|
            0 <= i < final(clock)@.timers.len() ==> (#[trigger] final(clock)@.timers[i]).deadline@ > target@,
        final(clock)@.timers.is_suffix_of(old(clock)@.timers),
        epochs.1 == epochs.0,
{
    let timers = old(clock)@.timers;
    let count = due_count(timers, target@) as int;
    due_count_is_exact(timers, target@);
    moving_never_goes_back(old(clock)@, target);
    if target@ >= now.0@ {
        assert(timers == timers.take(count) + timers.skip(count));
        assert(fired@ =~= wakers(timers.take(count)));
        assert(fired@ + wakers(timers.skip(count)) =~= wakers(timers));
        assert(timers.skip(count) == timers.subrange(timers.len() - timers.skip(count).len(), timers.len() as int));
    } else {
        assert(fired@ + wakers(timers) =~= wakers(timers));
        assert(timers == timers.subrange(0, timers.len() as int));
    }
}

/// A clock that is moved on by a span shows the time that much later, or a
/// hundred years later where that is too far.
pub proof fn clocks_move_on_by_a_span<W>(
    clock: &mut VirtualClock<W>,
    told: &mut VirtualClock<W>,
    span: Duration,
    target: Instant,
    fired: (Vec<W>, Vec<W>),
)
    requires
        old(clock)@.valid(),
        call_ensures(VirtualClock::<W>::advance, (clock, span), fired.0),
        *old(told) == *old(clock),
        target == final(clock)@.current,
        call_ensures(VirtualClock::<W>::advance_to, (told, target), fired.1),
    ensures
        old(clock)@.current@ + span@ <= crate::time::MAX_INSTANT_NANOS ==> final(clock)@.current@
            - old(clock)@.current@ == span@,
        old(clock)@.current@ + span@ > crate::time::MAX_INSTANT_NANOS ==> final(clock)@.current@
            - old(clock)@.current@ == 100 * 365 * 24 * 3600 * 1_000_000_000,
        final(clock)@ == final(told)@ && fired.0@ == fired.1@,
{
}

/// A timer that is registered is there until the clock reaches its deadline, and
/// then wakes its task; it takes its place among the others and moves none of
/// them.
pub proof fn registered_timers_fire_at_their_deadline<W>(
    clock: &mut VirtualClock<W>,
    moved: &mut VirtualClock<W>,
    deadline: Instant,
    waker: W,
    id: TimerId,
    target: Instant,
    fired: Vec<W>,
    pending: (usize, usize),
    other: VirtualTimer<W>,
)
    requires
        old(clock)@.valid(),
        call_ensures(VirtualClock::<W>::pending_timers, (&*old(clock),), pending.0),
        call_ensures(
            <VirtualClock<W> as Clock<W>>::register_timer,
            (clock, deadline, waker),
            id,
        ),
        call_ensures(VirtualClock::<W>::pending_timers, (final(clock),), pending.1),
        *old(moved) == *final(clock),
        call_ensures(VirtualClock::<W>::advance_to, (moved, target), fired),
    ensures
        pending.1 == pending.0 + 1,
        final(clock)@.has_timer_at(id, deadline) && !old(clock)@.has_timer(id),
        old(clock)@.timers.contains(other) ==> final(clock)@.timers.contains(other),
        target@ >= old(clock)@.current@ && target@ >= deadline@ ==> fired@.contains(waker),
        target@ < deadline@ ==> final(moved)@.has_timer_at(id, deadline),
        final(clock)@.current == old(clock)@.current,
        fired@.len() + final(moved)@.timers.len() == pending.1,
{
    let before = old(clock)@.timers;
    let added = VirtualTimer { id, deadline, waker };
    let position = due_count(before, deadline@) as int;
    due_count_is_exact(before, deadline@);
    registering_keeps_order(old(clock)@, added);
    let after = final(clock)@.timers;
    assert(after == before.take(position) + seq![added] + before.skip(position));
    assert(after[position] == added);
    assert(final(clock)@.has_timer_at(id, deadline));
    if before.contains(other) {
        let at = choose|i: int| 0 <= i < before.len() && before[i] == other;
        assert(after[if at < position { at } else { at + 1 }] == other);
    }
    moving_fires_what_is_due(final(clock)@, target, position);
    due_count_is_exact(after, target@);
    if target@ >= old(clock)@.current@ && target@ >= deadline@ {
        assert(fired@[position] == waker);
    }
    if target@ < deadline@ {
        let left = final(moved)@.timers;
        assert(left[position - fired@.len()] == added);
    }
}

/// A timer that is canceled is gone, and the others stay as they were.
pub proof fn canceled_timers_leave_alone<W>(clock: &mut VirtualClock<W>, id: TimerId)
    requires
        old(clock)@.valid(),
        call_ensures(<VirtualClock<W> as Clock<W>>::cancel_timer, (clock, id), ()),
    ensures
        final(clock)@.timers == old(clock)@.timers.filter(
            |timer: VirtualTimer<W>| timer.id@ != id@,
        ),
        !final(clock)@.has_timer(id),
        final(clock)@.current == old(clock)@.current,
        final(clock)@.next_timer_id == old(clock)@.next_timer_id,
{
    canceling_filters(old(clock)@.timers, id);
    canceled_timers_are_gone(old(clock)@, id);
}

proof fn canceling_filters<W>(timers: Seq<VirtualTimer<W>>, id: TimerId)
    ensures
        canceled(timers, id@) == timers.filter(|timer: VirtualTimer<W>| timer.id@ != id@),
    decreases timers.len(),
{
    reveal(Seq::filter);
    if timers.len() > 0 {
        canceling_filters(timers.drop_last(), id);
    }
}

/// The next deadline is the earliest of all, and only a clock without timers has
/// none.
pub proof fn the_next_deadline_is_the_earliest<W>(
    clock: &VirtualClock<W>,
    deadline: Option<Instant>,
    pending: usize,
    index: int,
)
    requires
        clock@.valid(),
        call_ensures(VirtualClock::<W>::next_deadline, (clock,), deadline),
        call_ensures(VirtualClock::<W>::pending_timers, (clock,), pending),
    ensures
        deadline is None <==> pending == 0,
        pending == clock@.timers.len(),
        0 <= index < pending ==> (deadline matches Some(next) && next@
            <= clock@.timers[index].deadline@),
{
}

/// A sleep moves the clock to its end only in auto-advance mode, which is on
/// exactly when it was last turned on.
pub proof fn sleeps_move_the_clock_when_told<W>(
    start: Instant,
    made: VirtualClock<W>,
    switched: &mut VirtualClock<W>,
    slept: &mut VirtualClock<W>,
    told: &mut VirtualClock<W>,
    enabled: bool,
    deadline: Instant,
    modes: (bool, bool),
    fired: (Option<Vec<W>>, Vec<W>),
    now: (Instant, Instant),
)
    requires
        call_ensures(VirtualClock::<W>::new, (start,), made),
        call_ensures(VirtualClock::<W>::now, (&made,), now.0),
        call_ensures(VirtualClock::<W>::epoch, (&made,), now.1),
        call_ensures(VirtualClock::<W>::is_auto_advance, (&made,), modes.0),
        call_ensures(VirtualClock::<W>::set_auto_advance, (switched, enabled), ()),
        call_ensures(VirtualClock::<W>::is_auto_advance, (final(switched),), modes.1),
        *old(slept) == *final(switched),
        call_ensures(VirtualClock::<W>::advance_for, (slept, deadline), fired.0),
        *old(told) == *final(switched),
        call_ensures(VirtualClock::<W>::advance_to, (told, deadline), fired.1),
    ensures
        now == (start, start) && !modes.0 && made@.timers.len() == 0,
        modes.1 == enabled,
        final(switched)@.timers == old(switched)@.timers && final(switched)@.current == old(switched)@.current,
        fired.0 is Some <==> enabled && old(switched)@.current@ < deadline@,
        fired.0 is None ==> final(slept)@ == final(switched)@,
        fired.0 matches Some(woken) ==> woken@ == fired.1@ && final(slept)@ == final(told)@,
{
}

/// The system's clock shows the system's time and moves by itself; a virtual
/// clock shows its own.
pub proof fn clocks_show_their_time<W>(
    system: &mut SystemClock,
    clock: &VirtualClock<W>,
    time: Instant,
    deadline: Instant,
    shown: (Instant, Instant, Instant),
    by_system: (bool, bool),
    fired: Option<Vec<W>>,
)
    requires
        call_ensures(<SystemClock as Clock<W>>::now, (&*old(system), time), shown.0),
        call_ensures(<SystemClock as Clock<W>>::is_real, (&*old(system),), by_system.0),
        call_ensures(<SystemClock as Clock<W>>::try_auto_advance, (system, deadline), fired),
        call_ensures(<VirtualClock<W> as Clock<W>>::now, (clock, time), shown.1),
        call_ensures(VirtualClock::<W>::now, (clock,), shown.2),
        call_ensures(<VirtualClock<W> as Clock<W>>::is_real, (clock,), by_system.1),
    ensures
        shown.0 == time && by_system.0 && fired is None,
        shown.1 == shown.2 && !by_system.1,
{
}

/// A sleep is over exactly when its clock has reached its end, which it does at
/// once in auto-advance mode; a sleep that is not over has a timer.
pub proof fn sleeps_are_over_at_their_end<W>(
    deadline: Instant,
    made: VirtualSleep,
    sleep: &mut VirtualSleep,
    clock: &mut VirtualClock<W>,
    waker: W,
    same_waker: bool,
    polled: (SleepPoll<W>, Vec<W>),
    over: (bool, bool),
)
    requires
        old(clock)@.valid(),
        call_ensures(VirtualSleep::new, (deadline,), made),
        call_ensures(VirtualSleep::is_terminated, (&made,), over.0),
        *old(sleep) == made,
        call_ensures(VirtualSleep::poll::<W>, (sleep, clock, waker, same_waker), polled),
        call_ensures(VirtualSleep::is_terminated, (final(sleep),), over.1),
    ensures
        !over.0,
        over.1 <==> polled.0 is Ready,
        polled.0 is Ready <==> old(clock)@.auto_advance || old(clock)@.current@ >= deadline@,
        old(clock)@.auto_advance && old(clock)@.current@ < deadline@ ==> final(clock)@.current
            == deadline,
        !old(clock)@.auto_advance ==> final(clock)@.current == old(clock)@.current
            && polled.1@.len() == 0,
        polled.0 is Pending ==> (final(sleep).timer_id matches Some(id) && final(clock)@.has_timer_at(id, deadline)),
        polled.0 is Ready ==> final(sleep).timer_id is None,
{
    if polled.0 is Pending {
        let id = final(sleep).timer_id->0;
        let added = VirtualTimer { id, deadline, waker };
        let before = old(clock)@.timers;
        let position = due_count(before, deadline@) as int;
        due_count_is_exact(before, deadline@);
        assert(final(clock)@.timers[position] == added);
        assert(final(clock)@.has_timer_at(id, deadline));
    }
}

/// A sleep that is canceled is over and leaves no timer.
pub proof fn canceled_sleeps_leave_no_timer<W>(
    sleep: &mut VirtualSleep,
    clock: &mut VirtualClock<W>,
    over: bool,
)
    requires
        call_ensures(VirtualSleep::cancel::<W>, (sleep, clock), ()),
        call_ensures(VirtualSleep::is_terminated, (final(sleep),), over),
    ensures
        over && final(sleep).timer_id is None,
        final(sleep).deadline == old(sleep).deadline,
        old(sleep).timer_id matches Some(id) ==> !final(clock)@.has_timer(id),
        old(sleep).timer_id is None ==> final(clock)@ == old(clock)@,
        final(clock)@.current == old(clock)@.current,
{
}

/// An identifier has the number that it was made of.
pub proof fn identifiers_have_their_number(numbers: (u64, u64), ids: (TimerId, TimerId))
    requires
        call_ensures(TimerId::from_number, (numbers.0,), ids.0),
        call_ensures(TimerId::from_number, (numbers.1,), ids.1),
    ensures
        ids.0 == ids.1 <==> numbers.0 == numbers.1,
        ids.0@ == numbers.0,
{
}

} // verus!
