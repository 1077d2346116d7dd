//! Durations and clock readings as plain values.
//!
//! A [`Duration`] is a span of time and an [`Instant`] is one reading of a
//! monotonic clock. Both count nanoseconds, so every comparison and sum below
//! is exact integer arithmetic.

use vstd::prelude::*;

verus! {

/// The number of nanoseconds in one second.
pub const NANOS_PER_SEC: u128 = 1_000_000_000;

/// The longest span: `u64::MAX` seconds and 999,999,999 nanoseconds.
pub const MAX_DURATION_NANOS: u128 = 18_446_744_073_709_551_615_999_999_999;

/// The latest reading: `i64::MAX` seconds and 999,999,999 nanoseconds.
pub const MAX_INSTANT_NANOS: i128 = 9_223_372_036_854_775_807_999_999_999;

/// The earliest reading: `i64::MIN` seconds.
pub const MIN_INSTANT_NANOS: i128 = -9_223_372_036_854_775_808_000_000_000;

/// A span of time.
#[derive(Clone, Copy, Debug, PartialEq, Eq, Structural)]
pub struct Duration {
    nanos: u128,
}

impl View for Duration {
    type V = int;

    /// The span in nanoseconds.
    closed spec fn view(&self) -> int {
        self.nanos as int
    }
}

impl Duration {
    /// A span never exceeds [`MAX_DURATION_NANOS`].
    #[verifier::type_invariant]
    spec fn in_range(self) -> bool {
        self.nanos <= MAX_DURATION_NANOS
    }

    /// The empty span.
    pub fn zero() -> (span: Duration)
        ensures
            span@ == 0,
    {
        Duration { nanos: 0 }
    }

    /// The longest span.
    pub fn longest() -> (span: Duration)
        ensures
            span@ == MAX_DURATION_NANOS,
    {
        Duration { nanos: MAX_DURATION_NANOS }
    }

    /// A span of whole seconds.
    pub fn from_secs(secs: u64) -> (span: Duration)
        ensures
            span@ == secs * 1_000_000_000,
    {
        Duration { nanos: secs as u128 * NANOS_PER_SEC }
    }

    /// A span of whole milliseconds.
    pub fn from_millis(millis: u64) -> (span: Duration)
        ensures
            span@ == millis * 1_000_000,
    {
        Duration { nanos: millis as u128 * 1_000_000 }
    }

    /// A span of nanoseconds.
    pub fn from_nanos(nanos: u64) -> (span: Duration)
        ensures
            span@ == nanos,
    {
        Duration { nanos: nanos as u128 }
    }

    /// A span of whole seconds and a nanosecond remainder, or `None` when the
    /// remainder is a second or more.
    pub fn from_parts(secs: u64, nanos: u32) -> (span: Option<Duration>)
        ensures
            match span {
                Some(span) => nanos < 1_000_000_000 && span@ == secs * 1_000_000_000 + nanos,
                None => nanos >= 1_000_000_000,
            },
    {
        if nanos >= 1_000_000_000 {
            None
        } else {
            Some(Duration { nanos: secs as u128 * NANOS_PER_SEC + nanos as u128 })
        }
    }

    /// The whole seconds of the span.
    pub fn as_secs(self) -> (secs: u64)
        ensures
            secs == self@ / 1_000_000_000,
    {
        proof {
            use_type_invariant(self);
        }
        (self.nanos / NANOS_PER_SEC) as u64
    }

    /// The nanoseconds beyond the whole seconds.
    pub fn subsec_nanos(self) -> (nanos: u32)
        ensures
            nanos == self@ % 1_000_000_000,
            nanos < 1_000_000_000,
    {
        (self.nanos % NANOS_PER_SEC) as u32
    }

    /// Whether the span is empty.
    pub fn is_zero(self) -> (zero: bool)
        ensures
            zero == (self@ == 0),
    {
        self.nanos == 0
    }

    /// The span taken `factor` times, or the longest span when that is longer.
    pub fn saturating_mul(self, factor: u32) -> (span: Duration)
        ensures
            span@ == if self@ * factor <= MAX_DURATION_NANOS {
                self@ * factor
            } else {
                MAX_DURATION_NANOS as int
            },
    {
        proof {
            use_type_invariant(self);
            let nanos = self.nanos as int;
            let times = factor as int;
            assert(0 <= nanos * times <= MAX_DURATION_NANOS * 0xffff_ffff) by (nonlinear_arith)
                requires
                    0 <= nanos <= MAX_DURATION_NANOS,
                    0 <= times <= 0xffff_ffff,
            ;
        }
        let nanos: u128 = self.nanos * factor as u128;
        if nanos <= MAX_DURATION_NANOS {
            Duration { nanos }
        } else {
            Duration { nanos: MAX_DURATION_NANOS }
        }
    }

    /// The shorter of two spans.
    pub fn shorter(self, other: Duration) -> (span: Duration)
        ensures
            span == if self@ <= other@ { self } else { other },
    {
        if self.nanos <= other.nanos {
            self
        } else {
            other
        }
    }

    /// Whether this span is at least as long as `other`.
    pub fn covers(self, other: Duration) -> (covers: bool)
        ensures
            covers == (self@ >= other@),
    {
        self.nanos >= other.nanos
    }
}

/// One reading of a monotonic clock.
#[derive(Clone, Copy, Debug, PartialEq, Eq, Structural)]
pub struct Instant {
    nanos: i128,
}

impl View for Instant {
    type V = int;

    /// The nanoseconds between the clock's origin and the reading.
    closed spec fn view(&self) -> int {
        self.nanos as int
    }
}

/// Where `start` plus `span` lies when the clock can represent it.
pub open spec fn instant_after(start: int, span: int) -> Option<int> {
    if start + span <= MAX_INSTANT_NANOS {
        Some(start + span)
    } else {
        None
    }
}

/// The nanoseconds from `earlier` to `later`, or zero when `later` is first.
pub open spec fn elapsed(earlier: int, later: int) -> int {
    if earlier <= later {
        later - earlier
    } else {
        0
    }
}

impl Instant {
    /// Every reading lies between the earliest and the latest.
    #[verifier::type_invariant]
    spec fn in_range(self) -> bool {
        MIN_INSTANT_NANOS <= self.nanos <= MAX_INSTANT_NANOS
    }

    /// The clock's origin.
    pub fn origin() -> (instant: Instant)
        ensures
            instant@ == 0,
    {
        Instant { nanos: 0 }
    }

    /// A reading of whole seconds and a nanosecond remainder, or `None` when
    /// the remainder is a second or more.
    pub fn from_parts(secs: i64, nanos: u32) -> (instant: Option<Instant>)
        ensures
            match instant {
                Some(instant) => nanos < 1_000_000_000 && instant@ == secs * 1_000_000_000 + nanos,
                None => nanos >= 1_000_000_000,
            },
    {
        if nanos >= 1_000_000_000 {
            None
        } else {
            Some(Instant { nanos: secs as i128 * 1_000_000_000 + nanos as i128 })
        }
    }

    /// The reading `span` after this one, or `None` when the clock cannot
    /// represent it.
    pub fn checked_add(self, span: Duration) -> (sum: Option<Instant>)
        ensures
            match sum {
                Some(sum) => instant_after(self@, span@) == Some(sum@),
                None => instant_after(self@, span@) is None,
            },
    {
        proof {
            use_type_invariant(self);
            use_type_invariant(span);
        }
        let nanos: i128 = self.nanos + span.nanos as i128;
        if nanos <= MAX_INSTANT_NANOS {
            Some(Instant { nanos })
        } else {
            None
        }
    }

    /// The span from `earlier` to this reading, or the empty span when
    /// `earlier` is later.
    pub fn saturating_duration_since(self, earlier: Instant) -> (span: Duration)
        ensures
            span@ == elapsed(earlier@, self@),
    {
        proof {
            use_type_invariant(self);
            use_type_invariant(earlier);
        }
        if earlier.nanos <= self.nanos {
            Duration { nanos: (self.nanos - earlier.nanos) as u128 }
        } else {
            Duration { nanos: 0 }
        }
    }

    /// Whether this reading is at `other` or later.
    pub fn reached(self, other: Instant) -> (reached: bool)
        ensures
            reached == (self@ >= other@),
    {
        self.nanos >= other.nanos
    }
}

/// Two spans of the same length are the same span.
pub proof fn duration_is_its_length(left: Duration, right: Duration)
    ensures
        (left@ == right@) == (left == right),
{
}

/// Two readings of the same time are the same reading.
pub proof fn instant_is_its_time(left: Instant, right: Instant)
    ensures
        (left@ == right@) == (left == right),
{
}

/// No span is shorter than the empty one.
pub proof fn duration_is_not_negative(span: Duration)
    ensures
        span@ >= 0,
{
}

/// A span is made of its parts and taken apart again, whatever the unit it was
/// given in.
pub proof fn spans_have_their_parts(
    secs: u64,
    nanos: u32,
    thousands: u64,
    spans: (Duration, Duration, Duration, Duration, Duration),
    parts: Option<Duration>,
    whole: u64,
    rest: u32,
    longest: (u64, u32),
    zero: bool,
)
    requires
        call_ensures(Duration::from_secs, (secs,), spans.0),
        call_ensures(Duration::from_millis, (thousands,), spans.1),
        call_ensures(Duration::from_nanos, (thousands,), spans.2),
        call_ensures(Duration::longest, (), spans.3),
        call_ensures(Duration::zero, (), spans.4),
        call_ensures(Duration::from_parts, (secs, nanos), parts),
        parts matches Some(span) ==> call_ensures(Duration::as_secs, (span,), whole)
            && call_ensures(Duration::subsec_nanos, (span,), rest),
        call_ensures(Duration::as_secs, (spans.3,), longest.0),
        call_ensures(Duration::subsec_nanos, (spans.3,), longest.1),
        call_ensures(Duration::is_zero, (spans.0,), zero),
    ensures
        parts is Some <==> nanos < 1_000_000_000,
        parts is Some ==> whole == secs && rest == nanos,
        parts matches Some(span) ==> span@ - spans.0@ == nanos,
        thousands == 1000 * secs ==> spans.1 == spans.0,
        thousands == 1_000_000_000 * secs ==> spans.2 == spans.0,
        longest.0 == u64::MAX && longest.1 == 999_999_999,
        spans.4@ == 0,
        zero <==> secs == 0,
{
}

/// A longer span covers a shorter one, and taking a span several times adds it up
/// until the longest span is reached.
pub proof fn spans_are_ordered_and_added(
    left: Duration,
    right: Duration,
    factor: u32,
    more: u32,
    times: (Duration, Duration),
    longest: Duration,
    shorter: Duration,
    covers: (bool, bool),
)
    requires
        left@ <= longest@,
        more == factor + 1,
        call_ensures(Duration::longest, (), longest),
        call_ensures(Duration::saturating_mul, (left, factor), times.0),
        call_ensures(Duration::saturating_mul, (left, more), times.1),
        call_ensures(Duration::shorter, (left, right), shorter),
        call_ensures(Duration::covers, (left, right), covers.0),
        call_ensures(Duration::covers, (right, left), covers.1),
    ensures
        factor == 0 ==> times.0@ == 0,
        factor == 1 ==> times.0 == left,
        times.0@ + left@ <= longest@ ==> times.1@ == times.0@ + left@,
        times.0@ + left@ > longest@ ==> times.1 == longest,
        covers.0 || covers.1,
        covers.0 && covers.1 <==> left == right,
        shorter == left || shorter == right,
        covers.0 ==> shorter == right,
        covers.1 ==> shorter == left,
{
    assert(left@ * more == left@ * factor + left@) by (nonlinear_arith)
        requires
            more == factor + 1,
    ;
    assert(left@ * 0 == 0);
    assert(left@ * 1 == left@);
    duration_is_its_length(left, right);
    duration_is_not_negative(left);
    assert(left@ * factor >= 0) by (nonlinear_arith)
        requires
            left@ >= 0,
            factor >= 0,
    ;
    duration_is_its_length(times.0, left);
    duration_is_its_length(times.1, longest);
}

/// The time from a reading to the one a span later is that span, and back it is
/// nothing. A reading is refused only beyond the end of the clock.
pub proof fn later_readings_lie_a_span_ahead(
    start: Instant,
    span: Duration,
    sum: Option<Instant>,
    forth: Duration,
    back: Duration,
    reached: (bool, bool),
)
    requires
        call_ensures(Instant::checked_add, (start, span), sum),
        sum matches Some(end) ==> {
            &&& call_ensures(Instant::saturating_duration_since, (end, start), forth)
            &&& call_ensures(Instant::saturating_duration_since, (start, end), back)
            &&& call_ensures(Instant::reached, (end, start), reached.0)
            &&& call_ensures(Instant::reached, (start, end), reached.1)
        },
    ensures
        sum is Some ==> forth == span && back@ == 0,
        sum is Some ==> reached.0 && (reached.1 <==> span@ == 0),
        sum is None <==> start@ + span@ > 9_223_372_036_854_775_807_999_999_999,
{
    duration_is_not_negative(span);
    duration_is_its_length(forth, span);
}

/// A reading is made of its parts.
pub proof fn readings_have_their_parts(
    secs: i64,
    nanos: u32,
    origin: Instant,
    parts: Option<Instant>,
)
    requires
        call_ensures(Instant::origin, (), origin),
        call_ensures(Instant::from_parts, (secs, nanos), parts),
    ensures
        parts is Some <==> nanos < 1_000_000_000,
        parts matches Some(instant) ==> instant@ == 1_000_000_000 * secs + nanos,
        secs == 0 && nanos == 0 ==> parts == Some(origin),
{
    if nanos < 1_000_000_000 {
        instant_is_its_time(parts->0, origin);
    }
}

} // verus!
