//! Clocks.

use kimojio::clock::Clock;
use kimojio::clock::SleepPoll;
use kimojio::clock::SystemClock;
use kimojio::clock::TimerId;
use kimojio::clock::VirtualClock;
use kimojio::clock::VirtualSleep;
use kimojio::time::Duration;
use kimojio::time::Instant;

fn start() -> Instant {
    Instant::from_parts(1_000, 5).unwrap()
}

fn after(instant: Instant, secs: u64) -> Instant {
    instant.checked_add(Duration::from_secs(secs)).unwrap()
}

#[test]
fn virtual_clock_initial_time() {
    let start = start();
    let clock = VirtualClock::<u32>::new(start);
    assert_eq!(clock.now(), start);
}

#[test]
fn advance_with_no_timers_returns_zero() {
    let mut clock = VirtualClock::<u32>::new(start());
    assert_eq!(clock.advance(Duration::from_secs(10)).len(), 0);
}

#[test]
fn advance_by_zero_fires_no_timers() {
    let mut clock = VirtualClock::<u32>::new(start());
    let deadline = after(clock.now(), 1);
    clock.register_timer(deadline, 1);
    assert_eq!(clock.advance(Duration::zero()).len(), 0);
}

#[test]
fn advance_fires_expired_timers() {
    let start = start();
    let mut clock = VirtualClock::<u32>::new(start);
    clock.register_timer(after(start, 5), 1);

    let fired = clock.advance(Duration::from_secs(5));
    assert_eq!(fired.len(), 1);
    assert_eq!(fired, vec![1]);
}

#[test]
fn advance_does_not_fire_future_timers() {
    let start = start();
    let mut clock = VirtualClock::<u32>::new(start);
    clock.register_timer(after(start, 10), 1);

    assert_eq!(clock.advance(Duration::from_secs(3)).len(), 0);
}

#[test]
fn timers_fire_in_deadline_order() {
    let start = start();
    let mut clock = VirtualClock::<usize>::new(start);

    for (secs, i) in [(5u64, 0usize), (10, 1), (7, 2)] {
        clock.register_timer(after(start, secs), i);
    }

    let order = clock.advance(Duration::from_secs(15));
    assert_eq!(order.len(), 3);
    assert_eq!(order, vec![0, 2, 1]);
}

#[test]
fn equal_deadline_fires_in_registration_order() {
    let start = start();
    let mut clock = VirtualClock::<usize>::new(start);
    let deadline = after(start, 5);

    for i in 0..3 {
        clock.register_timer(deadline, i);
    }

    let order = clock.advance(Duration::from_secs(5));
    assert_eq!(order.len(), 3);
    assert_eq!(order, vec![0, 1, 2]);
}

#[test]
fn cancel_timer_prevents_firing() {
    let start = start();
    let mut clock = VirtualClock::<u32>::new(start);

    let id = clock.register_timer(after(start, 5), 1);
    clock.cancel_timer(id);

    assert_eq!(clock.advance(Duration::from_secs(10)).len(), 0);
}

#[test]
fn cancel_nonexistent_timer_is_noop() {
    let mut clock = VirtualClock::<u32>::new(start());
    clock.cancel_timer(TimerId::from_number(999));
    assert_eq!(clock.pending_timers(), 0);
}

#[test]
fn next_deadline_returns_earliest() {
    let start = start();
    let mut clock = VirtualClock::<u32>::new(start);

    clock.register_timer(after(start, 10), 1);
    clock.register_timer(after(start, 3), 2);
    clock.register_timer(after(start, 7), 3);

    assert_eq!(clock.next_deadline(), Some(after(start, 3)));
}

#[test]
fn next_deadline_none_when_empty() {
    let clock = VirtualClock::<u32>::new(start());
    assert_eq!(clock.next_deadline(), None);
}

#[test]
fn advance_to_specific_instant() {
    let start = start();
    let mut clock = VirtualClock::<u32>::new(start);

    clock.register_timer(after(start, 5), 1);
    clock.register_timer(after(start, 10), 2);

    let target = after(start, 7);
    let fired = clock.advance_to(target);
    assert_eq!(fired.len(), 1);
    assert_eq!(clock.now(), target);
    assert_eq!(fired, vec![1]);
}

#[test]
fn advance_to_before_current_time_is_noop() {
    let start = start();
    let mut clock = VirtualClock::<u32>::new(start);
    clock.advance(Duration::from_secs(10));

    let before = after(start, 5);
    assert_eq!(clock.advance_to(before).len(), 0);
    assert_eq!(clock.now(), after(start, 10));
}

#[test]
fn pending_timers_count() {
    let start = start();
    let mut clock = VirtualClock::<u32>::new(start);

    assert_eq!(clock.pending_timers(), 0);

    clock.register_timer(after(start, 5), 1);
    clock.register_timer(after(start, 10), 2);
    assert_eq!(clock.pending_timers(), 2);

    clock.advance(Duration::from_secs(7));
    assert_eq!(clock.pending_timers(), 1);
}

#[test]
fn system_clock_is_real() {
    let clock = SystemClock {};
    assert!(Clock::<u32>::is_real(&clock));
}

#[test]
fn virtual_clock_is_not_real() {
    let clock = VirtualClock::<u32>::new(start());
    assert!(!Clock::is_real(&clock));
}

#[test]
fn system_clock_now_returns_real_time() {
    let clock = SystemClock {};
    let origin = std::time::Instant::now();
    let elapsed = |instant: std::time::Instant| {
        let span = instant.duration_since(origin);
        Instant::origin()
            .checked_add(Duration::from_parts(span.as_secs(), span.subsec_nanos()).unwrap())
            .unwrap()
    };
    let before = elapsed(std::time::Instant::now());
    let now = Clock::<u32>::now(&clock, elapsed(std::time::Instant::now()));
    let after = elapsed(std::time::Instant::now());
    assert!(now.reached(before) && after.reached(now));
}

#[test]
fn past_deadline_timer_fires_on_next_advance() {
    let start = start();
    let mut clock = VirtualClock::<u32>::new(after(start, 10));

    clock.register_timer(after(start, 5), 1);

    assert_eq!(clock.pending_timers(), 1);

    assert_eq!(clock.advance(Duration::zero()), vec![1]);
}

#[test]
fn advance_to_does_not_panic_on_reentrant_waker() {
    let start = start();
    let mut clock = VirtualClock::<u32>::new(start);
    clock.register_timer(after(start, 1), 1);
    let fired = clock.advance(Duration::from_secs(2));
    assert_eq!(fired.len(), 1);
    for _waker in fired {
        assert_eq!(clock.now(), after(start, 2));
    }
}

#[test]
fn sleeps_move_a_clock_that_follows_them() {
    let start = start();
    let mut clock = VirtualClock::<u32>::new(start);
    assert_eq!(clock.try_auto_advance(after(start, 3)), None);
    clock.set_auto_advance(true);
    assert!(clock.is_auto_advance());
    clock.register_timer(after(start, 2), 9);
    assert_eq!(clock.try_auto_advance(after(start, 3)), Some(vec![9]));
    assert_eq!(clock.now(), after(start, 3));
    assert_eq!(clock.epoch(), start);
}

#[test]
fn sleeps_end_at_their_deadline() {
    let start = start();
    let mut clock = VirtualClock::<u32>::new(start);
    let mut sleep = VirtualSleep::new(after(start, 4));
    let (poll, fired) = sleep.poll(&mut clock, 7, false);
    assert!(matches!(poll, SleepPoll::Pending(_)));
    assert!(fired.is_empty());
    assert_eq!(clock.pending_timers(), 1);
    assert_eq!(clock.advance(Duration::from_secs(4)), vec![7]);
    let (poll, _) = sleep.poll(&mut clock, 7, true);
    assert!(matches!(poll, SleepPoll::Ready));
    assert!(sleep.is_terminated());
}

#[test]
fn canceled_sleeps_leave_no_timer() {
    let start = start();
    let mut clock = VirtualClock::<u32>::new(start);
    let mut sleep = VirtualSleep::new(after(start, 4));
    sleep.poll(&mut clock, 7, false);
    sleep.cancel(&mut clock);
    assert_eq!(clock.pending_timers(), 0);
}

#[test]
fn spans_are_counted_in_nanoseconds() {
    assert_eq!(Duration::from_millis(1_500).as_secs(), 1);
    assert_eq!(Duration::from_millis(1_500).subsec_nanos(), 500_000_000);
    assert_eq!(
        Duration::from_parts(2, 999_999_999).map(|span| span.as_secs()),
        Some(2)
    );
    assert_eq!(Duration::longest().saturating_mul(2), Duration::longest());
    assert!(Duration::from_secs(1).covers(Duration::from_nanos(999_999_999)));
    assert_eq!(
        Duration::from_secs(1).shorter(Duration::from_secs(2)),
        Duration::from_secs(1)
    );
    let start = start();
    assert_eq!(
        after(start, 3).saturating_duration_since(start),
        Duration::from_secs(3)
    );
    assert!(start.saturating_duration_since(after(start, 3)).is_zero());
}

#[test]
fn earlier_targets_fire_nothing() {
    let start = start();
    let mut clock = VirtualClock::<u32>::new(after(start, 10));
    clock.register_timer(after(start, 5), 1);
    assert_eq!(clock.advance_to(after(start, 4)).len(), 0);
    assert_eq!(clock.now(), after(start, 10));
    assert_eq!(clock.pending_timers(), 1);
    assert_eq!(clock.advance_to(after(start, 10)), vec![1]);
    assert_eq!(clock.pending_timers(), 0);
}

#[test]
fn sleeps_stay_in_step_with_their_clock() {
    let start = start();
    let mut clock = VirtualClock::<u32>::new(start);
    let mut first = VirtualSleep::new(after(start, 4));
    let mut second = VirtualSleep::new(after(start, 9));
    first.poll(&mut clock, 1, false);
    second.poll(&mut clock, 2, false);
    assert_eq!(clock.pending_timers(), 2);
    assert_eq!(clock.advance(Duration::from_secs(4)), vec![1]);
    first.cancel(&mut clock);
    assert_eq!(clock.pending_timers(), 1);
    assert_eq!(clock.next_deadline(), Some(after(start, 9)));
    second.cancel(&mut clock);
    assert_eq!(clock.pending_timers(), 0);
}
