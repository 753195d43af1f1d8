use reactor::error::Error;
use reactor::timer::{TimerId, TimerWheel};

#[test]
fn schedule_numbers_timers_in_order() {
    let mut wheel: TimerWheel<&'static str> = TimerWheel::new(8, 0);
    assert_eq!(wheel.span(), 8);
    assert_eq!(wheel.now(), 0);
    assert_eq!(wheel.schedule(3, "a"), Ok(TimerId { seq: 0, deadline: 3 }));
    assert_eq!(wheel.schedule(1, "b"), Ok(TimerId { seq: 1, deadline: 1 }));
    assert_eq!(wheel.schedule(3, "c"), Ok(TimerId { seq: 2, deadline: 3 }));
}

#[test]
fn deadline_beyond_the_span_is_refused() {
    let mut wheel: TimerWheel<u32> = TimerWheel::new(8, 10);
    assert_eq!(wheel.schedule(18, 1), Err(Error::TimerRangeExceeded));
    assert_eq!(wheel.schedule(u64::MAX, 1), Err(Error::TimerRangeExceeded));
    assert_eq!(wheel.schedule(17, 2), Ok(TimerId { seq: 0, deadline: 17 }));
    assert_eq!(wheel.next_deadline(), Some(17));
}

#[test]
fn passed_deadline_counts_as_the_current_tick() {
    let mut wheel: TimerWheel<u32> = TimerWheel::new(4, 10);
    assert_eq!(wheel.schedule(3, 7), Ok(TimerId { seq: 0, deadline: 10 }));
    assert_eq!(wheel.advance(10), vec![(TimerId { seq: 0, deadline: 10 }, 7)]);
}

#[test]
fn advance_fires_in_deadline_order_with_fifo_ties() {
    let mut wheel: TimerWheel<&'static str> = TimerWheel::new(16, 0);
    let c = wheel.schedule(9, "d3-first").unwrap();
    let a = wheel.schedule(2, "d1-first").unwrap();
    let b = wheel.schedule(5, "d2-first").unwrap();
    let a2 = wheel.schedule(2, "d1-second").unwrap();
    let b2 = wheel.schedule(5, "d2-second").unwrap();
    let a3 = wheel.schedule(2, "d1-third").unwrap();
    let fired = wheel.advance(5);
    assert_eq!(
        fired,
        vec![
            (a, "d1-first"),
            (a2, "d1-second"),
            (a3, "d1-third"),
            (b, "d2-first"),
            (b2, "d2-second"),
        ]
    );
    assert_eq!(wheel.now(), 5);
    assert_eq!(wheel.advance(8), vec![]);
    assert_eq!(wheel.advance(9), vec![(c, "d3-first")]);
    assert_eq!(wheel.advance(100), vec![]);
}

#[test]
fn fired_timers_are_gone() {
    let mut wheel: TimerWheel<u32> = TimerWheel::new(4, 0);
    let id = wheel.schedule(1, 5).unwrap();
    assert_eq!(wheel.advance(1), vec![(id, 5)]);
    assert_eq!(wheel.advance(1), vec![]);
    assert_eq!(wheel.advance(50), vec![]);
    assert!(!wheel.cancel(id));
}

#[test]
fn advance_far_ahead_fires_everything_in_order() {
    let mut wheel: TimerWheel<u32> = TimerWheel::new(4, 6);
    let x = wheel.schedule(9, 90).unwrap();
    let y = wheel.schedule(7, 70).unwrap();
    let z = wheel.schedule(8, 80).unwrap();
    assert_eq!(wheel.advance(1_000_000), vec![(y, 70), (z, 80), (x, 90)]);
    assert_eq!(wheel.now(), 1_000_000);
    assert_eq!(wheel.next_deadline(), None);
    assert_eq!(wheel.schedule(1_000_003, 1), Ok(TimerId { seq: 3, deadline: 1_000_003 }));
    assert_eq!(wheel.schedule(1_000_004, 1), Err(Error::TimerRangeExceeded));
}

#[test]
fn advance_backwards_changes_nothing() {
    let mut wheel: TimerWheel<u32> = TimerWheel::new(4, 10);
    let id = wheel.schedule(10, 1).unwrap();
    assert_eq!(wheel.advance(9), vec![]);
    assert_eq!(wheel.now(), 10);
    assert_eq!(wheel.advance(10), vec![(id, 1)]);
}

#[test]
fn cancel_removes_exactly_one_timer() {
    let mut wheel: TimerWheel<&'static str> = TimerWheel::new(8, 0);
    let a = wheel.schedule(4, "a").unwrap();
    let b = wheel.schedule(4, "b").unwrap();
    let c = wheel.schedule(4, "c").unwrap();
    assert!(wheel.cancel(b));
    assert!(!wheel.cancel(b));
    assert!(!wheel.cancel(TimerId { seq: 77, deadline: 4 }));
    assert!(!wheel.cancel(TimerId { seq: 0, deadline: 5 }));
    assert_eq!(wheel.advance(4), vec![(a, "a"), (c, "c")]);
}

#[test]
fn next_deadline_is_the_earliest() {
    let mut wheel: TimerWheel<u32> = TimerWheel::new(8, 100);
    assert_eq!(wheel.next_deadline(), None);
    wheel.schedule(106, 1).unwrap();
    assert_eq!(wheel.next_deadline(), Some(106));
    let early = wheel.schedule(103, 2).unwrap();
    wheel.schedule(107, 3).unwrap();
    assert_eq!(wheel.next_deadline(), Some(103));
    assert!(wheel.cancel(early));
    assert_eq!(wheel.next_deadline(), Some(106));
}

#[test]
fn wheel_wraps_around_its_buckets() {
    let mut wheel: TimerWheel<u64> = TimerWheel::new(4, 0);
    let mut seen: Vec<u64> = Vec::new();
    for now in 0..40u64 {
        for (id, payload) in wheel.advance(now) {
            assert_eq!(id.deadline, now);
            assert_eq!(payload, now);
            seen.push(payload);
        }
        assert!(wheel.schedule(now + 3, now + 3).is_ok());
    }
    assert_eq!(seen, (3..40u64).collect::<Vec<u64>>());
}

#[test]
fn periodic_timer_by_rescheduling() {
    let mut wheel: TimerWheel<u32> = TimerWheel::new(8, 0);
    wheel.schedule(5, 0).unwrap();
    let mut fires: Vec<u64> = Vec::new();
    for now in 0..=20u64 {
        for (id, n) in wheel.advance(now) {
            fires.push(id.deadline);
            wheel.schedule(now + 5, n + 1).unwrap();
        }
    }
    assert_eq!(fires, vec![5, 10, 15, 20]);
}

#[test]
fn single_bucket_wheel() {
    let mut wheel: TimerWheel<u8> = TimerWheel::new(1, 3);
    assert_eq!(wheel.schedule(4, 1), Err(Error::TimerRangeExceeded));
    let a = wheel.schedule(3, 1).unwrap();
    let b = wheel.schedule(0, 2).unwrap();
    assert_eq!(wheel.advance(3), vec![(a, 1), (b, 2)]);
}
