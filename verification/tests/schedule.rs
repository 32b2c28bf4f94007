use status_bar::schedule::{Interval, Schedule, Step};

const SECOND: u64 = 1_000_000_000;

#[test]
fn intervals_are_positive() {
    assert_eq!(Interval::from_nanos(0), None);
    assert_eq!(Interval::from_secs(0), None);
    assert_eq!(Interval::from_nanos(1).unwrap().as_nanos(), 1);
    assert_eq!(Interval::from_nanos(u64::MAX).unwrap().as_nanos(), u64::MAX);
    assert_eq!(Interval::from_secs(30).unwrap().as_nanos(), 30 * SECOND);
}

#[test]
fn intervals_fit_in_the_clock() {
    let most = u64::MAX / SECOND;
    assert_eq!(Interval::from_secs(most).unwrap().as_nanos(), most * SECOND);
    assert_eq!(Interval::from_secs(most + 1), None);
    assert_eq!(Interval::from_secs(u64::MAX), None);
}

#[test]
fn nth_batch_comes_at_n_intervals() {
    let period = 30 * SECOND;
    let mut schedule = Schedule::new(Interval::from_secs(30).unwrap());
    assert_eq!(schedule.poll(0), Step::Wait { until: period as u128 });
    for n in 1..=1000u64 {
        let due = n * period;
        assert_eq!(schedule.poll(due - period + 1), Step::Wait { until: due as u128 });
        assert_eq!(schedule.poll(due - 1), Step::Wait { until: due as u128 });
        assert_eq!(schedule.ticks(), n - 1);
        assert_eq!(schedule.poll(due), Step::Fire { tick: n });
        assert_eq!(schedule.ticks(), n);
        assert_eq!(schedule.poll(due), Step::Wait { until: (due + period) as u128 });
    }
}

#[test]
fn batch_is_fired_as_soon_as_it_is_polled_after_its_due_time() {
    let period = 30 * SECOND;
    let mut schedule = Schedule::new(Interval::from_secs(30).unwrap());
    let latency = 7_000_000;
    for n in 1..=100u64 {
        let woken = n * period + latency;
        assert_eq!(schedule.poll(woken), Step::Fire { tick: n });
        assert_eq!(
            schedule.poll(woken + latency),
            Step::Wait { until: ((n + 1) * period) as u128 }
        );
    }
}

#[test]
fn nothing_fires_at_the_start() {
    let mut schedule = Schedule::new(Interval::from_nanos(1).unwrap());
    assert_eq!(schedule.poll(0), Step::Wait { until: 1 });
    assert_eq!(schedule.ticks(), 0);
}

#[test]
fn late_poll_catches_up_one_batch_at_a_time() {
    let mut schedule = Schedule::new(Interval::from_secs(1).unwrap());
    let now = 3 * SECOND + 5;
    assert_eq!(schedule.poll(now), Step::Fire { tick: 1 });
    assert_eq!(schedule.poll(now), Step::Fire { tick: 2 });
    assert_eq!(schedule.poll(now), Step::Fire { tick: 3 });
    assert_eq!(schedule.poll(now), Step::Wait { until: 4 * SECOND as u128 });
}

#[test]
fn due_time_may_lie_beyond_the_clock() {
    let mut schedule = Schedule::new(Interval::from_nanos(u64::MAX).unwrap());
    assert_eq!(schedule.poll(u64::MAX - 1), Step::Wait { until: u64::MAX as u128 });
    assert_eq!(schedule.poll(u64::MAX), Step::Fire { tick: 1 });
    assert_eq!(schedule.poll(u64::MAX), Step::Wait { until: 2 * (u64::MAX as u128) });
}

#[test]
fn cancelled_stream_stays_stopped() {
    let mut schedule = Schedule::new(Interval::from_secs(1).unwrap());
    assert!(!schedule.is_stopped());
    assert_eq!(schedule.poll(SECOND), Step::Fire { tick: 1 });
    schedule.cancel();
    assert!(schedule.is_stopped());
    assert_eq!(schedule.poll(2 * SECOND), Step::Stopped);
    assert_eq!(schedule.poll(u64::MAX), Step::Stopped);
    assert_eq!(schedule.ticks(), 1);
    schedule.cancel();
    assert_eq!(schedule.poll(3 * SECOND), Step::Stopped);
}

#[test]
fn widgets_have_timetables_of_their_own() {
    let mut fast = Schedule::new(Interval::from_secs(1).unwrap());
    let mut slow = Schedule::new(Interval::from_secs(30).unwrap());
    assert_eq!(fast.poll(SECOND), Step::Fire { tick: 1 });
    assert_eq!(slow.poll(SECOND), Step::Wait { until: 30 * SECOND as u128 });
    fast.cancel();
    assert_eq!(slow.poll(30 * SECOND), Step::Fire { tick: 1 });
}
