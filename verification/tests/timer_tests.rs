//! Tests that drive real kernel timers through the handle: arming,
//! querying, reading expirations, error propagation, and teardown.

use std::time::{Duration, Instant};
use timerfd::{ClockId, ITimerSpec, OsError, TfdFlags, TimeSpec, TimerFd};

fn busy_wait(d: Duration) {
    let start = Instant::now();
    while start.elapsed() < d {
        std::hint::spin_loop();
    }
}

#[test]
fn test_read_timerfd() {
    let mut timer = TimerFd::with_flags(ClockId::Monotonic, TfdFlags::non_blocking())
        .expect("Fail to create timerfd");
    assert_eq!(timer.read_time(), Ok(None));
    timer
        .set_time(&ITimerSpec { it_value: TimeSpec::seconds(3), it_interval: TimeSpec::seconds(0) })
        .expect("Fail to set time");
    assert_eq!(timer.read_time(), Ok(None));
    busy_wait(Duration::from_millis(3200));
    assert!(timer.read_time().unwrap().is_some());
}

#[test]
fn never_armed_nonblocking_reads_yield_no_data() {
    let mut timer =
        TimerFd::with_flags(ClockId::Monotonic, TfdFlags::non_blocking()).unwrap();
    for _ in 0..3 {
        assert_eq!(timer.read_time(), Ok(None));
        assert_eq!(timer.next(), None);
    }
}

#[test]
fn single_shot_expires_once_and_counter_resets() {
    let mut timer =
        TimerFd::with_flags(ClockId::Monotonic, TfdFlags::non_blocking()).unwrap();
    timer.set_time(&ITimerSpec::seconds(1)).unwrap();
    assert_eq!(timer.read_time(), Ok(None));
    busy_wait(Duration::from_millis(1200));
    let count = timer.read_time().unwrap().expect("timer should have expired");
    assert!(count >= 1);
    assert_eq!(timer.read_time(), Ok(None));
}

#[test]
fn disarming_stops_future_expirations() {
    let mut timer =
        TimerFd::with_flags(ClockId::Monotonic, TfdFlags::non_blocking()).unwrap();
    timer.set_time(&ITimerSpec::seconds(1)).unwrap();
    timer
        .set_time(&ITimerSpec::new(TimeSpec::zero(), TimeSpec::zero()))
        .expect("disarm should succeed");
    busy_wait(Duration::from_millis(1300));
    for _ in 0..3 {
        assert_eq!(timer.read_time(), Ok(None));
    }
}

#[test]
fn combined_creation_flags_behave_like_non_blocking() {
    let flags = TfdFlags::close_on_exec().union(TfdFlags::non_blocking());
    let mut timer = TimerFd::with_flags(ClockId::Monotonic, flags).unwrap();
    assert_eq!(timer.read_time(), Ok(None));
    timer.set_time(&ITimerSpec::nanoseconds(100_000_000)).unwrap();
    busy_wait(Duration::from_millis(300));
    assert!(timer.read_time().unwrap().unwrap() >= 1);
    assert_eq!(timer.read_time(), Ok(None));
}

#[test]
fn arming_a_closed_descriptor_preserves_the_os_error() {
    // Closing the raw descriptor out from under the handle is the one
    // safe way to reproduce a handle on an already-closed descriptor;
    // every operation then fails with the bad-descriptor code, which the
    // library must hand through unmodified.
    let mut timer = TimerFd::new(ClockId::Monotonic).unwrap();
    nix::unistd::close(timer.as_raw_fd()).unwrap();
    let err = timer.set_time(&ITimerSpec::seconds(1)).unwrap_err();
    assert_eq!(err, OsError { code: libc::EBADF });
    assert_eq!(err.code, 9);
    let mut out = ITimerSpec::new(TimeSpec::zero(), TimeSpec::zero());
    assert_eq!(timer.get_time(&mut out), Err(OsError { code: libc::EBADF }));
}

#[test]
fn invalid_nanoseconds_are_rejected_with_the_os_code() {
    let mut timer = TimerFd::new(ClockId::Monotonic).unwrap();
    let bad = ITimerSpec {
        it_interval: TimeSpec { tv_sec: 0, tv_nsec: 0 },
        it_value: TimeSpec { tv_sec: 0, tv_nsec: 2_000_000_000 },
    };
    let err = timer.set_time(&bad).unwrap_err();
    assert_eq!(err, OsError { code: libc::EINVAL });
    assert_eq!(err.code, 22);
}

#[test]
fn armed_schedule_round_trips_through_query() {
    let mut timer = TimerFd::new(ClockId::Monotonic).unwrap();
    let schedule = ITimerSpec::new(TimeSpec::seconds(5), TimeSpec::seconds(10));
    timer.set_time(&schedule).unwrap();
    let mut out = ITimerSpec::new(TimeSpec::zero(), TimeSpec::zero());
    timer.get_time(&mut out).unwrap();
    assert_eq!(out.it_interval, TimeSpec { tv_sec: 5, tv_nsec: 0 });
    let remaining = out.it_value.tv_sec as i128 * 1_000_000_000 + out.it_value.tv_nsec as i128;
    assert!(remaining > 0);
    assert!(remaining <= 10_000_000_000);
}

#[test]
fn query_of_a_never_armed_timer_reports_all_zero() {
    let timer = TimerFd::new(ClockId::Monotonic).unwrap();
    let mut out = ITimerSpec::new(TimeSpec::seconds(9), TimeSpec::seconds(9));
    timer.get_time(&mut out).unwrap();
    assert_eq!(out.it_interval, TimeSpec { tv_sec: 0, tv_nsec: 0 });
    assert_eq!(out.it_value, TimeSpec { tv_sec: 0, tv_nsec: 0 });
}

#[test]
fn rearming_returns_the_previous_interval() {
    let mut timer = TimerFd::new(ClockId::Monotonic).unwrap();
    let first = ITimerSpec::new(TimeSpec::seconds(2), TimeSpec::seconds(30));
    timer.set_time(&first).unwrap();
    let second = ITimerSpec::new(TimeSpec::seconds(4), TimeSpec::seconds(30));
    let prev = timer.set_time(&second).unwrap();
    assert_eq!(prev.it_interval, TimeSpec { tv_sec: 2, tv_nsec: 0 });
    let prev2 = timer.set_time(&ITimerSpec::seconds(1)).unwrap();
    assert_eq!(prev2.it_interval, TimeSpec { tv_sec: 4, tv_nsec: 0 });
}

#[test]
fn driving_as_a_sequence_yields_exactly_one_count_per_expiration() {
    let mut timer =
        TimerFd::with_flags(ClockId::Monotonic, TfdFlags::non_blocking()).unwrap();
    timer.set_time(&ITimerSpec::seconds(1)).unwrap();
    let deadline = Instant::now() + Duration::from_secs(8);
    let mut seen: Option<u64> = None;
    while Instant::now() < deadline {
        if let Some(count) = timer.next() {
            seen = Some(count);
            break;
        }
        busy_wait(Duration::from_millis(50));
    }
    let count = seen.expect("an expiration should have been observed");
    assert!(count >= 1);
    for _ in 0..3 {
        assert_eq!(timer.next(), None);
    }
}

#[test]
fn blocking_read_waits_for_an_absolute_deadline() {
    let mut timer = TimerFd::new(ClockId::Monotonic).unwrap();
    let now = rustix::time::clock_gettime(rustix::time::ClockId::Monotonic);
    let deadline = ITimerSpec::new(
        TimeSpec::zero(),
        TimeSpec { tv_sec: now.tv_sec + 1, tv_nsec: now.tv_nsec },
    );
    timer
        .set_time_with_flags(timerfd::TfdTimerFlags::absolute_time(), &deadline)
        .unwrap();
    let started = Instant::now();
    let count = timer.read_time().unwrap().expect("blocking read should return a count");
    assert!(count >= 1);
    assert!(started.elapsed() >= Duration::from_millis(500));
}

#[test]
fn read_outcomes_are_classified_exactly() {
    assert_eq!(timerfd::classify_read_outcome(Ok((8, 5))), Ok(Some(5)));
    assert_eq!(timerfd::classify_read_outcome(Ok((8, 1))), Ok(Some(1)));
    assert_eq!(timerfd::classify_read_outcome(Err(11)), Ok(None));
    assert_eq!(timerfd::classify_read_outcome(Err(9)), Err(OsError { code: 9 }));
    assert_eq!(timerfd::classify_read_outcome(Err(4)), Err(OsError { code: 4 }));
}

#[test]
fn sequence_step_discards_errors_and_passes_counts() {
    assert_eq!(timerfd::count_or_none(Ok(Some(3))), Some(3));
    assert_eq!(timerfd::count_or_none(Ok(None)), None);
    assert_eq!(timerfd::count_or_none(Err(OsError { code: 9 })), None);
}

#[test]
fn raw_descriptor_is_stable_across_calls() {
    let timer = TimerFd::new(ClockId::Monotonic).unwrap();
    let first = timer.as_raw_fd();
    assert!(first >= 0);
    assert_eq!(timer.as_raw_fd(), first);
    assert_eq!(timer.as_raw_fd(), first);
}
