use job_tracker::clock::{saturating_millis, Clock};

#[test]
fn stopwatch_starts_at_zero_and_does_not_run_backwards() {
    let clock = Clock::start();
    let first = clock.elapsed_ms();
    let second = clock.elapsed_ms();
    assert!(first <= second);
    assert!(second < 60_000);
}

#[test]
fn stopwatches_run_each_on_its_own() {
    let early = Clock::start();
    let mut spin = 0u64;
    while early.elapsed_ms() < 2 {
        spin += 1;
    }
    let late = Clock::start();
    assert!(late.elapsed_ms() <= early.elapsed_ms());
    assert!(spin > 0);
}

#[test]
fn milliseconds_stop_at_the_largest_count() {
    assert_eq!(saturating_millis(0), 0);
    assert_eq!(saturating_millis(1_500), 1_500);
    assert_eq!(saturating_millis(u64::MAX as u128), u64::MAX);
    assert_eq!(saturating_millis(u64::MAX as u128 + 1), u64::MAX);
    assert_eq!(saturating_millis(u128::MAX), u64::MAX);
}
