use misskey_bridge::retry::{can_reset, to_sleep_duration, RetryState};

fn minutes_ms(n: i64) -> i64 {
    n * 60 * 1000
}

#[test]
fn can_reset_test() {
    let result = can_reset(minutes_ms(0), minutes_ms(20), minutes_ms(10));
    assert!(result);

    let result = can_reset(minutes_ms(0), minutes_ms(5), minutes_ms(10));
    assert!(!result);
}

#[test]
fn to_sleep_duration_test() {
    assert_eq!(to_sleep_duration(0, 100 * 60), 1);
    assert_eq!(to_sleep_duration(1 + 4, 100 * 60), 16 * 60);
    assert_eq!(to_sleep_duration(1 + 4, 10 * 60), 10 * 60);
}

#[test]
fn sleep_duration_first_failure_is_one_minute() {
    assert_eq!(to_sleep_duration(1, 30 * 60), 60);
    assert_eq!(to_sleep_duration(2, 30 * 60), 120);
}

#[test]
fn sleep_duration_huge_count_is_capped() {
    assert_eq!(to_sleep_duration(u64::MAX, 30 * 60), 30 * 60);
    assert_eq!(to_sleep_duration(70, u64::MAX), u64::MAX);
    assert_eq!(to_sleep_duration(64, u64::MAX), u64::MAX);
}

#[test]
fn sleep_duration_cap_below_one_minute() {
    assert_eq!(to_sleep_duration(1, 30), 30);
    assert_eq!(to_sleep_duration(0, 30), 1);
}

#[test]
fn can_reset_needs_strictly_longer() {
    assert!(!can_reset(minutes_ms(0), minutes_ms(10), minutes_ms(10)));
    assert!(can_reset(0, minutes_ms(10) + 1, minutes_ms(10)));
    assert!(!can_reset(i64::MAX, i64::MIN, 0));
    assert!(can_reset(i64::MIN, i64::MAX, 0));
}

#[test]
fn instant_failures_follow_doubling_schedule() {
    let mut state = RetryState::new();
    let mut sleeps = Vec::new();
    for _ in 0..9 {
        sleeps.push(state.record_attempt(1000, 1000, minutes_ms(1), 30 * 60));
    }
    assert_eq!(sleeps, vec![1, 60, 120, 240, 480, 960, 1800, 1800, 1800]);
    assert_eq!(state.count, 9);
}

#[test]
fn long_attempt_resets_count() {
    let mut state = RetryState::new();
    for _ in 0..4 {
        state.record_attempt(0, 10, minutes_ms(1), 30 * 60);
    }
    assert_eq!(state.count, 4);
    let sleep = state.record_attempt(0, minutes_ms(5), minutes_ms(1), 30 * 60);
    assert_eq!(sleep, 1);
    assert_eq!(state.count, 1);
    let sleep = state.record_attempt(0, 10, minutes_ms(1), 30 * 60);
    assert_eq!(sleep, 60);
}
