use unit09_program::ledger::Clock;
use unit09_program::utils::time::{
    add_offset_saturating, age_seconds, assert_not_far_future, assert_time_order, clamp_to_past,
    is_older_than, is_within_window, max_non_zero, min_non_zero, now,
};
use unit09_program::errors::Unit09Error;

fn clock_at(unix_timestamp: i64) -> Clock {
    Clock { slot: 1, epoch_start_timestamp: 0, epoch: 0, leader_schedule_epoch: 0, unix_timestamp }
}

#[test]
fn now_reads_the_clock() {
    assert_eq!(now(&clock_at(1_700_000_000)), 1_700_000_000);
}

#[test]
fn age_is_distance_to_the_past() {
    assert_eq!(age_seconds(&clock_at(100), 40), 60);
}

#[test]
fn age_of_a_future_timestamp_is_zero() {
    assert_eq!(age_seconds(&clock_at(100), 100), 0);
    assert_eq!(age_seconds(&clock_at(100), 250), 0);
}

#[test]
fn age_stops_at_the_largest_value() {
    assert_eq!(age_seconds(&clock_at(i64::MAX), i64::MIN), i64::MAX);
    assert_eq!(age_seconds(&clock_at(10), -5), 15);
}

#[test]
fn window_membership() {
    let clock = clock_at(1_000);
    assert!(is_within_window(&clock, 900, 100));
    assert!(!is_within_window(&clock, 899, 100));
    assert!(!is_within_window(&clock, 0, 100));
    assert!(!is_within_window(&clock, 900, 0));
    assert!(is_within_window(&clock, 2_000, 1));
}

#[test]
fn older_than_is_the_complement_for_set_timestamps() {
    let clock = clock_at(1_000);
    assert!(!is_older_than(&clock, 900, 100));
    assert!(is_older_than(&clock, 899, 100));
    assert!(!is_older_than(&clock, 0, 100));
    assert!(!is_older_than(&clock, -3, 100));
    assert!(!is_older_than(&clock, 899, -1));
}

#[test]
fn far_future_is_refused() {
    let clock = clock_at(1_000);
    assert_eq!(assert_not_far_future(&clock, 1_060, 60), Ok(()));
    assert_eq!(assert_not_far_future(&clock, 1_061, 60), Err(Unit09Error::TimestampInFuture));
    assert_eq!(assert_not_far_future(&clock, 0, 60), Ok(()));
    assert_eq!(assert_not_far_future(&clock, 5_000, 0), Ok(()));
    assert_eq!(assert_not_far_future(&clock_at(i64::MAX - 1), i64::MAX, 10), Ok(()));
}

#[test]
fn time_order() {
    assert_eq!(assert_time_order(5, 5), Ok(()));
    assert_eq!(assert_time_order(4, 5), Ok(()));
    assert_eq!(assert_time_order(6, 5), Err(Unit09Error::InvalidTimeRange));
}

#[test]
fn min_and_max_skip_unset_timestamps() {
    assert_eq!(min_non_zero(3, 9), 3);
    assert_eq!(min_non_zero(9, 3), 3);
    assert_eq!(min_non_zero(0, 9), 9);
    assert_eq!(min_non_zero(9, -1), 9);
    assert_eq!(min_non_zero(0, -4), 0);
    assert_eq!(max_non_zero(3, 9), 9);
    assert_eq!(max_non_zero(9, 3), 9);
    assert_eq!(max_non_zero(0, 9), 9);
    assert_eq!(max_non_zero(9, -1), 9);
    assert_eq!(max_non_zero(-2, -4), 0);
}

#[test]
fn clamping_to_the_past() {
    let clock = clock_at(1_000);
    assert_eq!(clamp_to_past(&clock, -5), 0);
    assert_eq!(clamp_to_past(&clock, 0), 0);
    assert_eq!(clamp_to_past(&clock, 500), 500);
    assert_eq!(clamp_to_past(&clock, 1_000), 1_000);
    assert_eq!(clamp_to_past(&clock, 1_001), 1_000);
}

#[test]
fn offsets_saturate() {
    assert_eq!(add_offset_saturating(10, 5), 15);
    assert_eq!(add_offset_saturating(10, -25), -15);
    assert_eq!(add_offset_saturating(i64::MAX, 1), i64::MAX);
    assert_eq!(add_offset_saturating(i64::MIN, -1), i64::MIN);
    assert_eq!(add_offset_saturating(i64::MAX, i64::MIN), -1);
}
