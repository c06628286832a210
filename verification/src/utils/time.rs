//! Arithmetic on Unix timestamps, in seconds.
//!
//! A timestamp of zero or below stands for "never".

use vstd::prelude::*;
use crate::errors::Unit09Error;
use crate::ledger::Clock;

verus! {

/// Age of `created_at` seen from `current`: their distance, zero for a
/// timestamp that is not in the past, and capped at the largest `i64`.
pub open spec fn age_between(current: i64, created_at: i64) -> int {
    if current <= created_at {
        0
    } else if current - created_at > i64::MAX {
        i64::MAX as int
    } else {
        current - created_at
    }
}

/// `a + b`, held within the range of `i64`.
pub open spec fn saturating_sum(a: i64, b: i64) -> int {
    if a + b > i64::MAX {
        i64::MAX as int
    } else if a + b < i64::MIN {
        i64::MIN as int
    } else {
        a + b
    }
}

/// Whether `timestamp` is set and at most `window_secs` old at `current`.
pub open spec fn within_window(current: i64, timestamp: i64, window_secs: i64) -> bool {
    timestamp > 0 && window_secs > 0 && age_between(current, timestamp) <= window_secs
}

/// Whether `timestamp` is set and more than `window_secs` old at `current`.
pub open spec fn older_than(current: i64, timestamp: i64, window_secs: i64) -> bool {
    timestamp > 0 && window_secs > 0 && age_between(current, timestamp) > window_secs
}

/// Whether `ts` lies further ahead of `current` than `max_drift_secs`.
/// An unset timestamp or a drift that is not positive is never too far.
pub open spec fn too_far_in_future(current: i64, ts: i64, max_drift_secs: i64) -> bool {
    ts > 0 && max_drift_secs > 0 && ts > saturating_sum(current, max_drift_secs)
}

/// The smaller of the set timestamps among `a` and `b`, zero if neither is set.
pub open spec fn min_set(a: i64, b: i64) -> i64 {
    if a > 0 && b > 0 {
        if a <= b { a } else { b }
    } else if a > 0 {
        a
    } else if b > 0 {
        b
    } else {
        0
    }
}

/// The larger of the set timestamps among `a` and `b`, zero if neither is set.
pub open spec fn max_set(a: i64, b: i64) -> i64 {
    if a > 0 && b > 0 {
        if a >= b { a } else { b }
    } else if a > 0 {
        a
    } else if b > 0 {
        b
    } else {
        0
    }
}

/// `ts` brought into `[0, current]`; zero wins where `current` is negative
/// and `ts` is not set.
pub open spec fn clamped_to_past(current: i64, ts: i64) -> i64 {
    if ts <= 0 {
        0
    } else if ts > current {
        current
    } else {
        ts
    }
}

/// The current Unix timestamp of `clock`.
pub fn now(clock: &Clock) -> (r: i64)
    ensures
        r == clock.unix_timestamp,
{
    clock.unix_timestamp
}

/// Age in seconds of `created_at` at the time of `clock`; never negative.
pub fn age_seconds(clock: &Clock, created_at: i64) -> (r: i64)
    ensures
        r == age_between(clock.unix_timestamp, created_at),
        r >= 0,
{
    let current = now(clock);
    if current <= created_at {
        0
    } else {
        match current.checked_sub(created_at) {
            Some(age) => age,
            None => i64::MAX,
        }
    }
}

/// Whether `timestamp` is set and lies within the last `window_secs` seconds.
pub fn is_within_window(clock: &Clock, timestamp: i64, window_secs: i64) -> (r: bool)
    ensures
        r == within_window(clock.unix_timestamp, timestamp, window_secs),
{
    if timestamp <= 0 || window_secs <= 0 {
        return false;
    }
    age_seconds(clock, timestamp) <= window_secs
}

/// Whether `timestamp` is set and lies more than `window_secs` seconds back.
pub fn is_older_than(clock: &Clock, timestamp: i64, window_secs: i64) -> (r: bool)
    ensures
        r == older_than(clock.unix_timestamp, timestamp, window_secs),
{
    if timestamp <= 0 || window_secs <= 0 {
        return false;
    }
    age_seconds(clock, timestamp) > window_secs
}

/// Rejects a timestamp that lies more than `max_drift_secs` ahead of `clock`.
pub fn assert_not_far_future(clock: &Clock, ts: i64, max_drift_secs: i64) -> (r: Result<
    (),
    Unit09Error,
>)
    ensures
        too_far_in_future(clock.unix_timestamp, ts, max_drift_secs) ==> r == Err::<
            (),
            Unit09Error,
        >(Unit09Error::TimestampInFuture),
        !too_far_in_future(clock.unix_timestamp, ts, max_drift_secs) ==> r == Ok::<
            (),
            Unit09Error,
        >(()),
{
    if ts <= 0 || max_drift_secs <= 0 {
        return Ok(());
    }
    let current = now(clock);
    let allowed_future = add_offset_saturating(current, max_drift_secs);
    if ts > allowed_future {
        return Err(Unit09Error::TimestampInFuture);
    }
    Ok(())
}

/// Rejects a range whose start lies after its end.
pub fn assert_time_order(from_ts: i64, to_ts: i64) -> (r: Result<(), Unit09Error>)
    ensures
        from_ts <= to_ts ==> r == Ok::<(), Unit09Error>(()),
        from_ts > to_ts ==> r == Err::<(), Unit09Error>(Unit09Error::InvalidTimeRange),
{
    if from_ts > to_ts {
        return Err(Unit09Error::InvalidTimeRange);
    }
    Ok(())
}

/// The smaller of two timestamps, where one that is not set does not count.
pub fn min_non_zero(a: i64, b: i64) -> (r: i64)
    ensures
        r == min_set(a, b),
{
    if a > 0 && b > 0 {
        if a <= b {
            a
        } else {
            b
        }
    } else if a > 0 {
        a
    } else if b > 0 {
        b
    } else {
        0
    }
}

/// The larger of two timestamps, where one that is not set does not count.
pub fn max_non_zero(a: i64, b: i64) -> (r: i64)
    ensures
        r == max_set(a, b),
{
    if a > 0 && b > 0 {
        if a >= b {
            a
        } else {
            b
        }
    } else if a > 0 {
        a
    } else if b > 0 {
        b
    } else {
        0
    }
}

/// Brings a timestamp into the range from zero to the time of `clock`.
pub fn clamp_to_past(clock: &Clock, ts: i64) -> (r: i64)
    ensures
        r == clamped_to_past(clock.unix_timestamp, ts),
{
    let current = now(clock);
    if ts <= 0 {
        0
    } else if ts > current {
        current
    } else {
        ts
    }
}

/// Adds a signed offset to a timestamp and stops at the ends of `i64`.
pub fn add_offset_saturating(ts: i64, offset_secs: i64) -> (r: i64)
    ensures
        r == saturating_sum(ts, offset_secs),
{
    match ts.checked_add(offset_secs) {
        Some(sum) => sum,
        None => if offset_secs > 0 {
            i64::MAX
        } else {
            i64::MIN
        },
    }
}

/// A set timestamp is inside a window exactly when it is not older than it.
pub proof fn lemma_window_or_older(current: i64, timestamp: i64, window_secs: i64)
    requires
        timestamp > 0,
        window_secs > 0,
    ensures
        within_window(current, timestamp, window_secs) != older_than(
            current,
            timestamp,
            window_secs,
        ),
{
}

/// Clamping lands in `[0, current]` whenever the clock is not negative, and
/// clamping twice changes nothing more.
pub proof fn lemma_clamp_to_past_range(current: i64, ts: i64)
    requires
        current >= 0,
    ensures
        0 <= clamped_to_past(current, ts) <= current,
        clamped_to_past(current, clamped_to_past(current, ts)) == clamped_to_past(current, ts),
{
}

} // verus!
