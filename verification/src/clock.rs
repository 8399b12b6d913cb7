//! Wall-clock time stamps and durations.

use std::time::Duration;
use std::time::SystemTime;
use std::time::SystemTimeError;
use vstd::prelude::*;

verus! {

/// A point of the system clock, as the standard library represents it.
#[verifier::external_type_specification]
#[verifier::external_body]
pub struct ExSystemTime(SystemTime);

/// The error of a subtraction whose result would be negative.
#[verifier::external_type_specification]
#[verifier::external_body]
pub struct ExSystemTimeError(SystemTimeError);

/// What `Duration::from_millis` returns.
pub uninterp spec fn duration_of_millis(millis: u64) -> Duration;

/// The nanoseconds of a duration, as `Duration::as_nanos` counts them.
pub uninterp spec fn duration_nanos(duration: Duration) -> nat;

/// What `SystemTime::duration_since` returns when it measures from `UNIX_EPOCH`.
pub uninterp spec fn age_since_epoch(time: SystemTime) -> Result<Duration, SystemTimeError>;

/// `Duration::from_millis`: the duration of that many milliseconds.
pub assume_specification[ Duration::from_millis ](millis: u64) -> (duration: Duration)
    ensures
        duration == duration_of_millis(millis),
        duration_nanos(duration) == millis * 1_000_000,
;

/// `Duration::is_zero`: whether a duration spans no time.
pub assume_specification[ Duration::is_zero ](duration: &Duration) -> (zero: bool)
    ensures
        zero == (duration_nanos(*duration) == 0),
;

/// `Duration::as_secs`: the whole seconds of a duration.
pub assume_specification[ Duration::as_secs ](duration: &Duration) -> (secs: u64)
    ensures
        secs == duration_nanos(*duration) / 1_000_000_000,
;

/// `SystemTime::now`: a reading of the system clock, of which nothing is claimed.
pub assume_specification[ SystemTime::now ]() -> (time: SystemTime);

/// Calls `SystemTime::duration_since` with `UNIX_EPOCH`; the outcome is a function of `time`
/// alone.
#[verifier::external_body]
fn duration_since_epoch(time: &SystemTime) -> (age: Result<Duration, SystemTimeError>)
    ensures
        age == age_since_epoch(*time),
{
    time.duration_since(std::time::UNIX_EPOCH)
}

/// The time stamp of an outcome of measuring from the epoch: its whole seconds, and zero for a
/// clock that stands before the epoch.
pub open spec fn timestamp(age: Result<Duration, SystemTimeError>) -> u64 {
    match age {
        Ok(duration) => (duration_nanos(duration) / 1_000_000_000) as u64,
        Err(_) => 0,
    }
}

/// Whole seconds from the Unix epoch to `time`; zero before the epoch.
pub fn timestamp_secs(time: &SystemTime) -> (secs: u64)
    ensures
        secs == timestamp(age_since_epoch(*time)),
{
    match duration_since_epoch(time) {
        Ok(duration) => duration.as_secs(),
        Err(_) => 0,
    }
}

/// Whole seconds from the Unix epoch to now, by the system clock.
///
/// The value rests on the clock alone: it is the time stamp of some point in time.
pub fn unix_timestamp_secs() -> (secs: u64)
    ensures
        exists|now: SystemTime| secs == #[trigger] timestamp(age_since_epoch(now)),
{
    timestamp_secs(&SystemTime::now())
}

/// A time stamp counts the whole seconds since the epoch, rounded down, however many they are, and
/// is zero before the epoch.
pub proof fn law_timestamps_count_seconds(age: Result<Duration, SystemTimeError>)
    requires
        age is Ok ==> duration_nanos(age->Ok_0) < (u64::MAX + 1) * 1_000_000_000,
    ensures
        age is Ok ==> timestamp(age) * 1_000_000_000 <= duration_nanos(age->Ok_0) < (timestamp(age)
            + 1) * 1_000_000_000,
        age is Err ==> timestamp(age) == 0,
{
}

} // verus!
