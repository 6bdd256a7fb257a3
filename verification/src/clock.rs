//! The system clock, as `std::time` offers it.

use std::time::Duration;
use std::time::SystemTime;
use std::time::SystemTimeError;
use vstd::prelude::*;

verus! {

/// A reading of the system clock.
#[verifier::external_type_specification]
#[verifier::external_body]
pub struct ExSystemTime(std::time::SystemTime);

/// What `SystemTime::duration_since` returns when the instant it is asked
/// about lies after the receiver.
#[verifier::external_type_specification]
#[verifier::external_body]
pub struct ExSystemTimeError(std::time::SystemTimeError);

/// What `SystemTime::duration_since` answers when a reading is asked how
/// long after the Unix epoch it was taken.
pub uninterp spec fn time_since_unix_epoch(reading: SystemTime) -> Result<Duration, SystemTimeError>;

/// What `SystemTimeError::duration` answers: how far the instant asked
/// about lay after the reading.
pub uninterp spec fn time_short_of(error: SystemTimeError) -> Duration;

/// What `Duration::as_secs` answers: the whole seconds of a duration.
pub uninterp spec fn whole_secs_of(duration: Duration) -> u64;

/// What `Duration::subsec_nanos` answers: the nanoseconds of a duration
/// beyond its whole seconds.
pub uninterp spec fn subsec_nanos_of(duration: Duration) -> u32;

/// `SystemTime::now`. Nothing is claimed of the reading: the clock may
/// show any time, and may go backwards between two readings.
pub assume_specification[ SystemTime::now ]() -> SystemTime;

/// `SystemTime::duration_since`, asked about the Unix epoch.
///
/// Not proved: that the answer is fixed by the reading, which is what
/// gives it the name [`time_since_unix_epoch`].
#[verifier::external_body]
pub(crate) fn since_unix_epoch(reading: &SystemTime) -> (answer: Result<Duration, SystemTimeError>)
    ensures
        answer == time_since_unix_epoch(*reading),
{
    reading.duration_since(SystemTime::UNIX_EPOCH)
}

/// `SystemTimeError::duration`.
///
/// Not proved: that the answer is fixed by the error, which is what gives
/// it the name [`time_short_of`].
pub assume_specification[ SystemTimeError::duration ](error: &SystemTimeError) -> (short: Duration)
    ensures
        short == time_short_of(*error),
;

/// `Duration::as_secs`.
///
/// Not proved: that the answer is fixed by the duration, which is what
/// gives it the name [`whole_secs_of`].
pub assume_specification[ Duration::as_secs ](duration: &Duration) -> (secs: u64)
    ensures
        secs == whole_secs_of(*duration),
;

/// `Duration::subsec_nanos`.
///
/// Not proved: that the answer is fixed by the duration, which is what
/// gives it the name [`subsec_nanos_of`], and that it is less than a
/// second, which its documentation states.
pub assume_specification[ Duration::subsec_nanos ](duration: &Duration) -> (nanos: u32)
    ensures
        nanos == subsec_nanos_of(*duration),
        nanos < 1_000_000_000,
;

} // verus!
