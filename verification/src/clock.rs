//! The wall clock, in whole seconds since the epoch.

use vstd::prelude::*;
use std::time::{Duration, SystemTime, SystemTimeError, UNIX_EPOCH};

verus! {

/// `std::time::SystemTime`, a reading of the system clock.
#[verifier::external_type_specification]
#[verifier::external_body]
pub struct ExSystemTime(SystemTime);

/// `std::time::SystemTimeError`, the error of a reading that lies before the
/// moment it is measured from.
#[verifier::external_type_specification]
#[verifier::external_body]
pub struct ExSystemTimeError(SystemTimeError);

/// `SystemTime::now`: what the system clock reads. Nothing is claimed of it.
#[verifier::external_body]
fn system_now() -> SystemTime {
    SystemTime::now()
}

/// `SystemTime::duration_since`, measured from the epoch: how long after the
/// epoch `time` lies, or an error when it lies before. Nothing is claimed of
/// either.
#[verifier::external_body]
fn since_epoch(time: &SystemTime) -> Result<Duration, SystemTimeError> {
    time.duration_since(UNIX_EPOCH)
}

/// `Duration::as_secs`: the whole seconds in `span`. Nothing is claimed of
/// their number.
#[verifier::external_body]
fn whole_seconds(span: &Duration) -> u64 {
    span.as_secs()
}

/// Seconds since the epoch on the system clock. A clock set before the epoch
/// reads as zero, and one beyond what `i64` holds as `i64::MAX`.
pub fn current_sec() -> (seconds: i64)
    ensures
        seconds >= 0,
{
    let time = system_now();
    let reading = match since_epoch(&time) {
        Ok(span) => Some(whole_seconds(&span)),
        Err(_) => None,
    };
    seconds_since_epoch(reading)
}

/// The seconds that a reading of the clock stands for. A reading is the
/// number of whole seconds that the clock lies after the epoch, or nothing
/// where it lies before. A number that `i64` cannot hold counts as
/// `i64::MAX`, and a clock before the epoch as zero.
pub open spec fn seconds_of_reading(reading: Option<u64>) -> i64 {
    match reading {
        Some(seconds) => if seconds > i64::MAX {
            i64::MAX
        } else {
            seconds as i64
        },
        None => 0,
    }
}

/// Turns a reading of the clock into the seconds that `current_sec` gives
/// for it.
pub fn seconds_since_epoch(reading: Option<u64>) -> (seconds: i64)
    ensures
        seconds == seconds_of_reading(reading),
{
    match reading {
        Some(seconds) => {
            if seconds > i64::MAX as u64 {
                i64::MAX
            } else {
                seconds as i64
            }
        },
        None => 0,
    }
}

} // verus!
