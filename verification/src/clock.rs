//! Reading the system clock, as time elapsed since the Unix epoch.
use vstd::prelude::*;

use std::time::{Duration, SystemTime, SystemTimeError};

verus! {

#[verifier::external_type_specification]
#[verifier::external_body]
pub struct ExSystemTime(SystemTime);

#[verifier::external_type_specification]
#[verifier::external_body]
pub struct ExSystemTimeError(SystemTimeError);

/// `SystemTime::now`: the current time; nothing is said of it.
pub assume_specification[ SystemTime::now ]() -> SystemTime;

/// `UNIX_EPOCH`, the reference time of Unix clocks; nothing is said of it.
#[verifier::external_body]
fn unix_epoch() -> SystemTime {
    std::time::UNIX_EPOCH
}

/// `SystemTime::duration_since`: the time from `earlier` to `t`, or an
/// error when `earlier` is later; nothing more is said of it.
pub assume_specification[ SystemTime::duration_since ](
    t: &SystemTime,
    earlier: SystemTime,
) -> Result<Duration, SystemTimeError>;

/// `Duration::as_secs`: nothing is said of it.
pub assume_specification[ Duration::as_secs ](d: &Duration) -> u64;

/// `Duration::as_millis`: nothing is said of it.
pub assume_specification[ Duration::as_millis ](d: &Duration) -> u128;

/// Whole seconds since the Unix epoch, 0 when the clock reads earlier.
pub fn unix_seconds_now() -> u64 {
    match SystemTime::now().duration_since(unix_epoch()) {
        Ok(d) => d.as_secs(),
        Err(_) => 0,
    }
}

/// Whole milliseconds since the Unix epoch, 0 when the clock reads earlier.
pub fn unix_millis_now() -> u128 {
    match SystemTime::now().duration_since(unix_epoch()) {
        Ok(d) => d.as_millis(),
        Err(_) => 0,
    }
}

} // verus!
