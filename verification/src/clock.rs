//! The wall clock, as whole seconds since the Unix epoch.

use std::time::{Duration, SystemTime, SystemTimeError, UNIX_EPOCH};
use vstd::prelude::*;

verus! {

/// A reading of the system clock, handed on and not looked into.
#[verifier::external_type_specification]
#[verifier::external_body]
pub struct ExSystemTime(SystemTime);

/// The error of a time before the one it is measured from, not looked into.
#[verifier::external_type_specification]
#[verifier::external_body]
pub struct ExSystemTimeError(SystemTimeError);

/// Reads the system clock with `SystemTime::now`. Nothing is claimed of what
/// it reads.
#[verifier::external_body]
fn system_now() -> SystemTime {
    SystemTime::now()
}

/// Measures `time` from the Unix epoch with `SystemTime::duration_since`,
/// which fails for a time before the epoch. Nothing is claimed of the
/// outcome.
#[verifier::external_body]
fn since_unix_epoch(time: &SystemTime) -> Result<Duration, SystemTimeError> {
    time.duration_since(UNIX_EPOCH)
}

/// The whole seconds of a duration, by `Duration::as_secs`. Nothing is
/// claimed of their number.
#[verifier::external_body]
fn whole_seconds(duration: &Duration) -> u64 {
    duration.as_secs()
}

/// The whole seconds between the Unix epoch and now, or `None` while the
/// system clock stands before the epoch.
pub(crate) fn unix_seconds() -> Option<u64> {
    let time = system_now();
    match since_unix_epoch(&time) {
        Ok(duration) => Some(whole_seconds(&duration)),
        Err(_) => None,
    }
}

} // verus!
