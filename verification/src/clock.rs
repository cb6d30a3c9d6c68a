//! The wall clock, in whole seconds since the Unix epoch.

use std::time::{Duration, SystemTime, SystemTimeError, UNIX_EPOCH};
use vstd::prelude::*;

verus! {

/// A moment of the system clock, as `std` holds it.
#[verifier::external_type_specification]
#[verifier::external_body]
pub struct ExSystemTime(SystemTime);

/// The error of `std` for a moment that lies before the one it is held
/// against.
#[verifier::external_type_specification]
#[verifier::external_body]
pub struct ExSystemTimeError(SystemTimeError);

/// Calls `std::time::SystemTime::now`. Two calls may differ, so nothing is
/// assumed of the moment.
#[verifier::external_body]
fn system_time_now() -> (time: SystemTime) {
    SystemTime::now()
}

/// Calls `std::time::SystemTime::duration_since` with
/// `std::time::UNIX_EPOCH`: the time elapsed since the epoch, or the error
/// for a moment before it. Nothing is assumed of either.
#[verifier::external_body]
fn since_unix_epoch(time: &SystemTime) -> (elapsed: Result<Duration, SystemTimeError>) {
    time.duration_since(UNIX_EPOCH)
}

/// Calls `std::time::Duration::as_secs`: the whole seconds that a duration
/// holds. Nothing is assumed of the number.
#[verifier::external_body]
fn whole_seconds(elapsed: &Duration) -> (seconds: u64) {
    elapsed.as_secs()
}

/// Reads the system clock: the whole seconds elapsed since 1 January 1970
/// UTC, or `None` where the clock reads a moment before that.
pub(crate) fn unix_now() -> (now: Option<u64>) {
    let time = system_time_now();
    match since_unix_epoch(&time) {
        Ok(elapsed) => Some(whole_seconds(&elapsed)),
        Err(_) => None,
    }
}

} // verus!
