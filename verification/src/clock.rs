//! The wall clock, read in whole seconds since the Unix epoch.

use std::time::{Duration, SystemTime, SystemTimeError};
use vstd::prelude::*;

verus! {

/// `std::time::SystemTime`, carried through as an opaque value.
#[verifier::external_type_specification]
#[verifier::external_body]
pub struct ExSystemTime(SystemTime);

/// `std::time::SystemTimeError`, carried through as an opaque value.
#[verifier::external_type_specification]
#[verifier::external_body]
pub struct ExSystemTimeError(SystemTimeError);

/// `SystemTime::now`: the current reading of the system clock. Nothing is
/// claimed of the reading.
pub assume_specification[ SystemTime::now ]() -> (now: SystemTime);

/// `SystemTime::duration_since`, measured from `UNIX_EPOCH`. The call fails
/// when the reading lies before the epoch; nothing more is claimed.
#[verifier::external_body]
fn since_unix_epoch(reading: &SystemTime) -> (elapsed: Result<Duration, SystemTimeError>) {
    reading.duration_since(std::time::UNIX_EPOCH)
}

/// The whole seconds that a duration spans.
pub uninterp spec fn whole_seconds(span: Duration) -> u64;

/// `Duration::as_secs`: the whole seconds of a duration, the fraction of a
/// second left out. The number depends on the duration alone.
pub assume_specification[ Duration::as_secs ](span: &Duration) -> (secs: u64)
    ensures
        secs == whole_seconds(*span),
;

/// The timestamp that a measurement from the epoch stands for: its whole
/// seconds, and zero where the clock was found to be set before the epoch.
pub open spec fn seconds_read(elapsed: Result<Duration, SystemTimeError>) -> u64 {
    match elapsed {
        Ok(span) => whole_seconds(span),
        Err(_) => 0,
    }
}

/// Turns a measurement from the epoch into a timestamp. A clock set before
/// the epoch reads as the epoch itself.
pub fn seconds_since_epoch(elapsed: Result<Duration, SystemTimeError>) -> (secs: u64)
    ensures
        secs == seconds_read(elapsed),
{
    match elapsed {
        Ok(span) => span.as_secs(),
        Err(_) => 0,
    }
}

/// Whole seconds elapsed since the Unix epoch, as the system clock has it
/// at the moment of the call. A clock set before the epoch reads as the
/// epoch itself.
pub(crate) fn unix_seconds() -> u64 {
    let reading = SystemTime::now();
    seconds_since_epoch(since_unix_epoch(&reading))
}

} // verus!
