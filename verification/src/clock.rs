//! The time by which keys are rotated.

use std::time::Duration;
use std::time::SystemTime;
use std::time::SystemTimeError;
use std::time::UNIX_EPOCH;
use vstd::prelude::*;

verus! {

/// A reading of the system clock.
#[verifier::external_type_specification]
#[verifier::external_body]
pub struct ExSystemTime(SystemTime);

/// The error of a clock reading that lies before the instant it is measured
/// from.
#[verifier::external_type_specification]
#[verifier::external_body]
pub struct ExSystemTimeError(SystemTimeError);

/// The time that lies between the UNIX epoch and the reading `at`; `None`
/// where the reading is before the epoch.
pub uninterp spec fn since_epoch(at: SystemTime) -> Option<Duration>;

/// The whole seconds in `elapsed`, rounded down.
pub uninterp spec fn seconds_in(elapsed: Duration) -> u64;

/// The timebase that a clock reading stands for: the whole seconds that it
/// lies after the UNIX epoch, and 0 where it lies before the epoch.
pub open spec fn unix_seconds(at: SystemTime) -> u64 {
    match since_epoch(at) {
        Some(elapsed) => seconds_in(elapsed),
        None => 0,
    }
}

/// `SystemTime::now`: the present reading of the system clock. Nothing is
/// said of it.
#[verifier::external_body]
fn system_now() -> SystemTime {
    SystemTime::now()
}

/// `SystemTime::duration_since` with `UNIX_EPOCH`: the time that lies between
/// the epoch and `at`, or an error where `at` is before the epoch.
///
/// Claimed of std, and not proved here: the answer depends on the reading
/// alone.
#[verifier::external_body]
fn since_unix_epoch(at: &SystemTime) -> (r: Result<Duration, SystemTimeError>)
    ensures
        match r {
            Ok(elapsed) => since_epoch(*at) == Some(elapsed),
            Err(_) => since_epoch(*at) is None,
        },
{
    at.duration_since(UNIX_EPOCH)
}

/// `Duration::as_secs`: the whole seconds in `elapsed`.
///
/// Claimed of std, and not proved here: the answer depends on the duration
/// alone.
#[verifier::external_body]
fn whole_seconds(elapsed: &Duration) -> (r: u64)
    ensures
        r == seconds_in(*elapsed),
{
    elapsed.as_secs()
}

/// The timebase of one clock reading: its whole seconds since the UNIX epoch.
/// A reading before the epoch counts as 0.
pub fn seconds_at(at: &SystemTime) -> (r: u64)
    ensures
        r == unix_seconds(*at),
{
    match since_unix_epoch(at) {
        Ok(elapsed) => whole_seconds(&elapsed),
        Err(_) => 0,
    }
}

/// The timebase for rolling the ticketing keys: UNIX wall time in whole
/// seconds, as some reading of the system clock gives it. A clock that is
/// set before the epoch reads as 0.
///
/// The clock is only read, never set; it may jump backwards, which delays a
/// rotation and does nothing else.
pub fn timebase() -> (r: u64)
    ensures
        exists|at: SystemTime| r == #[trigger] unix_seconds(at),
{
    let at = system_now();
    seconds_at(&at)
}

} // verus!
