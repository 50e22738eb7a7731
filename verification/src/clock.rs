//! The wall clock, read in whole seconds since the Unix epoch.
//!
//! Nothing is known of a reading before it is taken, so the contracts here
//! promise nothing about it: every function that stamps a record with the
//! clock also exists in a form that takes the time as an argument.

use vstd::prelude::*;

verus! {

/// `std::time::SystemTime`, a reading of the system clock. Carried through
/// as it is: nothing inside it is looked at.
#[verifier::external_type_specification]
#[verifier::external_body]
pub struct ExSystemTime(std::time::SystemTime);

/// `std::time::SystemTimeError`, what `SystemTime::duration_since` returns
/// when the clock stands before the instant it is held against.
#[verifier::external_type_specification]
#[verifier::external_body]
pub struct ExSystemTimeError(std::time::SystemTimeError);

/// `SystemTime::now` reads the system clock. Nothing is claimed of the value.
pub assume_specification[ std::time::SystemTime::now ]() -> (now: std::time::SystemTime);

/// `SystemTime::duration_since` gives the time elapsed from `earlier`, or an
/// error when `earlier` is the later of the two. Nothing is claimed of
/// which it is, nor of the amount.
pub assume_specification[ std::time::SystemTime::duration_since ](
    time: &std::time::SystemTime,
    earlier: std::time::SystemTime,
) -> (elapsed: Result<core::time::Duration, std::time::SystemTimeError>);

/// `Duration::as_secs` gives the whole seconds of a duration. Nothing is
/// claimed of the number.
pub assume_specification[ core::time::Duration::as_secs ](duration: &core::time::Duration) -> (secs:
    u64);

/// The constant `std::time::UNIX_EPOCH`, the instant from which timestamps
/// count. Nothing is claimed of it.
#[verifier::external_body]
fn unix_epoch() -> (epoch: std::time::SystemTime) {
    std::time::UNIX_EPOCH
}

/// Reads the clock: whole seconds since the Unix epoch, and zero where the
/// clock stands before it.
pub(crate) fn unix_seconds() -> (secs: u64) {
    let now = std::time::SystemTime::now();
    match now.duration_since(unix_epoch()) {
        Ok(elapsed) => elapsed.as_secs(),
        Err(_) => 0,
    }
}

} // verus!
