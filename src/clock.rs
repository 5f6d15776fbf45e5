//! The wall clock, read as whole seconds since the Unix epoch.

use vstd::prelude::*;

verus! {

#[verifier::external_type_specification]
#[verifier::external_body]
pub struct ExSystemTime(std::time::SystemTime);

#[verifier::external_type_specification]
#[verifier::external_body]
pub struct ExSystemTimeError(std::time::SystemTimeError);

/// Relies on `SystemTime::now`: the clock's reading, of which nothing is
/// stated.
#[verifier::external_body]
fn system_now() -> (r: std::time::SystemTime) {
    std::time::SystemTime::now()
}

/// Relies on `SystemTime::duration_since` with `UNIX_EPOCH`: the time since
/// the epoch, or an error for a reading before it.
#[verifier::external_body]
fn since_epoch(t: &std::time::SystemTime) -> (r: Result<core::time::Duration, std::time::SystemTimeError>) {
    t.duration_since(std::time::UNIX_EPOCH)
}

/// Relies on `Duration::as_secs`: the whole seconds of `d`.
#[verifier::external_body]
fn whole_seconds(d: &core::time::Duration) -> (r: u64) {
    d.as_secs()
}

/// The seconds elapsed since the Unix epoch, or `None` when the clock reads
/// earlier than the epoch. The result depends on the clock: nothing is
/// stated of it.
pub fn unix_time_seconds() -> (r: Option<u64>) {
    match since_epoch(&system_now()) {
        Ok(d) => Some(whole_seconds(&d)),
        Err(_) => None,
    }
}

} // verus!
