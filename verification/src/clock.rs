//! The one place the library reads the system clock.

use vstd::prelude::*;

verus! {

/// Relies on std::time::SystemTime::now and
/// Duration::as_secs: whole seconds of the system clock since the
/// Unix epoch, or 0 when the clock reads before the epoch. The result
/// depends on the clock, so nothing is promised of its value.
#[verifier::external_body]
fn system_unix_seconds() -> u64 {
    match std::time::SystemTime::now().duration_since(std::time::UNIX_EPOCH) {
        Ok(d) => d.as_secs(),
        Err(_) => 0,
    }
}

/// The current time as a non-negative signed timestamp, clamped to
/// `i64::MAX`.
pub fn now_unix_seconds() -> (r: i64)
    ensures
        r >= 0,
{
    let s = system_unix_seconds();
    if s > i64::MAX as u64 {
        i64::MAX
    } else {
        s as i64
    }
}

} // verus!
