//! The system clock.

use vstd::prelude::*;

verus! {

/// Reads the system clock with `SystemTime::elapsed` on the Unix epoch:
/// whole seconds since 1970-01-01T00:00:00Z, or `None` when the clock stands
/// before the epoch. Trusted, and nothing is claimed of the reading: two
/// calls may differ.
#[verifier::external_body]
pub(crate) fn unix_now() -> (now: Option<u64>) {
    match std::time::UNIX_EPOCH.elapsed() {
        Ok(since) => Some(since.as_secs()),
        Err(_) => None,
    }
}

} // verus!
