//! The wall clock, read as seconds since the Unix epoch.

use vstd::prelude::*;

verus! {

/// Relies on `chrono::Utc::now`: the current UTC time as a Unix timestamp
/// in seconds. The value depends on the machine's clock, so nothing is
/// promised of it.
#[verifier::external_body]
pub(crate) fn now_utc() -> (r: i64) {
    chrono::Utc::now().timestamp()
}

} // verus!
