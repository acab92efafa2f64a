//! Trusted boundary to timestamp formatting.
//!
//! The verification decision takes the current time as an explicit
//! argument and the clock is read outside the library, so the decision
//! stays a pure function of its inputs.

use vstd::prelude::*;

verus! {

/// How far in the future a log's stated timestamp may lie: one week of
/// clock skew is tolerated.
pub const SET_FUTURE_SKEW_SECONDS: i64 = 604800;

/// The RFC 3339 rendering of a UTC timestamp given in seconds since the
/// Unix epoch.
pub uninterp spec fn spec_rfc3339(secs: int) -> Seq<char>;

/// Relies on chrono's `DateTime::from_timestamp` and `to_rfc3339`: for an
/// in-range number of seconds the conversion succeeds, and the rendering
/// is a function of the timestamp alone (always UTC, no locale).
#[verifier::external_body]
pub fn rfc3339_utc(secs: i64) -> (r: String)
    requires
        0 <= secs <= 253402300799,  // through year 9999, well inside chrono's range
    ensures
        r@ == spec_rfc3339(secs as int),
{
    match chrono::DateTime::from_timestamp(secs, 0) {
        Some(t) => t.to_rfc3339(),
        None => String::new(),
    }
}

} // verus!
