//! The one place the library reads the wall clock.
//!
//! Trade dates and audit timestamps are plain integers: milliseconds since the
//! Unix epoch. Only this module touches the clock; everything downstream of a
//! reading is verified for every value the clock could have returned.

use vstd::prelude::*;

verus! {

/// Relies on chrono's `Utc::now` and `DateTime::timestamp_millis`: the current
/// wall-clock time in milliseconds since the Unix epoch. Nothing is promised
/// about the value returned.
#[verifier::external_body]
pub(crate) fn now_millis() -> i64 {
    chrono::Utc::now().timestamp_millis()
}

} // verus!
