//! The wall clock.
use vstd::prelude::*;

verus! {

/// Reads the system clock through `chrono::Utc::now` and returns the instant as milliseconds
/// since the Unix epoch (`DateTime::timestamp_millis`). The value depends on when the call
/// runs, so nothing is stated of it.
#[verifier::external_body]
pub(crate) fn utc_now_millis() -> i64 {
    chrono::Utc::now().timestamp_millis()
}

} // verus!
