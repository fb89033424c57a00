//! Fresh identifiers and timestamps.
//!
//! Identifiers are random and timestamps come from the wall clock, so
//! nothing can be promised of the values; callers state what holds of their
//! results whatever these return.

use vstd::prelude::*;

verus! {

/// Relies on `uuid::Uuid::new_v4` (random) and `Uuid::as_u128`: a fresh
/// 128-bit identifier.  The value is random; nothing is promised of it.
#[verifier::external_body]
pub(crate) fn fresh_id() -> u128 {
    uuid::Uuid::new_v4().as_u128()
}

/// Relies on `chrono::Utc::now` and `DateTime::timestamp_millis`: the
/// current wall-clock time as milliseconds since the Unix epoch.  The value
/// depends on the clock; nothing is promised of it.
#[verifier::external_body]
pub(crate) fn now_unix_millis() -> i64 {
    chrono::Utc::now().timestamp_millis()
}

} // verus!
