//! The wall clock, read through chrono.

use vstd::prelude::*;

verus! {

/// Relies on `chrono::Utc::now` and `DateTime::timestamp`: the whole seconds since the
/// Unix epoch. `Utc::now` takes the seconds from a `Duration` since the epoch, so the
/// result is never negative.
#[verifier::external_body]
pub fn now_timestamp() -> (r: i64)
    ensures
        r >= 0,
{
    chrono::Utc::now().timestamp()
}

/// Relies on `chrono::Utc::now` and `DateTime::timestamp_millis`: the milliseconds since
/// the Unix epoch, never negative for the same reason.
#[verifier::external_body]
pub fn now_millis() -> (r: i64)
    ensures
        r >= 0,
{
    chrono::Utc::now().timestamp_millis()
}

} // verus!
