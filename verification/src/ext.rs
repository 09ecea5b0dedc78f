//! The only calls this library makes into outside crates: fresh identifiers
//! and the current time. Both results depend on the environment, so their
//! contracts state only what holds of every outcome.

use vstd::prelude::*;

verus! {

/// Relies on uuid's `Uuid::new_v4` and its `Display` impl: a random
/// version-4 UUID rendered in the hyphenated form, which is always 36
/// lowercase-hex-and-hyphen (so ASCII) characters. Nothing more can be
/// promised of a random identifier.
#[verifier::external_body]
pub fn fresh_id() -> (r: String)
    ensures
        r@.len() == 36,
        r.is_ascii(),
{
    uuid::Uuid::new_v4().to_string()
}

/// Relies on chrono's `Utc::now` and `DateTime::timestamp_millis`: the
/// current time as signed milliseconds since the Unix epoch. The clock is
/// not a function of anything, so nothing is promised of the value.
#[verifier::external_body]
fn utc_now_millis() -> i64 {
    chrono::Utc::now().timestamp_millis()
}

/// The current time as unsigned epoch milliseconds; instants before the
/// epoch are reported as the epoch itself.
pub fn now_millis() -> u64 {
    let raw = utc_now_millis();
    if raw < 0 {
        0
    } else {
        raw as u64
    }
}

} // verus!
