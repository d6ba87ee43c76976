//! The wall clock, for the functions that stamp the current time.

use vstd::prelude::*;

verus! {

/// Relies on chrono's `From<SystemTime> for DateTime<Utc>` and
/// DateTime::timestamp_millis: the wall-clock time in milliseconds since the
/// Unix epoch, negative for a clock set before it. Nothing is promised of
/// the value.
#[verifier::external_body]
pub(crate) fn now_millis() -> (r: i64) {
    chrono::DateTime::<chrono::Utc>::from(std::time::SystemTime::now()).timestamp_millis()
}

/// The wall-clock time as an unsigned millisecond count; a clock that reads
/// before the epoch counts as zero.
pub(crate) fn now_millis_u64() -> (r: u64) {
    let t = now_millis();
    if t < 0 {
        0
    } else {
        t as u64
    }
}

} // verus!
