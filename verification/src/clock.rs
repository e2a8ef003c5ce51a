//! The clock.

use vstd::prelude::*;

verus! {

/// A point in time: milliseconds since the Unix epoch, UTC.
pub type Timestamp = i64;

/// `chrono::Utc::now` of the `chrono` crate, read in milliseconds since the
/// Unix epoch. The result is the current time, so nothing is claimed of it.
#[verifier::external_body]
pub(crate) fn now_millis() -> (now: Timestamp) {
    chrono::Utc::now().timestamp_millis()
}

/// The later of two points in time.
pub open spec fn later(a: Timestamp, b: Timestamp) -> Timestamp {
    if a >= b {
        a
    } else {
        b
    }
}

} // verus!
