//! The clock.

use vstd::prelude::*;

use crate::model::Timestamp;

verus! {

/// Reads the system clock through `chrono::Utc::now` and hands the instant
/// back as seconds and nanoseconds since the Unix epoch
/// (`DateTime::timestamp` and `DateTime::timestamp_subsec_nanos`). Nothing is
/// claimed of the value: two calls may give any two instants.
#[verifier::external_body]
pub(crate) fn now() -> (instant: Timestamp) {
    let instant = chrono::Utc::now();
    Timestamp { secs: instant.timestamp(), nanos: instant.timestamp_subsec_nanos() }
}

} // verus!
