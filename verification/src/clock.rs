//! The board's uptime, which is the only clock it has.

use vstd::prelude::*;

verus! {

/// Milliseconds since boot.
///
/// `embassy_time::Instant::now`, read out with `Instant::as_millis`. Nothing is claimed
/// of the value: it is whatever the time driver reports when it is asked, and two
/// readings need not agree. Every function that reads the clock hands the reading to one
/// that takes it as an argument, and that one is verified for every value.
#[verifier::external_body]
pub(crate) fn uptime_ms() -> (ms: u64) {
    embassy_time::Instant::now().as_millis()
}

} // verus!
