//! The wall clock, read through `chrono`.

use vstd::prelude::*;

verus! {

/// The system's time, converted by `DateTime::<Utc>::from` and read by
/// `DateTime::timestamp`: seconds since the Unix epoch, negative for a clock
/// that is set before it. Nothing is promised of the value: it is whatever
/// the system clock says.
#[verifier::external_body]
pub(crate) fn unix_now() -> i64 {
    chrono::DateTime::<chrono::Utc>::from(std::time::SystemTime::now()).timestamp()
}

} // verus!
