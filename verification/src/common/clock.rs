//! The wall clock.

use vstd::prelude::*;

verus! {

/// `chrono::Utc::now`, as whole seconds since the Unix epoch
/// (`DateTime::timestamp`). Nothing is known of the value: two reads may
/// differ, and the clock may be set to any time from 1970 on. `Utc::now`
/// panics where the system clock stands before 1970.
#[verifier::external_body]
pub(crate) fn unix_now() -> (seconds: i64) {
    chrono::Utc::now().timestamp()
}

/// `chrono::Utc::now`, as microseconds since the Unix epoch
/// (`DateTime::timestamp_micros`). Nothing is known of the value.
#[verifier::external_body]
pub(crate) fn unix_now_micros() -> (micros: i64) {
    chrono::Utc::now().timestamp_micros()
}

} // verus!
