//! The wall clock.
use vstd::prelude::*;

verus! {

/// The current time in seconds since the epoch, as `chrono::Utc::now` gives
/// it and `chrono::DateTime::timestamp` counts it.
///
/// Nothing is claimed of the value: the clock is wall-clock time and may
/// stand still or step back.
#[verifier::external_body]
pub(crate) fn utc_now_secs() -> (now: i64) {
    chrono::Utc::now().timestamp()
}

} // verus!
