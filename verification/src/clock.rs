//! Monotonic high-resolution timestamps. Durations are differences of two
//! readings, in nanoseconds; nothing is assumed of any single reading.

use vstd::prelude::*;

verus! {

/// Relies on `time::precise_time_ns`: the current value of a high-resolution
/// performance counter, in nanoseconds since an unspecified epoch. No two
/// calls are related by any contract, so every duration below is clamped.
#[verifier::external_body]
pub(crate) fn now_ns() -> u64 {
    time::precise_time_ns()
}

/// Nanosecond difference between two clock readings, clamped at zero so that
/// a non-monotonic pair can never underflow.
pub open spec fn span_ns(t0: u64, t1: u64) -> u64 {
    if t1 >= t0 {
        (t1 - t0) as u64
    } else {
        0u64
    }
}

/// Executable form of `span_ns`.
pub fn duration_ns(t0: u64, t1: u64) -> (d: u64)
    ensures
        d == span_ns(t0, t1),
{
    if t1 >= t0 {
        t1 - t0
    } else {
        0
    }
}

} // verus!
