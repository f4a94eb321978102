//! Deadlines, against a clock that the caller reads.
//!
//! A clock reading is the count of nanoseconds since some moment that the
//! caller chose once and for all.

use vstd::prelude::*;

verus! {

/// Nanoseconds in a second.
pub const NANOS_PER_SEC: u128 = 1_000_000_000;

/// The reading at which a wait is over that is begun at `now` and lasts for so
/// many seconds and nanoseconds.
pub open spec fn deadline_of(now: u64, secs: u64, subsec_nanos: u32) -> u128 {
    (now + secs * NANOS_PER_SEC + subsec_nanos) as u128
}

/// The reading at which a wait is over that is begun at `now_nanos`.
pub fn deadline(now_nanos: u64, secs: u64, subsec_nanos: u32) -> (deadline_nanos: u128)
    ensures
        deadline_nanos == now_nanos + secs * NANOS_PER_SEC + subsec_nanos,
        deadline_nanos == deadline_of(now_nanos, secs, subsec_nanos),
{
    now_nanos as u128 + secs as u128 * NANOS_PER_SEC + subsec_nanos as u128
}

/// The nanoseconds from `now` to `deadline`; nothing once it is reached.
pub open spec fn left_until(deadline: u128, now: u64) -> Option<u128> {
    if now < deadline {
        Some((deadline - now) as u128)
    } else {
        None
    }
}

/// The nanoseconds that are left of a wait; nothing once it is over.
pub fn time_left(deadline_nanos: u128, now_nanos: u64) -> (left_nanos: Option<u128>)
    ensures
        left_nanos == left_until(deadline_nanos, now_nanos),
{
    if (now_nanos as u128) < deadline_nanos {
        Some(deadline_nanos - now_nanos as u128)
    } else {
        None
    }
}

} // verus!
