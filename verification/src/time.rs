//! Time stamps.

use vstd::prelude::*;
use crate::fixed::{divide, quotient};
use crate::world::Time;

verus! {

/// The time that a clock reading of `seconds` and `nanoseconds` stands for,
/// with what is less than a ten-thousandth of a second dropped, and clamped
/// to the range of `Time`.
pub open spec fn time_of(seconds: i64, nanoseconds: i64) -> int {
    let ticks = seconds * 10_000 + quotient(nanoseconds as int, 100_000);
    if ticks > i64::MAX {
        i64::MAX as int
    } else if ticks < i64::MIN {
        i64::MIN as int
    } else {
        ticks
    }
}

/// The time of a reading of a monotonic clock, given as whole seconds and the
/// nanoseconds past them.
pub fn precise_time_s(seconds: i64, nanoseconds: i64) -> (time: Time)
    ensures
        time == time_of(seconds, nanoseconds),
{
    let ticks: i128 = seconds as i128 * 10_000 + divide(nanoseconds as i128, 100_000);
    if ticks > i64::MAX as i128 {
        i64::MAX
    } else if ticks < i64::MIN as i128 {
        i64::MIN
    } else {
        ticks as i64
    }
}

} // verus!
