//! Time values of the dispatch-source timer.

use crate::bits::{low64, reinterpret_i64, signed64, truncate_u64};
use crate::duration::{nanos_of, total_nanos};
use core::time::Duration;
use vstd::prelude::*;

verus! {

/// The repeat interval of a source that fires once.
pub const DISPATCH_TIME_FOREVER: u64 = 0xffff_ffff_ffff_ffff;

/// The offset from the present wall time that stands for `timeout`: its
/// nanoseconds, kept to 64 bits and read as a signed number.
pub open spec fn delta_of(timeout: Duration) -> i64 {
    signed64(total_nanos(timeout)) as i64
}

/// The repeat interval that stands for `interval`: its nanoseconds, kept to
/// 64 bits.
pub open spec fn interval_of(interval: Duration) -> u64 {
    low64(total_nanos(interval)) as u64
}

/// Converts a timeout to an offset in nanoseconds from the present wall time.
pub fn start_delta(timeout: Duration) -> (delta: i64)
    ensures
        delta == delta_of(timeout),
{
    let bits: u64 = truncate_u64(nanos_of(timeout));
    proof {
        assert(low64(low64(total_nanos(timeout))) == low64(total_nanos(timeout)));
    }
    reinterpret_i64(bits)
}

/// Converts a repeat interval to nanoseconds.
pub fn repeat_interval(interval: Duration) -> (nanos: u64)
    ensures
        nanos == interval_of(interval),
{
    truncate_u64(nanos_of(interval))
}

} // verus!
