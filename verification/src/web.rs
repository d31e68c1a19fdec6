//! Time values of the browser timer.

use crate::bits::{low32, truncate_u32};
use crate::duration::{millis_of, total_millis};
use core::time::Duration;
use vstd::prelude::*;

verus! {

/// The delay in milliseconds that stands for `interval`: its whole
/// milliseconds, kept to 32 bits.
pub open spec fn delay_of(interval: Duration) -> u32 {
    low32(total_millis(interval)) as u32
}

/// Converts a repeat interval to a delay in milliseconds.
pub fn delay(interval: Duration) -> (ms: u32)
    ensures
        ms == delay_of(interval),
{
    truncate_u32(millis_of(interval))
}

} // verus!
