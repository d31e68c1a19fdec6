//! Time values of the Windows thread-pool timer.

use crate::bits::{low32, low64, negate_u64, reinterpret_i64, reinterpret_u64, signed64, truncate_u32, truncate_u64};
use crate::duration::{millis_of, ticks_of, total_millis, total_ticks};
use core::time::Duration;
use vstd::prelude::*;

verus! {

/// A 64-bit count of 100-nanosecond ticks, split into its two 32-bit halves.
/// A negative count is a due time relative to now.
#[derive(Clone, Copy, PartialEq, Eq, Debug)]
pub struct FileTime {
    pub low_date_time: u32,
    pub high_date_time: u32,
}

impl FileTime {
    /// The halves of the low 64 bits of `ticks`.
    pub open spec fn of_ticks(ticks: int) -> FileTime {
        FileTime {
            low_date_time: (low64(ticks) % 0x1_0000_0000) as u32,
            high_date_time: (low64(ticks) / 0x1_0000_0000) as u32,
        }
    }

    /// The signed tick count that the two halves hold.
    pub open spec fn ticks(&self) -> int {
        signed64(self.high_date_time * 0x1_0000_0000 + self.low_date_time)
    }

    /// The due time that lies `timeout` after now: the negated tick count of
    /// `timeout`, kept to 64 bits.
    pub open spec fn due_in(timeout: Duration) -> FileTime {
        FileTime::of_ticks(-total_ticks(timeout))
    }

    /// Splits a tick count into its halves.
    pub fn from_ticks(ticks: i64) -> (ft: FileTime)
        ensures
            ft == FileTime::of_ticks(ticks as int),
            ft.ticks() == ticks,
    {
        let bits: u64 = reinterpret_u64(ticks);
        FileTime {
            low_date_time: (bits % 0x1_0000_0000) as u32,
            high_date_time: (bits / 0x1_0000_0000) as u32,
        }
    }

    /// Joins the halves into a tick count.
    pub fn as_ticks(&self) -> (ticks: i64)
        ensures
            ticks == self.ticks(),
    {
        let high: u64 = self.high_date_time as u64;
        let low: u64 = self.low_date_time as u64;
        reinterpret_i64(high * 0x1_0000_0000 + low)
    }

    /// The relative due time for a first expiry after `timeout`.
    pub fn relative(timeout: Duration) -> (ft: FileTime)
        ensures
            ft == FileTime::due_in(timeout),
    {
        let ticks: u64 = truncate_u64(ticks_of(timeout));
        let bits: u64 = negate_u64(ticks);
        proof {
            let total = total_ticks(timeout);
            assert(low64(-(low64(total))) == low64(-total));
        }
        FileTime {
            low_date_time: (bits % 0x1_0000_0000) as u32,
            high_date_time: (bits / 0x1_0000_0000) as u32,
        }
    }
}

/// The period in milliseconds that stands for `interval`: its whole
/// milliseconds, kept to 32 bits.
pub open spec fn period_of(interval: Duration) -> u32 {
    low32(total_millis(interval)) as u32
}

/// Converts a repeat interval to a period in milliseconds.
pub fn period(interval: Duration) -> (ms: u32)
    ensures
        ms == period_of(interval),
{
    truncate_u32(millis_of(interval))
}

} // verus!
