//! Time values of the POSIX interval timer.

use crate::bits::{reinterpret_i64, signed64};
use crate::duration::{duration_secs, duration_subsec_nanos};
use core::time::Duration;
use vstd::prelude::*;

verus! {

/// A point or span of time as seconds and nanoseconds.
#[allow(non_camel_case_types)]
#[derive(Clone, Copy, PartialEq, Eq, Debug)]
pub struct timespec {
    pub tv_sec: i64,
    pub tv_nsec: i64,
}

/// The program of an interval timer: its first expiry and its period.
#[allow(non_camel_case_types)]
#[derive(Clone, Copy, PartialEq, Eq, Debug)]
pub struct itimerspec {
    pub it_interval: timespec,
    pub it_value: timespec,
}

impl timespec {
    /// The time value that stands for `d`: its whole seconds read as a signed
    /// 64-bit number, and its nanoseconds beyond them.
    pub open spec fn of(d: Duration) -> timespec {
        timespec {
            tv_sec: signed64(duration_secs(d) as int) as i64,
            tv_nsec: duration_subsec_nanos(d) as i64,
        }
    }

    /// Whether both fields are zero.
    pub open spec fn is_unset(&self) -> bool {
        self.tv_sec == 0 && self.tv_nsec == 0
    }

    /// The time value with both fields zero.
    pub fn zero() -> (ts: timespec)
        ensures
            ts == (timespec { tv_sec: 0, tv_nsec: 0 }),
    {
        timespec { tv_sec: 0, tv_nsec: 0 }
    }

    /// Converts a duration to seconds and nanoseconds.
    pub fn from_duration(d: Duration) -> (ts: timespec)
        ensures
            ts == timespec::of(d),
    {
        timespec { tv_sec: reinterpret_i64(d.as_secs()), tv_nsec: d.subsec_nanos() as i64 }
    }
}

impl itimerspec {
    /// The program that fires first after `timeout` and then every `interval`.
    pub open spec fn of(timeout: Duration, interval: Duration) -> itimerspec {
        itimerspec { it_interval: timespec::of(interval), it_value: timespec::of(timeout) }
    }

    /// The program that stops the timer.
    pub open spec fn stopped() -> itimerspec {
        itimerspec {
            it_interval: timespec { tv_sec: 0, tv_nsec: 0 },
            it_value: timespec { tv_sec: 0, tv_nsec: 0 },
        }
    }

    /// Whether this program leaves the timer running: its first expiry is set.
    pub open spec fn arms(&self) -> bool {
        !self.it_value.is_unset()
    }

    /// Builds the program for a first expiry after `timeout` and a period of
    /// `interval`.
    pub fn new(timeout: Duration, interval: Duration) -> (spec: itimerspec)
        ensures
            spec == itimerspec::of(timeout, interval),
    {
        itimerspec {
            it_interval: timespec::from_duration(interval),
            it_value: timespec::from_duration(timeout),
        }
    }

    /// Builds the program that stops the timer.
    pub fn disarm() -> (spec: itimerspec)
        ensures
            spec == itimerspec::stopped(),
            !spec.arms(),
    {
        itimerspec { it_interval: timespec::zero(), it_value: timespec::zero() }
    }

    /// Tells whether a timer that reports this program is still pending.
    pub fn is_armed(&self) -> (armed: bool)
        ensures
            armed == self.arms(),
    {
        self.it_value.tv_sec != 0 || self.it_value.tv_nsec != 0
    }
}

} // verus!
