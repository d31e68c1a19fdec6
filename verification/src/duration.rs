//! What the library reads of a `core::time::Duration`.
//!
//! A duration is known here by two numbers: its whole seconds and the nanoseconds
//! beyond them. Every conversion to a native time value is stated over these.

use core::time::Duration;
use vstd::prelude::*;

verus! {

/// Whole seconds held by a duration.
pub uninterp spec fn duration_secs(d: Duration) -> u64;

/// Nanoseconds of a duration beyond its whole seconds.
pub uninterp spec fn duration_subsec_nanos(d: Duration) -> u32;

/// `Duration::as_secs` returns the whole seconds of the duration. Not proved here.
pub assume_specification[ Duration::as_secs ](d: &Duration) -> (secs: u64)
    ensures
        secs == duration_secs(*d),
;

/// `Duration::subsec_nanos` returns the fractional part in nanoseconds, which is
/// always below one second. Not proved here.
pub assume_specification[ Duration::subsec_nanos ](d: &Duration) -> (nanos: u32)
    ensures
        nanos == duration_subsec_nanos(*d),
        nanos < 1_000_000_000,
;

/// `Duration::from_secs` builds a duration of whole seconds with no fractional
/// part. Not proved here.
pub assume_specification[ Duration::from_secs ](secs: u64) -> (d: Duration)
    ensures
        duration_secs(d) == secs,
        duration_subsec_nanos(d) == 0,
;

/// Whether a duration has no length at all.
pub open spec fn is_zero(d: Duration) -> bool {
    duration_secs(d) == 0 && duration_subsec_nanos(d) == 0
}

/// Total length of a duration in nanoseconds.
pub open spec fn total_nanos(d: Duration) -> int {
    duration_secs(d) * 1_000_000_000 + duration_subsec_nanos(d)
}

/// Total length of a duration in whole milliseconds.
pub open spec fn total_millis(d: Duration) -> int {
    duration_secs(d) * 1_000 + duration_subsec_nanos(d) / 1_000_000
}

/// Total length of a duration in whole ticks of 100 nanoseconds.
pub open spec fn total_ticks(d: Duration) -> int {
    duration_secs(d) * 10_000_000 + duration_subsec_nanos(d) / 100
}

/// Tells whether `d` is the empty duration.
pub fn duration_is_zero(d: Duration) -> (zero: bool)
    ensures
        zero == is_zero(d),
{
    d.as_secs() == 0 && d.subsec_nanos() == 0
}

/// The length of `d` in nanoseconds.
pub fn nanos_of(d: Duration) -> (nanos: u128)
    ensures
        nanos == total_nanos(d),
{
    let secs: u128 = d.as_secs() as u128;
    let rest: u128 = d.subsec_nanos() as u128;
    secs * 1_000_000_000 + rest
}

/// The length of `d` in whole milliseconds.
pub fn millis_of(d: Duration) -> (millis: u128)
    ensures
        millis == total_millis(d),
{
    let secs: u128 = d.as_secs() as u128;
    let rest: u128 = (d.subsec_nanos() / 1_000_000) as u128;
    secs * 1_000 + rest
}

/// The length of `d` in whole ticks of 100 nanoseconds.
pub fn ticks_of(d: Duration) -> (ticks: u128)
    ensures
        ticks == total_ticks(d),
{
    let secs: u128 = d.as_secs() as u128;
    let rest: u128 = (d.subsec_nanos() / 100) as u128;
    secs * 10_000_000 + rest
}

} // verus!
