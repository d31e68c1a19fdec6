//! Fixed-width readings of unbounded integers, as native timer interfaces take them.

use vstd::prelude::*;

verus! {

/// The low 32 bits of `v`, read as an unsigned number.
pub open spec fn low32(v: int) -> int {
    v % 0x1_0000_0000
}

/// The low 64 bits of `v`, read as an unsigned number.
pub open spec fn low64(v: int) -> int {
    v % 0x1_0000_0000_0000_0000
}

/// The low 64 bits of `v`, read as a signed two's-complement number.
pub open spec fn signed64(v: int) -> int {
    if low64(v) < 0x8000_0000_0000_0000 {
        low64(v)
    } else {
        low64(v) - 0x1_0000_0000_0000_0000
    }
}

/// Keeps the low 32 bits of `v`.
pub fn truncate_u32(v: u128) -> (r: u32)
    ensures
        r == low32(v as int),
{
    let r = #[verifier::truncate] (v as u32);
    assert((v as u32) == v % 0x1_0000_0000u128) by (bit_vector);
    r
}

/// Keeps the low 64 bits of `v`.
pub fn truncate_u64(v: u128) -> (r: u64)
    ensures
        r == low64(v as int),
{
    let r = #[verifier::truncate] (v as u64);
    assert((v as u64) == v % 0x1_0000_0000_0000_0000u128) by (bit_vector);
    r
}

/// Reads the 64 bits of `v` as a signed number.
pub fn reinterpret_i64(v: u64) -> (r: i64)
    ensures
        r == signed64(v as int),
{
    if v <= 0x7fff_ffff_ffff_ffff {
        v as i64
    } else {
        ((v - 0x8000_0000_0000_0000) as i64) + i64::MIN
    }
}

/// Reads the 64 bits of `v` as an unsigned number.
pub fn reinterpret_u64(v: i64) -> (r: u64)
    ensures
        r == low64(v as int),
        signed64(r as int) == v,
{
    if v >= 0 {
        v as u64
    } else {
        ((v - i64::MIN) as u64) + 0x8000_0000_0000_0000
    }
}

/// Two's-complement negation within 64 bits.
pub fn negate_u64(v: u64) -> (r: u64)
    ensures
        r == low64(-(v as int)),
{
    if v == 0 {
        0
    } else {
        (u64::MAX - v) + 1
    }
}

/// Readings of a number that already fits are the number itself.
pub proof fn lemma_readings_in_range(v: int)
    ensures
        0 <= v < 0x1_0000_0000 ==> low32(v) == v,
        0 <= v < 0x1_0000_0000_0000_0000 ==> low64(v) == v,
        -0x8000_0000_0000_0000 <= v < 0x8000_0000_0000_0000 ==> signed64(v) == v,
{
    if -0x8000_0000_0000_0000 <= v < 0 {
        assert(low64(v) == v + 0x1_0000_0000_0000_0000);
    }
}

} // verus!
