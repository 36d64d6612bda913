//! Conversions between integers of different widths.
//!
//! A cast between machine integers keeps the low bits of the source and reads
//! them as the target type. A cast from a floating-point value saturates
//! instead: a value beyond the target's range becomes the nearest bound.
use vstd::prelude::*;

verus! {

/// The value of the low 16 bits of `v`, read as a signed integer.
pub open spec fn wrap_i16(v: int) -> int {
    let low = v % 0x1_0000;
    if low < 0x8000 {
        low
    } else {
        low - 0x1_0000
    }
}

/// The value of the low 32 bits of `v`, read as a signed integer.
pub open spec fn wrap_i32(v: int) -> int {
    let low = v % 0x1_0000_0000;
    if low < 0x8000_0000 {
        low
    } else {
        low - 0x1_0000_0000
    }
}

/// The value of the low 64 bits of `v`, read as a signed integer.
pub open spec fn wrap_i64(v: int) -> int {
    let low = v % 0x1_0000_0000_0000_0000;
    if low < 0x8000_0000_0000_0000 {
        low
    } else {
        low - 0x1_0000_0000_0000_0000
    }
}

/// One for true, zero for false.
pub open spec fn bool_as_int(b: bool) -> int {
    if b {
        1
    } else {
        0
    }
}

/// `v` where it lies from `min` to `max`, else the nearer of the two.
pub open spec fn saturate(v: int, min: int, max: int) -> int {
    if v < min {
        min
    } else if v > max {
        max
    } else {
        v
    }
}

/// Narrowing to 16 bits wraps around: the result is a 16-bit value that differs
/// from the source by a multiple of 2^16, and a source that already fits is kept.
pub proof fn lemma_wrap_i16(v: int)
    ensures
        i16::MIN <= wrap_i16(v) <= i16::MAX,
        (v - wrap_i16(v)) % 0x1_0000 == 0,
        i16::MIN <= v <= i16::MAX ==> wrap_i16(v) == v,
{
    let low = v % 0x1_0000;
    assert((v - low) % 0x1_0000 == 0) by (nonlinear_arith)
        requires
            low == v % 0x1_0000,
    ;
    assert((v - (low - 0x1_0000)) % 0x1_0000 == 0) by (nonlinear_arith)
        requires
            low == v % 0x1_0000,
    ;
}

/// Narrowing to 32 bits wraps around: the result is a 32-bit value that differs
/// from the source by a multiple of 2^32, and a source that already fits is kept.
pub proof fn lemma_wrap_i32(v: int)
    ensures
        i32::MIN <= wrap_i32(v) <= i32::MAX,
        (v - wrap_i32(v)) % 0x1_0000_0000 == 0,
        i32::MIN <= v <= i32::MAX ==> wrap_i32(v) == v,
{
    let low = v % 0x1_0000_0000;
    assert((v - low) % 0x1_0000_0000 == 0) by (nonlinear_arith)
        requires
            low == v % 0x1_0000_0000,
    ;
    assert((v - (low - 0x1_0000_0000)) % 0x1_0000_0000 == 0) by (nonlinear_arith)
        requires
            low == v % 0x1_0000_0000,
    ;
}

/// Narrowing to 64 bits wraps around: the result is a 64-bit value that differs
/// from the source by a multiple of 2^64, and a source that already fits is kept.
pub proof fn lemma_wrap_i64(v: int)
    ensures
        i64::MIN <= wrap_i64(v) <= i64::MAX,
        (v - wrap_i64(v)) % 0x1_0000_0000_0000_0000 == 0,
        i64::MIN <= v <= i64::MAX ==> wrap_i64(v) == v,
{
    let low = v % 0x1_0000_0000_0000_0000;
    assert((v - low) % 0x1_0000_0000_0000_0000 == 0) by (nonlinear_arith)
        requires
            low == v % 0x1_0000_0000_0000_0000,
    ;
    assert((v - (low - 0x1_0000_0000_0000_0000)) % 0x1_0000_0000_0000_0000 == 0)
        by (nonlinear_arith)
        requires
            low == v % 0x1_0000_0000_0000_0000,
    ;
}

/// The low 16 bits of a 128-bit integer.
pub fn wrap_to_i16(v: i128) -> (r: i16)
    ensures
        r == wrap_i16(v as int),
{
    assert((v as i16) as int == (if (v as int) % 0x1_0000 < 0x8000 {
        (v as int) % 0x1_0000
    } else {
        (v as int) % 0x1_0000 - 0x1_0000
    })) by (bit_vector);
    #[verifier::truncate]
    (v as i16)
}

/// The low 32 bits of a 128-bit integer.
pub fn wrap_to_i32(v: i128) -> (r: i32)
    ensures
        r == wrap_i32(v as int),
{
    assert((v as i32) as int == (if (v as int) % 0x1_0000_0000 < 0x8000_0000 {
        (v as int) % 0x1_0000_0000
    } else {
        (v as int) % 0x1_0000_0000 - 0x1_0000_0000
    })) by (bit_vector);
    #[verifier::truncate]
    (v as i32)
}

/// The low 64 bits of a 128-bit integer.
pub fn wrap_to_i64(v: i128) -> (r: i64)
    ensures
        r == wrap_i64(v as int),
{
    assert((v as i64) as int == (if (v as int) % 0x1_0000_0000_0000_0000 < 0x8000_0000_0000_0000 {
        (v as int) % 0x1_0000_0000_0000_0000
    } else {
        (v as int) % 0x1_0000_0000_0000_0000 - 0x1_0000_0000_0000_0000
    })) by (bit_vector);
    #[verifier::truncate]
    (v as i64)
}

/// A 128-bit integer brought into the 16-bit range.
pub fn saturate_to_i16(v: i128) -> (r: i16)
    ensures
        r == saturate(v as int, i16::MIN as int, i16::MAX as int),
{
    if v < -0x8000 {
        i16::MIN
    } else if v > 0x7fff {
        i16::MAX
    } else {
        v as i16
    }
}

/// A 128-bit integer brought into the 32-bit range.
pub fn saturate_to_i32(v: i128) -> (r: i32)
    ensures
        r == saturate(v as int, i32::MIN as int, i32::MAX as int),
{
    if v < -0x8000_0000 {
        i32::MIN
    } else if v > 0x7fff_ffff {
        i32::MAX
    } else {
        v as i32
    }
}

/// A 128-bit integer brought into the 64-bit range.
pub fn saturate_to_i64(v: i128) -> (r: i64)
    ensures
        r == saturate(v as int, i64::MIN as int, i64::MAX as int),
{
    if v < -0x8000_0000_0000_0000 {
        i64::MIN
    } else if v > 0x7fff_ffff_ffff_ffff {
        i64::MAX
    } else {
        v as i64
    }
}

} // verus!
