//! Casts to `INTEGER`.
use crate::decimal::{decimal_integer, decimal_to_long};
use crate::float::{double_to_int, double_trunc, float_to_int, float_trunc};
use crate::integer::{bool_as_int, saturate, saturate_to_i32, wrap_i32, wrap_to_i32};
use crate::text::{parse_integer, integer_literal};
use dbsp::algebra::{F32, F64};
use rust_decimal::Decimal;
use vstd::prelude::*;

verus! {

/// The 32-bit integer that a text stands for: the one it writes, zero where
/// it writes none.
pub open spec fn integer_of_text(s: Seq<char>) -> i32 {
    match integer_literal(s) {
        Some(v) => v,
        None => 0,
    }
}

/// The integer part of a decimal, where it fits in 32 bits.
pub open spec fn integer_of_decimal(d: Decimal) -> Option<i32> {
    if i32::MIN <= decimal_integer(d) <= i32::MAX {
        Some(decimal_integer(d) as i32)
    } else {
        None
    }
}

/// `BOOLEAN` to `INTEGER`: one for true, zero for false.
pub fn cast_to_i32_b(value: bool) -> (result: i32)
    ensures
        result == bool_as_int(value),
{
    if value {
        1
    } else {
        0
    }
}

/// Nullable `BOOLEAN` to `INTEGER`: one for true, zero for false. The source
/// must not be null.
pub fn cast_to_i32_bN(value: Option<bool>) -> (result: i32)
    requires
        value is Some,
    ensures
        result == bool_as_int(value->0),
{
    cast_to_i32_b(value.unwrap())
}

/// `BOOLEAN` to nullable `INTEGER`: one for true, zero for false. The result is
/// never null.
pub fn cast_to_i32N_b(value: bool) -> (result: Option<i32>)
    ensures
        result == Some(bool_as_int(value) as i32),
{
    Some(cast_to_i32_b(value))
}

/// Nullable `BOOLEAN` to nullable `INTEGER`: one for true, zero for false. Null
/// stays null, and nothing else becomes null.
pub fn cast_to_i32N_bN(value: Option<bool>) -> (result: Option<i32>)
    ensures
        result == match value {
            Some(v) => Some(bool_as_int(v) as i32),
            None => None,
        },
{
    match value {
        Some(v) => Some(cast_to_i32_b(v)),
        None => None,
    }
}

/// `DECIMAL` to `INTEGER`: its integer part. The integer part must fit in 32
/// bits.
pub fn cast_to_i32_decimal(value: Decimal) -> (result: i32)
    requires
        integer_of_decimal(value) is Some,
    ensures
        Some(result) == integer_of_decimal(value),
{
    cast_to_i32N_decimal(value).unwrap()
}

/// Nullable `DECIMAL` to `INTEGER`: its integer part. The source must not be
/// null. The integer part must fit in 32 bits.
pub fn cast_to_i32_decimalN(value: Option<Decimal>) -> (result: i32)
    requires
        value is Some,
        integer_of_decimal(value->0) is Some,
    ensures
        Some(result) == integer_of_decimal(value->0),
{
    cast_to_i32_decimal(value.unwrap())
}

/// `DECIMAL` to nullable `INTEGER`: its integer part, or null where that does
/// not fit in 32 bits.
pub fn cast_to_i32N_decimal(value: Decimal) -> (result: Option<i32>)
    ensures
        result == integer_of_decimal(value),
{
    match decimal_to_long(&value) {
        Some(v) => if -0x8000_0000 <= v && v <= 0x7fff_ffff {
            Some(v as i32)
        } else {
            None
        },
        None => None,
    }
}

/// Nullable `DECIMAL` to nullable `INTEGER`: its integer part, or null where
/// that does not fit in 32 bits. Null stays null.
pub fn cast_to_i32N_decimalN(value: Option<Decimal>) -> (result: Option<i32>)
    ensures
        result == match value {
            Some(v) => integer_of_decimal(v),
            None => None,
        },
{
    match value {
        Some(v) => cast_to_i32N_decimal(v),
        None => None,
    }
}

/// `DOUBLE` to `INTEGER`: its integer part, or the nearest bound where that is
/// out of range; zero for NaN.
pub fn cast_to_i32_d(value: F64) -> (result: i32)
    ensures
        result == saturate(double_trunc(value), i32::MIN as int, i32::MAX as int),
{
    saturate_to_i32(double_to_int(value))
}

/// Nullable `DOUBLE` to `INTEGER`: its integer part, or the nearest bound where
/// that is out of range; zero for NaN. The source must not be null.
pub fn cast_to_i32_dN(value: Option<F64>) -> (result: i32)
    requires
        value is Some,
    ensures
        result == saturate(double_trunc(value->0), i32::MIN as int, i32::MAX as int),
{
    cast_to_i32_d(value.unwrap())
}

/// `DOUBLE` to nullable `INTEGER`: its integer part, or the nearest bound where
/// that is out of range; zero for NaN. The result is never null.
pub fn cast_to_i32N_d(value: F64) -> (result: Option<i32>)
    ensures
        result == Some(saturate(double_trunc(value), i32::MIN as int, i32::MAX as int) as i32),
{
    Some(cast_to_i32_d(value))
}

/// Nullable `DOUBLE` to nullable `INTEGER`: its integer part, or the nearest
/// bound where that is out of range; zero for NaN. Null stays null, and nothing
/// else becomes null.
pub fn cast_to_i32N_dN(value: Option<F64>) -> (result: Option<i32>)
    ensures
        result == match value {
            Some(v) => Some(saturate(double_trunc(v), i32::MIN as int, i32::MAX as int) as i32),
            None => None,
        },
{
    match value {
        Some(v) => Some(cast_to_i32_d(v)),
        None => None,
    }
}

/// `FLOAT` to `INTEGER`: its integer part, or the nearest bound where that is
/// out of range; zero for NaN.
pub fn cast_to_i32_f(value: F32) -> (result: i32)
    ensures
        result == saturate(float_trunc(value), i32::MIN as int, i32::MAX as int),
{
    saturate_to_i32(float_to_int(value))
}

/// Nullable `FLOAT` to `INTEGER`: its integer part, or the nearest bound where
/// that is out of range; zero for NaN. The source must not be null.
pub fn cast_to_i32_fN(value: Option<F32>) -> (result: i32)
    requires
        value is Some,
    ensures
        result == saturate(float_trunc(value->0), i32::MIN as int, i32::MAX as int),
{
    cast_to_i32_f(value.unwrap())
}

/// `FLOAT` to nullable `INTEGER`: its integer part, or the nearest bound where
/// that is out of range; zero for NaN. The result is never null.
pub fn cast_to_i32N_f(value: F32) -> (result: Option<i32>)
    ensures
        result == Some(saturate(float_trunc(value), i32::MIN as int, i32::MAX as int) as i32),
{
    Some(cast_to_i32_f(value))
}

/// Nullable `FLOAT` to nullable `INTEGER`: its integer part, or the nearest
/// bound where that is out of range; zero for NaN. Null stays null, and nothing
/// else becomes null.
pub fn cast_to_i32N_fN(value: Option<F32>) -> (result: Option<i32>)
    ensures
        result == match value {
            Some(v) => Some(saturate(float_trunc(v), i32::MIN as int, i32::MAX as int) as i32),
            None => None,
        },
{
    match value {
        Some(v) => Some(cast_to_i32_f(v)),
        None => None,
    }
}

/// `VARCHAR` to `INTEGER`: the 32-bit integer that the text writes, zero where
/// it writes none.
pub fn cast_to_i32_s(value: String) -> (result: i32)
    ensures
        result == integer_of_text(value@),
{
    match parse_integer(value.as_str()) {
        Some(v) => v,
        None => 0,
    }
}

/// Nullable `VARCHAR` to `INTEGER`: the 32-bit integer that the text writes,
/// zero where it writes none. The source must not be null.
pub fn cast_to_i32_sN(value: Option<String>) -> (result: i32)
    requires
        value is Some,
    ensures
        result == integer_of_text((value->0)@),
{
    cast_to_i32_s(value.unwrap())
}

/// `VARCHAR` to nullable `INTEGER`: the 32-bit integer that the text writes,
/// zero where it writes none. The result is never null.
pub fn cast_to_i32N_s(value: String) -> (result: Option<i32>)
    ensures
        result == Some(integer_of_text(value@)),
{
    Some(cast_to_i32_s(value))
}

/// Nullable `VARCHAR` to nullable `INTEGER`: the 32-bit integer that the text
/// writes, zero where it writes none. Null stays null, and nothing else becomes
/// null.
pub fn cast_to_i32N_sN(value: Option<String>) -> (result: Option<i32>)
    ensures
        result == match value {
            Some(v) => Some(integer_of_text(v@)),
            None => None,
        },
{
    match value {
        Some(v) => Some(cast_to_i32_s(v)),
        None => None,
    }
}

/// `isize` to `INTEGER`: its low 32 bits, read as a signed integer.
pub fn cast_to_i32_i(value: isize) -> (result: i32)
    ensures
        result == wrap_i32(value as int),
{
    wrap_to_i32(value as i128)
}

/// `isize` to nullable `INTEGER`: its low 32 bits, read as a signed integer.
/// The result is never null.
pub fn cast_to_i32N_i(value: isize) -> (result: Option<i32>)
    ensures
        result == Some(wrap_i32(value as int) as i32),
{
    Some(cast_to_i32_i(value))
}

/// `SMALLINT` to `INTEGER`: the same number.
pub fn cast_to_i32_i16(value: i16) -> (result: i32)
    ensures
        result == value,
{
    value as i32
}

/// Nullable `SMALLINT` to `INTEGER`: the same number. The source must not be
/// null.
pub fn cast_to_i32_i16N(value: Option<i16>) -> (result: i32)
    requires
        value is Some,
    ensures
        result == value->0,
{
    cast_to_i32_i16(value.unwrap())
}

/// `SMALLINT` to nullable `INTEGER`: the same number. The result is never null.
pub fn cast_to_i32N_i16(value: i16) -> (result: Option<i32>)
    ensures
        result == Some(value as i32),
{
    Some(cast_to_i32_i16(value))
}

/// Nullable `SMALLINT` to nullable `INTEGER`: the same number. Null stays null,
/// and nothing else becomes null.
pub fn cast_to_i32N_i16N(value: Option<i16>) -> (result: Option<i32>)
    ensures
        result == match value {
            Some(v) => Some(v as i32),
            None => None,
        },
{
    match value {
        Some(v) => Some(cast_to_i32_i16(v)),
        None => None,
    }
}

/// `INTEGER` to `INTEGER`: the value itself.
pub fn cast_to_i32_i32(value: i32) -> (result: i32)
    ensures
        result == value,
{
    value
}

/// Nullable `INTEGER` to `INTEGER`: the value itself. The source must not be
/// null.
pub fn cast_to_i32_i32N(value: Option<i32>) -> (result: i32)
    requires
        value is Some,
    ensures
        result == value->0,
{
    cast_to_i32_i32(value.unwrap())
}

/// `INTEGER` to nullable `INTEGER`: the value itself. The result is never null.
pub fn cast_to_i32N_i32(value: i32) -> (result: Option<i32>)
    ensures
        result == Some(value),
{
    Some(cast_to_i32_i32(value))
}

/// Nullable `INTEGER` to nullable `INTEGER`: the value itself, null or not.
pub fn cast_to_i32N_i32N(value: Option<i32>) -> (result: Option<i32>)
    ensures
        result == value,
{
    value
}

/// `BIGINT` to `INTEGER`: its low 32 bits, read as a signed integer.
pub fn cast_to_i32_i64(value: i64) -> (result: i32)
    ensures
        result == wrap_i32(value as int),
{
    wrap_to_i32(value as i128)
}

/// Nullable `BIGINT` to `INTEGER`: its low 32 bits, read as a signed integer.
/// The source must not be null.
pub fn cast_to_i32_i64N(value: Option<i64>) -> (result: i32)
    requires
        value is Some,
    ensures
        result == wrap_i32(value->0 as int),
{
    cast_to_i32_i64(value.unwrap())
}

/// `BIGINT` to nullable `INTEGER`: its low 32 bits, read as a signed integer.
/// The result is never null.
pub fn cast_to_i32N_i64(value: i64) -> (result: Option<i32>)
    ensures
        result == Some(wrap_i32(value as int) as i32),
{
    Some(cast_to_i32_i64(value))
}

/// Nullable `BIGINT` to nullable `INTEGER`: its low 32 bits, read as a signed
/// integer. Null stays null, and nothing else becomes null.
pub fn cast_to_i32N_i64N(value: Option<i64>) -> (result: Option<i32>)
    ensures
        result == match value {
            Some(v) => Some(wrap_i32(v as int) as i32),
            None => None,
        },
{
    match value {
        Some(v) => Some(cast_to_i32_i64(v)),
        None => None,
    }
}

/// `usize` to `INTEGER`: its low 32 bits, read as a signed integer.
pub fn cast_to_i32_u(value: usize) -> (result: i32)
    ensures
        result == wrap_i32(value as int),
{
    wrap_to_i32(value as i128)
}

/// `usize` to nullable `INTEGER`: its low 32 bits, read as a signed integer.
/// The result is never null.
pub fn cast_to_i32N_u(value: usize) -> (result: Option<i32>)
    ensures
        result == Some(wrap_i32(value as int) as i32),
{
    Some(cast_to_i32_u(value))
}

} // verus!
