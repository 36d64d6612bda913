//! Casts to `SMALLINT`.
use crate::decimal::{decimal_integer, decimal_to_long};
use crate::float::{double_to_int, double_trunc, float_to_int, float_trunc};
use crate::integer::{bool_as_int, saturate, saturate_to_i16, wrap_i16, wrap_to_i16};
use crate::text::{parse_short, short_literal};
use dbsp::algebra::{F32, F64};
use rust_decimal::Decimal;
use vstd::prelude::*;

verus! {

/// The 16-bit integer that a text stands for: the one it writes, zero where
/// it writes none.
pub open spec fn short_of_text(s: Seq<char>) -> i16 {
    match short_literal(s) {
        Some(v) => v,
        None => 0,
    }
}

/// The integer part of a decimal, where it fits in 16 bits.
pub open spec fn short_of_decimal(d: Decimal) -> Option<i16> {
    if i16::MIN <= decimal_integer(d) <= i16::MAX {
        Some(decimal_integer(d) as i16)
    } else {
        None
    }
}

/// `BOOLEAN` to `SMALLINT`: one for true, zero for false.
pub fn cast_to_i16_b(value: bool) -> (result: i16)
    ensures
        result == bool_as_int(value),
{
    if value {
        1
    } else {
        0
    }
}

/// Nullable `BOOLEAN` to `SMALLINT`: one for true, zero for false. The source
/// must not be null.
pub fn cast_to_i16_bN(value: Option<bool>) -> (result: i16)
    requires
        value is Some,
    ensures
        result == bool_as_int(value->0),
{
    cast_to_i16_b(value.unwrap())
}

/// `BOOLEAN` to nullable `SMALLINT`: one for true, zero for false. The result
/// is never null.
pub fn cast_to_i16N_b(value: bool) -> (result: Option<i16>)
    ensures
        result == Some(bool_as_int(value) as i16),
{
    Some(cast_to_i16_b(value))
}

/// Nullable `BOOLEAN` to nullable `SMALLINT`: one for true, zero for false.
/// Null stays null, and nothing else becomes null.
pub fn cast_to_i16N_bN(value: Option<bool>) -> (result: Option<i16>)
    ensures
        result == match value {
            Some(v) => Some(bool_as_int(v) as i16),
            None => None,
        },
{
    match value {
        Some(v) => Some(cast_to_i16_b(v)),
        None => None,
    }
}

/// `DECIMAL` to `SMALLINT`: its integer part. The integer part must fit in 16
/// bits.
pub fn cast_to_i16_decimal(value: Decimal) -> (result: i16)
    requires
        short_of_decimal(value) is Some,
    ensures
        Some(result) == short_of_decimal(value),
{
    cast_to_i16N_decimal(value).unwrap()
}

/// Nullable `DECIMAL` to `SMALLINT`: its integer part. The source must not be
/// null. The integer part must fit in 16 bits.
pub fn cast_to_i16_decimalN(value: Option<Decimal>) -> (result: i16)
    requires
        value is Some,
        short_of_decimal(value->0) is Some,
    ensures
        Some(result) == short_of_decimal(value->0),
{
    cast_to_i16_decimal(value.unwrap())
}

/// `DECIMAL` to nullable `SMALLINT`: its integer part, or null where that does
/// not fit in 16 bits.
pub fn cast_to_i16N_decimal(value: Decimal) -> (result: Option<i16>)
    ensures
        result == short_of_decimal(value),
{
    match decimal_to_long(&value) {
        Some(v) => if -0x8000 <= v && v <= 0x7fff {
            Some(v as i16)
        } else {
            None
        },
        None => None,
    }
}

/// Nullable `DECIMAL` to nullable `SMALLINT`: its integer part, or null where
/// that does not fit in 16 bits. Null stays null.
pub fn cast_to_i16N_decimalN(value: Option<Decimal>) -> (result: Option<i16>)
    ensures
        result == match value {
            Some(v) => short_of_decimal(v),
            None => None,
        },
{
    match value {
        Some(v) => cast_to_i16N_decimal(v),
        None => None,
    }
}

/// `DOUBLE` to `SMALLINT`: its integer part, or the nearest bound where that is
/// out of range; zero for NaN.
pub fn cast_to_i16_d(value: F64) -> (result: i16)
    ensures
        result == saturate(double_trunc(value), i16::MIN as int, i16::MAX as int),
{
    saturate_to_i16(double_to_int(value))
}

/// Nullable `DOUBLE` to `SMALLINT`: its integer part, or the nearest bound
/// where that is out of range; zero for NaN. The source must not be null.
pub fn cast_to_i16_dN(value: Option<F64>) -> (result: i16)
    requires
        value is Some,
    ensures
        result == saturate(double_trunc(value->0), i16::MIN as int, i16::MAX as int),
{
    cast_to_i16_d(value.unwrap())
}

/// `DOUBLE` to nullable `SMALLINT`: its integer part, or the nearest bound
/// where that is out of range; zero for NaN. The result is never null.
pub fn cast_to_i16N_d(value: F64) -> (result: Option<i16>)
    ensures
        result == Some(saturate(double_trunc(value), i16::MIN as int, i16::MAX as int) as i16),
{
    Some(cast_to_i16_d(value))
}

/// Nullable `DOUBLE` to nullable `SMALLINT`: its integer part, or the nearest
/// bound where that is out of range; zero for NaN. Null stays null, and nothing
/// else becomes null.
pub fn cast_to_i16N_dN(value: Option<F64>) -> (result: Option<i16>)
    ensures
        result == match value {
            Some(v) => Some(saturate(double_trunc(v), i16::MIN as int, i16::MAX as int) as i16),
            None => None,
        },
{
    match value {
        Some(v) => Some(cast_to_i16_d(v)),
        None => None,
    }
}

/// `FLOAT` to `SMALLINT`: its integer part, or the nearest bound where that is
/// out of range; zero for NaN.
pub fn cast_to_i16_f(value: F32) -> (result: i16)
    ensures
        result == saturate(float_trunc(value), i16::MIN as int, i16::MAX as int),
{
    saturate_to_i16(float_to_int(value))
}

/// Nullable `FLOAT` to `SMALLINT`: its integer part, or the nearest bound where
/// that is out of range; zero for NaN. The source must not be null.
pub fn cast_to_i16_fN(value: Option<F32>) -> (result: i16)
    requires
        value is Some,
    ensures
        result == saturate(float_trunc(value->0), i16::MIN as int, i16::MAX as int),
{
    cast_to_i16_f(value.unwrap())
}

/// `FLOAT` to nullable `SMALLINT`: its integer part, or the nearest bound where
/// that is out of range; zero for NaN. The result is never null.
pub fn cast_to_i16N_f(value: F32) -> (result: Option<i16>)
    ensures
        result == Some(saturate(float_trunc(value), i16::MIN as int, i16::MAX as int) as i16),
{
    Some(cast_to_i16_f(value))
}

/// Nullable `FLOAT` to nullable `SMALLINT`: its integer part, or the nearest
/// bound where that is out of range; zero for NaN. Null stays null, and nothing
/// else becomes null.
pub fn cast_to_i16N_fN(value: Option<F32>) -> (result: Option<i16>)
    ensures
        result == match value {
            Some(v) => Some(saturate(float_trunc(v), i16::MIN as int, i16::MAX as int) as i16),
            None => None,
        },
{
    match value {
        Some(v) => Some(cast_to_i16_f(v)),
        None => None,
    }
}

/// `VARCHAR` to `SMALLINT`: the 16-bit integer that the text writes, zero where
/// it writes none.
pub fn cast_to_i16_s(value: String) -> (result: i16)
    ensures
        result == short_of_text(value@),
{
    match parse_short(value.as_str()) {
        Some(v) => v,
        None => 0,
    }
}

/// Nullable `VARCHAR` to `SMALLINT`: the 16-bit integer that the text writes,
/// zero where it writes none. The source must not be null.
pub fn cast_to_i16_sN(value: Option<String>) -> (result: i16)
    requires
        value is Some,
    ensures
        result == short_of_text((value->0)@),
{
    cast_to_i16_s(value.unwrap())
}

/// `VARCHAR` to nullable `SMALLINT`: the 16-bit integer that the text writes,
/// zero where it writes none. The result is never null.
pub fn cast_to_i16N_s(value: String) -> (result: Option<i16>)
    ensures
        result == Some(short_of_text(value@)),
{
    Some(cast_to_i16_s(value))
}

/// Nullable `VARCHAR` to nullable `SMALLINT`: the 16-bit integer that the text
/// writes, zero where it writes none. Null stays null, and nothing else becomes
/// null.
pub fn cast_to_i16N_sN(value: Option<String>) -> (result: Option<i16>)
    ensures
        result == match value {
            Some(v) => Some(short_of_text(v@)),
            None => None,
        },
{
    match value {
        Some(v) => Some(cast_to_i16_s(v)),
        None => None,
    }
}

/// `isize` to `SMALLINT`: its low 16 bits, read as a signed integer.
pub fn cast_to_i16_i(value: isize) -> (result: i16)
    ensures
        result == wrap_i16(value as int),
{
    wrap_to_i16(value as i128)
}

/// `isize` to nullable `SMALLINT`: its low 16 bits, read as a signed integer.
/// The result is never null.
pub fn cast_to_i16N_i(value: isize) -> (result: Option<i16>)
    ensures
        result == Some(wrap_i16(value as int) as i16),
{
    Some(cast_to_i16_i(value))
}

/// `SMALLINT` to `SMALLINT`: the value itself.
pub fn cast_to_i16_i16(value: i16) -> (result: i16)
    ensures
        result == value,
{
    value
}

/// Nullable `SMALLINT` to `SMALLINT`: the value itself. The source must not be
/// null.
pub fn cast_to_i16_i16N(value: Option<i16>) -> (result: i16)
    requires
        value is Some,
    ensures
        result == value->0,
{
    cast_to_i16_i16(value.unwrap())
}

/// `SMALLINT` to nullable `SMALLINT`: the value itself. The result is never
/// null.
pub fn cast_to_i16N_i16(value: i16) -> (result: Option<i16>)
    ensures
        result == Some(value),
{
    Some(cast_to_i16_i16(value))
}

/// Nullable `SMALLINT` to nullable `SMALLINT`: the value itself, null or not.
pub fn cast_to_i16N_i16N(value: Option<i16>) -> (result: Option<i16>)
    ensures
        result == value,
{
    value
}

/// `INTEGER` to `SMALLINT`: its low 16 bits, read as a signed integer.
pub fn cast_to_i16_i32(value: i32) -> (result: i16)
    ensures
        result == wrap_i16(value as int),
{
    wrap_to_i16(value as i128)
}

/// Nullable `INTEGER` to `SMALLINT`: its low 16 bits, read as a signed integer.
/// The source must not be null.
pub fn cast_to_i16_i32N(value: Option<i32>) -> (result: i16)
    requires
        value is Some,
    ensures
        result == wrap_i16(value->0 as int),
{
    cast_to_i16_i32(value.unwrap())
}

/// `INTEGER` to nullable `SMALLINT`: its low 16 bits, read as a signed integer.
/// The result is never null.
pub fn cast_to_i16N_i32(value: i32) -> (result: Option<i16>)
    ensures
        result == Some(wrap_i16(value as int) as i16),
{
    Some(cast_to_i16_i32(value))
}

/// Nullable `INTEGER` to nullable `SMALLINT`: its low 16 bits, read as a signed
/// integer. Null stays null, and nothing else becomes null.
pub fn cast_to_i16N_i32N(value: Option<i32>) -> (result: Option<i16>)
    ensures
        result == match value {
            Some(v) => Some(wrap_i16(v as int) as i16),
            None => None,
        },
{
    match value {
        Some(v) => Some(cast_to_i16_i32(v)),
        None => None,
    }
}

/// `BIGINT` to `SMALLINT`: its low 16 bits, read as a signed integer.
pub fn cast_to_i16_i64(value: i64) -> (result: i16)
    ensures
        result == wrap_i16(value as int),
{
    wrap_to_i16(value as i128)
}

/// Nullable `BIGINT` to `SMALLINT`: its low 16 bits, read as a signed integer.
/// The source must not be null.
pub fn cast_to_i16_i64N(value: Option<i64>) -> (result: i16)
    requires
        value is Some,
    ensures
        result == wrap_i16(value->0 as int),
{
    cast_to_i16_i64(value.unwrap())
}

/// `BIGINT` to nullable `SMALLINT`: its low 16 bits, read as a signed integer.
/// The result is never null.
pub fn cast_to_i16N_i64(value: i64) -> (result: Option<i16>)
    ensures
        result == Some(wrap_i16(value as int) as i16),
{
    Some(cast_to_i16_i64(value))
}

/// Nullable `BIGINT` to nullable `SMALLINT`: its low 16 bits, read as a signed
/// integer. Null stays null, and nothing else becomes null.
pub fn cast_to_i16N_i64N(value: Option<i64>) -> (result: Option<i16>)
    ensures
        result == match value {
            Some(v) => Some(wrap_i16(v as int) as i16),
            None => None,
        },
{
    match value {
        Some(v) => Some(cast_to_i16_i64(v)),
        None => None,
    }
}

/// `usize` to `SMALLINT`: its low 16 bits, read as a signed integer.
pub fn cast_to_i16_u(value: usize) -> (result: i16)
    ensures
        result == wrap_i16(value as int),
{
    wrap_to_i16(value as i128)
}

/// `usize` to nullable `SMALLINT`: its low 16 bits, read as a signed integer.
/// The result is never null.
pub fn cast_to_i16N_u(value: usize) -> (result: Option<i16>)
    ensures
        result == Some(wrap_i16(value as int) as i16),
{
    Some(cast_to_i16_u(value))
}

} // verus!
