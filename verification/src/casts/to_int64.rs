//! Casts to `BIGINT`.
use crate::decimal::{decimal_integer, decimal_to_long};
use crate::float::{double_to_int, double_trunc, float_to_int, float_trunc};
use crate::integer::{bool_as_int, saturate, saturate_to_i64, wrap_i64, wrap_to_i64};
use crate::interval::{LongInterval, ShortInterval};
use crate::text::{parse_long, long_literal};
use dbsp::algebra::{F32, F64};
use rust_decimal::Decimal;
use vstd::prelude::*;

verus! {

/// The 64-bit integer that a text stands for: the one it writes, zero where
/// it writes none.
pub open spec fn long_of_text(s: Seq<char>) -> i64 {
    match long_literal(s) {
        Some(v) => v,
        None => 0,
    }
}

/// The integer part of a decimal, where it fits in 64 bits.
pub open spec fn long_of_decimal(d: Decimal) -> Option<i64> {
    if i64::MIN <= decimal_integer(d) <= i64::MAX {
        Some(decimal_integer(d) as i64)
    } else {
        None
    }
}

/// `BOOLEAN` to `BIGINT`: one for true, zero for false.
pub fn cast_to_i64_b(value: bool) -> (result: i64)
    ensures
        result == bool_as_int(value),
{
    if value {
        1
    } else {
        0
    }
}

/// Nullable `BOOLEAN` to `BIGINT`: one for true, zero for false. The source
/// must not be null.
pub fn cast_to_i64_bN(value: Option<bool>) -> (result: i64)
    requires
        value is Some,
    ensures
        result == bool_as_int(value->0),
{
    cast_to_i64_b(value.unwrap())
}

/// `BOOLEAN` to nullable `BIGINT`: one for true, zero for false. The result is
/// never null.
pub fn cast_to_i64N_b(value: bool) -> (result: Option<i64>)
    ensures
        result == Some(bool_as_int(value) as i64),
{
    Some(cast_to_i64_b(value))
}

/// Nullable `BOOLEAN` to nullable `BIGINT`: one for true, zero for false. Null
/// stays null, and nothing else becomes null.
pub fn cast_to_i64N_bN(value: Option<bool>) -> (result: Option<i64>)
    ensures
        result == match value {
            Some(v) => Some(bool_as_int(v) as i64),
            None => None,
        },
{
    match value {
        Some(v) => Some(cast_to_i64_b(v)),
        None => None,
    }
}

/// `DECIMAL` to `BIGINT`: its integer part. The integer part must fit in 64
/// bits.
pub fn cast_to_i64_decimal(value: Decimal) -> (result: i64)
    requires
        long_of_decimal(value) is Some,
    ensures
        Some(result) == long_of_decimal(value),
{
    cast_to_i64N_decimal(value).unwrap()
}

/// Nullable `DECIMAL` to `BIGINT`: its integer part. The source must not be
/// null. The integer part must fit in 64 bits.
pub fn cast_to_i64_decimalN(value: Option<Decimal>) -> (result: i64)
    requires
        value is Some,
        long_of_decimal(value->0) is Some,
    ensures
        Some(result) == long_of_decimal(value->0),
{
    cast_to_i64_decimal(value.unwrap())
}

/// `DECIMAL` to nullable `BIGINT`: its integer part, or null where that does
/// not fit in 64 bits.
pub fn cast_to_i64N_decimal(value: Decimal) -> (result: Option<i64>)
    ensures
        result == long_of_decimal(value),
{
    decimal_to_long(&value)
}

/// Nullable `DECIMAL` to nullable `BIGINT`: its integer part, or null where
/// that does not fit in 64 bits. Null stays null.
pub fn cast_to_i64N_decimalN(value: Option<Decimal>) -> (result: Option<i64>)
    ensures
        result == match value {
            Some(v) => long_of_decimal(v),
            None => None,
        },
{
    match value {
        Some(v) => cast_to_i64N_decimal(v),
        None => None,
    }
}

/// `DOUBLE` to `BIGINT`: its integer part, or the nearest bound where that is
/// out of range; zero for NaN.
pub fn cast_to_i64_d(value: F64) -> (result: i64)
    ensures
        result == saturate(double_trunc(value), i64::MIN as int, i64::MAX as int),
{
    saturate_to_i64(double_to_int(value))
}

/// Nullable `DOUBLE` to `BIGINT`: its integer part, or the nearest bound where
/// that is out of range; zero for NaN. The source must not be null.
pub fn cast_to_i64_dN(value: Option<F64>) -> (result: i64)
    requires
        value is Some,
    ensures
        result == saturate(double_trunc(value->0), i64::MIN as int, i64::MAX as int),
{
    cast_to_i64_d(value.unwrap())
}

/// `DOUBLE` to nullable `BIGINT`: its integer part, or the nearest bound where
/// that is out of range; zero for NaN. The result is never null.
pub fn cast_to_i64N_d(value: F64) -> (result: Option<i64>)
    ensures
        result == Some(saturate(double_trunc(value), i64::MIN as int, i64::MAX as int) as i64),
{
    Some(cast_to_i64_d(value))
}

/// Nullable `DOUBLE` to nullable `BIGINT`: its integer part, or the nearest
/// bound where that is out of range; zero for NaN. Null stays null, and nothing
/// else becomes null.
pub fn cast_to_i64N_dN(value: Option<F64>) -> (result: Option<i64>)
    ensures
        result == match value {
            Some(v) => Some(saturate(double_trunc(v), i64::MIN as int, i64::MAX as int) as i64),
            None => None,
        },
{
    match value {
        Some(v) => Some(cast_to_i64_d(v)),
        None => None,
    }
}

/// `FLOAT` to `BIGINT`: its integer part, or the nearest bound where that is
/// out of range; zero for NaN.
pub fn cast_to_i64_f(value: F32) -> (result: i64)
    ensures
        result == saturate(float_trunc(value), i64::MIN as int, i64::MAX as int),
{
    saturate_to_i64(float_to_int(value))
}

/// Nullable `FLOAT` to `BIGINT`: its integer part, or the nearest bound where
/// that is out of range; zero for NaN. The source must not be null.
pub fn cast_to_i64_fN(value: Option<F32>) -> (result: i64)
    requires
        value is Some,
    ensures
        result == saturate(float_trunc(value->0), i64::MIN as int, i64::MAX as int),
{
    cast_to_i64_f(value.unwrap())
}

/// `FLOAT` to nullable `BIGINT`: its integer part, or the nearest bound where
/// that is out of range; zero for NaN. The result is never null.
pub fn cast_to_i64N_f(value: F32) -> (result: Option<i64>)
    ensures
        result == Some(saturate(float_trunc(value), i64::MIN as int, i64::MAX as int) as i64),
{
    Some(cast_to_i64_f(value))
}

/// Nullable `FLOAT` to nullable `BIGINT`: its integer part, or the nearest
/// bound where that is out of range; zero for NaN. Null stays null, and nothing
/// else becomes null.
pub fn cast_to_i64N_fN(value: Option<F32>) -> (result: Option<i64>)
    ensures
        result == match value {
            Some(v) => Some(saturate(float_trunc(v), i64::MIN as int, i64::MAX as int) as i64),
            None => None,
        },
{
    match value {
        Some(v) => Some(cast_to_i64_f(v)),
        None => None,
    }
}

/// `VARCHAR` to `BIGINT`: the 64-bit integer that the text writes, zero where
/// it writes none.
pub fn cast_to_i64_s(value: String) -> (result: i64)
    ensures
        result == long_of_text(value@),
{
    match parse_long(value.as_str()) {
        Some(v) => v,
        None => 0,
    }
}

/// Nullable `VARCHAR` to `BIGINT`: the 64-bit integer that the text writes,
/// zero where it writes none. The source must not be null.
pub fn cast_to_i64_sN(value: Option<String>) -> (result: i64)
    requires
        value is Some,
    ensures
        result == long_of_text((value->0)@),
{
    cast_to_i64_s(value.unwrap())
}

/// `VARCHAR` to nullable `BIGINT`: the 64-bit integer that the text writes,
/// zero where it writes none. The result is never null.
pub fn cast_to_i64N_s(value: String) -> (result: Option<i64>)
    ensures
        result == Some(long_of_text(value@)),
{
    Some(cast_to_i64_s(value))
}

/// Nullable `VARCHAR` to nullable `BIGINT`: the 64-bit integer that the text
/// writes, zero where it writes none. Null stays null, and nothing else becomes
/// null.
pub fn cast_to_i64N_sN(value: Option<String>) -> (result: Option<i64>)
    ensures
        result == match value {
            Some(v) => Some(long_of_text(v@)),
            None => None,
        },
{
    match value {
        Some(v) => Some(cast_to_i64_s(v)),
        None => None,
    }
}

/// `isize` to `BIGINT`: the same number.
pub fn cast_to_i64_i(value: isize) -> (result: i64)
    ensures
        result == value,
{
    value as i64
}

/// `isize` to nullable `BIGINT`: the same number. The result is never null.
pub fn cast_to_i64N_i(value: isize) -> (result: Option<i64>)
    ensures
        result == Some(value as i64),
{
    Some(cast_to_i64_i(value))
}

/// `SMALLINT` to `BIGINT`: the same number.
pub fn cast_to_i64_i16(value: i16) -> (result: i64)
    ensures
        result == value,
{
    value as i64
}

/// Nullable `SMALLINT` to `BIGINT`: the same number. The source must not be
/// null.
pub fn cast_to_i64_i16N(value: Option<i16>) -> (result: i64)
    requires
        value is Some,
    ensures
        result == value->0,
{
    cast_to_i64_i16(value.unwrap())
}

/// `SMALLINT` to nullable `BIGINT`: the same number. The result is never null.
pub fn cast_to_i64N_i16(value: i16) -> (result: Option<i64>)
    ensures
        result == Some(value as i64),
{
    Some(cast_to_i64_i16(value))
}

/// Nullable `SMALLINT` to nullable `BIGINT`: the same number. Null stays null,
/// and nothing else becomes null.
pub fn cast_to_i64N_i16N(value: Option<i16>) -> (result: Option<i64>)
    ensures
        result == match value {
            Some(v) => Some(v as i64),
            None => None,
        },
{
    match value {
        Some(v) => Some(cast_to_i64_i16(v)),
        None => None,
    }
}

/// `INTEGER` to `BIGINT`: the same number.
pub fn cast_to_i64_i32(value: i32) -> (result: i64)
    ensures
        result == value,
{
    value as i64
}

/// Nullable `INTEGER` to `BIGINT`: the same number. The source must not be
/// null.
pub fn cast_to_i64_i32N(value: Option<i32>) -> (result: i64)
    requires
        value is Some,
    ensures
        result == value->0,
{
    cast_to_i64_i32(value.unwrap())
}

/// `INTEGER` to nullable `BIGINT`: the same number. The result is never null.
pub fn cast_to_i64N_i32(value: i32) -> (result: Option<i64>)
    ensures
        result == Some(value as i64),
{
    Some(cast_to_i64_i32(value))
}

/// Nullable `INTEGER` to nullable `BIGINT`: the same number. Null stays null,
/// and nothing else becomes null.
pub fn cast_to_i64N_i32N(value: Option<i32>) -> (result: Option<i64>)
    ensures
        result == match value {
            Some(v) => Some(v as i64),
            None => None,
        },
{
    match value {
        Some(v) => Some(cast_to_i64_i32(v)),
        None => None,
    }
}

/// `BIGINT` to `BIGINT`: the value itself.
pub fn cast_to_i64_i64(value: i64) -> (result: i64)
    ensures
        result == value,
{
    value
}

/// Nullable `BIGINT` to `BIGINT`: the value itself. The source must not be
/// null.
pub fn cast_to_i64_i64N(value: Option<i64>) -> (result: i64)
    requires
        value is Some,
    ensures
        result == value->0,
{
    cast_to_i64_i64(value.unwrap())
}

/// `BIGINT` to nullable `BIGINT`: the value itself. The result is never null.
pub fn cast_to_i64N_i64(value: i64) -> (result: Option<i64>)
    ensures
        result == Some(value),
{
    Some(cast_to_i64_i64(value))
}

/// Nullable `BIGINT` to nullable `BIGINT`: the value itself, null or not.
pub fn cast_to_i64N_i64N(value: Option<i64>) -> (result: Option<i64>)
    ensures
        result == value,
{
    value
}

/// `usize` to `BIGINT`: its low 64 bits, read as a signed integer.
pub fn cast_to_i64_u(value: usize) -> (result: i64)
    ensures
        result == wrap_i64(value as int),
{
    wrap_to_i64(value as i128)
}

/// `usize` to nullable `BIGINT`: its low 64 bits, read as a signed integer. The
/// result is never null.
pub fn cast_to_i64N_u(value: usize) -> (result: Option<i64>)
    ensures
        result == Some(wrap_i64(value as int) as i64),
{
    Some(cast_to_i64_u(value))
}

/// A short interval to `BIGINT`: its length in milliseconds.
pub fn cast_to_i64_ShortInterval(value: ShortInterval) -> (result: i64)
    ensures
        result == value.milliseconds,
{
    value.milliseconds()
}

/// A long interval to `BIGINT`: its length in days.
pub fn cast_to_i64_LongInterval(value: LongInterval) -> (result: i64)
    ensures
        result == value.days,
{
    value.days() as i64
}

} // verus!
