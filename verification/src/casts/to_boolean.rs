//! Casts to `BOOLEAN`.
use crate::decimal::{decimal_is_zero, decimal_mantissa};
use crate::float::{double_eq_zero, double_is_zero, float_eq_zero, float_is_zero};
use crate::text::{bool_literal, parse_bool};
use dbsp::algebra::{F32, F64};
use rust_decimal::Decimal;
use vstd::prelude::*;

verus! {

/// The boolean that a text stands for: true for `true`, false for any other
/// text, `false` itself or not.
pub open spec fn bool_of_text(s: Seq<char>) -> bool {
    match bool_literal(s) {
        Some(b) => b,
        None => false,
    }
}

/// `BOOLEAN` to `BOOLEAN`: the value itself.
pub fn cast_to_b_b(value: bool) -> (result: bool)
    ensures
        result == value,
{
    value
}

/// Nullable `BOOLEAN` to `BOOLEAN`: the value itself. The source must not be
/// null.
pub fn cast_to_b_bN(value: Option<bool>) -> (result: bool)
    requires
        value is Some,
    ensures
        result == value->0,
{
    cast_to_b_b(value.unwrap())
}

/// `BOOLEAN` to nullable `BOOLEAN`: the value itself. The result is never null.
pub fn cast_to_bN_b(value: bool) -> (result: Option<bool>)
    ensures
        result == Some(value),
{
    Some(cast_to_b_b(value))
}

/// Nullable `BOOLEAN` to nullable `BOOLEAN`: the value itself, null or not.
pub fn cast_to_bN_bN(value: Option<bool>) -> (result: Option<bool>)
    ensures
        result == value,
{
    value
}

/// `DECIMAL` to `BOOLEAN`: true for anything but zero.
pub fn cast_to_b_decimal(value: Decimal) -> (result: bool)
    ensures
        result == (decimal_mantissa(value) != 0),
{
    !decimal_is_zero(&value)
}

/// Nullable `DECIMAL` to `BOOLEAN`: true for anything but zero. The source must
/// not be null.
pub fn cast_to_b_decimalN(value: Option<Decimal>) -> (result: bool)
    requires
        value is Some,
    ensures
        result == (decimal_mantissa(value->0) != 0),
{
    cast_to_b_decimal(value.unwrap())
}

/// `DECIMAL` to nullable `BOOLEAN`: true for anything but zero. The result is
/// never null.
pub fn cast_to_bN_decimal(value: Decimal) -> (result: Option<bool>)
    ensures
        result == Some(decimal_mantissa(value) != 0),
{
    Some(cast_to_b_decimal(value))
}

/// Nullable `DECIMAL` to nullable `BOOLEAN`: true for anything but zero. Null
/// stays null, and nothing else becomes null.
pub fn cast_to_bN_decimalN(value: Option<Decimal>) -> (result: Option<bool>)
    ensures
        result == match value {
            Some(v) => Some(decimal_mantissa(v) != 0),
            None => None,
        },
{
    match value {
        Some(v) => Some(cast_to_b_decimal(v)),
        None => None,
    }
}

/// `DOUBLE` to `BOOLEAN`: true for anything but zero, NaN included.
pub fn cast_to_b_d(value: F64) -> (result: bool)
    ensures
        result == !double_is_zero(value),
{
    !double_eq_zero(value)
}

/// Nullable `DOUBLE` to `BOOLEAN`: true for anything but zero, NaN included.
/// The source must not be null.
pub fn cast_to_b_dN(value: Option<F64>) -> (result: bool)
    requires
        value is Some,
    ensures
        result == !double_is_zero(value->0),
{
    cast_to_b_d(value.unwrap())
}

/// `DOUBLE` to nullable `BOOLEAN`: true for anything but zero, NaN included.
/// The result is never null.
pub fn cast_to_bN_d(value: F64) -> (result: Option<bool>)
    ensures
        result == Some(!double_is_zero(value)),
{
    Some(cast_to_b_d(value))
}

/// Nullable `DOUBLE` to nullable `BOOLEAN`: true for anything but zero, NaN
/// included. Null stays null, and nothing else becomes null.
pub fn cast_to_bN_dN(value: Option<F64>) -> (result: Option<bool>)
    ensures
        result == match value {
            Some(v) => Some(!double_is_zero(v)),
            None => None,
        },
{
    match value {
        Some(v) => Some(cast_to_b_d(v)),
        None => None,
    }
}

/// `FLOAT` to `BOOLEAN`: true for anything but zero, NaN included.
pub fn cast_to_b_f(value: F32) -> (result: bool)
    ensures
        result == !float_is_zero(value),
{
    !float_eq_zero(value)
}

/// Nullable `FLOAT` to `BOOLEAN`: true for anything but zero, NaN included. The
/// source must not be null.
pub fn cast_to_b_fN(value: Option<F32>) -> (result: bool)
    requires
        value is Some,
    ensures
        result == !float_is_zero(value->0),
{
    cast_to_b_f(value.unwrap())
}

/// `FLOAT` to nullable `BOOLEAN`: true for anything but zero, NaN included. The
/// result is never null.
pub fn cast_to_bN_f(value: F32) -> (result: Option<bool>)
    ensures
        result == Some(!float_is_zero(value)),
{
    Some(cast_to_b_f(value))
}

/// Nullable `FLOAT` to nullable `BOOLEAN`: true for anything but zero, NaN
/// included. Null stays null, and nothing else becomes null.
pub fn cast_to_bN_fN(value: Option<F32>) -> (result: Option<bool>)
    ensures
        result == match value {
            Some(v) => Some(!float_is_zero(v)),
            None => None,
        },
{
    match value {
        Some(v) => Some(cast_to_b_f(v)),
        None => None,
    }
}

/// `VARCHAR` to `BOOLEAN`: true for the text `true`, false for any other text.
pub fn cast_to_b_s(value: String) -> (result: bool)
    ensures
        result == bool_of_text(value@),
{
    match parse_bool(value.as_str()) {
        Some(b) => b,
        None => false,
    }
}

/// Nullable `VARCHAR` to `BOOLEAN`: true for the text `true`, false for any
/// other text. The source must not be null.
pub fn cast_to_b_sN(value: Option<String>) -> (result: bool)
    requires
        value is Some,
    ensures
        result == bool_of_text((value->0)@),
{
    cast_to_b_s(value.unwrap())
}

/// `VARCHAR` to nullable `BOOLEAN`: true for the text `true`, false for any
/// other text. The result is never null.
pub fn cast_to_bN_s(value: String) -> (result: Option<bool>)
    ensures
        result == Some(bool_of_text(value@)),
{
    Some(cast_to_b_s(value))
}

/// Nullable `VARCHAR` to nullable `BOOLEAN`: true for the text `true`, false
/// for any other text. Null stays null, and nothing else becomes null.
pub fn cast_to_bN_sN(value: Option<String>) -> (result: Option<bool>)
    ensures
        result == match value {
            Some(v) => Some(bool_of_text(v@)),
            None => None,
        },
{
    match value {
        Some(v) => Some(cast_to_b_s(v)),
        None => None,
    }
}

/// `isize` to `BOOLEAN`: true for anything but zero.
pub fn cast_to_b_i(value: isize) -> (result: bool)
    ensures
        result == (value != 0),
{
    value != 0
}

/// `isize` to nullable `BOOLEAN`: true for anything but zero. The result is
/// never null.
pub fn cast_to_bN_i(value: isize) -> (result: Option<bool>)
    ensures
        result == Some(value != 0),
{
    Some(cast_to_b_i(value))
}

/// `SMALLINT` to `BOOLEAN`: true for anything but zero.
pub fn cast_to_b_i16(value: i16) -> (result: bool)
    ensures
        result == (value != 0),
{
    value != 0
}

/// Nullable `SMALLINT` to `BOOLEAN`: true for anything but zero. The source
/// must not be null.
pub fn cast_to_b_i16N(value: Option<i16>) -> (result: bool)
    requires
        value is Some,
    ensures
        result == (value->0 != 0),
{
    cast_to_b_i16(value.unwrap())
}

/// `SMALLINT` to nullable `BOOLEAN`: true for anything but zero. The result is
/// never null.
pub fn cast_to_bN_i16(value: i16) -> (result: Option<bool>)
    ensures
        result == Some(value != 0),
{
    Some(cast_to_b_i16(value))
}

/// Nullable `SMALLINT` to nullable `BOOLEAN`: true for anything but zero. Null
/// stays null, and nothing else becomes null.
pub fn cast_to_bN_i16N(value: Option<i16>) -> (result: Option<bool>)
    ensures
        result == match value {
            Some(v) => Some(v != 0),
            None => None,
        },
{
    match value {
        Some(v) => Some(cast_to_b_i16(v)),
        None => None,
    }
}

/// `INTEGER` to `BOOLEAN`: true for anything but zero.
pub fn cast_to_b_i32(value: i32) -> (result: bool)
    ensures
        result == (value != 0),
{
    value != 0
}

/// Nullable `INTEGER` to `BOOLEAN`: true for anything but zero. The source must
/// not be null.
pub fn cast_to_b_i32N(value: Option<i32>) -> (result: bool)
    requires
        value is Some,
    ensures
        result == (value->0 != 0),
{
    cast_to_b_i32(value.unwrap())
}

/// `INTEGER` to nullable `BOOLEAN`: true for anything but zero. The result is
/// never null.
pub fn cast_to_bN_i32(value: i32) -> (result: Option<bool>)
    ensures
        result == Some(value != 0),
{
    Some(cast_to_b_i32(value))
}

/// Nullable `INTEGER` to nullable `BOOLEAN`: true for anything but zero. Null
/// stays null, and nothing else becomes null.
pub fn cast_to_bN_i32N(value: Option<i32>) -> (result: Option<bool>)
    ensures
        result == match value {
            Some(v) => Some(v != 0),
            None => None,
        },
{
    match value {
        Some(v) => Some(cast_to_b_i32(v)),
        None => None,
    }
}

/// `BIGINT` to `BOOLEAN`: true for anything but zero.
pub fn cast_to_b_i64(value: i64) -> (result: bool)
    ensures
        result == (value != 0),
{
    value != 0
}

/// Nullable `BIGINT` to `BOOLEAN`: true for anything but zero. The source must
/// not be null.
pub fn cast_to_b_i64N(value: Option<i64>) -> (result: bool)
    requires
        value is Some,
    ensures
        result == (value->0 != 0),
{
    cast_to_b_i64(value.unwrap())
}

/// `BIGINT` to nullable `BOOLEAN`: true for anything but zero. The result is
/// never null.
pub fn cast_to_bN_i64(value: i64) -> (result: Option<bool>)
    ensures
        result == Some(value != 0),
{
    Some(cast_to_b_i64(value))
}

/// Nullable `BIGINT` to nullable `BOOLEAN`: true for anything but zero. Null
/// stays null, and nothing else becomes null.
pub fn cast_to_bN_i64N(value: Option<i64>) -> (result: Option<bool>)
    ensures
        result == match value {
            Some(v) => Some(v != 0),
            None => None,
        },
{
    match value {
        Some(v) => Some(cast_to_b_i64(v)),
        None => None,
    }
}

/// `usize` to `BOOLEAN`: true for anything but zero.
pub fn cast_to_b_u(value: usize) -> (result: bool)
    ensures
        result == (value != 0),
{
    value != 0
}

/// `usize` to nullable `BOOLEAN`: true for anything but zero. The result is
/// never null.
pub fn cast_to_bN_u(value: usize) -> (result: Option<bool>)
    ensures
        result == Some(value != 0),
{
    Some(cast_to_b_u(value))
}

} // verus!
