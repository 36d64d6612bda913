//! Casts to `DOUBLE`.
use crate::decimal::{double_from_decimal, double_of_decimal};
use crate::float::{
    double_from_float, double_from_int, double_from_str, double_of_float, double_of_int,
    double_parse,
};
use crate::integer::bool_as_int;
use dbsp::algebra::{F32, F64};
use rust_decimal::Decimal;
use vstd::prelude::*;

verus! {

/// The double that a text stands for: the one it writes, zero where it writes
/// none.
pub open spec fn double_of_text(s: Seq<char>) -> F64 {
    match double_parse(s) {
        Some(x) => x,
        None => double_of_int(0),
    }
}

/// What reading a text as a double gave, or zero where it gave nothing.
pub fn double_or_zero(read: Option<F64>) -> (result: F64)
    ensures
        result == match read {
            Some(x) => x,
            None => double_of_int(0),
        },
{
    match read {
        Some(x) => x,
        None => double_from_int(0),
    }
}

/// `BOOLEAN` to `DOUBLE`: one for true, zero for false.
pub fn cast_to_d_b(value: bool) -> (result: F64)
    ensures
        result == double_of_int(bool_as_int(value)),
{
    let bit: i128 = if value {
        1
    } else {
        0
    };
    double_from_int(bit)
}

/// Nullable `BOOLEAN` to `DOUBLE`: one for true, zero for false. The source
/// must not be null.
pub fn cast_to_d_bN(value: Option<bool>) -> (result: F64)
    requires
        value is Some,
    ensures
        result == double_of_int(bool_as_int(value->0)),
{
    cast_to_d_b(value.unwrap())
}

/// `BOOLEAN` to nullable `DOUBLE`: one for true, zero for false. The result is
/// never null.
pub fn cast_to_dN_b(value: bool) -> (result: Option<F64>)
    ensures
        result == Some(double_of_int(bool_as_int(value))),
{
    Some(cast_to_d_b(value))
}

/// Nullable `BOOLEAN` to nullable `DOUBLE`: one for true, zero for false. Null
/// stays null, and nothing else becomes null.
pub fn cast_to_dN_bN(value: Option<bool>) -> (result: Option<F64>)
    ensures
        result == match value {
            Some(v) => Some(double_of_int(bool_as_int(v))),
            None => None,
        },
{
    match value {
        Some(v) => Some(cast_to_d_b(v)),
        None => None,
    }
}

/// `DECIMAL` to `DOUBLE`: the double that stands for it.
pub fn cast_to_d_decimal(value: Decimal) -> (result: F64)
    ensures
        result == double_of_decimal(value),
{
    double_from_decimal(&value).unwrap()
}

/// Nullable `DECIMAL` to `DOUBLE`: the double that stands for it. The source
/// must not be null.
pub fn cast_to_d_decimalN(value: Option<Decimal>) -> (result: F64)
    requires
        value is Some,
    ensures
        result == double_of_decimal(value->0),
{
    cast_to_d_decimal(value.unwrap())
}

/// `DECIMAL` to nullable `DOUBLE`: the double that stands for it. The result is
/// never null.
pub fn cast_to_dN_decimal(value: Decimal) -> (result: Option<F64>)
    ensures
        result == Some(double_of_decimal(value)),
{
    Some(cast_to_d_decimal(value))
}

/// Nullable `DECIMAL` to nullable `DOUBLE`: the double that stands for it. Null
/// stays null, and nothing else becomes null.
pub fn cast_to_dN_decimalN(value: Option<Decimal>) -> (result: Option<F64>)
    ensures
        result == match value {
            Some(v) => Some(double_of_decimal(v)),
            None => None,
        },
{
    match value {
        Some(v) => Some(cast_to_d_decimal(v)),
        None => None,
    }
}

/// `DOUBLE` to `DOUBLE`: the value itself.
pub fn cast_to_d_d(value: F64) -> (result: F64)
    ensures
        result == value,
{
    value
}

/// Nullable `DOUBLE` to `DOUBLE`: the value itself. The source must not be
/// null.
pub fn cast_to_d_dN(value: Option<F64>) -> (result: F64)
    requires
        value is Some,
    ensures
        result == value->0,
{
    cast_to_d_d(value.unwrap())
}

/// `DOUBLE` to nullable `DOUBLE`: the value itself. The result is never null.
pub fn cast_to_dN_d(value: F64) -> (result: Option<F64>)
    ensures
        result == Some(value),
{
    Some(cast_to_d_d(value))
}

/// Nullable `DOUBLE` to nullable `DOUBLE`: the value itself, null or not.
pub fn cast_to_dN_dN(value: Option<F64>) -> (result: Option<F64>)
    ensures
        result == value,
{
    value
}

/// `FLOAT` to `DOUBLE`: the same value, as a double.
pub fn cast_to_d_f(value: F32) -> (result: F64)
    ensures
        result == double_of_float(value),
{
    double_from_float(value)
}

/// Nullable `FLOAT` to `DOUBLE`: the same value, as a double. The source must
/// not be null.
pub fn cast_to_d_fN(value: Option<F32>) -> (result: F64)
    requires
        value is Some,
    ensures
        result == double_of_float(value->0),
{
    cast_to_d_f(value.unwrap())
}

/// `FLOAT` to nullable `DOUBLE`: the same value, as a double. The result is
/// never null.
pub fn cast_to_dN_f(value: F32) -> (result: Option<F64>)
    ensures
        result == Some(double_of_float(value)),
{
    Some(cast_to_d_f(value))
}

/// Nullable `FLOAT` to nullable `DOUBLE`: the same value, as a double. Null
/// stays null, and nothing else becomes null.
pub fn cast_to_dN_fN(value: Option<F32>) -> (result: Option<F64>)
    ensures
        result == match value {
            Some(v) => Some(double_of_float(v)),
            None => None,
        },
{
    match value {
        Some(v) => Some(cast_to_d_f(v)),
        None => None,
    }
}

/// `VARCHAR` to `DOUBLE`: the double that the text writes, zero where it writes
/// none.
pub fn cast_to_d_s(value: String) -> (result: F64)
    ensures
        result == double_of_text(value@),
{
    double_or_zero(double_from_str(value.as_str()))
}

/// Nullable `VARCHAR` to `DOUBLE`: the double that the text writes, zero where
/// it writes none. The source must not be null.
pub fn cast_to_d_sN(value: Option<String>) -> (result: F64)
    requires
        value is Some,
    ensures
        result == double_of_text((value->0)@),
{
    cast_to_d_s(value.unwrap())
}

/// `VARCHAR` to nullable `DOUBLE`: the double that the text writes, zero where
/// it writes none. The result is never null.
pub fn cast_to_dN_s(value: String) -> (result: Option<F64>)
    ensures
        result == Some(double_of_text(value@)),
{
    Some(cast_to_d_s(value))
}

/// Nullable `VARCHAR` to nullable `DOUBLE`: the double that the text writes,
/// zero where it writes none. Null stays null, and nothing else becomes null.
pub fn cast_to_dN_sN(value: Option<String>) -> (result: Option<F64>)
    ensures
        result == match value {
            Some(v) => Some(double_of_text(v@)),
            None => None,
        },
{
    match value {
        Some(v) => Some(cast_to_d_s(v)),
        None => None,
    }
}

/// `isize` to `DOUBLE`: the nearest double.
pub fn cast_to_d_i(value: isize) -> (result: F64)
    ensures
        result == double_of_int(value as int),
{
    double_from_int(value as i128)
}

/// `isize` to nullable `DOUBLE`: the nearest double. The result is never null.
pub fn cast_to_dN_i(value: isize) -> (result: Option<F64>)
    ensures
        result == Some(double_of_int(value as int)),
{
    Some(cast_to_d_i(value))
}

/// `SMALLINT` to `DOUBLE`: the nearest double.
pub fn cast_to_d_i16(value: i16) -> (result: F64)
    ensures
        result == double_of_int(value as int),
{
    double_from_int(value as i128)
}

/// Nullable `SMALLINT` to `DOUBLE`: the nearest double. The source must not be
/// null.
pub fn cast_to_d_i16N(value: Option<i16>) -> (result: F64)
    requires
        value is Some,
    ensures
        result == double_of_int(value->0 as int),
{
    cast_to_d_i16(value.unwrap())
}

/// `SMALLINT` to nullable `DOUBLE`: the nearest double. The result is never
/// null.
pub fn cast_to_dN_i16(value: i16) -> (result: Option<F64>)
    ensures
        result == Some(double_of_int(value as int)),
{
    Some(cast_to_d_i16(value))
}

/// Nullable `SMALLINT` to nullable `DOUBLE`: the nearest double. Null stays
/// null, and nothing else becomes null.
pub fn cast_to_dN_i16N(value: Option<i16>) -> (result: Option<F64>)
    ensures
        result == match value {
            Some(v) => Some(double_of_int(v as int)),
            None => None,
        },
{
    match value {
        Some(v) => Some(cast_to_d_i16(v)),
        None => None,
    }
}

/// `INTEGER` to `DOUBLE`: the nearest double.
pub fn cast_to_d_i32(value: i32) -> (result: F64)
    ensures
        result == double_of_int(value as int),
{
    double_from_int(value as i128)
}

/// Nullable `INTEGER` to `DOUBLE`: the nearest double. The source must not be
/// null.
pub fn cast_to_d_i32N(value: Option<i32>) -> (result: F64)
    requires
        value is Some,
    ensures
        result == double_of_int(value->0 as int),
{
    cast_to_d_i32(value.unwrap())
}

/// `INTEGER` to nullable `DOUBLE`: the nearest double. The result is never
/// null.
pub fn cast_to_dN_i32(value: i32) -> (result: Option<F64>)
    ensures
        result == Some(double_of_int(value as int)),
{
    Some(cast_to_d_i32(value))
}

/// Nullable `INTEGER` to nullable `DOUBLE`: the nearest double. Null stays
/// null, and nothing else becomes null.
pub fn cast_to_dN_i32N(value: Option<i32>) -> (result: Option<F64>)
    ensures
        result == match value {
            Some(v) => Some(double_of_int(v as int)),
            None => None,
        },
{
    match value {
        Some(v) => Some(cast_to_d_i32(v)),
        None => None,
    }
}

/// `BIGINT` to `DOUBLE`: the nearest double.
pub fn cast_to_d_i64(value: i64) -> (result: F64)
    ensures
        result == double_of_int(value as int),
{
    double_from_int(value as i128)
}

/// Nullable `BIGINT` to `DOUBLE`: the nearest double. The source must not be
/// null.
pub fn cast_to_d_i64N(value: Option<i64>) -> (result: F64)
    requires
        value is Some,
    ensures
        result == double_of_int(value->0 as int),
{
    cast_to_d_i64(value.unwrap())
}

/// `BIGINT` to nullable `DOUBLE`: the nearest double. The result is never null.
pub fn cast_to_dN_i64(value: i64) -> (result: Option<F64>)
    ensures
        result == Some(double_of_int(value as int)),
{
    Some(cast_to_d_i64(value))
}

/// Nullable `BIGINT` to nullable `DOUBLE`: the nearest double. Null stays null,
/// and nothing else becomes null.
pub fn cast_to_dN_i64N(value: Option<i64>) -> (result: Option<F64>)
    ensures
        result == match value {
            Some(v) => Some(double_of_int(v as int)),
            None => None,
        },
{
    match value {
        Some(v) => Some(cast_to_d_i64(v)),
        None => None,
    }
}

/// `usize` to `DOUBLE`: the nearest double.
pub fn cast_to_d_u(value: usize) -> (result: F64)
    ensures
        result == double_of_int(value as int),
{
    double_from_int(value as i128)
}

/// `usize` to nullable `DOUBLE`: the nearest double. The result is never null.
pub fn cast_to_dN_u(value: usize) -> (result: Option<F64>)
    ensures
        result == Some(double_of_int(value as int)),
{
    Some(cast_to_d_u(value))
}

} // verus!
