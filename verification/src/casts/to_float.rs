//! Casts to `FLOAT`.
use crate::decimal::{double_from_decimal, double_of_decimal};
use crate::float::{
    float_from_double, float_from_int, float_from_str, float_of_double, float_of_int,
    float_parse,
};
use crate::integer::bool_as_int;
use dbsp::algebra::{F32, F64};
use rust_decimal::Decimal;
use vstd::prelude::*;

verus! {

/// The single-precision value that a text stands for: the one it writes, zero where it writes
/// none.
pub open spec fn float_of_text(s: Seq<char>) -> F32 {
    match float_parse(s) {
        Some(x) => x,
        None => float_of_int(0),
    }
}

/// What reading a text as a single-precision value gave, or zero where it gave nothing.
pub fn float_or_zero(read: Option<F32>) -> (result: F32)
    ensures
        result == match read {
            Some(x) => x,
            None => float_of_int(0),
        },
{
    match read {
        Some(x) => x,
        None => float_from_int(0),
    }
}

/// `BOOLEAN` to `FLOAT`: one for true, zero for false.
pub fn cast_to_f_b(value: bool) -> (result: F32)
    ensures
        result == float_of_int(bool_as_int(value)),
{
    let bit: i128 = if value {
        1
    } else {
        0
    };
    float_from_int(bit)
}

/// Nullable `BOOLEAN` to `FLOAT`: one for true, zero for false. The source must
/// not be null.
pub fn cast_to_f_bN(value: Option<bool>) -> (result: F32)
    requires
        value is Some,
    ensures
        result == float_of_int(bool_as_int(value->0)),
{
    cast_to_f_b(value.unwrap())
}

/// `BOOLEAN` to nullable `FLOAT`: one for true, zero for false. The result is
/// never null.
pub fn cast_to_fN_b(value: bool) -> (result: Option<F32>)
    ensures
        result == Some(float_of_int(bool_as_int(value))),
{
    Some(cast_to_f_b(value))
}

/// Nullable `BOOLEAN` to nullable `FLOAT`: one for true, zero for false. Null
/// stays null, and nothing else becomes null.
pub fn cast_to_fN_bN(value: Option<bool>) -> (result: Option<F32>)
    ensures
        result == match value {
            Some(v) => Some(float_of_int(bool_as_int(v))),
            None => None,
        },
{
    match value {
        Some(v) => Some(cast_to_f_b(v)),
        None => None,
    }
}

/// `DECIMAL` to `FLOAT`: the single-precision value nearest to the double that
/// stands for it.
pub fn cast_to_f_decimal(value: Decimal) -> (result: F32)
    ensures
        result == float_of_double(double_of_decimal(value)),
{
    float_from_double(double_from_decimal(&value).unwrap())
}

/// Nullable `DECIMAL` to `FLOAT`: the single-precision value nearest to the
/// double that stands for it. The source must not be null.
pub fn cast_to_f_decimalN(value: Option<Decimal>) -> (result: F32)
    requires
        value is Some,
    ensures
        result == float_of_double(double_of_decimal(value->0)),
{
    cast_to_f_decimal(value.unwrap())
}

/// `DECIMAL` to nullable `FLOAT`: the single-precision value nearest to the
/// double that stands for it. The result is never null.
pub fn cast_to_fN_decimal(value: Decimal) -> (result: Option<F32>)
    ensures
        result == Some(float_of_double(double_of_decimal(value))),
{
    Some(cast_to_f_decimal(value))
}

/// Nullable `DECIMAL` to nullable `FLOAT`: the single-precision value nearest
/// to the double that stands for it. Null stays null, and nothing else becomes
/// null.
pub fn cast_to_fN_decimalN(value: Option<Decimal>) -> (result: Option<F32>)
    ensures
        result == match value {
            Some(v) => Some(float_of_double(double_of_decimal(v))),
            None => None,
        },
{
    match value {
        Some(v) => Some(cast_to_f_decimal(v)),
        None => None,
    }
}

/// `DOUBLE` to `FLOAT`: the nearest single-precision value.
pub fn cast_to_f_d(value: F64) -> (result: F32)
    ensures
        result == float_of_double(value),
{
    float_from_double(value)
}

/// Nullable `DOUBLE` to `FLOAT`: the nearest single-precision value. The source
/// must not be null.
pub fn cast_to_f_dN(value: Option<F64>) -> (result: F32)
    requires
        value is Some,
    ensures
        result == float_of_double(value->0),
{
    cast_to_f_d(value.unwrap())
}

/// `DOUBLE` to nullable `FLOAT`: the nearest single-precision value. The result
/// is never null.
pub fn cast_to_fN_d(value: F64) -> (result: Option<F32>)
    ensures
        result == Some(float_of_double(value)),
{
    Some(cast_to_f_d(value))
}

/// Nullable `DOUBLE` to nullable `FLOAT`: the nearest single-precision value.
/// Null stays null, and nothing else becomes null.
pub fn cast_to_fN_dN(value: Option<F64>) -> (result: Option<F32>)
    ensures
        result == match value {
            Some(v) => Some(float_of_double(v)),
            None => None,
        },
{
    match value {
        Some(v) => Some(cast_to_f_d(v)),
        None => None,
    }
}

/// `FLOAT` to `FLOAT`: the value itself.
pub fn cast_to_f_f(value: F32) -> (result: F32)
    ensures
        result == value,
{
    value
}

/// Nullable `FLOAT` to `FLOAT`: the value itself. The source must not be null.
pub fn cast_to_f_fN(value: Option<F32>) -> (result: F32)
    requires
        value is Some,
    ensures
        result == value->0,
{
    cast_to_f_f(value.unwrap())
}

/// `FLOAT` to nullable `FLOAT`: the value itself. The result is never null.
pub fn cast_to_fN_f(value: F32) -> (result: Option<F32>)
    ensures
        result == Some(value),
{
    Some(cast_to_f_f(value))
}

/// Nullable `FLOAT` to nullable `FLOAT`: the value itself, null or not.
pub fn cast_to_fN_fN(value: Option<F32>) -> (result: Option<F32>)
    ensures
        result == value,
{
    value
}

/// `VARCHAR` to `FLOAT`: the single-precision value that the text writes, zero
/// where it writes none.
pub fn cast_to_f_s(value: String) -> (result: F32)
    ensures
        result == float_of_text(value@),
{
    float_or_zero(float_from_str(value.as_str()))
}

/// Nullable `VARCHAR` to `FLOAT`: the single-precision value that the text
/// writes, zero where it writes none. The source must not be null.
pub fn cast_to_f_sN(value: Option<String>) -> (result: F32)
    requires
        value is Some,
    ensures
        result == float_of_text((value->0)@),
{
    cast_to_f_s(value.unwrap())
}

/// `VARCHAR` to nullable `FLOAT`: the single-precision value that the text
/// writes, zero where it writes none. The result is never null.
pub fn cast_to_fN_s(value: String) -> (result: Option<F32>)
    ensures
        result == Some(float_of_text(value@)),
{
    Some(cast_to_f_s(value))
}

/// Nullable `VARCHAR` to nullable `FLOAT`: the single-precision value that the
/// text writes, zero where it writes none. Null stays null, and nothing else
/// becomes null.
pub fn cast_to_fN_sN(value: Option<String>) -> (result: Option<F32>)
    ensures
        result == match value {
            Some(v) => Some(float_of_text(v@)),
            None => None,
        },
{
    match value {
        Some(v) => Some(cast_to_f_s(v)),
        None => None,
    }
}

/// `isize` to `FLOAT`: the nearest single-precision value.
pub fn cast_to_f_i(value: isize) -> (result: F32)
    ensures
        result == float_of_int(value as int),
{
    float_from_int(value as i128)
}

/// `isize` to nullable `FLOAT`: the nearest single-precision value. The result
/// is never null.
pub fn cast_to_fN_i(value: isize) -> (result: Option<F32>)
    ensures
        result == Some(float_of_int(value as int)),
{
    Some(cast_to_f_i(value))
}

/// `SMALLINT` to `FLOAT`: the nearest single-precision value.
pub fn cast_to_f_i16(value: i16) -> (result: F32)
    ensures
        result == float_of_int(value as int),
{
    float_from_int(value as i128)
}

/// Nullable `SMALLINT` to `FLOAT`: the nearest single-precision value. The
/// source must not be null.
pub fn cast_to_f_i16N(value: Option<i16>) -> (result: F32)
    requires
        value is Some,
    ensures
        result == float_of_int(value->0 as int),
{
    cast_to_f_i16(value.unwrap())
}

/// `SMALLINT` to nullable `FLOAT`: the nearest single-precision value. The
/// result is never null.
pub fn cast_to_fN_i16(value: i16) -> (result: Option<F32>)
    ensures
        result == Some(float_of_int(value as int)),
{
    Some(cast_to_f_i16(value))
}

/// Nullable `SMALLINT` to nullable `FLOAT`: the nearest single-precision value.
/// Null stays null, and nothing else becomes null.
pub fn cast_to_fN_i16N(value: Option<i16>) -> (result: Option<F32>)
    ensures
        result == match value {
            Some(v) => Some(float_of_int(v as int)),
            None => None,
        },
{
    match value {
        Some(v) => Some(cast_to_f_i16(v)),
        None => None,
    }
}

/// `INTEGER` to `FLOAT`: the nearest single-precision value.
pub fn cast_to_f_i32(value: i32) -> (result: F32)
    ensures
        result == float_of_int(value as int),
{
    float_from_int(value as i128)
}

/// Nullable `INTEGER` to `FLOAT`: the nearest single-precision value. The
/// source must not be null.
pub fn cast_to_f_i32N(value: Option<i32>) -> (result: F32)
    requires
        value is Some,
    ensures
        result == float_of_int(value->0 as int),
{
    cast_to_f_i32(value.unwrap())
}

/// `INTEGER` to nullable `FLOAT`: the nearest single-precision value. The
/// result is never null.
pub fn cast_to_fN_i32(value: i32) -> (result: Option<F32>)
    ensures
        result == Some(float_of_int(value as int)),
{
    Some(cast_to_f_i32(value))
}

/// Nullable `INTEGER` to nullable `FLOAT`: the nearest single-precision value.
/// Null stays null, and nothing else becomes null.
pub fn cast_to_fN_i32N(value: Option<i32>) -> (result: Option<F32>)
    ensures
        result == match value {
            Some(v) => Some(float_of_int(v as int)),
            None => None,
        },
{
    match value {
        Some(v) => Some(cast_to_f_i32(v)),
        None => None,
    }
}

/// `BIGINT` to `FLOAT`: the nearest single-precision value.
pub fn cast_to_f_i64(value: i64) -> (result: F32)
    ensures
        result == float_of_int(value as int),
{
    float_from_int(value as i128)
}

/// Nullable `BIGINT` to `FLOAT`: the nearest single-precision value. The source
/// must not be null.
pub fn cast_to_f_i64N(value: Option<i64>) -> (result: F32)
    requires
        value is Some,
    ensures
        result == float_of_int(value->0 as int),
{
    cast_to_f_i64(value.unwrap())
}

/// `BIGINT` to nullable `FLOAT`: the nearest single-precision value. The result
/// is never null.
pub fn cast_to_fN_i64(value: i64) -> (result: Option<F32>)
    ensures
        result == Some(float_of_int(value as int)),
{
    Some(cast_to_f_i64(value))
}

/// Nullable `BIGINT` to nullable `FLOAT`: the nearest single-precision value.
/// Null stays null, and nothing else becomes null.
pub fn cast_to_fN_i64N(value: Option<i64>) -> (result: Option<F32>)
    ensures
        result == match value {
            Some(v) => Some(float_of_int(v as int)),
            None => None,
        },
{
    match value {
        Some(v) => Some(cast_to_f_i64(v)),
        None => None,
    }
}

/// `usize` to `FLOAT`: the nearest single-precision value.
pub fn cast_to_f_u(value: usize) -> (result: F32)
    ensures
        result == float_of_int(value as int),
{
    float_from_int(value as i128)
}

/// `usize` to nullable `FLOAT`: the nearest single-precision value. The result
/// is never null.
pub fn cast_to_fN_u(value: usize) -> (result: Option<F32>)
    ensures
        result == Some(float_of_int(value as int)),
{
    Some(cast_to_f_u(value))
}

} // verus!
