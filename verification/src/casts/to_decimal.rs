//! Casts to `DECIMAL`.
use crate::decimal::{
    decimal_from_double, decimal_from_float, decimal_from_int, decimal_from_str, decimal_is_int,
    decimal_of_double, decimal_of_float, decimal_of_int, decimal_parse,
};
use crate::float::{double_is_finite, float_is_finite};
use crate::integer::bool_as_int;
use dbsp::algebra::{F32, F64};
use rust_decimal::Decimal;
use vstd::prelude::*;

verus! {

/// The decimal that a text stands for: the one it writes, zero where it writes
/// none.
pub open spec fn decimal_of_text(s: Seq<char>) -> Decimal {
    match decimal_parse(s) {
        Some(d) => d,
        None => decimal_of_int(0),
    }
}

/// What reading a text as a decimal gave, or zero where it gave nothing.
pub fn decimal_or_zero(read: Option<Decimal>) -> (result: Decimal)
    ensures
        result == match read {
            Some(d) => d,
            None => decimal_of_int(0),
        },
        read is None ==> decimal_is_int(result, 0),
{
    match read {
        Some(d) => d,
        None => decimal_from_int(0).unwrap(),
    }
}

/// `BOOLEAN` to `DECIMAL`: one for true, zero for false.
pub fn cast_to_decimal_b(value: bool) -> (result: Decimal)
    ensures
        decimal_is_int(result, bool_as_int(value)),
{
    let bit: i128 = if value {
        1
    } else {
        0
    };
    decimal_from_int(bit).unwrap()
}

/// Nullable `BOOLEAN` to `DECIMAL`: one for true, zero for false. The source
/// must not be null.
pub fn cast_to_decimal_bN(value: Option<bool>) -> (result: Decimal)
    requires
        value is Some,
    ensures
        decimal_is_int(result, bool_as_int(value->0)),
{
    cast_to_decimal_b(value.unwrap())
}

/// `BOOLEAN` to nullable `DECIMAL`: one for true, zero for false. The result is
/// never null.
pub fn cast_to_decimalN_b(value: bool) -> (result: Option<Decimal>)
    ensures
        result matches Some(d) && decimal_is_int(d, bool_as_int(value)),
{
    Some(cast_to_decimal_b(value))
}

/// Nullable `BOOLEAN` to nullable `DECIMAL`: one for true, zero for false. Null
/// stays null, and nothing else becomes null.
pub fn cast_to_decimalN_bN(value: Option<bool>) -> (result: Option<Decimal>)
    ensures
        match value {
            Some(v) => result matches Some(d) && decimal_is_int(d, bool_as_int(v)),
            None => result is None,
        },
{
    match value {
        Some(v) => Some(cast_to_decimal_b(v)),
        None => None,
    }
}

/// `DECIMAL` to `DECIMAL`: the value itself.
pub fn cast_to_decimal_decimal(value: Decimal) -> (result: Decimal)
    ensures
        result == value,
{
    value
}

/// Nullable `DECIMAL` to `DECIMAL`: the value itself. The source must not be
/// null.
pub fn cast_to_decimal_decimalN(value: Option<Decimal>) -> (result: Decimal)
    requires
        value is Some,
    ensures
        result == value->0,
{
    cast_to_decimal_decimal(value.unwrap())
}

/// `DECIMAL` to nullable `DECIMAL`: the value itself. The result is never null.
pub fn cast_to_decimalN_decimal(value: Decimal) -> (result: Option<Decimal>)
    ensures
        result == Some(value),
{
    Some(cast_to_decimal_decimal(value))
}

/// Nullable `DECIMAL` to nullable `DECIMAL`: the value itself, null or not.
pub fn cast_to_decimalN_decimalN(value: Option<Decimal>) -> (result: Option<Decimal>)
    ensures
        result == value,
{
    value
}

/// `DOUBLE` to `DECIMAL`: the decimal that stands for it. There must be one:
/// NaN, an infinity and a value too large for a decimal have none.
pub fn cast_to_decimal_d(value: F64) -> (result: Decimal)
    requires
        decimal_of_double(value) is Some,
    ensures
        Some(result) == decimal_of_double(value),
{
    cast_to_decimalN_d(value).unwrap()
}

/// Nullable `DOUBLE` to `DECIMAL`: the decimal that stands for it. The source
/// must not be null. There must be one: NaN, an infinity and a value too large
/// for a decimal have none.
pub fn cast_to_decimal_dN(value: Option<F64>) -> (result: Decimal)
    requires
        value is Some,
        decimal_of_double(value->0) is Some,
    ensures
        Some(result) == decimal_of_double(value->0),
{
    cast_to_decimal_d(value.unwrap())
}

/// `DOUBLE` to nullable `DECIMAL`: the decimal that stands for it, or null for
/// NaN, for an infinity and for a value too large for a decimal.
pub fn cast_to_decimalN_d(value: F64) -> (result: Option<Decimal>)
    ensures
        result == decimal_of_double(value),
        !double_is_finite(value) ==> result is None,
{
    decimal_from_double(value)
}

/// Nullable `DOUBLE` to nullable `DECIMAL`: the decimal that stands for it, or
/// null for NaN, for an infinity and for a value too large for a decimal. Null
/// stays null.
pub fn cast_to_decimalN_dN(value: Option<F64>) -> (result: Option<Decimal>)
    ensures
        result == match value {
            Some(v) => decimal_of_double(v),
            None => None,
        },
        value matches Some(v) && !double_is_finite(v) ==> result is None,
{
    match value {
        Some(v) => cast_to_decimalN_d(v),
        None => None,
    }
}

/// `FLOAT` to `DECIMAL`: the decimal that stands for it. There must be one:
/// NaN, an infinity and a value too large for a decimal have none.
pub fn cast_to_decimal_f(value: F32) -> (result: Decimal)
    requires
        decimal_of_float(value) is Some,
    ensures
        Some(result) == decimal_of_float(value),
{
    cast_to_decimalN_f(value).unwrap()
}

/// Nullable `FLOAT` to `DECIMAL`: the decimal that stands for it. The source
/// must not be null. There must be one: NaN, an infinity and a value too large
/// for a decimal have none.
pub fn cast_to_decimal_fN(value: Option<F32>) -> (result: Decimal)
    requires
        value is Some,
        decimal_of_float(value->0) is Some,
    ensures
        Some(result) == decimal_of_float(value->0),
{
    cast_to_decimal_f(value.unwrap())
}

/// `FLOAT` to nullable `DECIMAL`: the decimal that stands for it, or null for
/// NaN, for an infinity and for a value too large for a decimal.
pub fn cast_to_decimalN_f(value: F32) -> (result: Option<Decimal>)
    ensures
        result == decimal_of_float(value),
        !float_is_finite(value) ==> result is None,
{
    decimal_from_float(value)
}

/// Nullable `FLOAT` to nullable `DECIMAL`: the decimal that stands for it, or
/// null for NaN, for an infinity and for a value too large for a decimal. Null
/// stays null.
pub fn cast_to_decimalN_fN(value: Option<F32>) -> (result: Option<Decimal>)
    ensures
        result == match value {
            Some(v) => decimal_of_float(v),
            None => None,
        },
        value matches Some(v) && !float_is_finite(v) ==> result is None,
{
    match value {
        Some(v) => cast_to_decimalN_f(v),
        None => None,
    }
}

/// `VARCHAR` to `DECIMAL`: the decimal that the text writes, zero where it
/// writes none.
pub fn cast_to_decimal_s(value: String) -> (result: Decimal)
    ensures
        result == decimal_of_text(value@),
        decimal_parse(value@) is None ==> decimal_is_int(result, 0),
{
    decimal_or_zero(decimal_from_str(value.as_str()))
}

/// Nullable `VARCHAR` to `DECIMAL`: the decimal that the text writes, zero
/// where it writes none. The source must not be null.
pub fn cast_to_decimal_sN(value: Option<String>) -> (result: Decimal)
    requires
        value is Some,
    ensures
        result == decimal_of_text((value->0)@),
        decimal_parse((value->0)@) is None ==> decimal_is_int(result, 0),
{
    cast_to_decimal_s(value.unwrap())
}

/// `VARCHAR` to nullable `DECIMAL`: the decimal that the text writes, zero
/// where it writes none. The result is never null.
pub fn cast_to_decimalN_s(value: String) -> (result: Option<Decimal>)
    ensures
        result == Some(decimal_of_text(value@)),
        decimal_parse(value@) is None ==> decimal_is_int(result->0, 0),
{
    Some(cast_to_decimal_s(value))
}

/// Nullable `VARCHAR` to nullable `DECIMAL`: the decimal that the text writes,
/// zero where it writes none. Null stays null, and nothing else becomes null.
pub fn cast_to_decimalN_sN(value: Option<String>) -> (result: Option<Decimal>)
    ensures
        result == match value {
            Some(v) => Some(decimal_of_text(v@)),
            None => None,
        },
        value matches Some(v) && decimal_parse(v@) is None ==> decimal_is_int(result->0, 0),
{
    match value {
        Some(v) => Some(cast_to_decimal_s(v)),
        None => None,
    }
}

/// `isize` to `DECIMAL`: the same number, with scale zero.
pub fn cast_to_decimal_i(value: isize) -> (result: Decimal)
    ensures
        decimal_is_int(result, value as int),
{
    decimal_from_int(value as i128).unwrap()
}

/// `isize` to nullable `DECIMAL`: the same number, with scale zero. The result
/// is never null.
pub fn cast_to_decimalN_i(value: isize) -> (result: Option<Decimal>)
    ensures
        result matches Some(d) && decimal_is_int(d, value as int),
{
    Some(cast_to_decimal_i(value))
}

/// `SMALLINT` to `DECIMAL`: the same number, with scale zero.
pub fn cast_to_decimal_i16(value: i16) -> (result: Decimal)
    ensures
        decimal_is_int(result, value as int),
{
    decimal_from_int(value as i128).unwrap()
}

/// Nullable `SMALLINT` to `DECIMAL`: the same number, with scale zero. The
/// source must not be null.
pub fn cast_to_decimal_i16N(value: Option<i16>) -> (result: Decimal)
    requires
        value is Some,
    ensures
        decimal_is_int(result, value->0 as int),
{
    cast_to_decimal_i16(value.unwrap())
}

/// `SMALLINT` to nullable `DECIMAL`: the same number, with scale zero. The
/// result is never null.
pub fn cast_to_decimalN_i16(value: i16) -> (result: Option<Decimal>)
    ensures
        result matches Some(d) && decimal_is_int(d, value as int),
{
    Some(cast_to_decimal_i16(value))
}

/// Nullable `SMALLINT` to nullable `DECIMAL`: the same number, with scale zero.
/// Null stays null, and nothing else becomes null.
pub fn cast_to_decimalN_i16N(value: Option<i16>) -> (result: Option<Decimal>)
    ensures
        match value {
            Some(v) => result matches Some(d) && decimal_is_int(d, v as int),
            None => result is None,
        },
{
    match value {
        Some(v) => Some(cast_to_decimal_i16(v)),
        None => None,
    }
}

/// `INTEGER` to `DECIMAL`: the same number, with scale zero.
pub fn cast_to_decimal_i32(value: i32) -> (result: Decimal)
    ensures
        decimal_is_int(result, value as int),
{
    decimal_from_int(value as i128).unwrap()
}

/// Nullable `INTEGER` to `DECIMAL`: the same number, with scale zero. The
/// source must not be null.
pub fn cast_to_decimal_i32N(value: Option<i32>) -> (result: Decimal)
    requires
        value is Some,
    ensures
        decimal_is_int(result, value->0 as int),
{
    cast_to_decimal_i32(value.unwrap())
}

/// `INTEGER` to nullable `DECIMAL`: the same number, with scale zero. The
/// result is never null.
pub fn cast_to_decimalN_i32(value: i32) -> (result: Option<Decimal>)
    ensures
        result matches Some(d) && decimal_is_int(d, value as int),
{
    Some(cast_to_decimal_i32(value))
}

/// Nullable `INTEGER` to nullable `DECIMAL`: the same number, with scale zero.
/// Null stays null, and nothing else becomes null.
pub fn cast_to_decimalN_i32N(value: Option<i32>) -> (result: Option<Decimal>)
    ensures
        match value {
            Some(v) => result matches Some(d) && decimal_is_int(d, v as int),
            None => result is None,
        },
{
    match value {
        Some(v) => Some(cast_to_decimal_i32(v)),
        None => None,
    }
}

/// `BIGINT` to `DECIMAL`: the same number, with scale zero.
pub fn cast_to_decimal_i64(value: i64) -> (result: Decimal)
    ensures
        decimal_is_int(result, value as int),
{
    decimal_from_int(value as i128).unwrap()
}

/// Nullable `BIGINT` to `DECIMAL`: the same number, with scale zero. The source
/// must not be null.
pub fn cast_to_decimal_i64N(value: Option<i64>) -> (result: Decimal)
    requires
        value is Some,
    ensures
        decimal_is_int(result, value->0 as int),
{
    cast_to_decimal_i64(value.unwrap())
}

/// `BIGINT` to nullable `DECIMAL`: the same number, with scale zero. The result
/// is never null.
pub fn cast_to_decimalN_i64(value: i64) -> (result: Option<Decimal>)
    ensures
        result matches Some(d) && decimal_is_int(d, value as int),
{
    Some(cast_to_decimal_i64(value))
}

/// Nullable `BIGINT` to nullable `DECIMAL`: the same number, with scale zero.
/// Null stays null, and nothing else becomes null.
pub fn cast_to_decimalN_i64N(value: Option<i64>) -> (result: Option<Decimal>)
    ensures
        match value {
            Some(v) => result matches Some(d) && decimal_is_int(d, v as int),
            None => result is None,
        },
{
    match value {
        Some(v) => Some(cast_to_decimal_i64(v)),
        None => None,
    }
}

/// `usize` to `DECIMAL`: the same number, with scale zero.
pub fn cast_to_decimal_u(value: usize) -> (result: Decimal)
    ensures
        decimal_is_int(result, value as int),
{
    decimal_from_int(value as i128).unwrap()
}

/// `usize` to nullable `DECIMAL`: the same number, with scale zero. The result
/// is never null.
pub fn cast_to_decimalN_u(value: usize) -> (result: Option<Decimal>)
    ensures
        result matches Some(d) && decimal_is_int(d, value as int),
{
    Some(cast_to_decimal_u(value))
}

} // verus!
