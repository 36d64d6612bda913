//! Casts to `VARCHAR`.
use crate::decimal::{decimal_text, decimal_to_string};
use crate::float::{double_text, double_to_string, float_text, float_to_string};
use crate::text::{bool_text, bool_to_string, int_text, int_to_string, null_string, null_text};
use dbsp::algebra::{F32, F64};
use rust_decimal::Decimal;
use vstd::prelude::*;

verus! {

/// The text of a value that may be null: `NULL` for null, else what `to_string`
/// gives.
pub fn s_helper<T: core::fmt::Display>(value: Option<T>) -> (result: String)
    ensures
        match value {
            Some(v) => vstd::string::to_string_from_display_ensures::<T>(&v, result),
            None => result@ == null_text(),
        },
{
    match value {
        Some(v) => v.to_string(),
        None => null_string(),
    }
}

/// The text of a value that may be null: null for null, else what `to_string`
/// gives.
pub fn sN_helper<T: core::fmt::Display>(value: Option<T>) -> (result: Option<String>)
    ensures
        match value {
            Some(v) => result matches Some(s) && vstd::string::to_string_from_display_ensures::<T>(
                &v,
                s,
            ),
            None => result is None,
        },
{
    match value {
        Some(v) => Some(v.to_string()),
        None => None,
    }
}

/// `BOOLEAN` to `VARCHAR`: `true` or `false`.
pub fn cast_to_s_b(value: bool) -> (result: String)
    ensures
        result@ == bool_text(value),
{
    bool_to_string(value)
}

/// Nullable `BOOLEAN` to `VARCHAR`: `true` or `false`; null gives the text
/// `NULL`.
pub fn cast_to_s_bN(value: Option<bool>) -> (result: String)
    ensures
        result@ == match value {
            Some(v) => bool_text(v),
            None => null_text(),
        },
{
    match value {
        Some(v) => cast_to_s_b(v),
        None => null_string(),
    }
}

/// `BOOLEAN` to nullable `VARCHAR`: `true` or `false`. The result is never
/// null.
pub fn cast_to_sN_b(value: bool) -> (result: Option<String>)
    ensures
        result.deep_view() == Some(bool_text(value)),
{
    Some(cast_to_s_b(value))
}

/// Nullable `BOOLEAN` to nullable `VARCHAR`: `true` or `false`. Null stays
/// null, and nothing else becomes null.
pub fn cast_to_sN_bN(value: Option<bool>) -> (result: Option<String>)
    ensures
        result.deep_view() == match value {
            Some(v) => Some(bool_text(v)),
            None => None,
        },
{
    match value {
        Some(v) => Some(cast_to_s_b(v)),
        None => None,
    }
}

/// `DECIMAL` to `VARCHAR`: its digits, with as many after the point as its
/// scale.
pub fn cast_to_s_decimal(value: Decimal) -> (result: String)
    ensures
        result@ == decimal_text(value),
{
    decimal_to_string(&value)
}

/// Nullable `DECIMAL` to `VARCHAR`: its digits, with as many after the point as
/// its scale; null gives the text `NULL`.
pub fn cast_to_s_decimalN(value: Option<Decimal>) -> (result: String)
    ensures
        result@ == match value {
            Some(v) => decimal_text(v),
            None => null_text(),
        },
{
    match value {
        Some(v) => cast_to_s_decimal(v),
        None => null_string(),
    }
}

/// `DECIMAL` to nullable `VARCHAR`: its digits, with as many after the point as
/// its scale. The result is never null.
pub fn cast_to_sN_decimal(value: Decimal) -> (result: Option<String>)
    ensures
        result.deep_view() == Some(decimal_text(value)),
{
    Some(cast_to_s_decimal(value))
}

/// Nullable `DECIMAL` to nullable `VARCHAR`: its digits, with as many after the
/// point as its scale. Null stays null, and nothing else becomes null.
pub fn cast_to_sN_decimalN(value: Option<Decimal>) -> (result: Option<String>)
    ensures
        result.deep_view() == match value {
            Some(v) => Some(decimal_text(v)),
            None => None,
        },
{
    match value {
        Some(v) => Some(cast_to_s_decimal(v)),
        None => None,
    }
}

/// `DOUBLE` to `VARCHAR`: the shortest text that reads back as the same double.
pub fn cast_to_s_d(value: F64) -> (result: String)
    ensures
        result@ == double_text(value),
{
    double_to_string(value)
}

/// Nullable `DOUBLE` to `VARCHAR`: the shortest text that reads back as the
/// same double; null gives the text `NULL`.
pub fn cast_to_s_dN(value: Option<F64>) -> (result: String)
    ensures
        result@ == match value {
            Some(v) => double_text(v),
            None => null_text(),
        },
{
    match value {
        Some(v) => cast_to_s_d(v),
        None => null_string(),
    }
}

/// `DOUBLE` to nullable `VARCHAR`: the shortest text that reads back as the
/// same double. The result is never null.
pub fn cast_to_sN_d(value: F64) -> (result: Option<String>)
    ensures
        result.deep_view() == Some(double_text(value)),
{
    Some(cast_to_s_d(value))
}

/// Nullable `DOUBLE` to nullable `VARCHAR`: the shortest text that reads back
/// as the same double. Null stays null, and nothing else becomes null.
pub fn cast_to_sN_dN(value: Option<F64>) -> (result: Option<String>)
    ensures
        result.deep_view() == match value {
            Some(v) => Some(double_text(v)),
            None => None,
        },
{
    match value {
        Some(v) => Some(cast_to_s_d(v)),
        None => None,
    }
}

/// `FLOAT` to `VARCHAR`: the shortest text that reads back as the same value.
pub fn cast_to_s_f(value: F32) -> (result: String)
    ensures
        result@ == float_text(value),
{
    float_to_string(value)
}

/// Nullable `FLOAT` to `VARCHAR`: the shortest text that reads back as the same
/// value; null gives the text `NULL`.
pub fn cast_to_s_fN(value: Option<F32>) -> (result: String)
    ensures
        result@ == match value {
            Some(v) => float_text(v),
            None => null_text(),
        },
{
    match value {
        Some(v) => cast_to_s_f(v),
        None => null_string(),
    }
}

/// `FLOAT` to nullable `VARCHAR`: the shortest text that reads back as the same
/// value. The result is never null.
pub fn cast_to_sN_f(value: F32) -> (result: Option<String>)
    ensures
        result.deep_view() == Some(float_text(value)),
{
    Some(cast_to_s_f(value))
}

/// Nullable `FLOAT` to nullable `VARCHAR`: the shortest text that reads back as
/// the same value. Null stays null, and nothing else becomes null.
pub fn cast_to_sN_fN(value: Option<F32>) -> (result: Option<String>)
    ensures
        result.deep_view() == match value {
            Some(v) => Some(float_text(v)),
            None => None,
        },
{
    match value {
        Some(v) => Some(cast_to_s_f(v)),
        None => None,
    }
}

/// `VARCHAR` to `VARCHAR`: the value itself.
pub fn cast_to_s_s(value: String) -> (result: String)
    ensures
        result == value,
{
    value
}

/// Nullable `VARCHAR` to `VARCHAR`: the value itself. The source must not be
/// null.
pub fn cast_to_s_sN(value: Option<String>) -> (result: String)
    requires
        value is Some,
    ensures
        result == value->0,
{
    cast_to_s_s(value.unwrap())
}

/// `VARCHAR` to nullable `VARCHAR`: the value itself. The result is never null.
pub fn cast_to_sN_s(value: String) -> (result: Option<String>)
    ensures
        result == Some(value),
{
    Some(cast_to_s_s(value))
}

/// Nullable `VARCHAR` to nullable `VARCHAR`: the value itself, null or not.
pub fn cast_to_sN_sN(value: Option<String>) -> (result: Option<String>)
    ensures
        result == value,
{
    value
}

/// `isize` to `VARCHAR`: its decimal digits, after a minus sign where it is
/// negative.
pub fn cast_to_s_i(value: isize) -> (result: String)
    ensures
        result@ == int_text(value as int),
{
    int_to_string(value as i128)
}

/// `isize` to nullable `VARCHAR`: its decimal digits, after a minus sign where
/// it is negative. The result is never null.
pub fn cast_to_sN_i(value: isize) -> (result: Option<String>)
    ensures
        result.deep_view() == Some(int_text(value as int)),
{
    Some(cast_to_s_i(value))
}

/// `SMALLINT` to `VARCHAR`: its decimal digits, after a minus sign where it is
/// negative.
pub fn cast_to_s_i16(value: i16) -> (result: String)
    ensures
        result@ == int_text(value as int),
{
    int_to_string(value as i128)
}

/// Nullable `SMALLINT` to `VARCHAR`: its decimal digits, after a minus sign
/// where it is negative; null gives the text `NULL`.
pub fn cast_to_s_i16N(value: Option<i16>) -> (result: String)
    ensures
        result@ == match value {
            Some(v) => int_text(v as int),
            None => null_text(),
        },
{
    match value {
        Some(v) => cast_to_s_i16(v),
        None => null_string(),
    }
}

/// `SMALLINT` to nullable `VARCHAR`: its decimal digits, after a minus sign
/// where it is negative. The result is never null.
pub fn cast_to_sN_i16(value: i16) -> (result: Option<String>)
    ensures
        result.deep_view() == Some(int_text(value as int)),
{
    Some(cast_to_s_i16(value))
}

/// Nullable `SMALLINT` to nullable `VARCHAR`: its decimal digits, after a minus
/// sign where it is negative. Null stays null, and nothing else becomes null.
pub fn cast_to_sN_i16N(value: Option<i16>) -> (result: Option<String>)
    ensures
        result.deep_view() == match value {
            Some(v) => Some(int_text(v as int)),
            None => None,
        },
{
    match value {
        Some(v) => Some(cast_to_s_i16(v)),
        None => None,
    }
}

/// `INTEGER` to `VARCHAR`: its decimal digits, after a minus sign where it is
/// negative.
pub fn cast_to_s_i32(value: i32) -> (result: String)
    ensures
        result@ == int_text(value as int),
{
    int_to_string(value as i128)
}

/// Nullable `INTEGER` to `VARCHAR`: its decimal digits, after a minus sign
/// where it is negative; null gives the text `NULL`.
pub fn cast_to_s_i32N(value: Option<i32>) -> (result: String)
    ensures
        result@ == match value {
            Some(v) => int_text(v as int),
            None => null_text(),
        },
{
    match value {
        Some(v) => cast_to_s_i32(v),
        None => null_string(),
    }
}

/// `INTEGER` to nullable `VARCHAR`: its decimal digits, after a minus sign
/// where it is negative. The result is never null.
pub fn cast_to_sN_i32(value: i32) -> (result: Option<String>)
    ensures
        result.deep_view() == Some(int_text(value as int)),
{
    Some(cast_to_s_i32(value))
}

/// Nullable `INTEGER` to nullable `VARCHAR`: its decimal digits, after a minus
/// sign where it is negative. Null stays null, and nothing else becomes null.
pub fn cast_to_sN_i32N(value: Option<i32>) -> (result: Option<String>)
    ensures
        result.deep_view() == match value {
            Some(v) => Some(int_text(v as int)),
            None => None,
        },
{
    match value {
        Some(v) => Some(cast_to_s_i32(v)),
        None => None,
    }
}

/// `BIGINT` to `VARCHAR`: its decimal digits, after a minus sign where it is
/// negative.
pub fn cast_to_s_i64(value: i64) -> (result: String)
    ensures
        result@ == int_text(value as int),
{
    int_to_string(value as i128)
}

/// Nullable `BIGINT` to `VARCHAR`: its decimal digits, after a minus sign where
/// it is negative; null gives the text `NULL`.
pub fn cast_to_s_i64N(value: Option<i64>) -> (result: String)
    ensures
        result@ == match value {
            Some(v) => int_text(v as int),
            None => null_text(),
        },
{
    match value {
        Some(v) => cast_to_s_i64(v),
        None => null_string(),
    }
}

/// `BIGINT` to nullable `VARCHAR`: its decimal digits, after a minus sign where
/// it is negative. The result is never null.
pub fn cast_to_sN_i64(value: i64) -> (result: Option<String>)
    ensures
        result.deep_view() == Some(int_text(value as int)),
{
    Some(cast_to_s_i64(value))
}

/// Nullable `BIGINT` to nullable `VARCHAR`: its decimal digits, after a minus
/// sign where it is negative. Null stays null, and nothing else becomes null.
pub fn cast_to_sN_i64N(value: Option<i64>) -> (result: Option<String>)
    ensures
        result.deep_view() == match value {
            Some(v) => Some(int_text(v as int)),
            None => None,
        },
{
    match value {
        Some(v) => Some(cast_to_s_i64(v)),
        None => None,
    }
}

/// `usize` to `VARCHAR`: its decimal digits, after a minus sign where it is
/// negative.
pub fn cast_to_s_u(value: usize) -> (result: String)
    ensures
        result@ == int_text(value as int),
{
    int_to_string(value as i128)
}

/// `usize` to nullable `VARCHAR`: its decimal digits, after a minus sign where
/// it is negative. The result is never null.
pub fn cast_to_sN_u(value: usize) -> (result: Option<String>)
    ensures
        result.deep_view() == Some(int_text(value as int)),
{
    Some(cast_to_s_u(value))
}

} // verus!
