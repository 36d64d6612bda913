//! Fixed-point decimal numbers, as `rust_decimal` holds them.
//!
//! A `Decimal` is a signed integer of at most 96 bits, its mantissa, divided by
//! ten to the power of its scale, which is at most 28. Verus sees nothing
//! inside one: the mantissa and the scale are named here, and every operation
//! on a `Decimal` goes through a function of this module whose contract is
//! taken on trust.
use crate::float::{double_is_finite, float_is_finite};
use dbsp::algebra::{F32, F64};
use rust_decimal::prelude::{FromPrimitive, ToPrimitive};
use rust_decimal::Decimal;
use vstd::prelude::*;

verus! {

/// `rust_decimal::Decimal`.
#[verifier::external_type_specification]
#[verifier::external_body]
pub struct ExDecimal(rust_decimal::Decimal);

/// The mantissa of a decimal: the number with its point taken out.
pub uninterp spec fn decimal_mantissa(d: Decimal) -> int;

/// The scale of a decimal: how many of the mantissa's digits follow the point.
pub uninterp spec fn decimal_scale(d: Decimal) -> nat;

/// The decimal with mantissa `v` and scale zero.
pub uninterp spec fn decimal_of_int(v: int) -> Decimal;

/// The decimal that a text writes, where it writes one.
pub uninterp spec fn decimal_parse(s: Seq<char>) -> Option<Decimal>;

/// The text of a decimal, with as many digits after the point as its scale.
pub uninterp spec fn decimal_text(d: Decimal) -> Seq<char>;

/// The decimal that stands for a double, where there is one.
pub uninterp spec fn decimal_of_double(x: F64) -> Option<Decimal>;

/// The decimal that stands for a single-precision value, where there is one.
pub uninterp spec fn decimal_of_float(x: F32) -> Option<Decimal>;

/// The double that stands for a decimal.
pub uninterp spec fn double_of_decimal(d: Decimal) -> F64;

/// Ten to the power of `n`.
pub open spec fn pow10(n: nat) -> nat
    decreases n,
{
    if n == 0 {
        1
    } else {
        10 * pow10((n - 1) as nat)
    }
}

/// The integer part of `mantissa / 10^scale`, the fraction dropped toward zero.
pub open spec fn integer_part(mantissa: int, scale: nat) -> int {
    if mantissa >= 0 {
        mantissa / (pow10(scale) as int)
    } else {
        -((-mantissa) / (pow10(scale) as int))
    }
}

/// The integer part of a decimal.
pub open spec fn decimal_integer(d: Decimal) -> int {
    integer_part(decimal_mantissa(d), decimal_scale(d))
}

/// Whether `d` is the integer `v` as a decimal: its mantissa is `v` and its
/// scale is zero.
pub open spec fn decimal_is_int(d: Decimal, v: int) -> bool {
    &&& d == decimal_of_int(v)
    &&& decimal_mantissa(d) == v
    &&& decimal_scale(d) == 0
}

/// The largest mantissa, 2^96 - 1.
pub const MAX_MANTISSA: i128 = 0xffff_ffff_ffff_ffff_ffff_ffff;

/// Calls `FromPrimitive::from_i128` of `Decimal`. Claimed: there is a result
/// where the integer takes at most 96 bits beside its sign, and it has that
/// integer as its mantissa and a scale of zero.
#[verifier::external_body]
pub(crate) fn decimal_from_int(v: i128) -> (d: Option<Decimal>)
    ensures
        d is Some <==> -MAX_MANTISSA <= v <= MAX_MANTISSA,
        d matches Some(x) ==> x == decimal_of_int(v as int) && decimal_mantissa(x) == v
            && decimal_scale(x) == 0,
{
    Decimal::from_i128(v)
}

/// Calls `ToPrimitive::to_i64` of `Decimal`. Claimed: the result is the
/// decimal's integer part, and there is none where that does not fit in 64
/// bits.
#[verifier::external_body]
pub(crate) fn decimal_to_long(d: &Decimal) -> (v: Option<i64>)
    ensures
        v is Some <==> i64::MIN <= decimal_integer(*d) <= i64::MAX,
        v matches Some(x) ==> x == decimal_integer(*d),
{
    d.to_i64()
}

/// Calls `Decimal::is_zero`. Claimed: the result tells whether the mantissa is
/// zero.
#[verifier::external_body]
pub(crate) fn decimal_is_zero(d: &Decimal) -> (b: bool)
    ensures
        b == (decimal_mantissa(*d) == 0),
{
    d.is_zero()
}

/// Calls `FromStr::from_str` of `Decimal`, through `str::parse`, and drops the
/// error. Claimed: the result depends on the characters alone.
#[verifier::external_body]
pub(crate) fn decimal_from_str(s: &str) -> (d: Option<Decimal>)
    ensures
        d == decimal_parse(s@),
{
    s.parse::<Decimal>().ok()
}

/// Calls `Display::fmt` of `Decimal`, through `to_string`. Claimed: the text
/// depends on the decimal alone.
#[verifier::external_body]
pub(crate) fn decimal_to_string(d: &Decimal) -> (s: String)
    ensures
        s@ == decimal_text(*d),
{
    d.to_string()
}

/// Calls `FromPrimitive::from_f64` of `Decimal` on `F64::into_inner`. Claimed:
/// the result depends on the value alone, and there is none for NaN and for
/// an infinity.
#[verifier::external_body]
pub(crate) fn decimal_from_double(x: F64) -> (d: Option<Decimal>)
    ensures
        d == decimal_of_double(x),
        !double_is_finite(x) ==> d is None,
{
    Decimal::from_f64(x.into_inner())
}

/// Calls `FromPrimitive::from_f32` of `Decimal` on `F32::into_inner`. Claimed:
/// the result depends on the value alone, and there is none for NaN and for
/// an infinity.
#[verifier::external_body]
pub(crate) fn decimal_from_float(x: F32) -> (d: Option<Decimal>)
    ensures
        d == decimal_of_float(x),
        !float_is_finite(x) ==> d is None,
{
    Decimal::from_f32(x.into_inner())
}

/// Calls `ToPrimitive::to_f64` of `Decimal`, and `F64::new` on what it gives.
/// Claimed: there is always a result, and it depends on the decimal alone.
#[verifier::external_body]
pub(crate) fn double_from_decimal(d: &Decimal) -> (x: Option<F64>)
    ensures
        x == Some(double_of_decimal(*d)),
{
    d.to_f64().map(F64::new)
}

} // verus!
