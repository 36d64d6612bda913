//! Floating-point values, as `dbsp` wraps them.
//!
//! Verus sees nothing inside an `F32` or an `F64`. What the casts say of such a
//! value is said through the names declared here, and every operation on one
//! goes through a function of this module whose contract is taken on trust.
//! All NaNs count as one value: no operation here tells them apart.
use dbsp::algebra::{HasZero, F32, F64};
use vstd::prelude::*;

verus! {

/// `dbsp::algebra::F32`, a 32-bit float that can be ordered and hashed.
#[verifier::external_type_specification]
#[verifier::external_body]
pub struct ExF32(dbsp::algebra::F32);

/// `dbsp::algebra::F64`, a 64-bit float that can be ordered and hashed.
#[verifier::external_type_specification]
#[verifier::external_body]
pub struct ExF64(dbsp::algebra::F64);

/// The double nearest to the integer `v`, a tie going to the even neighbour.
pub uninterp spec fn double_of_int(v: int) -> F64;

/// The single-precision value nearest to the integer `v`, a tie going to the
/// even neighbour.
pub uninterp spec fn float_of_int(v: int) -> F32;

/// A double with its fraction dropped, as an integer of 128 bits: zero for NaN,
/// the nearest bound for a value beyond that range.
pub uninterp spec fn double_trunc(x: F64) -> int;

/// A single-precision value with its fraction dropped, as an integer of 128
/// bits: zero for NaN, the nearest bound for a value beyond that range.
pub uninterp spec fn float_trunc(x: F32) -> int;

/// Whether a double is zero, of either sign.
pub uninterp spec fn double_is_zero(x: F64) -> bool;

/// Whether a single-precision value is zero, of either sign.
pub uninterp spec fn float_is_zero(x: F32) -> bool;

/// Whether a double is neither NaN nor an infinity.
pub uninterp spec fn double_is_finite(x: F64) -> bool;

/// Whether a single-precision value is neither NaN nor an infinity.
pub uninterp spec fn float_is_finite(x: F32) -> bool;

/// The double that a text writes, where it writes one.
pub uninterp spec fn double_parse(s: Seq<char>) -> Option<F64>;

/// The single-precision value that a text writes, where it writes one.
pub uninterp spec fn float_parse(s: Seq<char>) -> Option<F32>;

/// The shortest text that reads back as the same double.
pub uninterp spec fn double_text(x: F64) -> Seq<char>;

/// The shortest text that reads back as the same single-precision value.
pub uninterp spec fn float_text(x: F32) -> Seq<char>;

/// A double written with exactly three digits after the point; `inf`, `-inf` or
/// `NaN` where it is not finite.
pub uninterp spec fn double_fixed3(x: F64) -> Seq<char>;

/// A single-precision value written with exactly three digits after the point;
/// `inf`, `-inf` or `NaN` where it is not finite.
pub uninterp spec fn float_fixed3(x: F32) -> Seq<char>;

/// The single-precision value nearest to a double.
pub uninterp spec fn float_of_double(x: F64) -> F32;

/// The double equal to a single-precision value.
pub uninterp spec fn double_of_float(x: F32) -> F64;

/// Calls `F64::new` on `v as f64`, the integer converted as the language
/// converts it. Claimed: the result is the double nearest to `v`, the same for
/// the same `v`.
#[verifier::external_body]
pub(crate) fn double_from_int(v: i128) -> (x: F64)
    ensures
        x == double_of_int(v as int),
{
    F64::new(v as _)
}

/// Calls `F32::new` on `v as f32`, the integer converted as the language
/// converts it. Claimed: the result is the single-precision value nearest to
/// `v`, the same for the same `v`.
#[verifier::external_body]
pub(crate) fn float_from_int(v: i128) -> (x: F32)
    ensures
        x == float_of_int(v as int),
{
    F32::new(v as _)
}

/// Calls `F64::into_inner` and converts the float with `as i128`. Claimed: the
/// result depends on the value alone.
#[verifier::external_body]
pub(crate) fn double_to_int(x: F64) -> (v: i128)
    ensures
        v == double_trunc(x),
{
    x.into_inner() as i128
}

/// Calls `F32::into_inner` and converts the float with `as i128`. Claimed: the
/// result depends on the value alone.
#[verifier::external_body]
pub(crate) fn float_to_int(x: F32) -> (v: i128)
    ensures
        v == float_trunc(x),
{
    x.into_inner() as i128
}

/// Calls `HasZero::is_zero` of `F64`, which compares with `0.0`. Claimed: the
/// result depends on the value alone.
#[verifier::external_body]
pub(crate) fn double_eq_zero(x: F64) -> (b: bool)
    ensures
        b == double_is_zero(x),
{
    x.is_zero()
}

/// Calls `HasZero::is_zero` of `F32`, which compares with `0.0`. Claimed: the
/// result depends on the value alone.
#[verifier::external_body]
pub(crate) fn float_eq_zero(x: F32) -> (b: bool)
    ensures
        b == float_is_zero(x),
{
    x.is_zero()
}

/// Calls `FromStr::from_str` of `F64`, through `str::parse`, and drops the
/// error. Claimed: the result depends on the characters alone.
#[verifier::external_body]
pub(crate) fn double_from_str(s: &str) -> (x: Option<F64>)
    ensures
        x == double_parse(s@),
{
    s.parse::<F64>().ok()
}

/// Calls `FromStr::from_str` of `F32`, through `str::parse`, and drops the
/// error. Claimed: the result depends on the characters alone.
#[verifier::external_body]
pub(crate) fn float_from_str(s: &str) -> (x: Option<F32>)
    ensures
        x == float_parse(s@),
{
    s.parse::<F32>().ok()
}

/// Calls `Display::fmt` of `F64`, through `to_string`. Claimed: the text
/// depends on the value alone.
#[verifier::external_body]
pub(crate) fn double_to_string(x: F64) -> (s: String)
    ensures
        s@ == double_text(x),
{
    x.to_string()
}

/// Calls `Display::fmt` of `F32`, through `to_string`. Claimed: the text
/// depends on the value alone.
#[verifier::external_body]
pub(crate) fn float_to_string(x: F32) -> (s: String)
    ensures
        s@ == float_text(x),
{
    x.to_string()
}

/// Calls `Display::fmt` of `F64` with a precision of three. Claimed: the text
/// depends on the value alone.
#[verifier::external_body]
pub(crate) fn double_to_fixed3(x: F64) -> (s: String)
    ensures
        s@ == double_fixed3(x),
{
    format!("{:.3}", x)
}

/// Calls `Display::fmt` of `F32` with a precision of three. Claimed: the text
/// depends on the value alone.
#[verifier::external_body]
pub(crate) fn float_to_fixed3(x: F32) -> (s: String)
    ensures
        s@ == float_fixed3(x),
{
    format!("{:.3}", x)
}

/// Calls `From<F64>::from` of `F32`. Claimed: the result depends on the value
/// alone.
#[verifier::external_body]
pub(crate) fn float_from_double(x: F64) -> (y: F32)
    ensures
        y == float_of_double(x),
{
    F32::from(x)
}

/// Calls `From<F32>::from` of `F64`. Claimed: the result depends on the value
/// alone.
#[verifier::external_body]
pub(crate) fn double_from_float(x: F32) -> (y: F64)
    ensures
        y == double_of_float(x),
{
    F64::from(x)
}

} // verus!
