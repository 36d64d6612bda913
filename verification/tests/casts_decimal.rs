use dbsp::algebra::{F32, F64};
use rust_decimal::Decimal;
use sqllib::casts::{
    cast_to_decimalN_b, cast_to_decimalN_bN, cast_to_decimalN_d, cast_to_decimalN_dN,
    cast_to_decimalN_decimal, cast_to_decimalN_decimalN, cast_to_decimalN_f, cast_to_decimalN_fN,
    cast_to_decimalN_i, cast_to_decimalN_i16, cast_to_decimalN_i16N, cast_to_decimalN_i32,
    cast_to_decimalN_i32N, cast_to_decimalN_i64, cast_to_decimalN_i64N, cast_to_decimalN_s,
    cast_to_decimalN_sN, cast_to_decimalN_u, cast_to_decimal_b, cast_to_decimal_bN,
    cast_to_decimal_d, cast_to_decimal_dN, cast_to_decimal_decimal, cast_to_decimal_decimalN,
    cast_to_decimal_f, cast_to_decimal_fN, cast_to_decimal_i, cast_to_decimal_i16,
    cast_to_decimal_i16N, cast_to_decimal_i32, cast_to_decimal_i32N, cast_to_decimal_i64,
    cast_to_decimal_i64N, cast_to_decimal_s, cast_to_decimal_sN, cast_to_decimal_u,
};
use sqllib::casts::to_decimal::decimal_or_zero;

/// Equal as numbers and written alike: the same mantissa, scale and sign.
fn same(a: Decimal, b: Decimal) -> bool {
    a.unpack() == b.unpack()
}

#[test]
fn decimal_from_boolean_is_one_or_zero() {
    assert!(same(cast_to_decimal_b(true), Decimal::ONE));
    assert!(same(cast_to_decimal_b(false), Decimal::ZERO));
    assert!(same(cast_to_decimal_bN(Some(true)), Decimal::ONE));
    assert!(same(cast_to_decimalN_b(false).unwrap(), Decimal::ZERO));
    assert!(same(cast_to_decimalN_bN(Some(true)).unwrap(), Decimal::ONE));
    assert_eq!(cast_to_decimalN_bN(None), None);
}

#[test]
fn decimal_from_decimal_is_itself() {
    let d = Decimal::new(-12345, 3);
    assert!(same(cast_to_decimal_decimal(d), d));
    assert!(same(cast_to_decimal_decimalN(Some(d)), d));
    assert!(same(cast_to_decimalN_decimal(d).unwrap(), d));
    assert!(same(cast_to_decimalN_decimalN(Some(d)).unwrap(), d));
    assert_eq!(cast_to_decimalN_decimalN(None), None);
}

#[test]
fn decimal_from_integers_has_scale_zero() {
    assert!(same(cast_to_decimal_i16(-5), Decimal::new(-5, 0)));
    assert!(same(cast_to_decimal_i16N(Some(i16::MAX)), Decimal::new(32767, 0)));
    assert!(same(cast_to_decimalN_i16(i16::MIN).unwrap(), Decimal::new(-32768, 0)));
    assert!(same(cast_to_decimalN_i16N(Some(0)).unwrap(), Decimal::ZERO));
    assert_eq!(cast_to_decimalN_i16N(None), None);
    assert!(same(cast_to_decimal_i32(i32::MIN), Decimal::new(-2147483648, 0)));
    assert!(same(cast_to_decimal_i32N(Some(7)), Decimal::new(7, 0)));
    assert!(same(cast_to_decimalN_i32(i32::MAX).unwrap(), Decimal::new(2147483647, 0)));
    assert!(same(cast_to_decimalN_i32N(Some(-1)).unwrap(), Decimal::NEGATIVE_ONE));
    assert_eq!(cast_to_decimalN_i32N(None), None);
    assert!(same(cast_to_decimal_i64(i64::MAX), Decimal::new(i64::MAX, 0)));
    assert!(same(cast_to_decimal_i64(i64::MIN), Decimal::new(i64::MIN, 0)));
    assert!(same(cast_to_decimal_i64N(Some(10)), Decimal::TEN));
    assert!(same(cast_to_decimalN_i64(-10).unwrap(), Decimal::new(-10, 0)));
    assert!(same(cast_to_decimalN_i64N(Some(100)).unwrap(), Decimal::ONE_HUNDRED));
    assert_eq!(cast_to_decimalN_i64N(None), None);
    assert!(same(cast_to_decimal_i(-3), Decimal::new(-3, 0)));
    assert!(same(cast_to_decimalN_i(isize::MAX).unwrap(), Decimal::from(isize::MAX)));
    assert!(same(cast_to_decimal_u(usize::MAX), Decimal::from(usize::MAX)));
    assert!(same(cast_to_decimalN_u(3).unwrap(), Decimal::new(3, 0)));
}

#[test]
fn decimal_from_integers_is_never_their_own_bits() {
    assert_eq!(cast_to_decimal_i64(1234).mantissa(), 1234);
    assert_eq!(cast_to_decimal_i64(1234).scale(), 0);
    assert_eq!(cast_to_decimal_i64(-1234).to_string(), "-1234");
}

#[test]
fn decimal_from_text_keeps_the_scale_written() {
    assert!(same(cast_to_decimal_s(String::from("1.50")), Decimal::new(150, 2)));
    assert!(same(cast_to_decimal_s(String::from("-0.001")), Decimal::new(-1, 3)));
    assert!(same(cast_to_decimal_sN(Some(String::from("42"))), Decimal::new(42, 0)));
    assert!(same(cast_to_decimalN_s(String::from("7.0")).unwrap(), Decimal::new(70, 1)));
    assert!(same(cast_to_decimalN_sN(Some(String::from("1e2"))).unwrap(), Decimal::new(100, 0)));
    assert_eq!(cast_to_decimalN_sN(None), None);
}

#[test]
fn decimal_from_other_text_is_zero_and_never_null() {
    for t in ["", "abc", "1.2.3", "--1", "1,5", "0x10", "NaN", "inf"] {
        assert!(same(cast_to_decimal_s(String::from(t)), Decimal::ZERO), "{:?}", t);
        assert!(same(cast_to_decimal_sN(Some(String::from(t))), Decimal::ZERO), "{:?}", t);
        assert!(same(cast_to_decimalN_s(String::from(t)).unwrap(), Decimal::ZERO), "{:?}", t);
        let nullable = cast_to_decimalN_sN(Some(String::from(t)));
        assert!(same(nullable.unwrap(), Decimal::ZERO), "{:?}", t);
    }
}

#[test]
fn decimal_or_zero_keeps_what_was_read() {
    assert!(same(decimal_or_zero(Some(Decimal::new(-15, 1))), Decimal::new(-15, 1)));
    assert!(same(decimal_or_zero(None), Decimal::ZERO));
}

#[test]
fn decimal_from_double() {
    assert_eq!(cast_to_decimal_d(F64::new(0.1)), Decimal::new(1, 1));
    assert_eq!(cast_to_decimal_d(F64::new(-2.5)), Decimal::new(-25, 1));
    assert_eq!(cast_to_decimal_dN(Some(F64::new(1e10))), Decimal::new(10_000_000_000, 0));
    assert_eq!(cast_to_decimalN_d(F64::new(3.0)), Some(Decimal::new(3, 0)));
    assert_eq!(cast_to_decimalN_dN(Some(F64::new(0.25))), Some(Decimal::new(25, 2)));
    assert_eq!(cast_to_decimalN_dN(None), None);
    assert_eq!(cast_to_decimal_d(F64::new(0.1)).to_string(), "0.1");
}

#[test]
fn decimal_from_a_double_that_is_not_finite_is_null() {
    let zero = 0.0f64;
    assert_eq!(cast_to_decimalN_d(F64::new(1.0 / zero)), None);
    assert_eq!(cast_to_decimalN_d(F64::new(-1.0 / zero)), None);
    assert_eq!(cast_to_decimalN_d(F64::new(zero / zero)), None);
    assert_eq!(cast_to_decimalN_dN(Some(F64::new(f64::INFINITY))), None);
    assert_eq!(cast_to_decimalN_dN(Some(F64::new(f64::NAN))), None);
}

#[test]
fn decimal_from_a_double_out_of_range_is_null() {
    assert_eq!(cast_to_decimalN_d(F64::new(1e40)), None);
    assert_eq!(cast_to_decimalN_d(F64::new(-1e40)), None);
    assert_eq!(cast_to_decimalN_d(F64::new(f64::MAX)), None);
}

#[test]
fn decimal_from_float() {
    assert_eq!(cast_to_decimal_f(F32::new(0.1)), Decimal::new(1, 1));
    assert_eq!(cast_to_decimal_fN(Some(F32::new(-2.5))), Decimal::new(-25, 1));
    assert_eq!(cast_to_decimalN_f(F32::new(3.0)), Some(Decimal::new(3, 0)));
    assert_eq!(cast_to_decimalN_fN(Some(F32::new(0.25))), Some(Decimal::new(25, 2)));
    assert_eq!(cast_to_decimalN_fN(None), None);
    assert_eq!(cast_to_decimal_f(F32::new(0.1)).to_string(), "0.1");
}

#[test]
fn decimal_from_a_float_that_is_not_finite_is_null() {
    assert_eq!(cast_to_decimalN_f(F32::new(f32::INFINITY)), None);
    assert_eq!(cast_to_decimalN_f(F32::new(f32::NEG_INFINITY)), None);
    assert_eq!(cast_to_decimalN_f(F32::new(f32::NAN)), None);
    assert_eq!(cast_to_decimalN_fN(Some(F32::new(f32::NAN))), None);
    assert_eq!(cast_to_decimalN_f(F32::new(f32::MAX)), None);
}
