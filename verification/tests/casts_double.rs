use dbsp::algebra::{F32, F64};
use rust_decimal::Decimal;
use sqllib::casts::to_double::double_or_zero;
use sqllib::casts::{
    cast_to_dN_b, cast_to_dN_bN, cast_to_dN_d, cast_to_dN_dN, cast_to_dN_decimal,
    cast_to_dN_decimalN, cast_to_dN_f, cast_to_dN_fN, cast_to_dN_i, cast_to_dN_i16,
    cast_to_dN_i16N, cast_to_dN_i32, cast_to_dN_i32N, cast_to_dN_i64, cast_to_dN_i64N,
    cast_to_dN_s, cast_to_dN_sN, cast_to_dN_u, cast_to_d_b, cast_to_d_bN, cast_to_d_d,
    cast_to_d_dN, cast_to_d_decimal, cast_to_d_decimalN, cast_to_d_f, cast_to_d_fN, cast_to_d_i,
    cast_to_d_i16, cast_to_d_i16N, cast_to_d_i32, cast_to_d_i32N, cast_to_d_i64, cast_to_d_i64N,
    cast_to_d_s, cast_to_d_sN, cast_to_d_u,
};

/// The same double bit for bit.
fn same(a: F64, b: f64) -> bool {
    a.into_inner().to_bits() == b.to_bits()
}

#[test]
fn double_from_boolean_is_one_or_zero() {
    assert!(same(cast_to_d_b(true), 1.0));
    assert!(same(cast_to_d_b(false), 0.0));
    assert!(same(cast_to_d_bN(Some(true)), 1.0));
    assert!(same(cast_to_dN_b(false).unwrap(), 0.0));
    assert!(same(cast_to_dN_bN(Some(true)).unwrap(), 1.0));
    assert_eq!(cast_to_dN_bN(None), None);
}

#[test]
fn double_from_decimal() {
    assert!(same(cast_to_d_decimal(Decimal::new(15, 1)), 1.5));
    assert!(same(cast_to_d_decimal(Decimal::new(-1, 1)), -0.1));
    assert!(same(cast_to_d_decimal(Decimal::new(i64::MAX, 0)), i64::MAX as f64));
    assert!(same(cast_to_d_decimalN(Some(Decimal::new(25, 2))), 0.25));
    assert!(same(cast_to_dN_decimal(Decimal::ZERO).unwrap(), 0.0));
    assert!(same(cast_to_dN_decimalN(Some(Decimal::new(3, 0))).unwrap(), 3.0));
    assert_eq!(cast_to_dN_decimalN(None), None);
    assert!(cast_to_dN_decimal(Decimal::MAX).is_some());
    assert!(cast_to_dN_decimal(Decimal::MIN).is_some());
}

#[test]
fn double_from_double_is_itself() {
    for x in [0.0f64, -0.0, 1.5, f64::MAX, f64::MIN_POSITIVE, f64::INFINITY] {
        assert!(same(cast_to_d_d(F64::new(x)), x));
        assert!(same(cast_to_d_dN(Some(F64::new(x))), x));
        assert!(same(cast_to_dN_d(F64::new(x)).unwrap(), x));
        assert!(same(cast_to_dN_dN(Some(F64::new(x))).unwrap(), x));
    }
    assert_eq!(cast_to_dN_dN(Some(F64::new(f64::NAN))), Some(F64::new(f64::NAN)));
    assert_eq!(cast_to_dN_dN(None), None);
}

#[test]
fn double_from_float_is_the_same_value() {
    assert!(same(cast_to_d_f(F32::new(1.5)), 1.5));
    assert!(same(cast_to_d_f(F32::new(0.1)), 0.1f32 as f64));
    assert!(same(cast_to_d_f(F32::new(0.1)), 0.10000000149011612));
    assert!(same(cast_to_d_f(F32::new(-0.0)), -0.0));
    assert!(same(cast_to_d_f(F32::new(f32::INFINITY)), f64::INFINITY));
    assert!(same(cast_to_d_fN(Some(F32::new(f32::MAX))), f32::MAX as f64));
    assert!(same(cast_to_dN_f(F32::new(2.0)).unwrap(), 2.0));
    assert!(same(cast_to_dN_fN(Some(F32::new(-2.0))).unwrap(), -2.0));
    assert_eq!(cast_to_dN_fN(None), None);
    assert!(cast_to_d_f(F32::new(f32::NAN)).into_inner().is_nan());
}

#[test]
fn double_from_text() {
    assert!(same(cast_to_d_s(String::from("3.25")), 3.25));
    assert!(same(cast_to_d_s(String::from("-1e3")), -1000.0));
    assert!(same(cast_to_d_s(String::from("inf")), f64::INFINITY));
    assert!(same(cast_to_d_s(String::from("-0")), -0.0));
    assert!(cast_to_d_s(String::from("NaN")).into_inner().is_nan());
    assert!(same(cast_to_d_sN(Some(String::from("0.1"))), 0.1));
    assert!(same(cast_to_dN_s(String::from("7")).unwrap(), 7.0));
    assert!(same(cast_to_dN_sN(Some(String::from(".5"))).unwrap(), 0.5));
    assert_eq!(cast_to_dN_sN(None), None);
}

#[test]
fn double_from_other_text_is_zero_and_never_null() {
    for t in ["", "abc", " 1", "1 ", "1,5", "0x10", "1.2.3", "--1", "e5"] {
        assert!(same(cast_to_d_s(String::from(t)), 0.0), "{:?}", t);
        assert!(same(cast_to_d_sN(Some(String::from(t))), 0.0), "{:?}", t);
        assert!(same(cast_to_dN_s(String::from(t)).unwrap(), 0.0), "{:?}", t);
        assert!(same(cast_to_dN_sN(Some(String::from(t))).unwrap(), 0.0), "{:?}", t);
    }
}

#[test]
fn double_or_zero_keeps_what_was_read() {
    assert!(same(double_or_zero(Some(F64::new(-1.5))), -1.5));
    assert!(same(double_or_zero(None), 0.0));
}

#[test]
fn double_from_integers_is_the_nearest_double() {
    assert!(same(cast_to_d_i16(-5), -5.0));
    assert!(same(cast_to_d_i16N(Some(i16::MAX)), 32767.0));
    assert!(same(cast_to_dN_i16(i16::MIN).unwrap(), -32768.0));
    assert!(same(cast_to_dN_i16N(Some(0)).unwrap(), 0.0));
    assert_eq!(cast_to_dN_i16N(None), None);
    assert!(same(cast_to_d_i32(i32::MIN), -2147483648.0));
    assert!(same(cast_to_d_i32N(Some(i32::MAX)), 2147483647.0));
    assert!(same(cast_to_dN_i32(1).unwrap(), 1.0));
    assert!(same(cast_to_dN_i32N(Some(-1)).unwrap(), -1.0));
    assert_eq!(cast_to_dN_i32N(None), None);
    assert!(same(cast_to_d_i64(1 << 53), 9007199254740992.0));
    assert!(same(cast_to_d_i64((1 << 53) + 1), 9007199254740992.0));
    assert!(same(cast_to_d_i64((1 << 53) + 3), 9007199254740996.0));
    assert!(same(cast_to_d_i64(i64::MAX), 9223372036854775808.0));
    assert!(same(cast_to_d_i64(i64::MIN), -9223372036854775808.0));
    assert!(same(cast_to_d_i64N(Some(-7)), -7.0));
    assert!(same(cast_to_dN_i64(7).unwrap(), 7.0));
    assert!(same(cast_to_dN_i64N(Some(i64::MAX)).unwrap(), i64::MAX as f64));
    assert_eq!(cast_to_dN_i64N(None), None);
    assert!(same(cast_to_d_i(-9), -9.0));
    assert!(same(cast_to_dN_i(isize::MIN).unwrap(), isize::MIN as f64));
    assert!(same(cast_to_d_u(usize::MAX), usize::MAX as f64));
    assert!(same(cast_to_dN_u(9).unwrap(), 9.0));
}
