use dbsp::algebra::{F32, F64};
use rust_decimal::Decimal;
use sqllib::casts::{
    cast_to_i16N_b, cast_to_i16N_bN, cast_to_i16N_d, cast_to_i16N_dN, cast_to_i16N_decimal,
    cast_to_i16N_decimalN, cast_to_i16N_f, cast_to_i16N_fN, cast_to_i16N_i, cast_to_i16N_i16,
    cast_to_i16N_i16N, cast_to_i16N_i32, cast_to_i16N_i32N, cast_to_i16N_i64, cast_to_i16N_i64N,
    cast_to_i16N_s, cast_to_i16N_sN, cast_to_i16N_u, cast_to_i16_b, cast_to_i16_bN,
    cast_to_i16_d, cast_to_i16_dN, cast_to_i16_decimal, cast_to_i16_decimalN, cast_to_i16_f,
    cast_to_i16_fN, cast_to_i16_i, cast_to_i16_i16, cast_to_i16_i16N, cast_to_i16_i32,
    cast_to_i16_i32N, cast_to_i16_i64, cast_to_i16_i64N, cast_to_i16_s, cast_to_i16_sN,
    cast_to_i16_u, cast_to_i32N_b, cast_to_i32N_bN, cast_to_i32N_d, cast_to_i32N_dN,
    cast_to_i32N_decimal, cast_to_i32N_decimalN, cast_to_i32N_f, cast_to_i32N_fN, cast_to_i32N_i,
    cast_to_i32N_i16, cast_to_i32N_i16N, cast_to_i32N_i32, cast_to_i32N_i32N, cast_to_i32N_i64,
    cast_to_i32N_i64N, cast_to_i32N_s, cast_to_i32N_sN, cast_to_i32N_u, cast_to_i32_b,
    cast_to_i32_bN, cast_to_i32_d, cast_to_i32_dN, cast_to_i32_decimal, cast_to_i32_decimalN,
    cast_to_i32_f, cast_to_i32_fN, cast_to_i32_i, cast_to_i32_i16, cast_to_i32_i16N,
    cast_to_i32_i32, cast_to_i32_i32N, cast_to_i32_i64, cast_to_i32_i64N, cast_to_i32_s,
    cast_to_i32_sN, cast_to_i32_u, cast_to_i64N_b, cast_to_i64N_bN, cast_to_i64N_d,
    cast_to_i64N_dN, cast_to_i64N_decimal, cast_to_i64N_decimalN, cast_to_i64N_f,
    cast_to_i64N_fN, cast_to_i64N_i, cast_to_i64N_i16, cast_to_i64N_i16N, cast_to_i64N_i32,
    cast_to_i64N_i32N, cast_to_i64N_i64, cast_to_i64N_i64N, cast_to_i64N_s, cast_to_i64N_sN,
    cast_to_i64N_u, cast_to_i64_b, cast_to_i64_bN, cast_to_i64_d, cast_to_i64_dN,
    cast_to_i64_decimal, cast_to_i64_decimalN, cast_to_i64_f, cast_to_i64_fN, cast_to_i64_i,
    cast_to_i64_i16, cast_to_i64_i16N, cast_to_i64_i32, cast_to_i64_i32N, cast_to_i64_i64,
    cast_to_i64_i64N, cast_to_i64_s, cast_to_i64_sN, cast_to_i64_u,
};

fn text(s: &str) -> String {
    String::from(s)
}

#[test]
fn integer_from_boolean_is_one_or_zero() {
    assert_eq!(cast_to_i16_b(true), 1);
    assert_eq!(cast_to_i16_b(false), 0);
    assert_eq!(cast_to_i16_bN(Some(true)), 1);
    assert_eq!(cast_to_i16N_b(false), Some(0));
    assert_eq!(cast_to_i16N_bN(Some(true)), Some(1));
    assert_eq!(cast_to_i16N_bN(None), None);
    assert_eq!(cast_to_i32_b(true), 1);
    assert_eq!(cast_to_i32_bN(Some(false)), 0);
    assert_eq!(cast_to_i32N_b(true), Some(1));
    assert_eq!(cast_to_i32N_bN(Some(false)), Some(0));
    assert_eq!(cast_to_i32N_bN(None), None);
    assert_eq!(cast_to_i64_b(true), 1);
    assert_eq!(cast_to_i64_bN(Some(false)), 0);
    assert_eq!(cast_to_i64N_b(true), Some(1));
    assert_eq!(cast_to_i64N_bN(Some(false)), Some(0));
    assert_eq!(cast_to_i64N_bN(None), None);
}

#[test]
fn integer_from_decimal_drops_the_fraction() {
    assert_eq!(cast_to_i16_decimal(Decimal::new(199, 2)), 1);
    assert_eq!(cast_to_i16_decimal(Decimal::new(-199, 2)), -1);
    assert_eq!(cast_to_i16_decimal(Decimal::new(-5, 1)), 0);
    assert_eq!(cast_to_i16_decimalN(Some(Decimal::new(32767, 0))), 32767);
    assert_eq!(cast_to_i16N_decimal(Decimal::new(-327689, 1)), Some(-32768));
    assert_eq!(cast_to_i16N_decimalN(Some(Decimal::new(15, 1))), Some(1));
    assert_eq!(cast_to_i16N_decimalN(None), None);
    assert_eq!(cast_to_i32_decimal(Decimal::new(-19, 1)), -1);
    assert_eq!(cast_to_i32_decimalN(Some(Decimal::new(2147483647, 0))), i32::MAX);
    assert_eq!(cast_to_i32N_decimal(Decimal::new(-21474836489, 1)), Some(i32::MIN));
    assert_eq!(cast_to_i32N_decimalN(Some(Decimal::new(1, 28))), Some(0));
    assert_eq!(cast_to_i32N_decimalN(None), None);
    assert_eq!(cast_to_i64_decimal(Decimal::new(i64::MAX, 0)), i64::MAX);
    assert_eq!(cast_to_i64_decimal(Decimal::new(i64::MIN, 0)), i64::MIN);
    assert_eq!(cast_to_i64_decimalN(Some(Decimal::new(-12345, 4))), -1);
    assert_eq!(cast_to_i64N_decimal(Decimal::new(99, 1)), Some(9));
    assert_eq!(cast_to_i64N_decimalN(Some(Decimal::new(-99, 1))), Some(-9));
    assert_eq!(cast_to_i64N_decimalN(None), None);
}

#[test]
fn integer_from_a_decimal_out_of_range_is_null() {
    assert_eq!(cast_to_i16N_decimal(Decimal::new(32768, 0)), None);
    assert_eq!(cast_to_i16N_decimal(Decimal::new(-32769, 0)), None);
    assert_eq!(cast_to_i16N_decimalN(Some(Decimal::new(70000, 0))), None);
    assert_eq!(cast_to_i32N_decimal(Decimal::new(2147483648, 0)), None);
    assert_eq!(cast_to_i32N_decimal(Decimal::new(-2147483649, 0)), None);
    assert_eq!(cast_to_i32N_decimalN(Some(Decimal::MAX)), None);
    assert_eq!(cast_to_i64N_decimal(Decimal::from(9223372036854775808u64)), None);
    assert_eq!(cast_to_i64N_decimal(Decimal::from(-9223372036854775809i128)), None);
    assert_eq!(cast_to_i64N_decimal(Decimal::MAX), None);
    assert_eq!(cast_to_i64N_decimalN(Some(Decimal::MIN)), None);
    let just_below = Decimal::from_i128_with_scale(92233720368547758079, 1);
    assert_eq!(cast_to_i64N_decimal(just_below), Some(i64::MAX));
}

#[test]
fn integer_from_double_drops_the_fraction() {
    assert_eq!(cast_to_i16_d(F64::new(3.9)), 3);
    assert_eq!(cast_to_i16_d(F64::new(-3.9)), -3);
    assert_eq!(cast_to_i16_dN(Some(F64::new(0.99))), 0);
    assert_eq!(cast_to_i16N_d(F64::new(-0.5)), Some(0));
    assert_eq!(cast_to_i16N_dN(Some(F64::new(32767.9))), Some(32767));
    assert_eq!(cast_to_i16N_dN(None), None);
    assert_eq!(cast_to_i32_d(F64::new(3.9)), 3);
    assert_eq!(cast_to_i32_dN(Some(F64::new(-2147483648.5))), i32::MIN);
    assert_eq!(cast_to_i32N_d(F64::new(1e9)), Some(1_000_000_000));
    assert_eq!(cast_to_i32N_dN(Some(F64::new(-1e-9))), Some(0));
    assert_eq!(cast_to_i32N_dN(None), None);
    assert_eq!(cast_to_i64_d(F64::new(1e18)), 1_000_000_000_000_000_000);
    assert_eq!(cast_to_i64_dN(Some(F64::new(-7.999))), -7);
    assert_eq!(cast_to_i64N_d(F64::new(9007199254740993.0)), Some(9007199254740992));
    assert_eq!(cast_to_i64N_dN(Some(F64::new(0.0))), Some(0));
    assert_eq!(cast_to_i64N_dN(None), None);
}

#[test]
fn integer_from_a_double_out_of_range_is_the_nearest_bound() {
    assert_eq!(cast_to_i16_d(F64::new(70000.0)), i16::MAX);
    assert_eq!(cast_to_i16_d(F64::new(-70000.0)), i16::MIN);
    assert_eq!(cast_to_i16_d(F64::new(32768.0)), i16::MAX);
    assert_eq!(cast_to_i16_d(F64::new(f64::INFINITY)), i16::MAX);
    assert_eq!(cast_to_i32_d(F64::new(1e10)), i32::MAX);
    assert_eq!(cast_to_i32_d(F64::new(-1e10)), i32::MIN);
    assert_eq!(cast_to_i32_d(F64::new(f64::NEG_INFINITY)), i32::MIN);
    assert_eq!(cast_to_i64_d(F64::new(1e30)), i64::MAX);
    assert_eq!(cast_to_i64_d(F64::new(-1e30)), i64::MIN);
    assert_eq!(cast_to_i64_d(F64::new(1e300)), i64::MAX);
    assert_eq!(cast_to_i64_d(F64::new(9223372036854775808.0)), i64::MAX);
    assert_eq!(cast_to_i64_d(F64::new(f64::MAX)), i64::MAX);
    assert_eq!(cast_to_i64_d(F64::new(f64::MIN)), i64::MIN);
}

#[test]
fn integer_from_nan_is_zero() {
    assert_eq!(cast_to_i16_d(F64::new(f64::NAN)), 0);
    assert_eq!(cast_to_i32_d(F64::new(f64::NAN)), 0);
    assert_eq!(cast_to_i64_d(F64::new(f64::NAN)), 0);
    assert_eq!(cast_to_i16_f(F32::new(f32::NAN)), 0);
    assert_eq!(cast_to_i32_f(F32::new(f32::NAN)), 0);
    assert_eq!(cast_to_i64_f(F32::new(f32::NAN)), 0);
}

#[test]
fn integer_from_double_is_what_a_cast_does() {
    for x in [0.0f64, -0.0, 0.5, -0.5, 1.0, 32767.0, 32767.5, 32768.0, -32768.0, -32768.9, -32769.0,
        2147483647.0, 2147483647.9, 2147483648.0, -2147483648.9, -2147483649.0, 1e15, -1e15,
        9223372036854774784.0, 9223372036854775808.0, -9223372036854775808.0, 1e19, -1e19, 1e39,
        -1e39, f64::MAX, f64::MIN, f64::INFINITY, f64::NEG_INFINITY, f64::NAN] {
        assert_eq!(cast_to_i16_d(F64::new(x)), x as i16, "{}", x);
        assert_eq!(cast_to_i32_d(F64::new(x)), x as i32, "{}", x);
        assert_eq!(cast_to_i64_d(F64::new(x)), x as i64, "{}", x);
    }
}

#[test]
fn integer_from_float_is_what_a_cast_does() {
    for x in [0.0f32, -0.0, 0.5, -0.5, 1.0, 32767.0, 32767.5, 32768.0, -32768.0, -32769.0,
        2147483520.0, 2147483648.0, -2147483648.0, -2147483904.0, 1e15, -1e15,
        9223371487098961920.0, 9223372036854775808.0, -9223372036854775808.0, 1e19, -1e19,
        1.7e38, 1.8e38, -1.8e38, f32::MAX, f32::MIN, f32::INFINITY, f32::NEG_INFINITY, f32::NAN] {
        assert_eq!(cast_to_i16_f(F32::new(x)), x as i16, "{}", x);
        assert_eq!(cast_to_i32_f(F32::new(x)), x as i32, "{}", x);
        assert_eq!(cast_to_i64_f(F32::new(x)), x as i64, "{}", x);
    }
}

#[test]
fn integer_from_float_drops_the_fraction() {
    assert_eq!(cast_to_i16_f(F32::new(3.9)), 3);
    assert_eq!(cast_to_i16_fN(Some(F32::new(-3.9))), -3);
    assert_eq!(cast_to_i16N_f(F32::new(1e9)), Some(i16::MAX));
    assert_eq!(cast_to_i16N_fN(Some(F32::new(-1e9))), Some(i16::MIN));
    assert_eq!(cast_to_i16N_fN(None), None);
    assert_eq!(cast_to_i32_f(F32::new(3.9)), 3);
    assert_eq!(cast_to_i32_fN(Some(F32::new(-3.9))), -3);
    assert_eq!(cast_to_i32N_f(F32::new(1e10)), Some(i32::MAX));
    assert_eq!(cast_to_i32N_fN(Some(F32::new(-1e10))), Some(i32::MIN));
    assert_eq!(cast_to_i32N_fN(None), None);
    assert_eq!(cast_to_i64_f(F32::new(3.9)), 3);
    assert_eq!(cast_to_i64_fN(Some(F32::new(-3.9))), -3);
    assert_eq!(cast_to_i64N_f(F32::new(f32::INFINITY)), Some(i64::MAX));
    assert_eq!(cast_to_i64N_fN(Some(F32::new(f32::NEG_INFINITY))), Some(i64::MIN));
    assert_eq!(cast_to_i64N_fN(None), None);
}

#[test]
fn integer_from_text() {
    assert_eq!(cast_to_i16_s(text("-12")), -12);
    assert_eq!(cast_to_i16_s(text("+12")), 12);
    assert_eq!(cast_to_i16_sN(Some(text("32767"))), 32767);
    assert_eq!(cast_to_i16N_s(text("-32768")), Some(-32768));
    assert_eq!(cast_to_i16N_sN(Some(text("0"))), Some(0));
    assert_eq!(cast_to_i16N_sN(None), None);
    assert_eq!(cast_to_i32_s(text("2147483647")), i32::MAX);
    assert_eq!(cast_to_i32_sN(Some(text("-2147483648"))), i32::MIN);
    assert_eq!(cast_to_i32N_s(text("007")), Some(7));
    assert_eq!(cast_to_i32N_sN(Some(text("40000"))), Some(40000));
    assert_eq!(cast_to_i32N_sN(None), None);
    assert_eq!(cast_to_i64_s(text("9223372036854775807")), i64::MAX);
    assert_eq!(cast_to_i64_sN(Some(text("-9223372036854775808"))), i64::MIN);
    assert_eq!(cast_to_i64N_s(text("5000000000")), Some(5_000_000_000));
    assert_eq!(cast_to_i64N_sN(Some(text("-1"))), Some(-1));
    assert_eq!(cast_to_i64N_sN(None), None);
}

#[test]
fn integer_from_other_text_is_zero_and_never_null() {
    let texts =
        ["", "abc", "1.5", "1e3", " 1", "1 ", "-", "+", "0x10", "12a", "99999999999999999999"];
    for t in texts {
        assert_eq!(cast_to_i16_s(text(t)), 0, "{:?}", t);
        assert_eq!(cast_to_i16_sN(Some(text(t))), 0, "{:?}", t);
        assert_eq!(cast_to_i16N_s(text(t)), Some(0), "{:?}", t);
        assert_eq!(cast_to_i16N_sN(Some(text(t))), Some(0), "{:?}", t);
        assert_eq!(cast_to_i32_s(text(t)), 0, "{:?}", t);
        assert_eq!(cast_to_i32_sN(Some(text(t))), 0, "{:?}", t);
        assert_eq!(cast_to_i32N_s(text(t)), Some(0), "{:?}", t);
        assert_eq!(cast_to_i32N_sN(Some(text(t))), Some(0), "{:?}", t);
        assert_eq!(cast_to_i64_s(text(t)), 0, "{:?}", t);
        assert_eq!(cast_to_i64_sN(Some(text(t))), 0, "{:?}", t);
        assert_eq!(cast_to_i64N_s(text(t)), Some(0), "{:?}", t);
        assert_eq!(cast_to_i64N_sN(Some(text(t))), Some(0), "{:?}", t);
    }
}

#[test]
fn integer_from_text_out_of_range_is_zero() {
    assert_eq!(cast_to_i16_s(text("32768")), 0);
    assert_eq!(cast_to_i16N_s(text("-32769")), Some(0));
    assert_eq!(cast_to_i32_s(text("2147483648")), 0);
    assert_eq!(cast_to_i32N_s(text("-2147483649")), Some(0));
    assert_eq!(cast_to_i64_s(text("9223372036854775808")), 0);
    assert_eq!(cast_to_i64N_s(text("-9223372036854775809")), Some(0));
}

#[test]
fn narrowing_wraps_around() {
    assert_eq!(cast_to_i16_i64(65536), 0);
    assert_eq!(cast_to_i16_i64(-1), -1);
    assert_eq!(cast_to_i16_i64(32768), -32768);
    assert_eq!(cast_to_i16_i64(65535), -1);
    assert_eq!(cast_to_i16_i64(i64::MAX), -1);
    assert_eq!(cast_to_i16_i64(i64::MIN), 0);
    assert_eq!(cast_to_i16_i64N(Some(65537)), 1);
    assert_eq!(cast_to_i16N_i64(-32769), Some(32767));
    assert_eq!(cast_to_i16N_i64N(Some(0x1234_5678)), Some(0x5678));
    assert_eq!(cast_to_i16N_i64N(None), None);
    assert_eq!(cast_to_i16_i32(65536), 0);
    assert_eq!(cast_to_i16_i32(i32::MIN), 0);
    assert_eq!(cast_to_i16_i32N(Some(40000)), -25536);
    assert_eq!(cast_to_i16N_i32(-40000), Some(25536));
    assert_eq!(cast_to_i16N_i32N(Some(i32::MAX)), Some(-1));
    assert_eq!(cast_to_i16N_i32N(None), None);
    assert_eq!(cast_to_i32_i64(0x1_0000_0000), 0);
    assert_eq!(cast_to_i32_i64(-1), -1);
    assert_eq!(cast_to_i32_i64(0x8000_0000), i32::MIN);
    assert_eq!(cast_to_i32_i64N(Some(0x1_0000_0001)), 1);
    assert_eq!(cast_to_i32N_i64(i64::MAX), Some(-1));
    assert_eq!(cast_to_i32N_i64N(Some(i64::MIN)), Some(0));
    assert_eq!(cast_to_i32N_i64N(None), None);
}

#[test]
fn narrowing_a_machine_word_wraps_around() {
    assert_eq!(cast_to_i16_i(65536), 0);
    assert_eq!(cast_to_i16_i(-32769), 32767);
    assert_eq!(cast_to_i16N_i(-1), Some(-1));
    assert_eq!(cast_to_i16_u(65535), -1);
    assert_eq!(cast_to_i16_u(usize::MAX), -1);
    assert_eq!(cast_to_i16N_u(32768), Some(i16::MIN));
    assert_eq!(cast_to_i32_i(isize::MAX), isize::MAX as i32);
    assert_eq!(cast_to_i32_i(-5), -5);
    assert_eq!(cast_to_i32N_i(isize::MIN), Some(isize::MIN as i32));
    assert_eq!(cast_to_i32_u(usize::MAX), -1);
    assert_eq!(cast_to_i32_u(0x8000_0000), i32::MIN);
    assert_eq!(cast_to_i32N_u(7), Some(7));
    assert_eq!(cast_to_i64_i(isize::MIN), isize::MIN as i64);
    assert_eq!(cast_to_i64N_i(-5), Some(-5));
    assert_eq!(cast_to_i64_u(usize::MAX), usize::MAX as i64);
    assert_eq!(cast_to_i64_u(5), 5);
    assert_eq!(cast_to_i64N_u(usize::MAX), Some(usize::MAX as i64));
}

#[test]
fn widening_and_same_width_keep_the_number() {
    for v in [i16::MIN, -1, 0, 1, i16::MAX] {
        assert_eq!(cast_to_i16_i16(v), v);
        assert_eq!(cast_to_i16_i16N(Some(v)), v);
        assert_eq!(cast_to_i16N_i16(v), Some(v));
        assert_eq!(cast_to_i16N_i16N(Some(v)), Some(v));
        assert_eq!(cast_to_i32_i16(v), v as i32);
        assert_eq!(cast_to_i32_i16N(Some(v)), v as i32);
        assert_eq!(cast_to_i32N_i16(v), Some(v as i32));
        assert_eq!(cast_to_i32N_i16N(Some(v)), Some(v as i32));
        assert_eq!(cast_to_i64_i16(v), v as i64);
        assert_eq!(cast_to_i64_i16N(Some(v)), v as i64);
        assert_eq!(cast_to_i64N_i16(v), Some(v as i64));
        assert_eq!(cast_to_i64N_i16N(Some(v)), Some(v as i64));
    }
    for v in [i32::MIN, -1, 0, 1, i32::MAX] {
        assert_eq!(cast_to_i32_i32(v), v);
        assert_eq!(cast_to_i32_i32N(Some(v)), v);
        assert_eq!(cast_to_i32N_i32(v), Some(v));
        assert_eq!(cast_to_i32N_i32N(Some(v)), Some(v));
        assert_eq!(cast_to_i64_i32(v), v as i64);
        assert_eq!(cast_to_i64_i32N(Some(v)), v as i64);
        assert_eq!(cast_to_i64N_i32(v), Some(v as i64));
        assert_eq!(cast_to_i64N_i32N(Some(v)), Some(v as i64));
    }
    for v in [i64::MIN, -1, 0, 1, i64::MAX] {
        assert_eq!(cast_to_i64_i64(v), v);
        assert_eq!(cast_to_i64_i64N(Some(v)), v);
        assert_eq!(cast_to_i64N_i64(v), Some(v));
        assert_eq!(cast_to_i64N_i64N(Some(v)), Some(v));
    }
    assert_eq!(cast_to_i16N_i16N(None), None);
    assert_eq!(cast_to_i32N_i16N(None), None);
    assert_eq!(cast_to_i64N_i16N(None), None);
    assert_eq!(cast_to_i32N_i32N(None), None);
    assert_eq!(cast_to_i64N_i32N(None), None);
    assert_eq!(cast_to_i64N_i64N(None), None);
}
