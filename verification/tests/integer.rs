use sqllib::integer::{
    saturate_to_i16, saturate_to_i32, saturate_to_i64, wrap_to_i16, wrap_to_i32, wrap_to_i64,
};

#[test]
fn wrapping_keeps_the_low_bits() {
    assert_eq!(wrap_to_i16(65536), 0);
    assert_eq!(wrap_to_i16(-1), -1);
    assert_eq!(wrap_to_i16(32768), -32768);
    assert_eq!(wrap_to_i16(-32769), 32767);
    assert_eq!(wrap_to_i32(0x1_0000_0001), 1);
    assert_eq!(wrap_to_i32(0x8000_0000), i32::MIN);
    assert_eq!(wrap_to_i64(0x1_0000_0000_0000_0000), 0);
    assert_eq!(wrap_to_i64(u64::MAX as i128), -1);
}

#[test]
fn wrapping_is_what_a_cast_does() {
    let mut v: i128 = -(1 << 70);
    while v < (1 << 70) {
        assert_eq!(wrap_to_i16(v), v as i16);
        assert_eq!(wrap_to_i32(v), v as i32);
        assert_eq!(wrap_to_i64(v), v as i64);
        v += (1 << 61) + 12345;
    }
}

#[test]
fn wrapping_keeps_what_fits() {
    for v in [i16::MIN, -1, 0, 1, i16::MAX] {
        assert_eq!(wrap_to_i16(v as i128), v);
    }
    for v in [i32::MIN, -1, 0, 1, i32::MAX] {
        assert_eq!(wrap_to_i32(v as i128), v);
    }
    for v in [i64::MIN, -1, 0, 1, i64::MAX] {
        assert_eq!(wrap_to_i64(v as i128), v);
    }
}

#[test]
fn saturating_stops_at_the_bounds() {
    assert_eq!(saturate_to_i16(32768), i16::MAX);
    assert_eq!(saturate_to_i16(-32769), i16::MIN);
    assert_eq!(saturate_to_i16(-5), -5);
    assert_eq!(saturate_to_i32(i128::MAX), i32::MAX);
    assert_eq!(saturate_to_i32(i128::MIN), i32::MIN);
    assert_eq!(saturate_to_i32(2147483647), 2147483647);
    assert_eq!(saturate_to_i64(i128::MAX), i64::MAX);
    assert_eq!(saturate_to_i64(i128::MIN), i64::MIN);
    assert_eq!(saturate_to_i64(-9223372036854775808), i64::MIN);
}
