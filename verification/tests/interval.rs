use sqllib::casts::{cast_to_ShortInterval_i64, cast_to_i64_LongInterval, cast_to_i64_ShortInterval};
use sqllib::interval::{LongInterval, ShortInterval};

#[test]
fn short_interval_is_its_milliseconds() {
    assert_eq!(cast_to_i64_ShortInterval(ShortInterval::new(86_400_000)), 86_400_000);
    assert_eq!(cast_to_i64_ShortInterval(ShortInterval::new(-1)), -1);
    assert_eq!(ShortInterval::from(12).milliseconds(), 12);
}

#[test]
fn long_interval_is_its_days() {
    assert_eq!(cast_to_i64_LongInterval(LongInterval::new(365)), 365);
    assert_eq!(cast_to_i64_LongInterval(LongInterval::new(i32::MIN)), i32::MIN as i64);
    assert_eq!(LongInterval::new(7).days(), 7);
}

#[test]
fn short_interval_from_milliseconds_and_back() {
    for v in [0i64, 1, -1, i64::MAX, i64::MIN] {
        assert_eq!(cast_to_ShortInterval_i64(v), ShortInterval::new(v));
        assert_eq!(cast_to_i64_ShortInterval(cast_to_ShortInterval_i64(v)), v);
    }
}
