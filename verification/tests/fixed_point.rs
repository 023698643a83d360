use scene_camera::fixed::{Fixed, SCALE};

fn fixed(nanos: i64) -> Fixed {
    Fixed { nanos }
}

#[test]
fn scale_is_a_billion() {
    assert_eq!(SCALE, 1_000_000_000);
}

#[test]
fn from_tenths_counts_billionths() {
    assert_eq!(Fixed::from_tenths(45), fixed(4_500_000_000));
    assert_eq!(Fixed::from_tenths(-25), fixed(-2_500_000_000));
    assert_eq!(Fixed::from_tenths(1), fixed(100_000_000));
    assert_eq!(Fixed::from_tenths(0), fixed(0));
}

#[test]
fn from_tenths_holds_the_whole_range_of_its_argument() {
    assert_eq!(Fixed::from_tenths(i32::MAX), fixed(214_748_364_700_000_000));
    assert_eq!(Fixed::from_tenths(i32::MIN), fixed(-214_748_364_800_000_000));
}

#[test]
fn saturating_from_keeps_what_fits() {
    assert_eq!(Fixed::saturating_from(0), fixed(0));
    assert_eq!(Fixed::saturating_from(-4_500_000_000), fixed(-4_500_000_000));
    assert_eq!(Fixed::saturating_from(i64::MAX as i128), fixed(i64::MAX));
    assert_eq!(Fixed::saturating_from(i64::MIN as i128), fixed(i64::MIN));
}

#[test]
fn saturating_from_stops_at_the_ends() {
    assert_eq!(Fixed::saturating_from(i64::MAX as i128 + 1), fixed(i64::MAX));
    assert_eq!(Fixed::saturating_from(i64::MIN as i128 - 1), fixed(i64::MIN));
    assert_eq!(Fixed::saturating_from(i128::MAX), fixed(i64::MAX));
    assert_eq!(Fixed::saturating_from(i128::MIN), fixed(i64::MIN));
}

#[test]
fn neg_flips_the_sign() {
    assert_eq!(fixed(5).neg(), fixed(-5));
    assert_eq!(fixed(-7_000_000_000).neg(), fixed(7_000_000_000));
    assert_eq!(fixed(0).neg(), fixed(0));
    assert_eq!(fixed(i64::MAX).neg(), fixed(-i64::MAX));
}

#[test]
fn neg_of_the_least_value_saturates() {
    assert_eq!(fixed(i64::MIN).neg(), fixed(i64::MAX));
}

#[test]
fn times_multiplies_exactly_where_it_can() {
    assert_eq!(Fixed::from_tenths(1000).times(Fixed::from_tenths(1)), Fixed::from_tenths(100));
    assert_eq!(Fixed::from_tenths(-25).times(Fixed::from_tenths(20)), Fixed::from_tenths(-50));
    assert_eq!(Fixed::from_tenths(-30).times(Fixed::from_tenths(-30)), Fixed::from_tenths(90));
    assert_eq!(Fixed::from_tenths(45).times(fixed(0)), fixed(0));
    assert_eq!(fixed(123_456_789).times(Fixed::from_tenths(10)), fixed(123_456_789));
}

#[test]
fn times_rounds_toward_zero() {
    let half = Fixed::from_tenths(5);
    assert_eq!(fixed(1).times(half), fixed(0));
    assert_eq!(fixed(-1).times(half), fixed(0));
    assert_eq!(fixed(3).times(half), fixed(1));
    assert_eq!(fixed(-3).times(half), fixed(-1));
    assert_eq!(fixed(1_999_999_999).times(fixed(1)), fixed(1));
    assert_eq!(fixed(-1_999_999_999).times(fixed(1)), fixed(-1));
}

#[test]
fn times_saturates_at_both_ends() {
    let two = Fixed::from_tenths(20);
    assert_eq!(fixed(i64::MAX).times(two), fixed(i64::MAX));
    assert_eq!(fixed(i64::MIN).times(two), fixed(i64::MIN));
    assert_eq!(fixed(i64::MAX).times(two.neg()), fixed(i64::MIN));
    assert_eq!(fixed(i64::MIN).times(Fixed::from_tenths(-10)), fixed(i64::MAX));
    assert_eq!(fixed(i64::MIN).times(fixed(i64::MIN)), fixed(i64::MAX));
    assert_eq!(fixed(i64::MIN).times(fixed(i64::MAX)), fixed(i64::MIN));
}

#[test]
fn times_by_one_keeps_the_extremes() {
    let one = Fixed::from_tenths(10);
    assert_eq!(fixed(i64::MAX).times(one), fixed(i64::MAX));
    assert_eq!(fixed(i64::MIN).times(one), fixed(i64::MIN));
}
