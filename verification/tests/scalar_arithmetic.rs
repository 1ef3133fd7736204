use raytracer::scalar::{Scalar, EPSILON, FOUR, ONE, TOLERANCE, TWO};

fn whole(n: i64) -> Scalar {
    Scalar::from_int(n)
}

#[test]
fn one_times_one_is_one() {
    assert_eq!(Scalar::one().mul(Scalar::one()), Scalar::Finite(ONE));
}

#[test]
fn constants_have_their_values() {
    assert_eq!(ONE, 4_294_967_296);
    assert_eq!(TWO, 2 * ONE);
    assert_eq!(FOUR, 4 * ONE);
    assert_eq!(EPSILON, 1);
    assert_eq!(TOLERANCE, ONE / 1000);
    assert_eq!(Scalar::zero(), Scalar::Finite(0));
    assert_eq!(Scalar::from_raw(17), Scalar::Finite(17));
}

#[test]
fn whole_numbers_are_scaled() {
    assert_eq!(whole(3), Scalar::Finite(3 * ONE));
    assert_eq!(whole(-3), Scalar::Finite(-3 * ONE));
    assert_eq!(Scalar::from_usize(720), Scalar::Finite(720 * ONE));
}

#[test]
fn whole_numbers_out_of_range_are_infinite() {
    assert_eq!(whole(1 << 31), Scalar::Infinity);
    assert_eq!(whole(-(1 << 31)), Scalar::Finite(i64::MIN));
    assert_eq!(whole(-(1 << 31) - 1), Scalar::NegInfinity);
    assert_eq!(whole((1 << 31) - 1), Scalar::Finite(((1 << 31) - 1) * ONE));
    assert_eq!(Scalar::from_usize(0x7fff_ffff), Scalar::Finite(0x7fff_ffff * ONE));
    assert_eq!(Scalar::from_usize(0x8000_0000), Scalar::Infinity);
}

#[test]
fn sums_and_differences_are_exact() {
    assert_eq!(whole(3).add(whole(4)), whole(7));
    assert_eq!(whole(3).sub(whole(4)), whole(-1));
    assert_eq!(Scalar::Finite(5).add(Scalar::Finite(-7)), Scalar::Finite(-2));
}

#[test]
fn sums_that_do_not_fit_are_infinite() {
    assert_eq!(Scalar::Finite(i64::MAX).add(Scalar::Finite(1)), Scalar::Infinity);
    assert_eq!(Scalar::Finite(i64::MIN).add(Scalar::Finite(-1)), Scalar::NegInfinity);
    assert_eq!(Scalar::Finite(i64::MIN).sub(Scalar::Finite(1)), Scalar::NegInfinity);
    assert_eq!(Scalar::Finite(-1).sub(Scalar::Finite(i64::MIN)), Scalar::Finite(i64::MAX));
}

#[test]
fn infinities_add_as_expected() {
    assert_eq!(Scalar::Infinity.add(whole(1)), Scalar::Infinity);
    assert_eq!(whole(1).add(Scalar::NegInfinity), Scalar::NegInfinity);
    assert_eq!(Scalar::Infinity.add(Scalar::Infinity), Scalar::Infinity);
    assert_eq!(Scalar::Infinity.add(Scalar::NegInfinity), Scalar::Nan);
    assert_eq!(Scalar::Infinity.sub(Scalar::Infinity), Scalar::Nan);
    assert_eq!(Scalar::Infinity.sub(Scalar::NegInfinity), Scalar::Infinity);
    assert_eq!(whole(1).sub(Scalar::Infinity), Scalar::NegInfinity);
    assert_eq!(Scalar::NegInfinity.sub(whole(1)), Scalar::NegInfinity);
}

#[test]
fn undefined_spreads_through_arithmetic() {
    assert_eq!(Scalar::Nan.add(whole(1)), Scalar::Nan);
    assert_eq!(whole(1).sub(Scalar::Nan), Scalar::Nan);
    assert_eq!(Scalar::Nan.mul(whole(0)), Scalar::Nan);
    assert_eq!(whole(1).div(Scalar::Nan), Scalar::Nan);
    assert_eq!(Scalar::Nan.sqrt(), Scalar::Nan);
    assert_eq!(Scalar::Nan.neg(), Scalar::Nan);
    assert_eq!(Scalar::Nan.abs(), Scalar::Nan);
}

#[test]
fn products_round_toward_zero() {
    let half = Scalar::Finite(ONE / 2);
    assert_eq!(whole(6).mul(whole(7)), whole(42));
    assert_eq!(whole(-6).mul(whole(7)), whole(-42));
    assert_eq!(Scalar::Finite(3).mul(half), Scalar::Finite(1));
    assert_eq!(Scalar::Finite(-3).mul(half), Scalar::Finite(-1));
    assert_eq!(Scalar::Finite(1).mul(Scalar::Finite(1)), Scalar::Finite(0));
}

#[test]
fn products_that_do_not_fit_are_infinite() {
    assert_eq!(whole(1 << 20).mul(whole(1 << 20)), Scalar::Infinity);
    assert_eq!(whole(-(1 << 20)).mul(whole(1 << 20)), Scalar::NegInfinity);
    assert_eq!(Scalar::Finite(i64::MIN).mul(Scalar::Finite(i64::MIN)), Scalar::Infinity);
    assert_eq!(Scalar::Finite(i64::MIN).mul(whole(-1)), Scalar::Infinity);
    assert_eq!(Scalar::Finite(i64::MIN).mul(whole(1)), Scalar::Finite(i64::MIN));
}

#[test]
fn products_with_infinities() {
    assert_eq!(Scalar::Infinity.mul(whole(2)), Scalar::Infinity);
    assert_eq!(Scalar::Infinity.mul(whole(-2)), Scalar::NegInfinity);
    assert_eq!(Scalar::NegInfinity.mul(Scalar::NegInfinity), Scalar::Infinity);
    assert_eq!(Scalar::Infinity.mul(whole(0)), Scalar::Nan);
    assert_eq!(whole(0).mul(Scalar::NegInfinity), Scalar::Nan);
}

#[test]
fn quotients_round_toward_zero() {
    assert_eq!(whole(42).div(whole(7)), whole(6));
    assert_eq!(whole(1).div(whole(3)), Scalar::Finite(1_431_655_765));
    assert_eq!(whole(-2).div(whole(3)), Scalar::Finite(-2_863_311_530));
    assert_eq!(whole(2).div(whole(-3)), Scalar::Finite(-2_863_311_530));
    assert_eq!(whole(-2).div(whole(-3)), Scalar::Finite(2_863_311_530));
    assert_eq!(whole(1).div(whole(2)), Scalar::Finite(ONE / 2));
}

#[test]
fn division_by_zero_is_infinite_or_undefined() {
    assert_eq!(whole(1).div(whole(0)), Scalar::Infinity);
    assert_eq!(whole(-1).div(whole(0)), Scalar::NegInfinity);
    assert_eq!(whole(0).div(whole(0)), Scalar::Nan);
    assert_eq!(Scalar::Infinity.div(whole(0)), Scalar::Infinity);
}

#[test]
fn quotients_with_infinities() {
    assert_eq!(whole(1).div(Scalar::Infinity), whole(0));
    assert_eq!(whole(-1).div(Scalar::NegInfinity), whole(0));
    assert_eq!(Scalar::Infinity.div(whole(-2)), Scalar::NegInfinity);
    assert_eq!(Scalar::NegInfinity.div(whole(-2)), Scalar::Infinity);
    assert_eq!(Scalar::Infinity.div(Scalar::Infinity), Scalar::Nan);
    assert_eq!(Scalar::Infinity.div(Scalar::NegInfinity), Scalar::Nan);
}

#[test]
fn quotients_that_do_not_fit_are_infinite() {
    assert_eq!(whole(1 << 30).div(Scalar::Finite(1)), Scalar::Infinity);
    assert_eq!(whole(-(1 << 30)).div(Scalar::Finite(1)), Scalar::NegInfinity);
    assert_eq!(Scalar::Finite(i64::MIN).div(whole(-1)), Scalar::Infinity);
}

#[test]
fn root_of_four_is_two() {
    assert_eq!(whole(4).sqrt(), whole(2));
}

#[test]
fn roots_round_toward_zero() {
    assert_eq!(whole(2).sqrt(), Scalar::Finite(6_074_000_999));
    assert_eq!(whole(0).sqrt(), whole(0));
    assert_eq!(Scalar::Finite(1).sqrt(), Scalar::Finite(65_536));
    assert_eq!(Scalar::Finite(i64::MAX).sqrt(), Scalar::Finite(199_032_864_766_430));
}

#[test]
fn roots_of_what_has_none() {
    assert_eq!(whole(-1).sqrt(), Scalar::Nan);
    assert_eq!(Scalar::Finite(-1).sqrt(), Scalar::Nan);
    assert_eq!(Scalar::NegInfinity.sqrt(), Scalar::Nan);
    assert_eq!(Scalar::Infinity.sqrt(), Scalar::Infinity);
}

#[test]
fn negation_and_magnitude() {
    assert_eq!(whole(3).neg(), whole(-3));
    assert_eq!(Scalar::Infinity.neg(), Scalar::NegInfinity);
    assert_eq!(Scalar::NegInfinity.neg(), Scalar::Infinity);
    assert_eq!(Scalar::Finite(i64::MIN).neg(), Scalar::Infinity);
    assert_eq!(whole(-3).abs(), whole(3));
    assert_eq!(whole(3).abs(), whole(3));
    assert_eq!(Scalar::NegInfinity.abs(), Scalar::Infinity);
    assert_eq!(Scalar::Finite(i64::MIN).abs(), Scalar::Infinity);
}

#[test]
fn comparisons_follow_the_number_line() {
    assert!(whole(1).lt(whole(2)));
    assert!(!whole(2).lt(whole(2)));
    assert!(whole(2).le(whole(2)));
    assert!(whole(3).gt(whole(2)));
    assert!(whole(2).ge(whole(2)));
    assert!(Scalar::NegInfinity.lt(Scalar::Finite(i64::MIN)));
    assert!(Scalar::Finite(i64::MAX).lt(Scalar::Infinity));
    assert!(Scalar::NegInfinity.lt(Scalar::Infinity));
    assert!(!Scalar::Infinity.lt(Scalar::Infinity));
    assert!(Scalar::Infinity.le(Scalar::Infinity));
    assert!(Scalar::NegInfinity.le(Scalar::NegInfinity));
    assert!(!Scalar::Infinity.le(whole(1)));
}

#[test]
fn nothing_compares_with_the_undefined() {
    assert!(!Scalar::Nan.lt(whole(1)));
    assert!(!Scalar::Nan.le(Scalar::Nan));
    assert!(!whole(1).gt(Scalar::Nan));
    assert!(!Scalar::Nan.ge(Scalar::NegInfinity));
    assert!(!Scalar::Infinity.ge(Scalar::Nan));
}

#[test]
fn classification() {
    assert!(Scalar::Nan.is_nan());
    assert!(!whole(1).is_nan());
    assert!(Scalar::Infinity.is_infinite());
    assert!(Scalar::NegInfinity.is_infinite());
    assert!(!Scalar::Nan.is_infinite());
    assert!(whole(1).is_finite());
    assert!(!Scalar::Infinity.is_finite());
    assert!(!Scalar::Nan.is_finite());
    assert!(whole(0).is_zero());
    assert!(!Scalar::Finite(1).is_zero());
    assert!(!Scalar::Nan.is_zero());
    assert!(whole(-1).is_negative());
    assert!(Scalar::NegInfinity.is_negative());
    assert!(!whole(0).is_negative());
    assert!(!Scalar::Nan.is_negative());
}

#[test]
fn smaller_and_larger_ignore_the_undefined() {
    assert_eq!(whole(1).min(whole(2)), whole(1));
    assert_eq!(whole(2).min(whole(1)), whole(1));
    assert_eq!(whole(1).max(whole(2)), whole(2));
    assert_eq!(whole(2).max(whole(1)), whole(2));
    assert_eq!(Scalar::Nan.min(whole(2)), whole(2));
    assert_eq!(whole(2).min(Scalar::Nan), whole(2));
    assert_eq!(Scalar::Nan.max(whole(2)), whole(2));
    assert_eq!(whole(2).max(Scalar::Nan), whole(2));
    assert_eq!(Scalar::Nan.max(Scalar::Nan), Scalar::Nan);
    assert_eq!(Scalar::NegInfinity.max(whole(0)), whole(0));
    assert_eq!(Scalar::Infinity.min(whole(0)), whole(0));
}

#[test]
fn clamping_to_the_unit_range() {
    let half = Scalar::Finite(ONE / 2);
    assert_eq!(half.clamp_unit(), half);
    assert_eq!(whole(2).clamp_unit(), whole(1));
    assert_eq!(whole(-2).clamp_unit(), whole(0));
    assert_eq!(Scalar::Infinity.clamp_unit(), whole(1));
    assert_eq!(Scalar::NegInfinity.clamp_unit(), whole(0));
    assert_eq!(Scalar::Nan.clamp_unit(), whole(0));
    assert_eq!(whole(1).clamp_unit(), whole(1));
    assert_eq!(whole(0).clamp_unit(), whole(0));
}
