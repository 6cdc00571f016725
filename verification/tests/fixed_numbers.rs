use orbit_gravity::fixed::{Fixed, RAW_MAX, SCALE};
use orbit_gravity::root::floor_sqrt;

fn fx(raw: i64) -> Fixed {
    Fixed { raw }
}

#[test]
fn whole_numbers_are_scaled() {
    assert_eq!(Fixed::from_int(1).raw, SCALE);
    assert_eq!(Fixed::from_int(-3).raw, -3_000_000);
    assert_eq!(Fixed::from_int(0), Fixed::zero());
    assert!(Fixed::zero().is_zero());
    assert!(!fx(1).is_zero());
}

#[test]
fn product_of_halves_is_a_quarter() {
    let half = fx(500_000);
    assert_eq!(half.times(half), fx(250_000));
}

#[test]
fn products_round_toward_zero() {
    assert_eq!(fx(3).times(fx(500_000)), fx(1));
    assert_eq!(fx(-3).times(fx(500_000)), fx(-1));
    assert_eq!(fx(3).times(fx(-500_000)), fx(-1));
    assert_eq!(fx(-3).times(fx(-500_000)), fx(1));
    assert_eq!(fx(1).times(fx(1)), fx(0));
}

#[test]
fn quotients_round_toward_zero() {
    let one = Fixed::from_int(1);
    assert_eq!(one.over(Fixed::from_int(3)), fx(333_333));
    assert_eq!(one.negated().over(Fixed::from_int(3)), fx(-333_333));
    assert_eq!(one.over(Fixed::from_int(-3)), fx(-333_333));
    assert_eq!(one.negated().over(Fixed::from_int(-3)), fx(333_333));
    assert_eq!(Fixed::from_int(7).over(Fixed::from_int(2)), fx(3_500_000));
}

#[test]
fn ratio_rounds_once() {
    // 1 * 1 / 3, against (1 * 1) / 3 in two steps: the same here
    let one = Fixed::from_int(1);
    assert_eq!(one.ratio(one, Fixed::from_int(3)), fx(333_333));
    // 0.000001 * 0.5 / 0.25 = 0.000002; in two steps the product would be lost
    assert_eq!(fx(1).ratio(fx(500_000), fx(250_000)), fx(2));
    assert_eq!(fx(1).times(fx(500_000)).over(fx(250_000)), fx(0));
}

#[test]
fn sums_and_differences() {
    assert_eq!(fx(1_500_000).plus(fx(2_250_000)), fx(3_750_000));
    assert_eq!(fx(1_500_000).minus(fx(2_250_000)), fx(-750_000));
    assert_eq!(fx(1_500_000).negated(), fx(-1_500_000));
}

#[test]
fn results_are_clipped_to_the_largest_magnitude() {
    assert_eq!(fx(RAW_MAX).plus(fx(1)), fx(RAW_MAX));
    assert_eq!(fx(-RAW_MAX).minus(fx(1)), fx(-RAW_MAX));
    assert_eq!(fx(i64::MIN).negated(), fx(RAW_MAX));
    assert_eq!(fx(i64::MIN).plus(fx(0)), fx(-RAW_MAX));
    let big = Fixed::from_int(2_000_000_000);
    assert_eq!(big.times(big), fx(RAW_MAX));
    assert_eq!(big.times(big.negated()), fx(-RAW_MAX));
    assert_eq!(big.over(fx(1)), fx(RAW_MAX));
    assert_eq!(fx(i64::MIN).times(fx(i64::MIN)), fx(RAW_MAX));
}

#[test]
fn at_least_picks_the_larger() {
    assert_eq!(fx(10).at_least(fx(50)), fx(50));
    assert_eq!(fx(70).at_least(fx(50)), fx(70));
    assert_eq!(fx(50).at_least(fx(50)), fx(50));
}

#[test]
fn square_roots_round_down() {
    assert_eq!(floor_sqrt(0), 0);
    assert_eq!(floor_sqrt(1), 1);
    assert_eq!(floor_sqrt(3), 1);
    assert_eq!(floor_sqrt(4), 2);
    assert_eq!(floor_sqrt(24), 4);
    assert_eq!(floor_sqrt(25), 5);
    assert_eq!(floor_sqrt(100_000_000_000_000), 10_000_000);
    assert_eq!(floor_sqrt(99_999_999_999_999), 9_999_999);
    assert_eq!(floor_sqrt(u128::MAX), u64::MAX);
}
