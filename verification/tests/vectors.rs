use orbit_gravity::fixed::{Fixed, RAW_MAX};
use orbit_gravity::vector::{Vector2, Vector3};

fn v3(x: i32, y: i32, z: i32) -> Vector3 {
    Vector3::new(Fixed::from_int(x), Fixed::from_int(y), Fixed::from_int(z))
}

#[test]
fn vector_sum_difference_and_opposite() {
    assert_eq!(v3(1, 2, 3).plus(v3(10, 20, 30)), v3(11, 22, 33));
    assert_eq!(v3(1, 2, 3).minus(v3(10, 20, 30)), v3(-9, -18, -27));
    assert_eq!(v3(1, -2, 3).negated(), v3(-1, 2, -3));
    assert_eq!(Vector3::zero(), v3(0, 0, 0));
    assert!(Vector3::zero().is_zero());
    assert!(!v3(0, 0, 1).is_zero());
}

#[test]
fn vector_scaled_by_a_half() {
    let half = Fixed { raw: 500_000 };
    let scaled = v3(3, -4, 0).scaled(half);
    assert_eq!(scaled.x.raw, 1_500_000);
    assert_eq!(scaled.y.raw, -2_000_000);
    assert_eq!(scaled.z.raw, 0);
}

#[test]
fn length_of_a_three_four_five_triangle() {
    let v = v3(3, 4, 0);
    assert_eq!(v.squared_norm(), 25_000_000_000_000);
    assert_eq!(v.raw_norm(), 5_000_000);
    assert_eq!(v.length(), Fixed::from_int(5));
}

#[test]
fn length_rounds_down() {
    // sqrt(2) = 1.41421356...
    assert_eq!(v3(1, 1, 0).length().raw, 1_414_213);
    // sqrt(-2^2 + 2.5^2 + 5^2) = sqrt(35.25) = 5.93717104...
    let eye = Vector3::new(Fixed::from_int(-2), Fixed { raw: 2_500_000 }, Fixed::from_int(5));
    assert_eq!(eye.length().raw, 5_937_171);
}

#[test]
fn length_of_the_largest_vector_is_clipped() {
    let far = Fixed { raw: i64::MIN };
    let v = Vector3::new(far, far, far);
    assert_eq!(v.squared_norm(), 3 * (1u128 << 126));
    // sqrt(3) * 2^63 = 15975348984942515101.5...
    assert_eq!(v.raw_norm(), 15_975_348_984_942_515_101);
    assert_eq!(v.length().raw, RAW_MAX);
}

#[test]
fn pairs_add_and_know_zero() {
    let a = Vector2::new(Fixed::from_int(1), Fixed::from_int(2));
    let b = Vector2::new(Fixed::from_int(3), Fixed::from_int(-4));
    assert_eq!(a.plus(b), Vector2::new(Fixed::from_int(4), Fixed::from_int(-2)));
    assert!(Vector2::zero().is_zero());
    assert!(!a.is_zero());
    assert!(!Vector2::new(Fixed::zero(), Fixed { raw: 1 }).is_zero());
}
