//! Vectors of fixed-point numbers.

use crate::fixed::{lemma_product_sign, magnitude_of, saturate, Fixed, RAW_MAX};
use crate::root::{floor_root, floor_sqrt, lemma_floor_root};
use vstd::prelude::*;

verus! {

/// A pair of fixed-point numbers: a pointer motion or a window's size.
#[derive(Clone, Copy, Debug, PartialEq, Eq, Structural)]
pub struct Vector2 {
    pub x: Fixed,
    pub y: Fixed,
}

impl Vector2 {
    /// Whether both components are exactly zero.
    pub open spec fn spec_is_zero(self) -> bool {
        self.x.raw == 0 && self.y.raw == 0
    }

    /// The pair of zeros.
    pub open spec fn spec_zero() -> Vector2 {
        Vector2 { x: Fixed { raw: 0 }, y: Fixed { raw: 0 } }
    }

    /// The sum, component by component.
    pub open spec fn spec_plus(self, rhs: Vector2) -> Vector2 {
        Vector2 { x: self.x.plus(rhs.x), y: self.y.plus(rhs.y) }
    }

    /// The pair of zeros.
    #[verifier::when_used_as_spec(spec_zero)]
    pub fn zero() -> (v: Vector2)
        ensures
            v == Vector2::spec_zero(),
    {
        Vector2 { x: Fixed { raw: 0 }, y: Fixed { raw: 0 } }
    }

    /// The pair of `x` and `y`.
    pub fn new(x: Fixed, y: Fixed) -> (v: Vector2)
        ensures
            v.x == x,
            v.y == y,
    {
        Vector2 { x, y }
    }

    /// The sum, component by component.
    #[verifier::when_used_as_spec(spec_plus)]
    pub fn plus(self, rhs: Vector2) -> (v: Vector2)
        ensures
            v == self.spec_plus(rhs),
    {
        Vector2 { x: self.x.plus(rhs.x), y: self.y.plus(rhs.y) }
    }

    /// Whether both components are exactly zero.
    #[verifier::when_used_as_spec(spec_is_zero)]
    pub fn is_zero(self) -> (r: bool)
        ensures
            r == self.spec_is_zero(),
    {
        self.x.raw == 0 && self.y.raw == 0
    }
}

/// A point or a direction in space.
#[derive(Clone, Copy, Debug, PartialEq, Eq, Structural)]
pub struct Vector3 {
    pub x: Fixed,
    pub y: Fixed,
    pub z: Fixed,
}

impl Vector3 {
    /// The vector with all components zero.
    pub open spec fn spec_zero() -> Vector3 {
        Vector3 { x: Fixed { raw: 0 }, y: Fixed { raw: 0 }, z: Fixed { raw: 0 } }
    }

    /// Whether all components are exactly zero.
    pub open spec fn spec_is_zero(self) -> bool {
        self.x.raw == 0 && self.y.raw == 0 && self.z.raw == 0
    }

    /// The sum, component by component.
    pub open spec fn spec_plus(self, rhs: Vector3) -> Vector3 {
        Vector3 { x: self.x.plus(rhs.x), y: self.y.plus(rhs.y), z: self.z.plus(rhs.z) }
    }

    /// The difference, component by component.
    pub open spec fn spec_minus(self, rhs: Vector3) -> Vector3 {
        Vector3 { x: self.x.minus(rhs.x), y: self.y.minus(rhs.y), z: self.z.minus(rhs.z) }
    }

    /// The opposite vector.
    pub open spec fn spec_negated(self) -> Vector3 {
        Vector3 { x: self.x.negated(), y: self.y.negated(), z: self.z.negated() }
    }

    /// Each component multiplied by `factor`.
    pub open spec fn spec_scaled(self, factor: Fixed) -> Vector3 {
        Vector3 { x: self.x.times(factor), y: self.y.times(factor), z: self.z.times(factor) }
    }

    /// The sum of the squares of the raw components.
    pub open spec fn norm_squared(self) -> nat {
        (self.x.raw * self.x.raw + self.y.raw * self.y.raw + self.z.raw * self.z.raw) as nat
    }

    /// The Euclidean length in raw steps, rounded down.
    pub open spec fn norm(self) -> nat {
        floor_root(self.norm_squared())
    }

    /// The Euclidean length, rounded down to a millionth and clipped.
    pub open spec fn spec_length(self) -> Fixed {
        Fixed { raw: saturate(self.norm() as int) as i64 }
    }

    /// A vector has length zero exactly when it is the zero vector.
    pub proof fn lemma_norm_zero(self)
        ensures
            self.norm() == 0 <==> self.is_zero(),
            self.norm_squared() == 0 <==> self.is_zero(),
    {
        let x = self.x.raw as int;
        let y = self.y.raw as int;
        let z = self.z.raw as int;
        assert(x * x + y * y + z * z >= 0 && (x * x + y * y + z * z == 0 <==> (x == 0 && y == 0 && z
            == 0))) by (nonlinear_arith);
        lemma_floor_root(self.norm_squared());
    }

    /// The vector with all components zero.
    #[verifier::when_used_as_spec(spec_zero)]
    pub fn zero() -> (v: Vector3)
        ensures
            v == Vector3::spec_zero(),
    {
        Vector3 { x: Fixed { raw: 0 }, y: Fixed { raw: 0 }, z: Fixed { raw: 0 } }
    }

    /// The vector with the components `x`, `y` and `z`.
    pub fn new(x: Fixed, y: Fixed, z: Fixed) -> (v: Vector3)
        ensures
            v.x == x,
            v.y == y,
            v.z == z,
    {
        Vector3 { x, y, z }
    }

    /// Whether all components are exactly zero.
    #[verifier::when_used_as_spec(spec_is_zero)]
    pub fn is_zero(self) -> (r: bool)
        ensures
            r == self.spec_is_zero(),
    {
        self.x.raw == 0 && self.y.raw == 0 && self.z.raw == 0
    }

    /// The sum, component by component.
    #[verifier::when_used_as_spec(spec_plus)]
    pub fn plus(self, rhs: Vector3) -> (v: Vector3)
        ensures
            v == self.spec_plus(rhs),
    {
        Vector3 { x: self.x.plus(rhs.x), y: self.y.plus(rhs.y), z: self.z.plus(rhs.z) }
    }

    /// The difference, component by component.
    #[verifier::when_used_as_spec(spec_minus)]
    pub fn minus(self, rhs: Vector3) -> (v: Vector3)
        ensures
            v == self.spec_minus(rhs),
    {
        Vector3 { x: self.x.minus(rhs.x), y: self.y.minus(rhs.y), z: self.z.minus(rhs.z) }
    }

    /// The opposite vector.
    #[verifier::when_used_as_spec(spec_negated)]
    pub fn negated(self) -> (v: Vector3)
        ensures
            v == self.spec_negated(),
    {
        Vector3 { x: self.x.negated(), y: self.y.negated(), z: self.z.negated() }
    }

    /// Each component multiplied by `factor`.
    #[verifier::when_used_as_spec(spec_scaled)]
    pub fn scaled(self, factor: Fixed) -> (v: Vector3)
        ensures
            v == self.spec_scaled(factor),
    {
        Vector3 { x: self.x.times(factor), y: self.y.times(factor), z: self.z.times(factor) }
    }

    /// The sum of the squares of the raw components.
    pub fn squared_norm(self) -> (n2: u128)
        ensures
            n2 == self.norm_squared(),
    {
        let mx: u128 = magnitude_of(self.x.raw);
        let my: u128 = magnitude_of(self.y.raw);
        let mz: u128 = magnitude_of(self.z.raw);
        proof {
            lemma_product_sign(self.x.raw as int, self.x.raw as int);
            lemma_product_sign(self.y.raw as int, self.y.raw as int);
            lemma_product_sign(self.z.raw as int, self.z.raw as int);
            lemma_square_bound(mx);
            lemma_square_bound(my);
            lemma_square_bound(mz);
        }
        mx * mx + my * my + mz * mz
    }

    /// The Euclidean length in raw steps, rounded down.
    pub fn raw_norm(self) -> (n: u64)
        ensures
            n == self.norm(),
    {
        floor_sqrt(self.squared_norm())
    }

    /// The Euclidean length, rounded down to a millionth and clipped.
    #[verifier::when_used_as_spec(spec_length)]
    pub fn length(self) -> (r: Fixed)
        ensures
            r == self.spec_length(),
    {
        let n: u64 = self.raw_norm();
        if n > RAW_MAX as u64 {
            Fixed { raw: RAW_MAX }
        } else {
            Fixed { raw: n as i64 }
        }
    }
}

proof fn lemma_square_bound(m: u128)
    requires
        m <= 0x8000_0000_0000_0000,
    ensures
        m * m <= 0x4000_0000_0000_0000_0000_0000_0000_0000,
{
    assert(m * m <= 0x8000_0000_0000_0000 * 0x8000_0000_0000_0000) by (nonlinear_arith)
        requires
            m <= 0x8000_0000_0000_0000,
    ;
}

} // verus!
