//! Decimal fixed-point numbers with saturating arithmetic.
//!
//! A [`Fixed`] holds a signed count of millionths. Every operation computes
//! the exact integer result, rounds a quotient toward zero and clips what
//! does not fit to the largest magnitude; no operation overflows or panics.

use vstd::prelude::*;

verus! {

/// Raw steps in one whole: a raw value of `SCALE` stands for the number one.
pub const SCALE: i64 = 1_000_000;

/// Largest magnitude that the raw value of a result takes.
pub const RAW_MAX: i64 = 9_223_372_036_854_775_807;

/// Absolute value.
pub open spec fn magnitude(v: int) -> nat {
    if v < 0 {
        (-v) as nat
    } else {
        v as nat
    }
}

/// `a` divided by a non-zero `b`, rounded toward zero.
pub open spec fn quotient(a: int, b: int) -> int {
    let q = (magnitude(a) / magnitude(b)) as int;
    if (a < 0) == (b < 0) {
        q
    } else {
        -q
    }
}

/// `v` clipped to the interval from `-RAW_MAX` to `RAW_MAX`.
pub open spec fn saturate(v: int) -> int {
    if v > RAW_MAX {
        RAW_MAX as int
    } else if v < -RAW_MAX {
        -(RAW_MAX as int)
    } else {
        v
    }
}

/// Rounding toward zero commutes with negating the dividend.
pub proof fn lemma_quotient_odd(a: int, b: int)
    requires
        b != 0,
    ensures
        quotient(-a, b) == -quotient(a, b),
{
    if a == 0 {
        let m = magnitude(b);
        assert(0nat / m == 0) by (nonlinear_arith)
            requires
                m > 0,
        ;
    }
}

/// The magnitude of a product is the product of the magnitudes, and a
/// product is negative exactly when one factor is and the other is positive.
pub proof fn lemma_product_sign(a: int, b: int)
    ensures
        magnitude(a * b) == magnitude(a) * magnitude(b),
        (a * b < 0) == ((a < 0 && b > 0) || (a > 0 && b < 0)),
{
    assert(magnitude(a * b) == magnitude(a) * magnitude(b) && ((a * b < 0) == ((a < 0 && b > 0)
        || (a > 0 && b < 0)))) by (nonlinear_arith)
        requires
            magnitude(a) == if a < 0 {
                -a
            } else {
                a
            },
            magnitude(b) == if b < 0 {
                -b
            } else {
                b
            },
            magnitude(a * b) == if a * b < 0 {
                -(a * b)
            } else {
                a * b
            },
    ;
}

/// The absolute value of `v`.
pub(crate) fn magnitude_of(v: i64) -> (m: u128)
    ensures
        m == magnitude(v as int),
        m <= 0x8000_0000_0000_0000,
{
    let wide: i128 = v as i128;
    if wide < 0 {
        (-wide) as u128
    } else {
        wide as u128
    }
}

/// `v` clipped to what a result holds.
fn saturate_wide(v: i128) -> (r: i64)
    ensures
        r == saturate(v as int),
{
    if v > RAW_MAX as i128 {
        RAW_MAX
    } else if v < -(RAW_MAX as i128) {
        -RAW_MAX
    } else {
        v as i64
    }
}

/// `saturate(quotient(a * b, c))`, where `c` is given by its magnitude and
/// its sign.
pub(crate) fn mul_div(a: i64, b: i64, divisor: u128, divisor_negative: bool) -> (r: i64)
    requires
        divisor > 0,
    ensures
        r == saturate(
            quotient(
                a * b,
                if divisor_negative {
                    -(divisor as int)
                } else {
                    divisor as int
                },
            ),
        ),
{
    let ma: u128 = magnitude_of(a);
    let mb: u128 = magnitude_of(b);
    proof {
        lemma_product_sign(a as int, b as int);
        assert(ma * mb <= 0x8000_0000_0000_0000 * 0x8000_0000_0000_0000) by (nonlinear_arith)
            requires
                ma <= 0x8000_0000_0000_0000,
                mb <= 0x8000_0000_0000_0000,
        ;
    }
    let product: u128 = ma * mb;
    let q: u128 = product / divisor;
    let product_negative: bool = (a < 0 && b > 0) || (a > 0 && b < 0);
    let negative: bool = product_negative != divisor_negative;
    if q > RAW_MAX as u128 {
        if negative {
            -RAW_MAX
        } else {
            RAW_MAX
        }
    } else if negative {
        -(q as i64)
    } else {
        q as i64
    }
}

/// A fixed-point number: `raw` millionths.
#[derive(Clone, Copy, Debug, PartialEq, Eq, Structural)]
pub struct Fixed {
    pub raw: i64,
}

impl Fixed {
    /// The sum, clipped.
    pub open spec fn spec_plus(self, rhs: Fixed) -> Fixed {
        Fixed { raw: saturate(self.raw + rhs.raw) as i64 }
    }

    /// The difference, clipped.
    pub open spec fn spec_minus(self, rhs: Fixed) -> Fixed {
        Fixed { raw: saturate(self.raw - rhs.raw) as i64 }
    }

    /// The negation, clipped.
    pub open spec fn spec_negated(self) -> Fixed {
        Fixed { raw: saturate(-self.raw) as i64 }
    }

    /// `self * num / den` with a single rounding, toward zero, then clipped.
    pub open spec fn spec_ratio(self, num: Fixed, den: Fixed) -> Fixed {
        Fixed { raw: saturate(quotient(self.raw * num.raw, den.raw as int)) as i64 }
    }

    /// The product, rounded toward zero and clipped.
    pub open spec fn spec_times(self, rhs: Fixed) -> Fixed {
        self.spec_ratio(rhs, Fixed { raw: SCALE })
    }

    /// The quotient, rounded toward zero and clipped.
    pub open spec fn spec_over(self, rhs: Fixed) -> Fixed {
        self.spec_ratio(Fixed { raw: SCALE }, rhs)
    }

    /// The larger of the two.
    pub open spec fn spec_at_least(self, floor: Fixed) -> Fixed {
        if self.raw < floor.raw {
            floor
        } else {
            self
        }
    }

    /// The number zero.
    pub fn zero() -> (r: Fixed)
        ensures
            r.raw == 0,
    {
        Fixed { raw: 0 }
    }

    /// The whole number `n`.
    pub fn from_int(n: i32) -> (r: Fixed)
        ensures
            r.raw == n * SCALE,
    {
        Fixed { raw: (n as i64) * SCALE }
    }

    /// Whether this is exactly zero.
    pub fn is_zero(self) -> (r: bool)
        ensures
            r == (self.raw == 0),
    {
        self.raw == 0
    }

    /// The sum, clipped.
    #[verifier::when_used_as_spec(spec_plus)]
    pub fn plus(self, rhs: Fixed) -> (r: Fixed)
        ensures
            r == self.spec_plus(rhs),
    {
        Fixed { raw: saturate_wide(self.raw as i128 + rhs.raw as i128) }
    }

    /// The difference, clipped.
    #[verifier::when_used_as_spec(spec_minus)]
    pub fn minus(self, rhs: Fixed) -> (r: Fixed)
        ensures
            r == self.spec_minus(rhs),
    {
        Fixed { raw: saturate_wide(self.raw as i128 - rhs.raw as i128) }
    }

    /// The negation, clipped.
    #[verifier::when_used_as_spec(spec_negated)]
    pub fn negated(self) -> (r: Fixed)
        ensures
            r == self.spec_negated(),
    {
        Fixed { raw: saturate_wide(-(self.raw as i128)) }
    }

    /// `self * num / den` with a single rounding, toward zero, then clipped.
    /// The divisor must not be zero.
    #[verifier::when_used_as_spec(spec_ratio)]
    pub fn ratio(self, num: Fixed, den: Fixed) -> (r: Fixed)
        requires
            den.raw != 0,
        ensures
            r == self.spec_ratio(num, den),
    {
        Fixed { raw: mul_div(self.raw, num.raw, magnitude_of(den.raw), den.raw < 0) }
    }

    /// The product, rounded toward zero and clipped.
    #[verifier::when_used_as_spec(spec_times)]
    pub fn times(self, rhs: Fixed) -> (r: Fixed)
        ensures
            r == self.spec_times(rhs),
    {
        self.ratio(rhs, Fixed { raw: SCALE })
    }

    /// The quotient, rounded toward zero and clipped. The divisor must not
    /// be zero.
    #[verifier::when_used_as_spec(spec_over)]
    pub fn over(self, rhs: Fixed) -> (r: Fixed)
        requires
            rhs.raw != 0,
        ensures
            r == self.spec_over(rhs),
    {
        self.ratio(Fixed { raw: SCALE }, rhs)
    }

    /// The larger of the two.
    #[verifier::when_used_as_spec(spec_at_least)]
    pub fn at_least(self, floor: Fixed) -> (r: Fixed)
        ensures
            r == self.spec_at_least(floor),
    {
        if self.raw < floor.raw {
            floor
        } else {
            self
        }
    }
}

} // verus!
