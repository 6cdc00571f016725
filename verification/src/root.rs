//! Integer square roots, rounded down.

use vstd::prelude::*;

verus! {

/// `r` is the square root of `n` rounded down.
pub open spec fn is_floor_root(n: nat, r: nat) -> bool {
    r * r <= n < (r + 1) * (r + 1)
}

/// The square root of `n`, rounded down.
pub open spec fn floor_root(n: nat) -> nat {
    choose|r: nat| is_floor_root(n, r)
}

/// Squaring is strictly monotone on the naturals.
pub proof fn lemma_square_monotone(a: nat, b: nat)
    requires
        a < b,
    ensures
        a * a < b * b,
        (a + 1) * (a + 1) <= b * b,
{
    assert(a * a < b * b && (a + 1) * (a + 1) <= b * b) by (nonlinear_arith)
        requires
            0 <= a < b,
    ;
}

/// Every natural number has a rounded-down square root.
pub proof fn lemma_floor_root_exists(n: nat)
    ensures
        exists|r: nat| is_floor_root(n, r),
    decreases n,
{
    if n == 0 {
        assert(0nat * 0nat <= 0nat < (0nat + 1) * (0nat + 1)) by (nonlinear_arith);
        assert(is_floor_root(0, 0));
    } else {
        let m = (n - 1) as nat;
        lemma_floor_root_exists(m);
        let r = floor_root(m);
        if (r + 1) * (r + 1) <= n {
            assert((r + 2) * (r + 2) > (r + 1) * (r + 1)) by (nonlinear_arith);
            assert(is_floor_root(n, r + 1));
        } else {
            assert(is_floor_root(n, r));
        }
    }
}

/// The rounded-down square root is the only number with its property.
pub proof fn lemma_floor_root_unique(n: nat, r: nat)
    requires
        is_floor_root(n, r),
    ensures
        floor_root(n) == r,
{
    let s = floor_root(n);
    assert(is_floor_root(n, s));
    if s < r {
        lemma_square_monotone(s, r);
    } else if r < s {
        lemma_square_monotone(r, s);
    }
}

/// `floor_root(n)` is the square root of `n` rounded down, and it is zero
/// only for `n == 0`.
pub proof fn lemma_floor_root(n: nat)
    ensures
        is_floor_root(n, floor_root(n)),
        floor_root(n) == 0 <==> n == 0,
{
    lemma_floor_root_exists(n);
    let r = floor_root(n);
    assert(r == 0 <==> n == 0) by (nonlinear_arith)
        requires
            r * r <= n < (r + 1) * (r + 1),
    ;
}

/// The square root of `n`, rounded down.
pub fn floor_sqrt(n: u128) -> (r: u64)
    ensures
        r == floor_root(n as nat),
        is_floor_root(n as nat, r as nat),
{
    let mut lo: u128 = 0;
    let mut hi: u128 = 0x1_0000_0000_0000_0000;
    while hi - lo > 1
        invariant
            lo < hi <= 0x1_0000_0000_0000_0000,
            lo * lo <= n,
            n < hi * hi,
        decreases hi - lo,
    {
        let mid: u128 = lo + (hi - lo) / 2;
        assert(mid * mid <= 0xffff_ffff_ffff_ffff * 0xffff_ffff_ffff_ffff) by (nonlinear_arith)
            requires
                mid <= 0xffff_ffff_ffff_ffff,
        ;
        if mid * mid <= n {
            lo = mid;
        } else {
            hi = mid;
        }
    }
    proof {
        lemma_floor_root_unique(n as nat, lo as nat);
    }
    lo as u64
}

} // verus!
