//! Integer square roots.
//!
//! The rating formula needs square roots at several fixed-point scales.
//! `sqrt_floor` is the mathematical definition; `isqrt_u128` and `isqrt_u64`
//! compute it by binary search.

use vstd::prelude::*;

verus! {

/// The largest integer whose square does not exceed `x` (0 for negative `x`).
pub open spec fn sqrt_floor(x: int) -> int
    decreases x,
{
    if x <= 0 {
        0
    } else {
        let r = sqrt_floor(x - 1);
        if (r + 1) * (r + 1) <= x {
            r + 1
        } else {
            r
        }
    }
}

/// `sqrt_floor(x)` is the integer square root: its square is at most `x`
/// and the next square is beyond `x`.
pub proof fn lemma_sqrt_floor_squeeze(x: int)
    requires
        0 <= x,
    ensures
        0 <= sqrt_floor(x),
        sqrt_floor(x) * sqrt_floor(x) <= x,
        x < (sqrt_floor(x) + 1) * (sqrt_floor(x) + 1),
    decreases x,
{
    if x > 0 {
        lemma_sqrt_floor_squeeze(x - 1);
        let r = sqrt_floor(x - 1);
        if (r + 1) * (r + 1) <= x {
            assert(x < (r + 2) * (r + 2)) by (nonlinear_arith)
                requires
                    0 <= r,
                    x - 1 < (r + 1) * (r + 1),
            ;
        }
    }
}

/// No two different integers satisfy the squeeze, so any witness equals
/// `sqrt_floor(x)`.
pub proof fn lemma_sqrt_floor_unique(x: int, r: int)
    requires
        0 <= x,
        0 <= r,
        r * r <= x,
        x < (r + 1) * (r + 1),
    ensures
        r == sqrt_floor(x),
{
    lemma_sqrt_floor_squeeze(x);
    let s = sqrt_floor(x);
    assert(r == s) by (nonlinear_arith)
        requires
            0 <= r,
            0 <= s,
            r * r <= x,
            x < (r + 1) * (r + 1),
            s * s <= x,
            x < (s + 1) * (s + 1),
    ;
}

/// The root is never negative, whatever the input.
pub proof fn lemma_sqrt_floor_nonneg(x: int)
    ensures
        0 <= sqrt_floor(x),
    decreases x,
{
    if x > 0 {
        lemma_sqrt_floor_nonneg(x - 1);
    }
}

/// An upper bound on the input gives an upper bound on the root.
pub proof fn lemma_sqrt_floor_below(x: int, b: int)
    requires
        0 <= x,
        0 <= b,
        x < b * b,
    ensures
        sqrt_floor(x) < b,
{
    lemma_sqrt_floor_squeeze(x);
    let s = sqrt_floor(x);
    assert(s < b) by (nonlinear_arith)
        requires
            0 <= s,
            0 <= b,
            s * s <= x,
            x < b * b,
    ;
}

/// A lower bound on the input gives a lower bound on the root.
pub proof fn lemma_sqrt_floor_at_least(x: int, b: int)
    requires
        0 <= b,
        b * b <= x,
    ensures
        b <= sqrt_floor(x),
{
    lemma_sqrt_floor_squeeze(x);
    let s = sqrt_floor(x);
    assert(b <= s) by (nonlinear_arith)
        requires
            0 <= s,
            0 <= b,
            b * b <= x,
            x < (s + 1) * (s + 1),
    ;
}

/// Binary-search integer square root for inputs below 2^96.
pub fn isqrt_u128(x: u128) -> (r: u128)
    requires
        x < 0x1000000000000000000000000,
    ensures
        r == sqrt_floor(x as int),
{
    if x == 0 {
        proof {
            lemma_sqrt_floor_unique(x as int, 0);
        }
        return 0;
    }
    let mut lo: u128 = 0;
    let mut hi: u128 = 0x1000000000000;
    while lo + 1 < hi
        invariant
            lo < hi <= 0x1000000000000,
            (lo as int) * (lo as int) <= x as int,
            (x as int) < (hi as int) * (hi as int),
        decreases hi - lo,
    {
        let mid: u128 = lo + (hi - lo) / 2;
        proof {
            assert((mid as int) * (mid as int) <= 0x1000000000000000000000000int)
                by (nonlinear_arith)
                requires
                    0 <= mid as int <= 0x1000000000000,
            ;
        }
        if mid * mid <= x {
            lo = mid;
        } else {
            hi = mid;
        }
    }
    proof {
        lemma_sqrt_floor_unique(x as int, lo as int);
    }
    lo
}

/// Integer square root of a 64-bit value.
pub fn isqrt_u64(x: u64) -> (r: u64)
    ensures
        r == sqrt_floor(x as int),
{
    let r = isqrt_u128(x as u128);
    proof {
        lemma_sqrt_floor_below(x as int, 0x100000000);
    }
    r as u64
}

} // verus!
