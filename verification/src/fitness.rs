//! Fitness of a simulated unit: an inverse-distance score rewarding proximity
//! to the target. The score is kept in fixed point: with squared Euclidean
//! distance d2 to the target, the score is 100_000_000 divided by the integer
//! square root of (d2 + 1) * 1_000_000, i.e. one thousand times the inverse
//! root of d2 + 1, rounded down. It is largest (100_000) exactly at the
//! target, decreases as the distance grows, and stays strictly positive
//! everywhere on the grid.

use vstd::prelude::*;

verus! {

/// The integer square root: the largest r with r * r <= n.
pub open spec fn spec_isqrt(n: nat) -> nat
    decreases n,
{
    if n == 0 {
        0
    } else {
        let r = spec_isqrt((n - 1) as nat);
        if (r + 1) * (r + 1) <= n {
            r + 1
        } else {
            r
        }
    }
}

/// The integer square root is characterized by r * r <= n < (r + 1) * (r + 1).
pub proof fn lemma_isqrt_bounds(n: nat)
    ensures
        spec_isqrt(n) * spec_isqrt(n) <= n,
        n < (spec_isqrt(n) + 1) * (spec_isqrt(n) + 1),
    decreases n,
{
    if n > 0 {
        lemma_isqrt_bounds((n - 1) as nat);
        let r = spec_isqrt((n - 1) as nat);
        assert(r * r <= n - 1);
        assert(n - 1 < (r + 1) * (r + 1));
        if (r + 1) * (r + 1) <= n {
            assert(spec_isqrt(n) == r + 1);
            assert(n < (r + 2) * (r + 2)) by (nonlinear_arith)
                requires
                    n <= (r + 1) * (r + 1),
            ;
            assert(spec_isqrt(n) * spec_isqrt(n) <= n);
            assert(n < (spec_isqrt(n) + 1) * (spec_isqrt(n) + 1));
        } else {
            assert(spec_isqrt(n) == r);
            assert(spec_isqrt(n) * spec_isqrt(n) <= n);
            assert(n < (spec_isqrt(n) + 1) * (spec_isqrt(n) + 1));
        }
    } else {
        assert(spec_isqrt(n) == 0);
        assert(spec_isqrt(n) * spec_isqrt(n) <= n);
        assert(n < (spec_isqrt(n) + 1) * (spec_isqrt(n) + 1)) by (nonlinear_arith)
            requires
                n == 0,
                spec_isqrt(n) == 0,
        ;
    }
}

/// Any r with r * r <= n < (r + 1) * (r + 1) is the integer square root.
pub proof fn lemma_isqrt_unique(n: nat, r: nat)
    requires
        r * r <= n,
        n < (r + 1) * (r + 1),
    ensures
        r == spec_isqrt(n),
{
    lemma_isqrt_bounds(n);
    let s = spec_isqrt(n);
    if r < s {
        assert((r + 1) * (r + 1) <= s * s) by (nonlinear_arith)
            requires
                r + 1 <= s,
        ;
    }
    if s < r {
        assert((s + 1) * (s + 1) <= r * r) by (nonlinear_arith)
            requires
                s + 1 <= r,
        ;
    }
}

/// Computes the integer square root by binary search.
pub fn isqrt(n: u64) -> (r: u64)
    requires
        n < 0x4000_0000_0000_0000,
    ensures
        r == spec_isqrt(n as nat),
        r * r <= n,
        n < (r + 1) * (r + 1),
{
    let mut lo: u64 = 0;
    let mut hi: u64 = 0x8000_0000;
    assert(n < hi * hi) by (nonlinear_arith)
        requires
            n < 0x4000_0000_0000_0000,
            hi == 0x8000_0000u64,
    ;
    while lo + 1 < hi
        invariant
            lo < hi <= 0x8000_0000,
            lo * lo <= n,
            n < hi * hi,
        decreases hi - lo,
    {
        let mid = lo + (hi - lo) / 2;
        assert(mid * mid <= 0x4000_0000_0000_0000) by (nonlinear_arith)
            requires
                mid <= 0x8000_0000u64,
        ;
        if mid * mid <= n {
            lo = mid;
        } else {
            hi = mid;
        }
    }
    proof {
        lemma_isqrt_unique(n as nat, lo as nat);
    }
    lo
}

/// Squared Euclidean distance between (x, y) and (tx, ty).
pub open spec fn spec_dist2(x: int, y: int, tx: int, ty: int) -> int {
    (x - tx) * (x - tx) + (y - ty) * (y - ty)
}

/// Fixed-point inverse-distance fitness of a position with respect to the
/// target.
pub open spec fn spec_fitness(x: int, y: int, tx: int, ty: int) -> int {
    100_000_000int / (spec_isqrt(((spec_dist2(x, y, tx, ty) + 1) * 1_000_000) as nat) as int)
}

/// Scores a unit's final position against the target: exactly the fixed-point
/// inverse-distance score, strictly positive, and at most 100_000 (the value
/// taken exactly at the target).
pub fn fitness(x: i32, y: i32, tx: i32, ty: i32) -> (f: u64)
    requires
        0 <= x <= 10000,
        0 <= y <= 10000,
        0 <= tx <= 10000,
        0 <= ty <= 10000,
    ensures
        f == spec_fitness(x as int, y as int, tx as int, ty as int),
        1 <= f <= 100_000,
{
    let dx: i64 = (x as i64) - (tx as i64);
    let dy: i64 = (y as i64) - (ty as i64);
    assert(dx * dx + dy * dy <= 200_000_000) by (nonlinear_arith)
        requires
            -10000 <= dx <= 10000,
            -10000 <= dy <= 10000,
    ;
    assert(dx * dx >= 0 && dy * dy >= 0) by (nonlinear_arith);
    let d2: u64 = (dx * dx + dy * dy) as u64;
    let s = isqrt((d2 + 1) * 1_000_000);
    proof {
        let m = ((d2 + 1) * 1_000_000) as nat;
        lemma_isqrt_bounds(m);
        assert(m >= 1_000_000);
        if spec_isqrt(m) < 1000 {
            assert((spec_isqrt(m) + 1) * (spec_isqrt(m) + 1) <= 1_000_000) by (nonlinear_arith)
                requires
                    spec_isqrt(m) + 1 <= 1000,
            ;
        }
        assert(m <= 200_000_001_000_000);
        if spec_isqrt(m) > 100_000_000 {
            assert(spec_isqrt(m) * spec_isqrt(m) > 200_000_001_000_000) by (nonlinear_arith)
                requires
                    spec_isqrt(m) > 100_000_000,
            ;
        }
        assert(1000 <= s <= 100_000_000);
        vstd::arithmetic::div_mod::lemma_div_is_ordered_by_denominator(
            100_000_000,
            1000,
            s as int,
        );
        vstd::arithmetic::div_mod::lemma_div_non_zero(100_000_000, s as int);
    }
    100_000_000 / s
}

} // verus!
