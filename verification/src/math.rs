//! Integer cube roots, for the perceptual-lightness computation.
//!
//! Channels are fixed-point integers, so the cube roots inside the Oklab
//! lightness formula are taken as exact floor cube roots of integers.

use vstd::prelude::*;

verus! {

/// The cube of an integer.
pub open spec fn cube(x: int) -> int {
    x * x * x
}

/// The floor of the cube root of `n`: the largest `r` with `r³ <= n`.
pub open spec fn cbrt_floor(n: nat) -> nat
    decreases n,
{
    if n == 0 {
        0
    } else {
        let p = cbrt_floor((n - 1) as nat);
        if cube(p as int + 1) <= n {
            p + 1
        } else {
            p
        }
    }
}

/// Cubing is monotone on the naturals.
pub proof fn lemma_cube_mono(x: int, y: int)
    requires
        0 <= x <= y,
    ensures
        cube(x) <= cube(y),
{
    assert(x * x * x <= y * y * y) by (nonlinear_arith)
        requires
            0 <= x <= y,
    ;
}

/// Cubing is strictly monotone on the naturals.
pub proof fn lemma_cube_strict_mono(x: int, y: int)
    requires
        0 <= x < y,
    ensures
        cube(x) < cube(y),
{
    assert(x * x * x < y * y * y) by (nonlinear_arith)
        requires
            0 <= x < y,
    ;
}

/// `cbrt_floor(n)` is bracketed by the two neighbouring cubes.
pub proof fn lemma_cbrt_floor_bounds(n: nat)
    ensures
        cube(cbrt_floor(n) as int) <= n < cube(cbrt_floor(n) as int + 1),
    decreases n,
{
    if n == 0 {
        assert(cbrt_floor(0) == 0);
    } else {
        lemma_cbrt_floor_bounds((n - 1) as nat);
        let p = cbrt_floor((n - 1) as nat);
        if cube(p as int + 1) <= n {
            // The root steps up by one; its cube can exceed n - 1 by at most
            // reaching n itself, so the upper bracket still holds.
            assert(n - 1 < cube(p as int + 1));
            assert(n <= cube(p as int + 1));
            assert(cube(p as int + 1) == n);
            lemma_cube_strict_mono(p as int + 1, p as int + 2);
        }
    }
}

/// Any `r` bracketed by the two neighbouring cubes is the floor cube root.
pub proof fn lemma_cbrt_floor_unique(n: nat, r: nat)
    requires
        cube(r as int) <= n < cube(r as int + 1),
    ensures
        r == cbrt_floor(n),
{
    let c = cbrt_floor(n);
    lemma_cbrt_floor_bounds(n);
    if r < c {
        lemma_cube_mono(r as int + 1, c as int);
        assert(false);
    }
    if c < r {
        lemma_cube_mono(c as int + 1, r as int);
        assert(false);
    }
}

/// The floor cube root is monotone.
pub proof fn lemma_cbrt_floor_mono(a: nat, b: nat)
    requires
        a <= b,
    ensures
        cbrt_floor(a) <= cbrt_floor(b),
{
    lemma_cbrt_floor_bounds(a);
    lemma_cbrt_floor_bounds(b);
    if cbrt_floor(b) < cbrt_floor(a) {
        lemma_cube_mono(cbrt_floor(b) as int + 1, cbrt_floor(a) as int);
        assert(false);
    }
}

/// Floor cube root of an integer, by binary search.
pub fn icbrt(n: u64) -> (r: u64)
    requires
        n <= 1061208000000000000,  // 1020000³
    ensures
        r == cbrt_floor(n as nat),
        r <= 1020000,
{
    let mut lo: u64 = 0;
    let mut hi: u64 = 1020000;
    proof {
        assert(cube(1020001) > 1061208000000000000);
    }
    while lo < hi
        invariant
            lo <= hi <= 1020000,
            cube(lo as int) <= n as int,
            (n as int) < cube(hi as int + 1),
        decreases hi - lo,
    {
        let mid = lo + (hi - lo + 1) / 2;
        proof {
            assert(mid as int * mid as int <= 1040400000000) by (nonlinear_arith)
                requires
                    mid <= 1020000,
            ;
            assert(mid as int * mid as int * mid as int <= 1061208000000000000)
                by (nonlinear_arith)
                requires
                    mid <= 1020000,
            ;
        }
        if (mid * mid) * mid <= n {
            lo = mid;
        } else {
            hi = mid - 1;
        }
    }
    proof {
        lemma_cbrt_floor_unique(n as nat, lo as nat);
    }
    lo
}

} // verus!
