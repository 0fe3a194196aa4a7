//! Saturating fixed-point arithmetic: a real value `v` is held as the
//! integer `round_down(v * SCALE)` in an `i64`.

use vstd::prelude::*;

verus! {

/// Number of fixed-point units in `1.0`.
pub const SCALE: i64 = 1_000_000_000;

/// The integer `v` pulled into the range of `i64`.
pub open spec fn saturate(v: int) -> i64 {
    if v < i64::MIN {
        i64::MIN
    } else if v > i64::MAX {
        i64::MAX
    } else {
        v as i64
    }
}

pub open spec fn spec_fixed_add(a: i64, b: i64) -> i64 {
    saturate(a + b)
}

pub open spec fn spec_fixed_sub(a: i64, b: i64) -> i64 {
    saturate(a - b)
}

/// The product of two fixed-point values, rounded towards minus infinity.
pub open spec fn spec_fixed_mul(a: i64, b: i64) -> i64 {
    saturate((a * b) / (SCALE as int))
}

/// Clamps an `i128` into the range of `i64`.
pub fn saturate_wide(v: i128) -> (r: i64)
    ensures
        r == saturate(v as int),
{
    if v < i64::MIN as i128 {
        i64::MIN
    } else if v > i64::MAX as i128 {
        i64::MAX
    } else {
        v as i64
    }
}

/// Saturating sum of two fixed-point values.
pub fn fixed_add(a: i64, b: i64) -> (r: i64)
    ensures
        r == spec_fixed_add(a, b),
{
    saturate_wide(a as i128 + b as i128)
}

/// Saturating difference of two fixed-point values.
pub fn fixed_sub(a: i64, b: i64) -> (r: i64)
    ensures
        r == spec_fixed_sub(a, b),
{
    saturate_wide(a as i128 - b as i128)
}

proof fn lemma_product_fits(a: int, b: int)
    requires
        i64::MIN <= a <= i64::MAX,
        i64::MIN <= b <= i64::MAX,
    ensures
        -0x4000_0000_0000_0000_0000_0000_0000_0000 <= a * b <= 0x4000_0000_0000_0000_0000_0000_0000_0000,
{
    let m: int = 0x8000_0000_0000_0000;
    assert(-m <= a <= m && -m <= b <= m);
    assert(-(m * m) <= a * b <= m * m) by (nonlinear_arith)
        requires
            -m <= a <= m,
            -m <= b <= m,
            m > 0,
    ;
}

/// Saturating product of two fixed-point values, rounded towards minus infinity.
pub fn fixed_mul(a: i64, b: i64) -> (r: i64)
    ensures
        r == spec_fixed_mul(a, b),
{
    proof {
        lemma_product_fits(a as int, b as int);
    }
    let p: i128 = a as i128 * b as i128;
    let s: u128 = SCALE as u128;
    let q: i128 = if p >= 0 {
        ((p as u128) / s) as i128
    } else {
        let m: u128 = (-p) as u128;
        -(((m + s - 1) / s) as i128)
    };
    proof {
        let si = SCALE as int;
        if p < 0 {
            let m = -(p as int);
            let d = (m + si - 1) / si;
            assert(d * si <= m + si - 1 < d * si + si);
            assert((p as int) / si == -d) by (nonlinear_arith)
                requires
                    d * si <= m + si - 1 < d * si + si,
                    m == -(p as int),
                    si > 0,
                    m > 0,
            {
                let e = (p as int) / si;
                assert(e * si <= (p as int) && (p as int) < e * si + si);
            }
        }
    }
    saturate_wide(q)
}

/// The integer square root: the largest `r` with `r * r <= n`.
pub open spec fn sqrt_floor(n: nat) -> nat
    decreases n,
{
    if n == 0 {
        0
    } else {
        let r = sqrt_floor((n - 1) as nat);
        if (r + 1) * (r + 1) <= n {
            (r + 1) as nat
        } else {
            r
        }
    }
}

pub proof fn lemma_sqrt_floor_bounds(n: nat)
    ensures
        sqrt_floor(n) * sqrt_floor(n) <= n,
        n < (sqrt_floor(n) + 1) * (sqrt_floor(n) + 1),
    decreases n,
{
    if n > 0 {
        lemma_sqrt_floor_bounds((n - 1) as nat);
        let r = sqrt_floor((n - 1) as nat);
        assert((r + 2) * (r + 2) == (r + 1) * (r + 1) + 2 * r + 3) by (nonlinear_arith);
        assert(r * r <= n - 1 && n - 1 < (r + 1) * (r + 1));
        if (r + 1) * (r + 1) <= n {
            assert(sqrt_floor(n) == r + 1);
            assert(n < (r + 2) * (r + 2));
            assert((sqrt_floor(n) + 1) * (sqrt_floor(n) + 1) == (r + 2) * (r + 2));
            assert(sqrt_floor(n) * sqrt_floor(n) == (r + 1) * (r + 1));
        } else {
            assert(sqrt_floor(n) == r);
            assert((sqrt_floor(n) + 1) * (sqrt_floor(n) + 1) == (r + 1) * (r + 1));
            assert(sqrt_floor(n) * sqrt_floor(n) == r * r);
        }
    } else {
        assert(sqrt_floor(0) == 0);
        assert((sqrt_floor(n) + 1) * (sqrt_floor(n) + 1) == 1);
    }
}

/// Only `sqrt_floor(n)` lies between the two squares.
pub proof fn lemma_sqrt_floor_unique(n: nat, r: nat)
    requires
        r * r <= n,
        n < (r + 1) * (r + 1),
    ensures
        r == sqrt_floor(n),
{
    lemma_sqrt_floor_bounds(n);
    let s = sqrt_floor(n);
    if r < s {
        assert((r + 1) * (r + 1) <= s * s) by (nonlinear_arith)
            requires
                r + 1 <= s,
        ;
    } else if s < r {
        assert((s + 1) * (s + 1) <= r * r) by (nonlinear_arith)
            requires
                s + 1 <= r,
        ;
    }
}

/// The square root of a non-negative fixed-point value, rounded down.
pub fn fixed_sqrt(a: i64) -> (r: i64)
    requires
        a >= 0,
    ensures
        r as int == sqrt_floor((a * SCALE) as nat),
        r >= 0,
{
    assert(a * SCALE <= 0x8000_0000_0000_0000 * 0x4000_0000) by (nonlinear_arith)
        requires
            0 <= a <= 0x8000_0000_0000_0000,
    ;
    let n: u128 = a as u128 * SCALE as u128;
    let mut lo: u128 = 0;
    let mut hi: u128 = 0x8000_0000_0000;
    assert(n < hi * hi) by (nonlinear_arith)
        requires
            n == a * SCALE,
            a <= i64::MAX,
            hi == 0x8000_0000_0000,
    ;
    while hi - lo > 1
        invariant
            lo < hi <= 0x8000_0000_0000,
            lo * lo <= n,
            n < hi * hi,
        decreases hi - lo,
    {
        let mid: u128 = lo + (hi - lo) / 2;
        assert(mid * mid <= 0x4000_0000_0000_0000_0000_0000) by (nonlinear_arith)
            requires
                mid < 0x8000_0000_0000,
        ;
        if mid * mid <= n {
            lo = mid;
        } else {
            hi = mid;
        }
    }
    proof {
        lemma_sqrt_floor_unique(n as nat, lo as nat);
    }
    lo as i64
}

} // verus!
