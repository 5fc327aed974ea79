//! Fixed-point scalar arithmetic.
//!
//! A scalar is an `i64` holding the real value scaled by `FP_ONE`, so the
//! stored integer `v` stands for the real number `v / FP_ONE`. Products and
//! quotients are rounded toward zero, as `tdiv` specifies.

use vstd::prelude::*;
use vstd::arithmetic::div_mod::{
    lemma_div_is_ordered, lemma_div_multiples_vanish, lemma_div_pos_is_pos,
};

verus! {

/// Scale of the fixed-point representation: a stored `i64` value `v`
/// stands for the real number `v / FP_ONE`.
pub const FP_ONE: i64 = 65536;

/// `FP_ONE * FP_ONE`, the scale of a product of two raw scalars.
pub const FP_ONE_SQ: i64 = 4294967296;

/// Division rounded toward zero, defined for a positive divisor.
pub open spec fn tdiv(a: int, b: int) -> int {
    if a >= 0 {
        a / b
    } else {
        -((-a) / b)
    }
}

/// Product of two fixed-point scalars, rounded toward zero.
pub open spec fn fp_mul_spec(a: int, b: int) -> int {
    tdiv(a * b, FP_ONE as int)
}

/// Quotient of two fixed-point scalars, rounded toward zero.
pub open spec fn fp_div_spec(a: int, b: int) -> int {
    tdiv(a * (FP_ONE as int), b)
}

/// `r` is the floor of the square root of `n`.
pub open spec fn is_sqrt_floor(n: int, r: int) -> bool {
    0 <= r && r * r <= n && n < (r + 1) * (r + 1)
}

/// Floor of the square root of a nonnegative integer.
pub open spec fn sqrt_floor(n: int) -> int {
    choose|r: int| #[trigger] is_sqrt_floor(n, r)
}

/// The floor square root exists for every nonnegative integer.
pub proof fn lemma_sqrt_floor_exists(n: int)
    requires
        n >= 0,
    ensures
        exists|r: int| #[trigger] is_sqrt_floor(n, r),
    decreases n,
{
    if n == 0 {
        assert(is_sqrt_floor(0, 0));
    } else {
        lemma_sqrt_floor_exists(n - 1);
        let r = choose|r: int| #[trigger] is_sqrt_floor(n - 1, r);
        if (r + 1) * (r + 1) <= n {
            assert((r + 2) * (r + 2) > n) by (nonlinear_arith)
                requires
                    n - 1 < (r + 1) * (r + 1),
                    r >= 0,
            ;
            assert(is_sqrt_floor(n, r + 1));
        } else {
            assert(is_sqrt_floor(n, r));
        }
    }
}

/// The floor square root is unique, so `sqrt_floor` is the one value that
/// `is_sqrt_floor` admits.
pub proof fn lemma_sqrt_floor_is(n: int, r: int)
    requires
        n >= 0,
        is_sqrt_floor(n, r),
    ensures
        sqrt_floor(n) == r,
{
    let s = sqrt_floor(n);
    assert(is_sqrt_floor(n, s));
    assert(s == r) by (nonlinear_arith)
        requires
            is_sqrt_floor(n, s),
            is_sqrt_floor(n, r),
    ;
}

/// Basic bounds of `sqrt_floor` on a nonnegative argument.
pub proof fn lemma_sqrt_floor_bounds(n: int)
    requires
        n >= 0,
    ensures
        0 <= sqrt_floor(n),
        sqrt_floor(n) * sqrt_floor(n) <= n,
        n < (sqrt_floor(n) + 1) * (sqrt_floor(n) + 1),
{
    lemma_sqrt_floor_exists(n);
    let r = choose|r: int| #[trigger] is_sqrt_floor(n, r);
    lemma_sqrt_floor_is(n, r);
}

/// The floor square root never exceeds a bound whose square covers the
/// argument: `n <= c * c` implies `sqrt_floor(n) <= c`.
pub proof fn lemma_sqrt_floor_le(n: int, c: int)
    requires
        0 <= n,
        0 <= c,
        n <= c * c,
    ensures
        0 <= sqrt_floor(n) <= c,
{
    lemma_sqrt_floor_bounds(n);
    let r = sqrt_floor(n);
    assert(r <= c) by (nonlinear_arith)
        requires
            0 <= r,
            0 <= c,
            n < (r + 1) * (r + 1),
            n <= c * c,
            r * r <= n,
    ;
}

/// A product of bounded factors is bounded: `|a| <= ca` and `|b| <= cb`
/// give `|a * b| <= ca * cb`.
pub proof fn lemma_mul_bound(a: int, b: int, ca: int, cb: int)
    by (nonlinear_arith)
    requires
        -ca <= a <= ca,
        -cb <= b <= cb,
    ensures
        -(ca * cb) <= a * b <= ca * cb,
{
}

/// Truncating division keeps a scaled bound: `|a| <= c * b` gives
/// `|tdiv(a, b)| <= c`.
pub proof fn lemma_tdiv_le(a: int, b: int, c: int)
    requires
        b > 0,
        0 <= c,
        -(c * b) <= a <= c * b,
    ensures
        -c <= tdiv(a, b) <= c,
{
    lemma_div_multiples_vanish(c, b);
    assert(b * c == c * b) by (nonlinear_arith);
    if a >= 0 {
        lemma_div_pos_is_pos(a, b);
        lemma_div_is_ordered(a, c * b, b);
    } else {
        lemma_div_pos_is_pos(-a, b);
        lemma_div_is_ordered(-a, c * b, b);
    }
}

/// Truncating division of a nonnegative value by a positive one is
/// nonnegative, and zero stays zero.
pub proof fn lemma_tdiv_nonneg(a: int, b: int)
    requires
        b > 0,
        a >= 0,
    ensures
        tdiv(a, b) >= 0,
{
    lemma_div_pos_is_pos(a, b);
}

/// Division rounded toward zero. The divisor must be positive.
pub fn tdiv_i64(a: i64, b: i64) -> (q: i64)
    requires
        b > 0,
        a > i64::MIN,
    ensures
        q as int == tdiv(a as int, b as int),
{
    if a >= 0 {
        ((a as u64) / (b as u64)) as i64
    } else {
        let m: u64 = ((-a) as u64) / (b as u64);
        proof {
            lemma_div_pos_is_pos((-a) as int, b as int);
            lemma_div_is_ordered((-a) as int, i64::MAX as int, b as int);
            lemma_div_is_ordered(0, (b as int) - 1, b as int);
            assert((i64::MAX as int) / (b as int) <= i64::MAX as int) by {
                lemma_div_is_ordered_by_one(i64::MAX as int, b as int);
            }
        }
        -(m as i64)
    }
}

/// Dividing a nonnegative value by a positive one cannot increase it.
proof fn lemma_div_is_ordered_by_one(x: int, b: int)
    requires
        x >= 0,
        b > 0,
    ensures
        x / b <= x,
{
    lemma_div_multiples_vanish(x, 1);
    vstd::arithmetic::div_mod::lemma_div_is_ordered_by_denominator(x, 1, b);
}

/// Product of two fixed-point scalars, rounded toward zero.
pub fn fp_mul(a: i64, b: i64) -> (r: i64)
    requires
        -0x8000_0000 <= a <= 0x8000_0000,
        -0x8000_0000 <= b <= 0x8000_0000,
    ensures
        r as int == fp_mul_spec(a as int, b as int),
{
    proof {
        lemma_mul_bound(a as int, b as int, 0x8000_0000, 0x8000_0000);
    }
    let p: i64 = a * b;
    tdiv_i64(p, FP_ONE)
}

/// Quotient of two fixed-point scalars, rounded toward zero. The divisor
/// must be positive.
pub fn fp_div(a: i64, b: i64) -> (r: i64)
    requires
        b > 0,
        -0x4000_0000_0000 <= a <= 0x4000_0000_0000,
    ensures
        r as int == fp_div_spec(a as int, b as int),
{
    let p: i64 = a * FP_ONE;
    tdiv_i64(p, b)
}

/// Floor of the square root, by binary search on the root.
pub fn sqrt_u64(n: u64) -> (r: u64)
    ensures
        r as int == sqrt_floor(n as int),
        is_sqrt_floor(n as int, r as int),
{
    let mut lo: u64 = 0;
    let mut hi: u64 = 0x1_0000_0000;
    proof {
        assert((hi as int) * (hi as int) > n as int) by (nonlinear_arith)
            requires
                hi == 0x1_0000_0000,
                n <= 0xffff_ffff_ffff_ffff,
        ;
    }
    while hi - lo > 1
        invariant
            0 <= lo < hi <= 0x1_0000_0000,
            (lo as int) * (lo as int) <= n as int,
            (n as int) < (hi as int) * (hi as int),
        decreases hi - lo,
    {
        let mid: u64 = lo + (hi - lo) / 2;
        proof {
            assert((mid as int) * (mid as int) <= 0xffff_ffff_ffff_ffff) by (nonlinear_arith)
                requires
                    0 <= mid <= 0xffff_ffff,
            ;
        }
        if mid * mid <= n {
            lo = mid;
        } else {
            hi = mid;
        }
    }
    proof {
        assert(is_sqrt_floor(n as int, lo as int));
        lemma_sqrt_floor_is(n as int, lo as int);
    }
    lo
}

/// Floor of the square root of a nonnegative scalar at product scale
/// (`FP_ONE_SQ`); the result is at plain scale (`FP_ONE`).
pub fn sqrt_i64(n: i64) -> (r: i64)
    requires
        n >= 0,
    ensures
        r as int == sqrt_floor(n as int),
        is_sqrt_floor(n as int, r as int),
        0 <= r <= 0x1_0000_0000,
{
    let r: u64 = sqrt_u64(n as u64);
    proof {
        assert(r as int <= 0x1_0000_0000) by (nonlinear_arith)
            requires
                is_sqrt_floor(n as int, r as int),
                n <= i64::MAX as int,
        ;
    }
    r as i64
}

} // verus!
