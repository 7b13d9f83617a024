//! Fixed-point arithmetic shared by every system.
//!
//! Continuous quantities (metrics, climate readings, weights) are stored as
//! signed integers counting millionths of a unit. All products and quotients
//! round toward negative infinity, which is how `/` behaves on `int` with a
//! positive divisor, so contracts can be written in plain integer arithmetic.

use vstd::prelude::*;
use vstd::arithmetic::div_mod::lemma_fundamental_div_mod_converse;
use vstd::arithmetic::div_mod::lemma_div_is_ordered;
use vstd::arithmetic::div_mod::lemma_div_pos_is_pos;
use vstd::arithmetic::div_mod::lemma_fundamental_div_mod;
use vstd::arithmetic::mul::lemma_mul_upper_bound;
use vstd::arithmetic::mul::lemma_mul_nonnegative;

verus! {

/// Number of stored steps per unit: a stored `1_000_000` means `1.0`.
pub const SCALE: i64 = 1_000_000;

/// `x` limited to the closed interval `[lo, hi]`.
pub open spec fn clamp_int(x: int, lo: int, hi: int) -> int {
    if x < lo {
        lo
    } else if x > hi {
        hi
    } else {
        x
    }
}

/// `x * num / den`, rounded down.
pub open spec fn scaled(x: int, num: int, den: int) -> int {
    (x * num) / den
}

/// `(n * num + den / 2) / den`: the fraction `num / den` of a count, rounded to nearest.
pub open spec fn rounded_share(n: int, num: int, den: int) -> int {
    (n * num + den / 2) / den
}

pub fn clamp(x: i64, lo: i64, hi: i64) -> (r: i64)
    requires
        lo <= hi,
    ensures
        r == clamp_int(x as int, lo as int, hi as int),
{
    if x < lo {
        lo
    } else if x > hi {
        hi
    } else {
        x
    }
}

/// Absolute difference of two stored values.
pub open spec fn abs_diff(a: int, b: int) -> int {
    if a >= b {
        a - b
    } else {
        b - a
    }
}

/// The product of two 64-bit values always fits in 128 bits.
pub proof fn lemma_product_fits(a: int, b: int)
    requires
        -0x8000_0000_0000_0000 <= a <= 0x7fff_ffff_ffff_ffff,
        -0x8000_0000_0000_0000 <= b <= 0x7fff_ffff_ffff_ffff,
    ensures
        -0x4000_0000_0000_0000_0000_0000_0000_0000 <= a * b
            <= 0x4000_0000_0000_0000_0000_0000_0000_0000,
{
    assert(-0x4000_0000_0000_0000_0000_0000_0000_0000 <= a * b
        <= 0x4000_0000_0000_0000_0000_0000_0000_0000) by (nonlinear_arith)
        requires
            -0x8000_0000_0000_0000 <= a <= 0x7fff_ffff_ffff_ffff,
            -0x8000_0000_0000_0000 <= b <= 0x7fff_ffff_ffff_ffff,
    ;
}

/// Division rounding toward negative infinity, for any sign of the dividend.
fn floor_div(a: i128, d: i128) -> (q: i128)
    requires
        d > 0,
        a > i128::MIN,
    ensures
        q == (a as int) / (d as int),
{
    if a >= 0 {
        a / d
    } else {
        let n: i128 = -a;
        let t: i128 = n / d;
        let rem: i128 = n % d;
        proof {
            lemma_fundamental_div_mod(n as int, d as int);
            assert(n == d * t + rem);
        }
        if rem == 0 {
            proof {
                assert(a as int == (-t) * d + 0) by (nonlinear_arith)
                    requires
                        n == d * t + rem,
                        rem == 0,
                        a == -n,
                ;
                lemma_fundamental_div_mod_converse(a as int, d as int, -t as int, 0);
            }
            -t
        } else {
            proof {
                assert(a as int == (-t - 1) * d + (d - rem)) by (nonlinear_arith)
                    requires
                        n == d * t + rem,
                        a == -n,
                ;
                lemma_fundamental_div_mod_converse(
                    a as int,
                    d as int,
                    (-t - 1) as int,
                    (d - rem) as int,
                );
            }
            -t - 1
        }
    }
}

/// `x * num / den` rounded down and then limited to `[lo, hi]`.
///
/// The product is formed in 128 bits, so no input can overflow.
pub fn scale_clamped(x: i64, num: i64, den: i64, lo: i64, hi: i64) -> (r: i64)
    requires
        den > 0,
        lo <= hi,
    ensures
        r == clamp_int(scaled(x as int, num as int, den as int), lo as int, hi as int),
{
    proof {
        lemma_product_fits(x as int, num as int);
    }
    let prod: i128 = (x as i128) * (num as i128);
    let q: i128 = floor_div(prod, den as i128);
    if q < lo as i128 {
        lo
    } else if q > hi as i128 {
        hi
    } else {
        q as i64
    }
}

/// `x * num / den` rounded down, for results that fit in 64 bits.
pub fn scale(x: i64, num: i64, den: i64) -> (r: i64)
    requires
        den > 0,
        i64::MIN <= scaled(x as int, num as int, den as int) <= i64::MAX,
    ensures
        r == scaled(x as int, num as int, den as int),
{
    scale_clamped(x, num, den, i64::MIN, i64::MAX)
}

/// Bounds on a scaled non-negative value with a non-negative factor.
pub proof fn lemma_scaled_bounds(x: int, num: int, den: int, xmax: int, nmax: int)
    requires
        0 <= x <= xmax,
        0 <= num <= nmax,
        den > 0,
    ensures
        0 <= scaled(x, num, den) <= scaled(xmax, nmax, den),
{
    lemma_mul_nonnegative(x, num);
    lemma_mul_upper_bound(x, xmax, num, nmax);
    lemma_div_pos_is_pos(x * num, den);
    lemma_div_is_ordered(x * num, xmax * nmax, den);
}

/// A fraction of at most one never enlarges a non-negative value.
pub proof fn lemma_scaled_shrinks(x: int, num: int, den: int)
    requires
        0 <= x,
        0 <= num <= den,
        den > 0,
    ensures
        0 <= scaled(x, num, den) <= x,
{
    lemma_scaled_bounds(x, num, den, x, den);
    assert((x * den) / den == x) by (nonlinear_arith)
        requires
            den > 0,
    ;
}

/// The fraction `num / den` of a count, rounded down.
pub fn share(n: u64, num: u64, den: u64) -> (r: u64)
    requires
        den > 0,
        num <= den,
    ensures
        r == scaled(n as int, num as int, den as int),
        r <= n,
{
    proof {
        lemma_scaled_shrinks(n as int, num as int, den as int);
        assert(0 <= (n as int) * (num as int) <= 0xffff_ffff_ffff_ffff * 0xffff_ffff_ffff_ffff)
            by (nonlinear_arith)
            requires
                0 <= n <= 0xffff_ffff_ffff_ffff,
                0 <= num <= 0xffff_ffff_ffff_ffff,
        ;
    }
    let prod: u128 = (n as u128) * (num as u128);
    let q: u128 = prod / (den as u128);
    q as u64
}

/// The fraction `num / den` of a count, rounded to the nearest whole number.
pub fn share_rounded(n: u64, num: u64, den: u64) -> (r: u64)
    requires
        den > 0,
        2 * num <= den,
    ensures
        r == rounded_share(n as int, num as int, den as int),
        r <= n,
{
    proof {
        assert(0 <= (n as int) * (num as int) <= 0xffff_ffff_ffff_ffff * 0xffff_ffff_ffff_ffff)
            by (nonlinear_arith)
            requires
                0 <= n <= 0xffff_ffff_ffff_ffff,
                0 <= num <= 0xffff_ffff_ffff_ffff,
        ;
    }
    let prod: u128 = (n as u128) * (num as u128) + (den as u128) / 2;
    let q: u128 = prod / (den as u128);
    proof {
        let ni = n as int;
        let numi = num as int;
        let deni = den as int;
        if ni == 0 {
            assert(ni * numi == 0) by (nonlinear_arith)
                requires
                    ni == 0,
            ;
            assert((deni / 2) / deni == 0) by (nonlinear_arith)
                requires
                    deni > 0,
            ;
        } else {
            assert(ni * numi + deni / 2 <= ni * deni) by (nonlinear_arith)
                requires
                    ni >= 1,
                    0 <= 2 * numi <= deni,
                    deni > 0,
            ;
            lemma_div_is_ordered(ni * numi + deni / 2, ni * deni, deni);
            assert((ni * deni) / deni == ni) by (nonlinear_arith)
                requires
                    deni > 0,
            ;
        }
    }
    q as u64
}

/// The value at `x` on the straight line from `(x0, y0)` to `(x1, y1)`, rounded down.
pub open spec fn between(x: int, x0: int, y0: int, x1: int, y1: int) -> int {
    y0 + scaled(x - x0, y1 - y0, x1 - x0)
}

/// Reads a value off the straight line between two points.
pub fn interpolate(x: i64, x0: i64, y0: i64, x1: i64, y1: i64) -> (r: i64)
    requires
        x0 <= x <= x1,
        x0 < x1,
        -1_000_000_000_000 <= x0,
        x1 <= 1_000_000_000_000,
        -1_000_000_000_000 <= y0 <= 1_000_000_000_000,
        -1_000_000_000_000 <= y1 <= 1_000_000_000_000,
    ensures
        r == between(x as int, x0 as int, y0 as int, x1 as int, y1 as int),
        y0 <= y1 ==> y0 <= r <= y1,
        y1 <= y0 ==> y1 <= r <= y0,
{
    proof {
        let dx = (x - x0) as int;
        let span = (x1 - x0) as int;
        let dy = (y1 - y0) as int;
        if dy >= 0 {
            lemma_scaled_bounds(dx, dy, span, span, dy);
            assert((span * dy) / span == dy) by (nonlinear_arith)
                requires
                    span > 0,
            ;
        } else {
            assert(dy <= (dx * dy) / span <= 0) by (nonlinear_arith)
                requires
                    0 <= dx <= span,
                    span > 0,
                    dy < 0,
            ;
        }
    }
    y0 + scale(x - x0, y1 - y0, x1 - x0)
}

} // verus!
