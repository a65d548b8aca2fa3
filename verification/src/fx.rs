//! Fixed-point arithmetic for the audio engine.
//!
//! Samples and control values are integers scaled by `SCALE` (16 fractional
//! bits), so `SCALE` stands for 1.0. All signal math is done in `i64`, which
//! leaves ample headroom: every product formed in the engine stays far below
//! `i64::MAX`.

use vstd::prelude::*;

verus! {

/// Unity (1.0) in the Q16.16 fixed-point format.
pub const SCALE: i64 = 65536;

/// Truncating (round-toward-zero) integer division, the semantics of `/` on
/// Rust's signed integers. Spec-level `/` is Euclidean, so contracts about
/// executable division go through this function instead.
pub open spec fn tdiv(a: int, b: int) -> int
    recommends
        b > 0,
{
    if a >= 0 {
        a / b
    } else {
        -((-a) / b)
    }
}

/// Mathematical clamp of `x` into `[lo, hi]`.
pub open spec fn sclamp(x: int, lo: int, hi: int) -> int
    recommends
        lo <= hi,
{
    if x < lo {
        lo
    } else if x > hi {
        hi
    } else {
        x
    }
}

/// Executable truncating division; its result is pinned to `tdiv`.
#[inline]
pub fn dtz(a: i64, b: i64) -> (r: i64)
    requires
        b > 0,
    ensures
        r == tdiv(a as int, b as int),
{
    a / b
}

/// Executable clamp; its result is pinned to `sclamp`.
#[inline]
pub fn clamp_i64(x: i64, lo: i64, hi: i64) -> (r: i64)
    requires
        lo <= hi,
    ensures
        r == sclamp(x as int, lo as int, hi as int),
{
    if x < lo {
        lo
    } else if x > hi {
        hi
    } else {
        x
    }
}

/// Truncating division never grows a magnitude: if `-c <= a <= c` then
/// `tdiv(a, b)` lies within `[-(c / b), c / b]`.
pub proof fn lemma_tdiv_mag(a: int, c: int, b: int)
    requires
        b > 0,
        0 <= c,
        -c <= a <= c,
    ensures
        -(c / b) <= tdiv(a, b) <= c / b,
{
    if a >= 0 {
        vstd::arithmetic::div_mod::lemma_div_is_ordered(a, c, b);
        vstd::arithmetic::div_mod::lemma_div_pos_is_pos(a, b);
        assert(c / b >= 0) by {
            vstd::arithmetic::div_mod::lemma_div_pos_is_pos(c, b);
        }
    } else {
        vstd::arithmetic::div_mod::lemma_div_is_ordered(-a, c, b);
        vstd::arithmetic::div_mod::lemma_div_pos_is_pos(-a, b);
    }
}

/// Truncating division moves a value toward zero and never past it.
pub proof fn lemma_tdiv_toward_zero(a: int, b: int)
    requires
        b > 0,
    ensures
        a >= 0 ==> 0 <= tdiv(a, b) <= a,
        a <= 0 ==> a <= tdiv(a, b) <= 0,
{
    if a >= 0 {
        vstd::arithmetic::div_mod::lemma_div_pos_is_pos(a, b);
        vstd::arithmetic::div_mod::lemma_div_nonincreasing(a, b);
    } else {
        vstd::arithmetic::div_mod::lemma_div_pos_is_pos(-a, b);
        vstd::arithmetic::div_mod::lemma_div_nonincreasing(-a, b);
    }
}

/// Dividing an exact multiple by the scale recovers the factor:
/// `tdiv(v * SCALE, SCALE) == v`.
pub proof fn lemma_tdiv_multiple(v: int, b: int)
    requires
        b > 0,
    ensures
        tdiv(v * b, b) == v,
{
    if v >= 0 {
        assert(v * b >= 0) by (nonlinear_arith)
            requires
                v >= 0,
                b > 0,
        ;
        vstd::arithmetic::div_mod::lemma_div_multiples_vanish(v, b);
        assert(v * b == b * v) by (nonlinear_arith);
    } else {
        assert(v * b < 0) by (nonlinear_arith)
            requires
                v < 0,
                b > 0,
        ;
        vstd::arithmetic::div_mod::lemma_div_multiples_vanish(-v, b);
        assert(-(v * b) == b * (-v)) by (nonlinear_arith);
    }
}

/// The scaled product of a bounded sample and a nonnegative gain is bounded
/// by the gain: `|s| <= SCALE` and `0 <= g` give `|tdiv(s * g, SCALE)| <= g`.
pub proof fn lemma_gain_bound(s: int, g: int)
    requires
        -SCALE <= s <= SCALE,
        0 <= g,
    ensures
        -g <= tdiv(s * g, SCALE as int) <= g,
{
    assert(0 <= (SCALE as int) * g && -((SCALE as int) * g) <= s * g <= (SCALE as int) * g)
        by (nonlinear_arith)
        requires
            -SCALE <= s <= SCALE,
            0 <= g,
    ;
    lemma_tdiv_mag(s * g, (SCALE as int) * g, SCALE as int);
    assert(((SCALE as int) * g) / (SCALE as int) == g) by {
        vstd::arithmetic::div_mod::lemma_div_multiples_vanish(g, SCALE as int);
    }
}

/// General form of the gain bound: a value within `m` full-scale units,
/// multiplied by a nonnegative gain and rescaled, stays within `m` copies of
/// the gain.
pub proof fn lemma_gain_bound_units(s: int, m: int, g: int)
    requires
        0 <= m,
        -m * SCALE <= s <= m * SCALE,
        0 <= g,
    ensures
        -(m * g) <= tdiv(s * g, SCALE as int) <= m * g,
{
    assert(0 <= (SCALE as int) * (m * g) && -((SCALE as int) * (m * g)) <= s * g <= (SCALE as int)
        * (m * g)) by (nonlinear_arith)
        requires
            -m * SCALE <= s <= m * SCALE,
            0 <= g,
            0 <= m,
    ;
    lemma_tdiv_mag(s * g, (SCALE as int) * (m * g), SCALE as int);
    assert(((SCALE as int) * (m * g)) / (SCALE as int) == m * g) by {
        vstd::arithmetic::div_mod::lemma_div_multiples_vanish(m * g, SCALE as int);
    }
}

/// Scaling a value bounded by `g` with an envelope weight in `[0, SCALE]`
/// keeps it bounded by `g`.
pub proof fn lemma_scale_by_env(s: int, g: int, w: int)
    requires
        0 <= g,
        -g <= s <= g,
        0 <= w <= SCALE,
    ensures
        -g <= tdiv(s * w, SCALE as int) <= g,
{
    assert(0 <= g * (SCALE as int) && -(g * (SCALE as int)) <= s * w <= g * (SCALE as int))
        by (nonlinear_arith)
        requires
            0 <= g,
            -g <= s <= g,
            0 <= w <= SCALE,
    ;
    lemma_tdiv_mag(s * w, g * (SCALE as int), SCALE as int);
    assert((g * (SCALE as int)) / (SCALE as int) == g) by {
        vstd::arithmetic::mul::lemma_mul_is_commutative(g, SCALE as int);
        vstd::arithmetic::div_mod::lemma_div_multiples_vanish(g, SCALE as int);
    }
}

/// Floor division distributes sub-additively over a sum of nonnegative
/// numerators.
pub proof fn lemma_div_sum_le(a: int, b: int, d: int)
    requires
        0 <= a,
        0 <= b,
        0 < d,
    ensures
        a / d + b / d <= (a + b) / d,
{
    vstd::arithmetic::div_mod::lemma_fundamental_div_mod(a, d);
    vstd::arithmetic::div_mod::lemma_fundamental_div_mod(b, d);
    vstd::arithmetic::div_mod::lemma_fundamental_div_mod(a + b, d);
    vstd::arithmetic::div_mod::lemma_mod_bound(a, d);
    vstd::arithmetic::div_mod::lemma_mod_bound(b, d);
    vstd::arithmetic::div_mod::lemma_mod_bound(a + b, d);
    let x = a / d + b / d;
    let y = (a + b) / d;
    assert(d * x == d * (a / d) + d * (b / d)) by (nonlinear_arith)
        requires
            x == a / d + b / d,
    ;
    assert(x <= y) by (nonlinear_arith)
        requires
            d * x <= d * y + d - 1,
            d > 0,
    ;
}

/// Truncating division sits at most one unit above floor (Euclidean)
/// division.
pub proof fn lemma_tdiv_vs_floor(v: int, s: int)
    requires
        s > 0,
    ensures
        v / s <= tdiv(v, s) <= v / s + 1,
{
    if v < 0 {
        let q = (-v) / s;
        let r = (-v) % s;
        vstd::arithmetic::div_mod::lemma_fundamental_div_mod(-v, s);
        vstd::arithmetic::div_mod::lemma_mod_bound(-v, s);
        if r == 0 {
            assert(v == s * (-q)) by (nonlinear_arith)
                requires
                    -v == s * q + r,
                    r == 0,
            ;
            vstd::arithmetic::div_mod::lemma_div_multiples_vanish(-q, s);
        } else {
            assert(v == s * (-q - 1) + (s - r)) by (nonlinear_arith)
                requires
                    -v == s * q + r,
            ;
            vstd::arithmetic::div_mod::lemma_fundamental_div_mod_converse_div(v, s, -q - 1, s - r);
        }
    }
}

/// Floor division of a sum, against the sum of floor divisions.
pub proof fn lemma_div_add_bound(b: int, d: int, s: int)
    requires
        s > 0,
    ensures
        b / s + d / s <= (b + d) / s <= b / s + d / s + 1,
{
    let qb = b / s;
    let rb = b % s;
    let qd = d / s;
    let rd = d % s;
    vstd::arithmetic::div_mod::lemma_fundamental_div_mod(b, s);
    vstd::arithmetic::div_mod::lemma_mod_bound(b, s);
    vstd::arithmetic::div_mod::lemma_fundamental_div_mod(d, s);
    vstd::arithmetic::div_mod::lemma_mod_bound(d, s);
    if rb + rd < s {
        assert(b + d == s * (qb + qd) + (rb + rd)) by (nonlinear_arith)
            requires
                b == s * qb + rb,
                d == s * qd + rd,
        ;
        vstd::arithmetic::div_mod::lemma_fundamental_div_mod_converse_div(b + d, s, qb + qd, rb + rd);
    } else {
        assert(b + d == s * (qb + qd + 1) + (rb + rd - s)) by (nonlinear_arith)
            requires
                b == s * qb + rb,
                d == s * qd + rd,
        ;
        vstd::arithmetic::div_mod::lemma_fundamental_div_mod_converse_div(
            b + d,
            s,
            qb + qd + 1,
            rb + rd - s,
        );
    }
}

/// Two truncating divisions by the same divisor differ by at most the
/// divided difference, give or take two units of rounding.
pub proof fn lemma_tdiv_diff(a: int, b: int, s: int)
    requires
        s > 0,
    ensures
        -((vstd::math::abs(a - b) as int) / s) - 2 <= tdiv(a, s) - tdiv(b, s) <= (vstd::math::abs(a - b) as int) / s
            + 2,
{
    lemma_tdiv_vs_floor(a, s);
    lemma_tdiv_vs_floor(b, s);
    let d = a - b;
    lemma_div_add_bound(b, d, s);
    if d < 0 {
        lemma_tdiv_vs_floor(d, s);
    }
}

/// Truncating division leaves a remainder smaller than the divisor:
/// `|v - b * tdiv(v, b)| <= b - 1`.
pub proof fn lemma_tdiv_remainder(v: int, b: int)
    requires
        b > 0,
    ensures
        -(b - 1) <= v - b * tdiv(v, b) <= b - 1,
{
    if v >= 0 {
        vstd::arithmetic::div_mod::lemma_fundamental_div_mod(v, b);
        vstd::arithmetic::div_mod::lemma_mod_bound(v, b);
    } else {
        vstd::arithmetic::div_mod::lemma_fundamental_div_mod(-v, b);
        vstd::arithmetic::div_mod::lemma_mod_bound(-v, b);
        assert(v - b * (-((-v) / b)) == -((-v) - b * ((-v) / b))) by (nonlinear_arith);
    }
}

/// Taking a nonnegative slice `a` off a nonnegative numerator `x` lowers the
/// floor quotient by at most `a / s + 1`.
pub proof fn lemma_div_diff_bound(x: int, a: int, s: int)
    requires
        0 <= a <= x,
        0 < s,
    ensures
        0 <= x / s - (x - a) / s <= a / s + 1,
{
    vstd::arithmetic::div_mod::lemma_div_is_ordered(x - a, x, s);
    lemma_div_add_bound(x - a, a, s);
}

/// A convex blend of two bounded samples is bounded: with weights
/// `w1 + w2 <= SCALE` and `|x|, |y| <= m`, the blended value
/// `tdiv(x * w1 + y * w2, SCALE)` stays within `[-m, m]`.
pub proof fn lemma_blend_bound(x: int, y: int, w1: int, w2: int, m: int)
    requires
        0 <= m,
        -m <= x <= m,
        -m <= y <= m,
        0 <= w1,
        0 <= w2,
        w1 + w2 <= SCALE,
    ensures
        -m <= tdiv(x * w1 + y * w2, SCALE as int) <= m,
{
    assert(-m * w1 <= x * w1 <= m * w1) by (nonlinear_arith)
        requires
            -m <= x <= m,
            0 <= w1,
    ;
    assert(-m * w2 <= y * w2 <= m * w2) by (nonlinear_arith)
        requires
            -m <= y <= m,
            0 <= w2,
    ;
    assert(m * w1 + m * w2 <= m * SCALE) by (nonlinear_arith)
        requires
            0 <= m,
            w1 + w2 <= SCALE,
    ;
    assert(-m * w1 + -m * w2 == -(m * w1 + m * w2)) by (nonlinear_arith);
    lemma_tdiv_mag(x * w1 + y * w2, m * (SCALE as int), SCALE as int);
    assert((m * (SCALE as int)) / (SCALE as int) == m) by {
        assert(m * (SCALE as int) >= 0) by (nonlinear_arith)
            requires
                m >= 0,
        ;
        vstd::arithmetic::div_mod::lemma_div_multiples_vanish(m, SCALE as int);
    }
}

} // verus!
