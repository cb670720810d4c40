//! Round-to-nearest integer division.
//!
//! The engine's geometry is specified over real-valued ratios that are always
//! rounded to whole pixels. `round_div(a, b)` is `a / b` rounded to the
//! nearest integer (halves round up), computed exactly in integers as
//! `(2a + b) / (2b)` with floor division.

use vstd::arithmetic::div_mod::{
    lemma_div_is_ordered, lemma_div_multiples_vanish, lemma_div_pos_is_pos,
    lemma_fundamental_div_mod, lemma_mod_bound, lemma_multiply_divide_lt,
};
use vstd::prelude::*;

verus! {

/// `a / b` rounded to the nearest integer, halves rounding up.
pub open spec fn round_div(a: int, b: int) -> int
    recommends
        b >= 1,
{
    (2 * a + b) / (2 * b)
}

/// Rounding a quotient of non-negative numbers never goes below zero.
pub proof fn lemma_round_div_nonneg(a: int, b: int)
    requires
        a >= 0,
        b >= 1,
    ensures
        round_div(a, b) >= 0,
{
    lemma_div_pos_is_pos(2 * a + b, 2 * b);
}

/// Rounding a quotient with a divisor of at least one never exceeds the
/// dividend.
pub proof fn lemma_round_div_le_num(a: int, b: int)
    requires
        a >= 0,
        b >= 1,
    ensures
        round_div(a, b) <= a,
{
    assert(2 * a + b < (2 * b) * (a + 1)) by (nonlinear_arith)
        requires
            a >= 0,
            b >= 1,
    ;
    lemma_multiply_divide_lt(2 * a + b, 2 * b, a + 1);
}

/// If `a <= b * c`, the rounded quotient `a / b` is at most `c`.
pub proof fn lemma_round_div_le_bound(a: int, b: int, c: int)
    requires
        0 <= a,
        a <= b * c,
        b >= 1,
        c >= 0,
    ensures
        round_div(a, b) <= c,
{
    assert(2 * a + b < (2 * b) * (c + 1)) by (nonlinear_arith)
        requires
            a <= b * c,
            b >= 1,
    ;
    lemma_multiply_divide_lt(2 * a + b, 2 * b, c + 1);
}

/// The rounded quotient sits within half a divisor of the true ratio:
/// `|a - round_div(a, b) * b| * 2 <= b`.
pub proof fn lemma_round_div_error(a: int, b: int)
    requires
        a >= 0,
        b >= 1,
    ensures
        2 * (a - round_div(a, b) * b) <= b,
        2 * (round_div(a, b) * b - a) <= b,
{
    let q = round_div(a, b);
    let r = (2 * a + b) % (2 * b);
    lemma_fundamental_div_mod(2 * a + b, 2 * b);
    lemma_mod_bound(2 * a + b, 2 * b);
    assert(2 * (a - q * b) == r - b && 2 * (q * b - a) == b - r) by (nonlinear_arith)
        requires
            2 * a + b == (2 * b) * q + r,
    ;
}

/// Floor division is monotone across cross-multiplied fractions: if
/// `p2 / q2 <= p1 / q1` as rationals, the integer quotients are ordered the
/// same way.
pub proof fn lemma_div_cross_mono(p1: int, q1: int, p2: int, q2: int)
    requires
        p1 >= 0,
        p2 >= 0,
        q1 >= 1,
        q2 >= 1,
        p2 * q1 <= p1 * q2,
    ensures
        p2 / q2 <= p1 / q1,
{
    let f2 = p2 / q2;
    lemma_div_pos_is_pos(p2, q2);
    lemma_fundamental_div_mod(p2, q2);
    lemma_mod_bound(p2, q2);
    assert(p2 >= q2 * f2);
    assert(p1 >= f2 * q1) by (nonlinear_arith)
        requires
            p2 >= q2 * f2,
            p2 * q1 <= p1 * q2,
            q1 >= 1,
            q2 >= 1,
            f2 >= 0,
    ;
    lemma_div_multiples_vanish(f2, q1);
    lemma_div_is_ordered(f2 * q1, p1, q1);
}

/// Rounded division is monotone across cross-multiplied fractions: if
/// `a2 / b2 <= a1 / b1` as rationals, so are the rounded quotients.
pub proof fn lemma_round_div_mono(a1: int, b1: int, a2: int, b2: int)
    requires
        a1 >= 0,
        a2 >= 0,
        b1 >= 1,
        b2 >= 1,
        a2 * b1 <= a1 * b2,
    ensures
        round_div(a2, b2) <= round_div(a1, b1),
{
    assert((2 * a2 + b2) * (2 * b1) <= (2 * a1 + b1) * (2 * b2)) by (nonlinear_arith)
        requires
            a2 * b1 <= a1 * b2,
            b1 >= 1,
            b2 >= 1,
    ;
    lemma_div_cross_mono(2 * a1 + b1, 2 * b1, 2 * a2 + b2, 2 * b2);
}

/// Computes `round_div` on machine integers.
pub fn round_div_u64(a: u64, b: u64) -> (r: u64)
    requires
        b >= 1,
    ensures
        r as int == round_div(a as int, b as int),
        r <= a,
{
    proof {
        lemma_round_div_nonneg(a as int, b as int);
        lemma_round_div_le_num(a as int, b as int);
    }
    let wide: u128 = (2 * (a as u128) + (b as u128)) / (2 * (b as u128));
    wide as u64
}

} // verus!
