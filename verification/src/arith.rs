//! Flooring division and modulus on machine integers.
//!
//! Beat arithmetic reduces values modulo a positive quantum with floor
//! semantics, so that negative beat values land in the upper part of the
//! `[0, quantum)` interval. Rust's built-in integer division truncates toward
//! zero instead, so the operations are built here from unsigned division and
//! proved equal to the mathematical (Euclidean) `/` and `%`, which coincide
//! with flooring for a positive divisor.

use vstd::arithmetic::div_mod::lemma_div_is_ordered;
use vstd::arithmetic::div_mod::lemma_fundamental_div_mod;
use vstd::arithmetic::div_mod::lemma_fundamental_div_mod_converse;
use vstd::arithmetic::div_mod::lemma_mod_division_less_than_divisor;
use vstd::arithmetic::mul::lemma_mul_is_commutative;
use vstd::arithmetic::mul::lemma_mul_unary_negation;
use vstd::prelude::*;

verus! {

/// Flooring quotient of `a` by a positive divisor `d`.
///
/// The result equals the mathematical quotient `a / d` of ghost arithmetic,
/// which rounds toward negative infinity when `d` is positive.
pub fn floor_div_i128(a: i128, d: i128) -> (q: i128)
    requires
        1 <= d,
        i128::MIN < a,
    ensures
        q == a as int / d as int,
{
    if a >= 0 {
        let qu: u128 = (a as u128) / (d as u128);
        proof {
            lemma_div_is_ordered(a as int, i128::MAX as int, d as int);
            lemma_div_is_ordered(0, a as int, d as int);
            lemma_max_div_is_max(d as int);
        }
        qu as i128
    } else {
        let m: i128 = -a;
        let s: u128 = (m as u128) + (d as u128) - 1;
        let qc: u128 = s / (d as u128);
        proof {
            lemma_ceil_quotient_bounded(m as int, d as int);
            lemma_neg_floor_div(a as int, d as int, qc as int);
        }
        -(qc as i128)
    }
}

/// Flooring remainder of `a` by a positive divisor `d`.
///
/// The result equals the mathematical remainder `a % d` of ghost arithmetic,
/// which lies in `[0, d)` when `d` is positive.
pub fn floor_mod_i128(a: i128, d: i128) -> (r: i128)
    requires
        1 <= d,
        i128::MIN < a,
    ensures
        r == a as int % d as int,
{
    proof {
        lemma_mod_division_less_than_divisor(a as int, d as int);
    }
    if a >= 0 {
        let ru: u128 = (a as u128) % (d as u128);
        ru as i128
    } else {
        let m: i128 = -a;
        let rm: u128 = (m as u128) % (d as u128);
        proof {
            lemma_neg_floor_mod(a as int, d as int, rm as int);
        }
        if rm == 0 {
            0
        } else {
            ((d as u128) - rm) as i128
        }
    }
}

/// The magnitude of a flooring quotient never exceeds the magnitude of the
/// dividend when the divisor is positive.
pub proof fn lemma_floor_div_magnitude(a: int, d: int)
    requires
        1 <= d,
    ensures
        0 <= a ==> 0 <= a / d <= a,
        a < 0 ==> a <= a / d <= 0,
{
    if a >= 0 {
        vstd::arithmetic::div_mod::lemma_div_pos_is_pos(a, d);
        vstd::arithmetic::div_mod::lemma_div_nonincreasing(a, d);
    } else {
        lemma_fundamental_div_mod(a, d);
        lemma_mod_division_less_than_divisor(a, d);
        let q = a / d;
        let r = a % d;
        assert(a <= q <= 0) by (nonlinear_arith)
            requires
                a == d * q + r,
                0 <= r < d,
                1 <= d,
                a < 0,
        ;
    }
}

/// The largest `i128` value divided by any positive divisor stays within
/// the `i128` range.
proof fn lemma_max_div_is_max(d: int)
    requires
        1 <= d,
    ensures
        i128::MAX as int / d <= i128::MAX as int,
{
    lemma_fundamental_div_mod(i128::MAX as int, d);
    lemma_mod_division_less_than_divisor(i128::MAX as int, d);
    let q = i128::MAX as int / d;
    if q > i128::MAX as int {
        lemma_mul_is_commutative(d, q);
        vstd::arithmetic::mul::lemma_mul_increases(q, d);
    }
}

/// The rounded-up quotient `(m + d - 1) / d` of positive `m` by positive `d`
/// is at most `m`.
proof fn lemma_ceil_quotient_bounded(m: int, d: int)
    requires
        1 <= d,
        1 <= m,
    ensures
        (m + d - 1) / d <= m,
{
    assert(m <= d * m) by (nonlinear_arith)
        requires
            1 <= d,
            1 <= m,
    ;
    lemma_mul_is_commutative(d, m);
    lemma_fundamental_div_mod_converse(d * m + d - 1, d, m, d - 1);
    lemma_div_is_ordered(m + d - 1, d * m + d - 1, d);
}

/// For negative `a` with magnitude `m`, the rounded-up quotient `qc` of
/// `m` by `d` satisfies `a / d == -qc`.
proof fn lemma_neg_floor_div(a: int, d: int, qc: int)
    requires
        1 <= d,
        a < 0,
        qc == (-a + d - 1) / d,
    ensures
        a / d == -qc,
{
    let s = -a + d - 1;
    lemma_fundamental_div_mod(s, d);
    lemma_mod_division_less_than_divisor(s, d);
    let rc = s % d;
    let r = d - 1 - rc;
    lemma_mul_is_commutative(d, qc);
    lemma_mul_unary_negation(qc, d);
    assert(a == (-qc) * d + r);
    lemma_fundamental_div_mod_converse(a, d, -qc, r);
}

/// For negative `a` with magnitude `m`, the remainder of `a` modulo `d` is
/// `0` when `d` divides `m`, and `d - (m % d)` otherwise.
proof fn lemma_neg_floor_mod(a: int, d: int, rm: int)
    requires
        1 <= d,
        a < 0,
        rm == (-a) % d,
    ensures
        rm == 0 ==> a % d == 0,
        rm != 0 ==> a % d == d - rm,
{
    let m = -a;
    lemma_fundamental_div_mod(m, d);
    lemma_mod_division_less_than_divisor(m, d);
    let qm = m / d;
    lemma_mul_is_commutative(d, qm);
    lemma_mul_unary_negation(qm, d);
    if rm == 0 {
        assert(a == (-qm) * d + 0);
        lemma_fundamental_div_mod_converse(a, d, -qm, 0);
    } else {
        vstd::arithmetic::mul::lemma_mul_is_distributive_add_other_way(d, -qm, -1);
        assert(a == (-qm - 1) * d + (d - rm));
        lemma_fundamental_div_mod_converse(a, d, -qm - 1, d - rm);
    }
}

} // verus!
