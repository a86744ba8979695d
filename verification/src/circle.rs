//! Exact arithmetic on a circle of integer period.
//!
//! Angles that differ by a whole number of turns describe the same direction,
//! so the payload of an angle is best read modulo the period of its unit
//! (360 for degrees, or any other positive period at a finer grain). This
//! module folds values into one period and computes the shortest separation
//! of two values along the circle.

use vstd::arithmetic::div_mod::{
    lemma_fundamental_div_mod, lemma_mod_bound, lemma_mod_multiples_basic,
    lemma_mod_multiples_vanish, lemma_small_mod, lemma_sub_mod_noop,
};
use vstd::prelude::*;

verus! {

/// The residue of `a - b` on a circle of period `p`: the euclidean
/// remainder, which lies in `[0, p)`.
pub open spec fn circ_delta(a: int, b: int, p: int) -> int
    recommends
        0 < p,
{
    (a - b) % p
}

/// The shortest separation between `a` and `b` along a circle of period
/// `p`: the smaller of the two arcs that join them.
pub open spec fn circ_dist(a: int, b: int, p: int) -> int
    recommends
        0 < p,
{
    let d = circ_delta(a, b, p);
    if d <= p - d {
        d
    } else {
        p - d
    }
}

/// Fold a value into the half-open interval `[0, p)`, keeping its residue
/// class modulo the period `p`. A value already in the interval is returned
/// unchanged; otherwise the remainder is taken, and a negative remainder
/// (as truncating division yields on negative operands) is pushed back into
/// range by one more period.
pub fn normalize_value(v: i64, p: i64) -> (r: i64)
    requires
        0 < p,
    ensures
        0 <= r < p,
        r as int % p as int == v as int % p as int,
        0 <= v < p ==> r == v,
{
    if 0 <= v && v < p {
        proof {
            lemma_small_mod(v as nat, p as nat);
        }
        v
    } else {
        let t: i64 = v % p;
        if t >= 0 {
            proof {
                if v >= 0 {
                    lemma_small_mod(t as nat, p as nat);
                } else {
                    let q = (-(v as int)) / (p as int);
                    lemma_mod_bound(-(v as int), p as int);
                    lemma_fundamental_div_mod(-(v as int), p as int);
                    assert(t == 0);
                    assert(v as int == (-q) * (p as int)) by (nonlinear_arith)
                        requires
                            -(v as int) == (p as int) * q + 0,
                    ;
                    lemma_mod_multiples_basic(-q, p as int);
                    lemma_small_mod(0nat, p as nat);
                }
            }
            t
        } else {
            proof {
                let q = (-(v as int)) / (p as int);
                let w = (-(v as int)) % (p as int);
                lemma_mod_bound(-(v as int), p as int);
                lemma_fundamental_div_mod(-(v as int), p as int);
                assert(t as int == -w);
                assert((p as int) * (-q - 1) == -((p as int) * q) - (p as int))
                    by (nonlinear_arith);
                assert((p as int) * (-q - 1) + ((t + p) as int) == v as int);
                lemma_mod_multiples_vanish(-q - 1, (t + p) as int, p as int);
                lemma_small_mod((t + p) as nat, p as nat);
            }
            t + p
        }
    }
}

/// Within one period there is exactly one value of each residue class:
/// the folded value that [`normalize_value`] yields is the one canonical
/// representative of its direction.
pub proof fn lemma_normal_form_unique(x: int, y: int, p: int)
    requires
        0 < p,
        0 <= x < p,
        0 <= y < p,
        x % p == y % p,
    ensures
        x == y,
{
    lemma_small_mod(x as nat, p as nat);
    lemma_small_mod(y as nat, p as nat);
}

/// The two arcs that join `a` and `b` make up the whole circle, so their
/// shortest separation does not depend on the order of the operands.
pub proof fn lemma_circ_dist_symmetric(a: int, b: int, p: int)
    requires
        0 < p,
    ensures
        circ_dist(a, b, p) == circ_dist(b, a, p),
{
    let x = a - b;
    let m1 = x % p;
    let m2 = (-x) % p;
    let q1 = x / p;
    let q2 = (-x) / p;
    lemma_mod_bound(x, p);
    lemma_mod_bound(-x, p);
    lemma_fundamental_div_mod(x, p);
    lemma_fundamental_div_mod(-x, p);
    let k = -(q1 + q2);
    assert(m1 + m2 == p * k) by (nonlinear_arith)
        requires
            x == p * q1 + m1,
            -x == p * q2 + m2,
            k == -(q1 + q2),
    ;
    assert(k == 0 || k == 1) by (nonlinear_arith)
        requires
            0 < p,
            0 <= p * k < 2 * p,
    ;
}

/// The distance between two values depends only on their residues modulo
/// the period: values that differ by whole turns point the same way and
/// are the same distance from everything.
pub proof fn lemma_circ_dist_congruent(a: int, b: int, a2: int, b2: int, p: int)
    requires
        0 < p,
        a2 % p == a % p,
        b2 % p == b % p,
    ensures
        circ_dist(a2, b2, p) == circ_dist(a, b, p),
{
    lemma_sub_mod_noop(a, b, p);
    lemma_sub_mod_noop(a2, b2, p);
}

/// Shortest separation along a circle of even period `p` between two
/// values that need not be normalized. When both operands already lie in
/// `[0, p)` the two arcs are compared directly; otherwise the raw
/// difference is folded onto `[0, p/2]` arithmetically, by reflecting its
/// remainder about the half period.
pub fn circ_min_dist(a: i64, b: i64, p: i64) -> (d: i64)
    requires
        0 < p,
        p as int % 2 == 0,
        -(i64::MAX as int) <= a as int - b as int <= i64::MAX as int,
    ensures
        0 <= d as int <= p as int / 2,
        d as int == circ_dist(a as int, b as int, p as int),
{
    let diff: i64 = if a >= b { a - b } else { b - a };
    proof {
        if a < b {
            lemma_circ_dist_symmetric(a as int, b as int, p as int);
        }
        lemma_mod_bound(diff as int, p as int);
    }
    if 0 <= a && a < p && 0 <= b && b < p {
        proof {
            lemma_small_mod(diff as nat, p as nat);
        }
        if diff <= p - diff {
            diff
        } else {
            p - diff
        }
    } else {
        let t: i64 = diff % p;
        let h: i64 = p / 2;
        let u: i64 = if t >= h { t - h } else { h - t };
        h - u
    }
}

} // verus!
