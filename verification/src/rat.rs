//! Ghost-level model of the engine's scalar arithmetic.
//!
//! An engine scalar is a rational number `n / d` with a positive denominator.
//! Stored values keep `|n| <= NUM_MAX` and `0 < d <= DEN_MAX`.  Every
//! arithmetic operation first forms the exact rational result; when that
//! result is within the stored bounds it is kept exactly, otherwise it is
//! rounded down to a multiple of `1 / SNAP_DEN` (and saturated at magnitude
//! `NUM_MAX / SNAP_DEN`).  The functions in this module define that arithmetic
//! over unbounded integers; the executable mirror lives in [`crate::frac`].

use vstd::prelude::*;
use vstd::arithmetic::div_mod::{
    lemma_fundamental_div_mod, lemma_mod_bound, lemma_div_is_ordered, lemma_div_multiples_vanish,
};

verus! {

/// Largest denominator a stored scalar may keep without rounding.
pub const DEN_MAX: i128 = 1099511627776;

/// Magnitude bound on a stored scalar's numerator.
pub const NUM_MAX: i128 = 9223372036854775808;

/// Denominator used when a result has to be rounded.
pub const SNAP_DEN: i128 = 2147483648;

/// A rational number; `d` is positive for every value the engine produces.
pub ghost struct Rat {
    pub n: int,
    pub d: int,
}

/// Stored-scalar well-formedness: positive bounded denominator, bounded
/// numerator.
pub open spec fn rat_wf(a: Rat) -> bool {
    &&& 0 < a.d <= DEN_MAX
    &&& -NUM_MAX <= a.n <= NUM_MAX
}

/// The numerator of `n / d` rounded down to denominator `SNAP_DEN`.
pub open spec fn norm_q(n: int, d: int) -> int {
    (n * SNAP_DEN) / d
}

/// Normalisation applied after every operation: keep the exact result when it
/// is within the stored bounds, otherwise round down to a multiple of
/// `1 / SNAP_DEN`, saturating at magnitude `NUM_MAX / SNAP_DEN`.
pub open spec fn norm_rat(n: int, d: int) -> Rat {
    if -NUM_MAX <= n <= NUM_MAX && d <= DEN_MAX {
        Rat { n, d }
    } else if norm_q(n, d) > NUM_MAX {
        Rat { n: NUM_MAX as int, d: SNAP_DEN as int }
    } else if norm_q(n, d) < -NUM_MAX {
        Rat { n: -(NUM_MAX as int), d: SNAP_DEN as int }
    } else {
        Rat { n: norm_q(n, d), d: SNAP_DEN as int }
    }
}

/// The rational with integer value `v`.
pub open spec fn rat_int(v: int) -> Rat {
    Rat { n: v, d: 1 }
}

/// A value that the engine stores without rounding.
pub open spec fn rat_fits(r: Rat) -> bool {
    &&& -NUM_MAX <= r.n <= NUM_MAX
    &&& 0 < r.d <= DEN_MAX
}

/// Exact (unrounded) rational sum.
pub open spec fn raw_add(a: Rat, b: Rat) -> Rat {
    Rat { n: a.n * b.d + b.n * a.d, d: a.d * b.d }
}

/// Exact rational difference.
pub open spec fn raw_sub(a: Rat, b: Rat) -> Rat {
    Rat { n: a.n * b.d - b.n * a.d, d: a.d * b.d }
}

/// Exact rational product.
pub open spec fn raw_mul(a: Rat, b: Rat) -> Rat {
    Rat { n: a.n * b.n, d: a.d * b.d }
}

/// Exact rational quotient; for `b.n != 0` (the denominator's sign follows
/// `b.n`).
pub open spec fn raw_div(a: Rat, b: Rat) -> Rat {
    Rat { n: a.n * b.d, d: a.d * b.n }
}

pub open spec fn rat_add(a: Rat, b: Rat) -> Rat {
    norm_rat(a.n * b.d + b.n * a.d, a.d * b.d)
}

pub open spec fn rat_sub(a: Rat, b: Rat) -> Rat {
    norm_rat(a.n * b.d - b.n * a.d, a.d * b.d)
}

pub open spec fn rat_mul(a: Rat, b: Rat) -> Rat {
    norm_rat(a.n * b.n, a.d * b.d)
}

/// Division; meaningful only for `b.n != 0`.
pub open spec fn rat_div(a: Rat, b: Rat) -> Rat {
    if b.n > 0 {
        norm_rat(a.n * b.d, a.d * b.n)
    } else {
        norm_rat(-(a.n * b.d), a.d * -b.n)
    }
}

/// Negation is always exact for well-formed values.
pub open spec fn rat_neg(a: Rat) -> Rat {
    Rat { n: -a.n, d: a.d }
}

/// Value comparison (for positive denominators).
pub open spec fn rat_le(a: Rat, b: Rat) -> bool {
    a.n * b.d <= b.n * a.d
}

pub open spec fn rat_lt(a: Rat, b: Rat) -> bool {
    a.n * b.d < b.n * a.d
}

/// Value equality: `a` and `b` denote the same rational number.
pub open spec fn rat_eq(a: Rat, b: Rat) -> bool {
    a.n * b.d == b.n * a.d
}

/// The representative picked by the executable `min`: `a` on ties.
pub open spec fn rat_min(a: Rat, b: Rat) -> Rat {
    if rat_le(a, b) {
        a
    } else {
        b
    }
}

/// The representative picked by the executable `max`: `a` on ties.
pub open spec fn rat_max(a: Rat, b: Rat) -> Rat {
    if rat_le(b, a) {
        a
    } else {
        b
    }
}

pub open spec fn rat_pow(b: Rat, k: nat) -> Rat
    decreases k,
{
    if k == 0 {
        rat_int(1)
    } else {
        rat_mul(rat_pow(b, (k - 1) as nat), b)
    }
}

/// Value equality is transitive (through a fraction with non-zero
/// denominator).
pub proof fn lemma_rat_eq_trans(a: Rat, b: Rat, c: Rat)
    requires
        rat_eq(a, b),
        rat_eq(b, c),
        b.d != 0,
    ensures
        rat_eq(a, c),
{
    assert(a.n * c.d * b.d == c.n * a.d * b.d) by (nonlinear_arith)
        requires
            a.n * b.d == b.n * a.d,
            b.n * c.d == c.n * b.d;
    assert(a.n * c.d == c.n * a.d) by (nonlinear_arith)
        requires
            a.n * c.d * b.d == c.n * a.d * b.d,
            b.d != 0;
}

/// Scaling numerator and denominator by a common non-zero factor keeps the
/// value.
pub proof fn lemma_rat_scale(k: int, n: int, d: int)
    requires
        k != 0,
    ensures
        rat_eq(Rat { n: k * n, d: k * d }, Rat { n, d }),
{
    assert((k * n) * d == n * (k * d)) by (nonlinear_arith);
}

/// Sums of equal-valued fractions are equal in value.
pub proof fn lemma_raw_add_congruence(a: Rat, a2: Rat, b: Rat)
    requires
        rat_eq(a, a2),
    ensures
        rat_eq(raw_add(a, b), raw_add(a2, b)),
        rat_eq(raw_add(b, a), raw_add(b, a2)),
{
    assert((a.n * b.d + b.n * a.d) * (a2.d * b.d) == (a2.n * b.d + b.n * a2.d) * (a.d * b.d))
        by (nonlinear_arith)
        requires
            a.n * a2.d == a2.n * a.d;
    assert((b.n * a.d + a.n * b.d) * (b.d * a2.d) == (b.n * a2.d + a2.n * b.d) * (b.d * a.d))
        by (nonlinear_arith)
        requires
            a.n * a2.d == a2.n * a.d;
}

/// How close a normalised result stays to the exact rational `n / d`, as long
/// as the value does not saturate: the result is at most the exact value, and
/// lies strictly less than `1 / SNAP_DEN` below it.
pub proof fn lemma_norm_within(n: int, d: int)
    requires
        0 < d,
        -NUM_MAX * d <= n * SNAP_DEN <= NUM_MAX * d,
    ensures
        rat_wf(norm_rat(n, d)),
        norm_rat(n, d).n * d <= n * norm_rat(n, d).d,
        n * norm_rat(n, d).d * SNAP_DEN < norm_rat(n, d).n * d * SNAP_DEN + norm_rat(n, d).d * d,
{
    let r = norm_rat(n, d);
    if -NUM_MAX <= n <= NUM_MAX && d <= DEN_MAX {
        assert(r == Rat { n, d });
        assert(n * d * SNAP_DEN < n * d * SNAP_DEN + d * d) by (nonlinear_arith)
            requires 0 < d;
    } else {
        let q = norm_q(n, d);
        lemma_fundamental_div_mod(n * SNAP_DEN, d);
        lemma_mod_bound(n * SNAP_DEN, d);
        // no saturation: |q| <= NUM_MAX
        lemma_div_is_ordered(-NUM_MAX * d, n * SNAP_DEN, d);
        lemma_div_is_ordered(n * SNAP_DEN, NUM_MAX * d, d);
        lemma_div_multiples_vanish(NUM_MAX as int, d);
        lemma_div_multiples_vanish(-NUM_MAX as int, d);
        assert(NUM_MAX * d == d * NUM_MAX) by (nonlinear_arith);
        assert(-NUM_MAX * d == d * -NUM_MAX) by (nonlinear_arith);
        assert(-NUM_MAX <= q <= NUM_MAX);
        assert(r == Rat { n: q, d: SNAP_DEN as int });
        // q * d <= n * SNAP_DEN < q * d + d
        assert(d * q <= n * SNAP_DEN < d * q + d);
        assert(q * d <= n * SNAP_DEN) by (nonlinear_arith)
            requires d * q <= n * SNAP_DEN;
        assert(n * SNAP_DEN * SNAP_DEN < q * d * SNAP_DEN + SNAP_DEN * d) by (nonlinear_arith)
            requires n * SNAP_DEN < d * q + d && 0 < SNAP_DEN as int;
    }
}


} // verus!
