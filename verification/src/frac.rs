//! Executable engine scalars: exact bounded rationals.
//!
//! A [`Frac`] stores the numerator and denominator of a rational number and
//! mirrors, operation for operation, the ghost arithmetic of [`crate::rat`]:
//! results within the stored bounds are exact, anything larger is rounded
//! down to a multiple of `1 / SNAP_DEN` and saturated.  Every method's
//! postcondition gives the result of the ghost operation on the views, so a
//! caller knows the produced value exactly.

use vstd::prelude::*;
use vstd::arithmetic::div_mod::{
    lemma_fundamental_div_mod, lemma_fundamental_div_mod_converse, lemma_mod_bound,
    lemma_div_pos_is_pos,
};
use vstd::arithmetic::mul::{
    lemma_mul_is_distributive_add, lemma_mul_is_commutative, lemma_mul_is_associative,
    lemma_mul_strictly_positive,
};
use crate::rat::{
    Rat, rat_wf, norm_q, norm_rat, rat_int, rat_add, rat_sub, rat_mul, rat_div, rat_neg, rat_le,
    rat_lt, rat_eq, rat_min, rat_max, rat_pow, DEN_MAX, NUM_MAX, SNAP_DEN,
};

verus! {

/// Numerator magnitude accepted by normalisation (raw results of one
/// operation on well-formed inputs stay far below this).
const RAW_NUM_LIM: i128 = 85070591730234615865843651857942052864;

/// Denominator accepted by normalisation.
const RAW_DEN_LIM: i128 = 10141204801825835211973625643008;

/// Saturation threshold for the rounded numerator: `NUM_MAX / SNAP_DEN`.
const VALUE_CAP: i128 = 4294967296;

/// An engine scalar: the rational number `num / den`.
#[derive(Clone, Copy, Debug)]
pub struct Frac {
    pub num: i128,
    pub den: i128,
}

impl View for Frac {
    type V = Rat;

    open spec fn view(&self) -> Rat {
        Rat { n: self.num as int, d: self.den as int }
    }
}

/// `(q * d + b) / d == q + b / d` for a positive divisor and non-negative
/// remainder part.
proof fn lemma_div_add_multiple(q: int, b: int, d: int)
    requires
        0 < d,
        0 <= b,
    ensures
        (q * d + b) / d == q + b / d,
{
    lemma_fundamental_div_mod(b, d);
    lemma_mod_bound(b, d);
    assert(q * d + b == (q + b / d) * d + b % d) by {
        lemma_mul_is_distributive_add(d, q, b / d);
        lemma_mul_is_commutative(d, q);
        lemma_mul_is_commutative(d, q + b / d);
        lemma_mul_is_commutative(d, b / d);
    }
    lemma_fundamental_div_mod_converse(q * d + b, d, q + b / d, b % d);
}

/// Splitting a scaled floor division: `(a * c) / d` in terms of `a / d` and
/// `a % d`, for non-negative `a` and positive `c`, `d`.
proof fn lemma_floor_scale_split(a: int, c: int, d: int)
    requires
        0 < d,
        0 <= a,
        0 < c,
    ensures
        (a * c) / d == (a / d) * c + ((a % d) * c) / d,
{
    lemma_fundamental_div_mod(a, d);
    lemma_mod_bound(a, d);
    let q = a / d;
    let r = a % d;
    assert(a * c == (q * c) * d + r * c) by {
        assert(a == d * q + r);
        lemma_mul_is_distributive_add(c, d * q, r);
        lemma_mul_is_commutative(c, d * q);
        lemma_mul_is_commutative(c, r);
        lemma_mul_is_associative(d, q, c);
        lemma_mul_is_commutative(d, q * c);
        lemma_mul_is_commutative(q, c);
        assert((d * q) * c == (q * c) * d) by (nonlinear_arith);
    }
    assert(0 <= r * c) by (nonlinear_arith)
        requires 0 <= r && 0 < c;
    lemma_div_add_multiple(q * c, r * c, d);
}

/// Bounds of a Euclidean quotient by a positive divisor.
proof fn lemma_div_size(n: int, d: int)
    requires
        1 <= d,
    ensures
        n >= 0 ==> 0 <= n / d <= n,
        n < 0 ==> n <= n / d <= 0,
{
    lemma_fundamental_div_mod(n, d);
    lemma_mod_bound(n, d);
    let q = n / d;
    let r = n % d;
    if n >= 0 {
        assert(q >= 0) by (nonlinear_arith)
            requires d >= 1 && 0 <= r < d && n == d * q + r && n >= 0;
        assert(q <= n) by (nonlinear_arith)
            requires d >= 1 && 0 <= r && n == d * q + r && q >= 0;
    } else {
        assert(q <= 0) by (nonlinear_arith)
            requires d >= 1 && 0 <= r < d && n == d * q + r && n < 0;
        assert(q >= n) by (nonlinear_arith)
            requires d >= 1 && 0 <= r < d && n == d * q + r && q <= 0 && n < 0;
    }
}

/// `|x * y| <= bx * by` from `|x| <= bx` and `|y| <= by`.
proof fn lemma_mul_abs_bound(x: int, y: int, bx: int, by: int)
    requires
        -bx <= x <= bx,
        -by <= y <= by,
        0 <= bx,
        0 <= by,
    ensures
        -(bx * by) <= x * y <= bx * by,
{
    assert(-(bx * by) <= x * y <= bx * by) by (nonlinear_arith)
        requires -bx <= x <= bx && -by <= y <= by && 0 <= bx && 0 <= by;
}

/// Normalise a raw result `n / d`, mirroring [`norm_rat`] exactly.
fn norm(n: i128, d: i128) -> (r: Frac)
    requires
        0 < d <= RAW_DEN_LIM,
        -RAW_NUM_LIM <= n <= RAW_NUM_LIM,
    ensures
        r.wf(),
        r@ == norm_rat(n as int, d as int),
{
    if -NUM_MAX <= n && n <= NUM_MAX && d <= DEN_MAX {
        return Frac { num: n, den: d };
    }
    proof {
        lemma_div_size(n as int, d as int);
        lemma_mod_bound(n as int, d as int);
    }
    let q0 = n.checked_div_euclid(d).unwrap();
    let r0 = n.checked_rem_euclid(d).unwrap();
    proof {
        lemma_fundamental_div_mod(n as int, d as int);
        assert(0 <= r0 as int * SNAP_DEN && r0 as int * SNAP_DEN <= (d as int - 1) * SNAP_DEN)
            by (nonlinear_arith)
            requires 0 <= r0 as int <= d as int - 1 && 0 < SNAP_DEN as int;
        // norm_q(n, d) == q0 * SNAP_DEN + (r0 * SNAP_DEN) / d
        assert(norm_q(n as int, d as int)
            == q0 as int * SNAP_DEN + (r0 as int * SNAP_DEN) / d as int) by {
            lemma_div_add_multiple(q0 as int * SNAP_DEN, r0 as int * SNAP_DEN, d as int);
            assert(n as int * SNAP_DEN
                == (q0 as int * SNAP_DEN) * d as int + r0 as int * SNAP_DEN)
                by (nonlinear_arith)
                requires n as int == d as int * (q0 as int) + r0 as int;
        }
        lemma_div_pos_is_pos(r0 as int * SNAP_DEN, d as int);
        // the fractional part is below SNAP_DEN
        assert(((r0 as int * SNAP_DEN) / (d as int)) < SNAP_DEN) by {
            let f = (r0 as int * SNAP_DEN) / (d as int);
            lemma_fundamental_div_mod(r0 as int * SNAP_DEN, d as int);
            lemma_mod_bound(r0 as int * SNAP_DEN, d as int);
            assert(f < SNAP_DEN) by (nonlinear_arith)
                requires
                    d as int * f == r0 as int * SNAP_DEN
                        - (r0 as int * SNAP_DEN) % (d as int),
                    0 <= (r0 as int * SNAP_DEN) % (d as int),
                    r0 as int * SNAP_DEN <= (d as int - 1) * SNAP_DEN,
                    0 < d as int,
                    0 < SNAP_DEN as int;
        }
    }
    if q0 >= VALUE_CAP {
        proof {
            assert(q0 as int * SNAP_DEN >= VALUE_CAP as int * SNAP_DEN) by (nonlinear_arith)
                requires q0 as int >= VALUE_CAP as int && 0 < SNAP_DEN as int;
        }
        return Frac { num: NUM_MAX, den: SNAP_DEN };
    }
    if q0 < -VALUE_CAP {
        proof {
            assert(q0 as int * SNAP_DEN + SNAP_DEN <= -(VALUE_CAP as int) * SNAP_DEN)
                by (nonlinear_arith)
                requires q0 as int + 1 <= -(VALUE_CAP as int) && 0 < SNAP_DEN as int;
        }
        return Frac { num: -NUM_MAX, den: SNAP_DEN };
    }
    let s1: i128 = 65536;
    let s2: i128 = 32768;
    proof {
        lemma_mul_abs_bound(r0 as int, s1 as int, RAW_DEN_LIM as int, s1 as int);
    }
    let t1 = r0 * s1;
    proof {
        lemma_div_size(t1 as int, d as int);
        lemma_mod_bound(t1 as int, d as int);
    }
    let q1 = t1.checked_div_euclid(d).unwrap();
    let r1 = t1.checked_rem_euclid(d).unwrap();
    proof {
        lemma_fundamental_div_mod(t1 as int, d as int);
        // q1 < s1 since t1 <= (d - 1) * s1
        assert((q1 as int) < (s1 as int)) by (nonlinear_arith)
            requires
                d as int * (q1 as int) == t1 as int - (t1 as int % d as int),
                0 <= t1 as int % d as int,
                t1 as int == r0 as int * s1 as int,
                0 <= r0 as int <= d as int - 1,
                0 < d as int,
                0 < s1 as int;
        lemma_div_pos_is_pos(t1 as int, d as int);
        lemma_mul_abs_bound(r1 as int, s2 as int, RAW_DEN_LIM as int, s2 as int);
    }
    let t2 = r1 * s2;
    proof {
        lemma_div_size(t2 as int, d as int);
        lemma_mod_bound(t2 as int, d as int);
    }
    let q2 = t2.checked_div_euclid(d).unwrap();
    proof {
        lemma_div_pos_is_pos(t2 as int, d as int);
        // (r0 * SNAP_DEN) / d == q1 * s2 + q2
        assert((r0 as int * SNAP_DEN) / d as int == q1 as int * s2 + q2 as int) by {
            assert(r0 as int * SNAP_DEN == (r0 as int * s1 as int) * s2 as int)
                by (nonlinear_arith)
                requires SNAP_DEN as int == s1 as int * s2 as int;
            lemma_floor_scale_split(t1 as int, s2 as int, d as int);
        }
        // q2 < s2
        lemma_fundamental_div_mod(t2 as int, d as int);
        assert((q2 as int) < (s2 as int)) by (nonlinear_arith)
            requires
                d as int * (q2 as int) == t2 as int - (t2 as int % d as int),
                0 <= t2 as int % d as int,
                t2 as int == r1 as int * s2 as int,
                0 <= r1 as int <= d as int - 1,
                0 < d as int,
                0 < s2 as int;
        lemma_mul_abs_bound(q0 as int, SNAP_DEN as int, VALUE_CAP as int, SNAP_DEN as int);
        lemma_mul_abs_bound(q1 as int, s2 as int, s1 as int, s2 as int);
    }
    let q = q0 * SNAP_DEN + q1 * s2 + q2;
    proof {
        assert(q as int == norm_q(n as int, d as int));
    }
    if q > NUM_MAX {
        Frac { num: NUM_MAX, den: SNAP_DEN }
    } else if q < -NUM_MAX {
        Frac { num: -NUM_MAX, den: SNAP_DEN }
    } else {
        Frac { num: q, den: SNAP_DEN }
    }
}

impl Frac {
    /// Well-formed stored scalar.
    pub open spec fn wf(self) -> bool {
        rat_wf(self@)
    }

    /// The rational `v / 1`.
    pub fn from_int(v: i64) -> (r: Frac)
        ensures
            r.wf(),
            r@ == rat_int(v as int),
    {
        Frac { num: v as i128, den: 1 }
    }

    /// The rational `num / den` for a positive bounded denominator.
    pub fn new(num: i64, den: i64) -> (r: Frac)
        requires
            0 < den,
            den as int <= DEN_MAX as int,
        ensures
            r.wf(),
            r@ == (Rat { n: num as int, d: den as int }),
    {
        Frac { num: num as i128, den: den as i128 }
    }

    pub fn add(&self, other: &Frac) -> (r: Frac)
        requires
            self.wf(),
            other.wf(),
        ensures
            r.wf(),
            r@ == rat_add(self@, other@),
    {
        proof {
            lemma_mul_abs_bound(self.num as int, other.den as int, NUM_MAX as int, DEN_MAX as int);
            lemma_mul_abs_bound(other.num as int, self.den as int, NUM_MAX as int, DEN_MAX as int);
            lemma_mul_strictly_positive(self.den as int, other.den as int);
            lemma_mul_abs_bound(self.den as int, other.den as int, DEN_MAX as int, DEN_MAX as int);
        }
        let n = self.num * other.den + other.num * self.den;
        let d = self.den * other.den;
        norm(n, d)
    }

    pub fn sub(&self, other: &Frac) -> (r: Frac)
        requires
            self.wf(),
            other.wf(),
        ensures
            r.wf(),
            r@ == rat_sub(self@, other@),
    {
        proof {
            lemma_mul_abs_bound(self.num as int, other.den as int, NUM_MAX as int, DEN_MAX as int);
            lemma_mul_abs_bound(other.num as int, self.den as int, NUM_MAX as int, DEN_MAX as int);
            lemma_mul_strictly_positive(self.den as int, other.den as int);
            lemma_mul_abs_bound(self.den as int, other.den as int, DEN_MAX as int, DEN_MAX as int);
        }
        let n = self.num * other.den - other.num * self.den;
        let d = self.den * other.den;
        norm(n, d)
    }

    pub fn mul(&self, other: &Frac) -> (r: Frac)
        requires
            self.wf(),
            other.wf(),
        ensures
            r.wf(),
            r@ == rat_mul(self@, other@),
    {
        proof {
            lemma_mul_abs_bound(self.num as int, other.num as int, NUM_MAX as int, NUM_MAX as int);
            assert(-(NUM_MAX as int * NUM_MAX as int) <= self.num as int * other.num as int
                <= NUM_MAX as int * NUM_MAX as int);
            lemma_mul_strictly_positive(self.den as int, other.den as int);
            lemma_mul_abs_bound(self.den as int, other.den as int, DEN_MAX as int, DEN_MAX as int);
        }
        let n = self.num * other.num;
        let d = self.den * other.den;
        norm(n, d)
    }

    /// Division by a non-zero scalar.
    pub fn div(&self, other: &Frac) -> (r: Frac)
        requires
            self.wf(),
            other.wf(),
            other.num != 0,
        ensures
            r.wf(),
            r@ == rat_div(self@, other@),
    {
        proof {
            lemma_mul_abs_bound(self.num as int, other.den as int, NUM_MAX as int, DEN_MAX as int);
        }
        if other.num > 0 {
            proof {
                lemma_mul_strictly_positive(self.den as int, other.num as int);
                lemma_mul_abs_bound(
                    self.den as int,
                    other.num as int,
                    DEN_MAX as int,
                    NUM_MAX as int,
                );
            }
            norm(self.num * other.den, self.den * other.num)
        } else {
            proof {
                lemma_mul_strictly_positive(self.den as int, -(other.num as int));
                lemma_mul_abs_bound(
                    self.den as int,
                    -(other.num as int),
                    DEN_MAX as int,
                    NUM_MAX as int,
                );
            }
            norm(-(self.num * other.den), self.den * (-other.num))
        }
    }

    /// Exact negation.
    pub fn neg(&self) -> (r: Frac)
        requires
            self.wf(),
        ensures
            r.wf(),
            r@ == rat_neg(self@),
    {
        Frac { num: -self.num, den: self.den }
    }

    /// Value comparison `self < other`.
    pub fn lt(&self, other: &Frac) -> (r: bool)
        requires
            self.wf(),
            other.wf(),
        ensures
            r == rat_lt(self@, other@),
    {
        proof {
            lemma_mul_abs_bound(self.num as int, other.den as int, NUM_MAX as int, DEN_MAX as int);
            lemma_mul_abs_bound(other.num as int, self.den as int, NUM_MAX as int, DEN_MAX as int);
        }
        self.num * other.den < other.num * self.den
    }

    /// Value comparison `self <= other`.
    pub fn le(&self, other: &Frac) -> (r: bool)
        requires
            self.wf(),
            other.wf(),
        ensures
            r == rat_le(self@, other@),
    {
        proof {
            lemma_mul_abs_bound(self.num as int, other.den as int, NUM_MAX as int, DEN_MAX as int);
            lemma_mul_abs_bound(other.num as int, self.den as int, NUM_MAX as int, DEN_MAX as int);
        }
        self.num * other.den <= other.num * self.den
    }

    /// Value equality (the representations may differ).
    pub fn eq_value(&self, other: &Frac) -> (r: bool)
        requires
            self.wf(),
            other.wf(),
        ensures
            r == rat_eq(self@, other@),
    {
        proof {
            lemma_mul_abs_bound(self.num as int, other.den as int, NUM_MAX as int, DEN_MAX as int);
            lemma_mul_abs_bound(other.num as int, self.den as int, NUM_MAX as int, DEN_MAX as int);
        }
        self.num * other.den == other.num * self.den
    }

    /// The smaller of the two values; `self` on ties.
    pub fn min(&self, other: &Frac) -> (r: Frac)
        requires
            self.wf(),
            other.wf(),
        ensures
            r.wf(),
            r@ == rat_min(self@, other@),
    {
        if self.le(other) {
            *self
        } else {
            *other
        }
    }

    /// The larger of the two values; `self` on ties.
    pub fn max(&self, other: &Frac) -> (r: Frac)
        requires
            self.wf(),
            other.wf(),
        ensures
            r.wf(),
            r@ == rat_max(self@, other@),
    {
        if other.le(self) {
            *self
        } else {
            *other
        }
    }

    /// `self` raised to a non-negative integer power.
    pub fn pow(&self, k: u64) -> (r: Frac)
        requires
            self.wf(),
        ensures
            r.wf(),
            r@ == rat_pow(self@, k as nat),
    {
        let mut acc = Frac::from_int(1);
        let mut i: u64 = 0;
        while i < k
            invariant
                self.wf(),
                acc.wf(),
                i <= k,
                acc@ == rat_pow(self@, i as nat),
            decreases k - i,
        {
            acc = acc.mul(self);
            i = i + 1;
        }
        acc
    }
}

} // verus!
