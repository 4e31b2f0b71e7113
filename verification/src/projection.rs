//! The affine data-space to clip-space transform.
//!
//! Each axis carries a scale and an offset; `position * scale + delta` maps a
//! column's `[min, max]` range onto `[-1, 1]` for x/y and `[0, 1]` for z.
//! Panning shifts the offsets in NDC units, zooming rescales around the
//! cursor so that the data point under it stays fixed
//! (see [`lemma_zoom_fixes_cursor`]).

use vstd::prelude::*;
use crate::rat::{
    Rat, rat_wf, rat_fits, rat_int, rat_add, rat_sub, rat_mul, rat_div, rat_neg, rat_le,
    rat_eq, rat_max, rat_pow, raw_add, raw_sub, raw_mul, raw_div, norm_rat, lemma_rat_eq_trans, lemma_rat_scale,
    lemma_raw_add_congruence, DEN_MAX, NUM_MAX,
};
use crate::frac::Frac;
use vstd::arithmetic::mul::lemma_mul_is_distributive_add;
use crate::cfg::{SCALE_MIN_NUM, SCALE_MIN_DEN, SCROLL_BASE_NUM, SCROLL_BASE_DEN};

verus! {

/// Largest data-coordinate magnitude the projection accepts; keeps every
/// adjusted transform exactly representable.
pub const COORD_LIMIT: i64 = 549755813888;

/// The lower floor of a zoomed scale.
pub open spec fn scale_min_rat() -> Rat {
    Rat { n: SCALE_MIN_NUM as int, d: SCALE_MIN_DEN as int }
}

/// The zoom factor for one scroll of `dx` units: `(11/10) ^ dx`.
pub open spec fn zoom_factor_rat(dx: int) -> Rat {
    if dx >= 0 {
        rat_pow(Rat { n: SCROLL_BASE_NUM as int, d: SCROLL_BASE_DEN as int }, dx as nat)
    } else {
        rat_pow(Rat { n: SCROLL_BASE_DEN as int, d: SCROLL_BASE_NUM as int }, (-dx) as nat)
    }
}

/// Scale after adjusting an x or y axis to the data range `[min, max]`:
/// `2 / (max - min)`, or the prior scale when the range is degenerate.
pub open spec fn adjusted_scale_xy(prior: Rat, min: int, max: int) -> Rat {
    if min == max {
        prior
    } else {
        Rat { n: 2, d: max - min }
    }
}

/// Offset after adjusting an x or y axis: `-1 - min * scale`, which for a
/// proper range equals `-(max + min) / (max - min)` exactly.
pub open spec fn adjusted_delta_xy(scale: Rat, min: int, max: int) -> Rat {
    if min == max {
        rat_sub(rat_int(-1), rat_mul(rat_int(min), scale))
    } else {
        Rat { n: -(max + min), d: max - min }
    }
}

/// Scale after adjusting the z axis: `1 / (max - min)`, or the prior scale
/// when the range is degenerate.
pub open spec fn adjusted_scale_z(prior: Rat, min: int, max: int) -> Rat {
    if min == max {
        prior
    } else {
        Rat { n: 1, d: max - min }
    }
}

/// Offset after adjusting the z axis: `-min * scale`, which for a proper
/// range equals `-min / (max - min)` exactly.
pub open spec fn adjusted_delta_z(scale: Rat, min: int, max: int) -> Rat {
    if min == max {
        rat_neg(rat_mul(rat_int(min), scale))
    } else {
        Rat { n: -min, d: max - min }
    }
}

/// Scale after one zoom step: the old scale times the zoom factor, floored at
/// the minimum scale.
pub open spec fn zoomed_scale(s: Rat, dx: int) -> Rat {
    rat_max(scale_min_rat(), rat_mul(s, zoom_factor_rat(dx)))
}

/// The cursor pixel `pos` of a viewport `dim` pixels wide as an NDC
/// coordinate: `2 * pos / dim - 1`.
pub open spec fn pos_rel_x(pos: int, dim: int) -> Rat {
    Rat { n: 2 * pos - dim, d: dim }
}

/// The y counterpart; screen y runs opposite to NDC y.
pub open spec fn pos_rel_y(pos: int, dim: int) -> Rat {
    Rat { n: dim - 2 * pos, d: dim }
}

/// Offset after one zoom step around NDC position `p`:
/// `delta + (s_old - s_new) * (p - delta) / s_old`.
pub open spec fn zoomed_delta(delta: Rat, s_old: Rat, s_new: Rat, p: Rat) -> Rat {
    rat_add(delta, rat_div(rat_mul(rat_sub(s_old, s_new), rat_sub(p, delta)), s_old))
}

/// The exact NDC image of data coordinate `v` under scale `s` and offset
/// `dl`: `s * v + dl`, in unrounded rational arithmetic.
pub open spec fn affine_image(s: Rat, dl: Rat, v: int) -> Rat {
    raw_add(raw_mul(s, rat_int(v)), dl)
}

/// Adjusting an x or y axis to a proper range `[min, max]` maps `min` exactly
/// to `-1` and `max` exactly to `1`.
pub proof fn lemma_adjust_maps_bounds_xy(prior: Rat, min: int, max: int)
    requires
        min < max,
    ensures
        rat_eq(
            affine_image(
                adjusted_scale_xy(prior, min, max),
                adjusted_delta_xy(adjusted_scale_xy(prior, min, max), min, max),
                min,
            ),
            rat_int(-1),
        ),
        rat_eq(
            affine_image(
                adjusted_scale_xy(prior, min, max),
                adjusted_delta_xy(adjusted_scale_xy(prior, min, max), min, max),
                max,
            ),
            rat_int(1),
        ),
{
    let r = max - min;
    let img_min = affine_image(Rat { n: 2, d: r }, Rat { n: -(max + min), d: r }, min);
    let img_max = affine_image(Rat { n: 2, d: r }, Rat { n: -(max + min), d: r }, max);
    assert(img_min.n == -(img_min.d) && img_max.n == img_max.d) by (nonlinear_arith)
        requires
            img_min == (Rat { n: 2 * min * r + -(max + min) * r, d: r * r }),
            img_max == (Rat { n: 2 * max * r + -(max + min) * r, d: r * r }),
            r == max - min;
}

/// Adjusting the z axis to a proper range `[min, max]` maps `min` exactly to
/// `0` and `max` exactly to `1`.
pub proof fn lemma_adjust_maps_bounds_z(prior: Rat, min: int, max: int)
    requires
        min < max,
    ensures
        rat_eq(
            affine_image(
                adjusted_scale_z(prior, min, max),
                adjusted_delta_z(adjusted_scale_z(prior, min, max), min, max),
                min,
            ),
            rat_int(0),
        ),
        rat_eq(
            affine_image(
                adjusted_scale_z(prior, min, max),
                adjusted_delta_z(adjusted_scale_z(prior, min, max), min, max),
                max,
            ),
            rat_int(1),
        ),
{
    let r = max - min;
    let img_min = affine_image(Rat { n: 1, d: r }, Rat { n: -min, d: r }, min);
    let img_max = affine_image(Rat { n: 1, d: r }, Rat { n: -min, d: r }, max);
    assert(img_min.n == 0 && img_max.n == img_max.d) by (nonlinear_arith)
        requires
            img_min == (Rat { n: min * r + -min * r, d: r * r }),
            img_max == (Rat { n: max * r + -min * r, d: r * r }),
            r == max - min;
}

/// The defining property of zoom-at-cursor, in exact rational arithmetic: for
/// any old and new scale, offset and cursor position, re-projecting the data
/// point that sat under the cursor with the new scale and the corrected
/// offset lands exactly on the cursor again.
#[verifier::rlimit(100)]
pub proof fn lemma_zoom_fixes_cursor(s_old: Rat, s_new: Rat, delta: Rat, p: Rat)
    requires
        s_old.n != 0,
        s_old.d != 0,
        s_new.d != 0,
        delta.d != 0,
        p.d != 0,
    ensures
        ({
            let under_cursor = raw_div(raw_sub(p, delta), s_old);
            let delta2 = raw_add(
                delta,
                raw_div(raw_mul(raw_sub(s_old, s_new), raw_sub(p, delta)), s_old),
            );
            rat_eq(raw_add(raw_mul(s_new, under_cursor), delta2), p)
        }),
{
    let a = s_old;
    let b = s_new;
    let g = delta;
    let c = raw_sub(p, g);
    let u = raw_div(c, a);
    let m = raw_sub(a, b);
    let w = raw_div(raw_mul(m, c), a);
    let delta2 = raw_add(g, w);
    let t = raw_mul(b, u);
    let mu = raw_mul(m, u);
    let au = raw_mul(a, u);
    let img = raw_add(t, delta2);
    // every denominator along the way is a product of non-zero factors
    assert(c.d != 0) by (nonlinear_arith)
        requires p.d != 0 && g.d != 0 && c.d == p.d * g.d;
    assert(u.d != 0) by (nonlinear_arith)
        requires c.d != 0 && a.n != 0 && u.d == c.d * a.n;
    assert(m.d != 0) by (nonlinear_arith)
        requires a.d != 0 && b.d != 0 && m.d == a.d * b.d;
    assert(mu.d != 0) by (nonlinear_arith)
        requires m.d != 0 && u.d != 0 && mu.d == m.d * u.d;
    assert(w.d != 0) by (nonlinear_arith)
        requires m.d != 0 && c.d != 0 && a.n != 0 && w.d == (m.d * c.d) * a.n;
    assert(delta2.d != 0) by (nonlinear_arith)
        requires g.d != 0 && w.d != 0 && delta2.d == g.d * w.d;
    assert(t.d != 0) by (nonlinear_arith)
        requires b.d != 0 && u.d != 0 && t.d == b.d * u.d;
    let x1 = raw_add(g, mu);
    assert(x1.d != 0) by (nonlinear_arith)
        requires g.d != 0 && mu.d != 0 && x1.d == g.d * mu.d;
    let x2 = raw_add(t, x1);
    assert(x2.d != 0) by (nonlinear_arith)
        requires t.d != 0 && x1.d != 0 && x2.d == t.d * x1.d;
    let tm = raw_add(t, mu);
    assert(tm.d != 0) by (nonlinear_arith)
        requires t.d != 0 && mu.d != 0 && tm.d == t.d * mu.d;
    let x3 = raw_add(tm, g);
    assert(x3.d != 0) by (nonlinear_arith)
        requires tm.d != 0 && g.d != 0 && x3.d == tm.d * g.d;
    let x4 = raw_add(c, g);
    assert(x4.d != 0) by (nonlinear_arith)
        requires c.d != 0 && g.d != 0 && x4.d == c.d * g.d;

    // the correction term is the scale difference times the cursor point
    assert(rat_eq(w, mu)) by (nonlinear_arith)
        requires
            w.n == (m.n * c.n) * a.d,
            w.d == (m.d * c.d) * a.n,
            mu.n == m.n * (c.n * a.d),
            mu.d == m.d * (c.d * a.n);
    lemma_raw_add_congruence(w, mu, g);
    assert(rat_eq(delta2, x1));
    lemma_raw_add_congruence(delta2, x1, t);
    assert(rat_eq(img, x2));

    // reassociate: t + (g + mu) has the same value as (t + mu) + g
    assert(x2.n == x3.n && x2.d == x3.d) by (nonlinear_arith)
        requires
            x2.n == t.n * (g.d * mu.d) + (g.n * mu.d + mu.n * g.d) * t.d,
            x2.d == t.d * (g.d * mu.d),
            x3.n == (t.n * mu.d + mu.n * t.d) * g.d + g.n * (t.d * mu.d),
            x3.d == (t.d * mu.d) * g.d;
    assert(rat_eq(x2, x3));

    // b * u + (a - b) * u has the value of a * u
    assert((b.n * u.n) * (m.d * u.d) == (u.n * u.d) * (b.n * m.d)) by (nonlinear_arith);
    assert((m.n * u.n) * (b.d * u.d) == (u.n * u.d) * (m.n * b.d)) by (nonlinear_arith);
    assert(tm.n == (u.n * u.d) * (b.n * m.d + m.n * b.d)) by {
        lemma_mul_is_distributive_add(u.n * u.d, b.n * m.d, m.n * b.d);
    }
    assert(b.n * m.d + m.n * b.d == a.n * (b.d * b.d)) by (nonlinear_arith)
        requires
            m.n == a.n * b.d - b.n * a.d,
            m.d == a.d * b.d;
    // cancel the common factor u.d * b.d of the summed fraction
    let k = u.d * b.d;
    let rn = u.n * (a.n * b.d);
    let rd = u.d * (a.d * b.d);
    assert(tm.n == k * rn) by (nonlinear_arith)
        requires
            tm.n == (u.n * u.d) * (a.n * (b.d * b.d)),
            k == u.d * b.d,
            rn == u.n * (a.n * b.d);
    assert(tm.d == k * rd) by (nonlinear_arith)
        requires
            tm.d == (b.d * u.d) * (m.d * u.d),
            m.d == a.d * b.d,
            k == u.d * b.d,
            rd == u.d * (a.d * b.d);
    assert(k != 0) by (nonlinear_arith)
        requires u.d != 0 && b.d != 0 && k == u.d * b.d;
    assert(rd != 0) by (nonlinear_arith)
        requires u.d != 0 && a.d != 0 && b.d != 0 && rd == u.d * (a.d * b.d);
    lemma_rat_scale(k, rn, rd);
    assert(rat_eq(tm, Rat { n: rn, d: rd }));
    assert(rat_eq(Rat { n: rn, d: rd }, au)) by (nonlinear_arith)
        requires
            rn == u.n * (a.n * b.d),
            rd == u.d * (a.d * b.d),
            au.n == a.n * u.n,
            au.d == a.d * u.d;
    lemma_rat_eq_trans(tm, Rat { n: rn, d: rd }, au);
    assert(rat_eq(tm, au));

    // a * (c / a) has the value of c
    assert(rat_eq(au, c)) by (nonlinear_arith)
        requires
            au.n == a.n * (c.n * a.d),
            au.d == a.d * (c.d * a.n);
    assert(au.d != 0) by (nonlinear_arith)
        requires a.d != 0 && c.d != 0 && a.n != 0 && au.d == a.d * (c.d * a.n);
    lemma_rat_eq_trans(tm, au, c);
    lemma_raw_add_congruence(tm, c, g);
    assert(rat_eq(x3, x4));

    // (p - g) + g has the value of p
    assert(rat_eq(x4, p)) by (nonlinear_arith)
        requires
            x4.n == c.n * g.d + g.n * c.d,
            x4.d == c.d * g.d,
            c.n == p.n * g.d - g.n * p.d,
            c.d == p.d * g.d;

    lemma_rat_eq_trans(img, x2, x3);
    lemma_rat_eq_trans(img, x3, x4);
    lemma_rat_eq_trans(img, x4, p);
}

/// The cursor-fixing law for the engine's own (rounding) arithmetic: on
/// inputs where every intermediate of the implemented offset update stays
/// within the stored bounds (so no rounding occurs), the implemented update
/// equals the exact one, and the data point under the cursor re-projects
/// exactly onto the cursor.
pub proof fn lemma_zoom_cursor_invariant(delta: Rat, s_old: Rat, s_new: Rat, p: Rat)
    requires
        s_old.n > 0,
        s_old.d > 0,
        s_new.d > 0,
        delta.d > 0,
        p.d > 0,
        rat_fits(raw_sub(s_old, s_new)),
        rat_fits(raw_sub(p, delta)),
        rat_fits(raw_mul(raw_sub(s_old, s_new), raw_sub(p, delta))),
        rat_fits(raw_div(raw_mul(raw_sub(s_old, s_new), raw_sub(p, delta)), s_old)),
        rat_fits(
            raw_add(delta, raw_div(raw_mul(raw_sub(s_old, s_new), raw_sub(p, delta)), s_old)),
        ),
    ensures
        zoomed_delta(delta, s_old, s_new, p) == raw_add(
            delta,
            raw_div(raw_mul(raw_sub(s_old, s_new), raw_sub(p, delta)), s_old),
        ),
        rat_eq(
            raw_add(
                raw_mul(s_new, raw_div(raw_sub(p, delta), s_old)),
                zoomed_delta(delta, s_old, s_new, p),
            ),
            p,
        ),
{
    let diff = raw_sub(s_old, s_new);
    let off = raw_sub(p, delta);
    let prod = raw_mul(diff, off);
    let corr = raw_div(prod, s_old);
    assert(rat_sub(s_old, s_new) == diff);
    assert(rat_sub(p, delta) == off);
    assert(rat_mul(diff, off) == prod);
    assert(rat_div(prod, s_old) == corr);
    assert(rat_add(delta, corr) == raw_add(delta, corr));
    lemma_zoom_fixes_cursor(s_old, s_new, delta, p);
}

/// The per-axis affine transform from data space to clip space.
pub struct Projection {
    pub scale_x: Frac,
    pub scale_y: Frac,
    pub scale_z: Frac,
    pub delta_x: Frac,
    pub delta_y: Frac,
    pub delta_z: Frac,
}

impl Projection {
    /// All six coefficients are well-formed scalars and the scales are
    /// strictly positive.
    pub open spec fn wf(self) -> bool {
        &&& rat_wf(self.scale_x@)
        &&& rat_wf(self.scale_y@)
        &&& rat_wf(self.scale_z@)
        &&& rat_wf(self.delta_x@)
        &&& rat_wf(self.delta_y@)
        &&& rat_wf(self.delta_z@)
        &&& self.scale_x@.n > 0
        &&& self.scale_y@.n > 0
        &&& self.scale_z@.n > 0
    }

    /// The identity transform.
    pub fn new() -> (r: Projection)
        ensures
            r.wf(),
            r.scale_x@ == rat_int(1),
            r.scale_y@ == rat_int(1),
            r.scale_z@ == rat_int(1),
            r.delta_x@ == rat_int(0),
            r.delta_y@ == rat_int(0),
            r.delta_z@ == rat_int(0),
    {
        Projection {
            scale_x: Frac::from_int(1),
            scale_y: Frac::from_int(1),
            scale_z: Frac::from_int(1),
            delta_x: Frac::from_int(0),
            delta_y: Frac::from_int(0),
            delta_z: Frac::from_int(0),
        }
    }

    /// Renormalize the x axis to the data range `[min, max]`.  A degenerate
    /// range (`min == max`) leaves the scale untouched and still produces a
    /// well-formed (finite) offset.
    pub fn adjust_x(&mut self, min: i64, max: i64)
        requires
            old(self).wf(),
            min <= max,
            -COORD_LIMIT <= min,
            max <= COORD_LIMIT,
        ensures
            final(self).wf(),
            final(self).scale_x@ == adjusted_scale_xy(old(self).scale_x@, min as int, max as int),
            final(self).delta_x@ == adjusted_delta_xy(final(self).scale_x@, min as int, max as int),
            final(self).scale_y == old(self).scale_y,
            final(self).scale_z == old(self).scale_z,
            final(self).delta_y == old(self).delta_y,
            final(self).delta_z == old(self).delta_z,
    {
        if max != min {
            let range = Frac::from_int(max).sub(&Frac::from_int(min));
            assert(range@ == (Rat { n: max - min, d: 1 }));
            self.scale_x = Frac::from_int(2).div(&range);
            let sum = Frac::from_int(max).add(&Frac::from_int(min));
            assert(sum@ == (Rat { n: max + min, d: 1 }));
            let negsum = sum.neg();
            assert(negsum@ == (Rat { n: -(max + min), d: 1 }));
            self.delta_x = negsum.div(&range);
            proof {
                assert(self.delta_x@ == norm_rat(-(max + min) * 1, 1 * (max - min)));
                assert(-(max + min) * 1 == -(max + min) && 1 * (max - min) == max - min);
            }
            assert(self.scale_x@ == (Rat { n: 2, d: max - min }));
            assert(self.delta_x@ == (Rat { n: -(max + min), d: max - min }));
        } else {
            let prod = Frac::from_int(min).mul(&self.scale_x);
            self.delta_x = Frac::from_int(-1).sub(&prod);
        }
    }

    /// Renormalize the y axis to the data range `[min, max]`.
    pub fn adjust_y(&mut self, min: i64, max: i64)
        requires
            old(self).wf(),
            min <= max,
            -COORD_LIMIT <= min,
            max <= COORD_LIMIT,
        ensures
            final(self).wf(),
            final(self).scale_y@ == adjusted_scale_xy(old(self).scale_y@, min as int, max as int),
            final(self).delta_y@ == adjusted_delta_xy(final(self).scale_y@, min as int, max as int),
            final(self).scale_x == old(self).scale_x,
            final(self).scale_z == old(self).scale_z,
            final(self).delta_x == old(self).delta_x,
            final(self).delta_z == old(self).delta_z,
    {
        if max != min {
            let range = Frac::from_int(max).sub(&Frac::from_int(min));
            assert(range@ == (Rat { n: max - min, d: 1 }));
            self.scale_y = Frac::from_int(2).div(&range);
            let sum = Frac::from_int(max).add(&Frac::from_int(min));
            assert(sum@ == (Rat { n: max + min, d: 1 }));
            let negsum = sum.neg();
            assert(negsum@ == (Rat { n: -(max + min), d: 1 }));
            self.delta_y = negsum.div(&range);
            proof {
                assert(self.delta_y@ == norm_rat(-(max + min) * 1, 1 * (max - min)));
                assert(-(max + min) * 1 == -(max + min) && 1 * (max - min) == max - min);
            }
            assert(self.scale_y@ == (Rat { n: 2, d: max - min }));
            assert(self.delta_y@ == (Rat { n: -(max + min), d: max - min }));
        } else {
            let prod = Frac::from_int(min).mul(&self.scale_y);
            self.delta_y = Frac::from_int(-1).sub(&prod);
        }
    }

    /// Renormalize the z (depth) axis to the data range `[min, max]`, mapping
    /// it onto `[0, 1]`.
    pub fn adjust_z(&mut self, min: i64, max: i64)
        requires
            old(self).wf(),
            min <= max,
            -COORD_LIMIT <= min,
            max <= COORD_LIMIT,
        ensures
            final(self).wf(),
            final(self).scale_z@ == adjusted_scale_z(old(self).scale_z@, min as int, max as int),
            final(self).delta_z@ == adjusted_delta_z(final(self).scale_z@, min as int, max as int),
            final(self).scale_x == old(self).scale_x,
            final(self).scale_y == old(self).scale_y,
            final(self).delta_x == old(self).delta_x,
            final(self).delta_y == old(self).delta_y,
    {
        if max != min {
            let range = Frac::from_int(max).sub(&Frac::from_int(min));
            assert(range@ == (Rat { n: max - min, d: 1 }));
            self.scale_z = Frac::from_int(1).div(&range);
            let negmin = Frac::from_int(min).neg();
            assert(negmin@ == (Rat { n: -min as int, d: 1 }));
            self.delta_z = negmin.div(&range);
            proof {
                assert(self.delta_z@ == norm_rat(-min as int * 1, 1 * (max - min)));
                assert(-min as int * 1 == -min as int && 1 * (max - min) == max - min);
            }
            assert(self.scale_z@ == (Rat { n: 1, d: max - min }));
            assert(self.delta_z@ == (Rat { n: -min, d: max - min }));
        } else {
            let prod = Frac::from_int(min).mul(&self.scale_z);
            self.delta_z = prod.neg();
        }
    }

    /// Pan horizontally by `dx` pixels of a viewport `width` pixels wide:
    /// the x offset moves by `2 * dx / width` NDC units.
    pub fn move_x(&mut self, dx: i64, width: u32)
        requires
            old(self).wf(),
            width > 0,
            -8589934592 <= dx <= 8589934592,
        ensures
            final(self).wf(),
            final(self).delta_x@ == rat_add(
                old(self).delta_x@,
                rat_div(rat_int(2 * dx), rat_int(width as int)),
            ),
            final(self).scale_x == old(self).scale_x,
            final(self).scale_y == old(self).scale_y,
            final(self).scale_z == old(self).scale_z,
            final(self).delta_y == old(self).delta_y,
            final(self).delta_z == old(self).delta_z,
    {
        let shift = Frac::from_int(2 * dx).div(&Frac::from_int(width as i64));
        self.delta_x = self.delta_x.add(&shift);
    }

    /// Pan vertically by `dy` pixels of a viewport `height` pixels tall: the
    /// y offset moves by `2 * dy / height` against the pixel direction
    /// (screen y and NDC y are inverted).
    pub fn move_y(&mut self, dy: i64, height: u32)
        requires
            old(self).wf(),
            height > 0,
            -8589934592 <= dy <= 8589934592,
        ensures
            final(self).wf(),
            final(self).delta_y@ == rat_sub(
                old(self).delta_y@,
                rat_div(rat_int(2 * dy), rat_int(height as int)),
            ),
            final(self).scale_x == old(self).scale_x,
            final(self).scale_y == old(self).scale_y,
            final(self).scale_z == old(self).scale_z,
            final(self).delta_x == old(self).delta_x,
            final(self).delta_z == old(self).delta_z,
    {
        let shift = Frac::from_int(2 * dy).div(&Frac::from_int(height as i64));
        self.delta_y = self.delta_y.sub(&shift);
    }

    /// Zoom the x axis by `dx` scroll units around the cursor column `pos` of
    /// a viewport `width` pixels wide.
    pub fn scroll_x(&mut self, dx: i64, pos: u32, width: u32)
        requires
            old(self).wf(),
            width > 0,
            dx > i64::MIN,
        ensures
            final(self).wf(),
            final(self).scale_x@ == zoomed_scale(old(self).scale_x@, dx as int),
            final(self).delta_x@ == zoomed_delta(
                old(self).delta_x@,
                old(self).scale_x@,
                final(self).scale_x@,
                pos_rel_x(pos as int, width as int),
            ),
            final(self).scale_y == old(self).scale_y,
            final(self).scale_z == old(self).scale_z,
            final(self).delta_y == old(self).delta_y,
            final(self).delta_z == old(self).delta_z,
    {
        let scale_old = self.scale_x;
        let scale_new = Self::apply_zoom(&scale_old, dx);
        let p = Frac::new(2 * (pos as i64) - (width as i64), width as i64);
        assert(p@ == pos_rel_x(pos as int, width as int));
        let diff = scale_old.sub(&scale_new);
        let off = p.sub(&self.delta_x);
        let corr = diff.mul(&off).div(&scale_old);
        self.scale_x = scale_new;
        self.delta_x = self.delta_x.add(&corr);
    }

    /// Zoom the y axis by `dy` scroll units around the cursor row `pos` of a
    /// viewport `height` pixels tall.
    pub fn scroll_y(&mut self, dy: i64, pos: u32, height: u32)
        requires
            old(self).wf(),
            height > 0,
            dy > i64::MIN,
        ensures
            final(self).wf(),
            final(self).scale_y@ == zoomed_scale(old(self).scale_y@, dy as int),
            final(self).delta_y@ == zoomed_delta(
                old(self).delta_y@,
                old(self).scale_y@,
                final(self).scale_y@,
                pos_rel_y(pos as int, height as int),
            ),
            final(self).scale_x == old(self).scale_x,
            final(self).scale_z == old(self).scale_z,
            final(self).delta_x == old(self).delta_x,
            final(self).delta_z == old(self).delta_z,
    {
        let scale_old = self.scale_y;
        let scale_new = Self::apply_zoom(&scale_old, dy);
        let p = Frac::new((height as i64) - 2 * (pos as i64), height as i64);
        assert(p@ == pos_rel_y(pos as int, height as int));
        let diff = scale_old.sub(&scale_new);
        let off = p.sub(&self.delta_y);
        let corr = diff.mul(&off).div(&scale_old);
        self.scale_y = scale_new;
        self.delta_y = self.delta_y.add(&corr);
    }

    /// One axis's zoomed scale: multiply by the exponential factor, floor at
    /// the minimum scale.  The result is strictly positive.
    fn apply_zoom(scale: &Frac, dx: i64) -> (r: Frac)
        requires
            scale.wf(),
            dx > i64::MIN,
        ensures
            r.wf(),
            r@ == zoomed_scale(scale@, dx as int),
            r@.n > 0,
    {
        let factor = if dx >= 0 {
            Frac::new(SCROLL_BASE_NUM, SCROLL_BASE_DEN).pow(dx as u64)
        } else {
            Frac::new(SCROLL_BASE_DEN, SCROLL_BASE_NUM).pow((-dx) as u64)
        };
        let scaled = scale.mul(&factor);
        let floor = Frac::new(SCALE_MIN_NUM, SCALE_MIN_DEN);
        let r = floor.max(&scaled);
        proof {
            if rat_le(scaled@, scale_min_rat()) {
                assert(r@ == scale_min_rat());
            } else {
                assert(r@ == scaled@);
                assert(scaled@.n * SCALE_MIN_DEN > SCALE_MIN_NUM * scaled@.d);
                assert(scaled@.n > 0) by (nonlinear_arith)
                    requires
                        scaled@.n * (SCALE_MIN_DEN as int) > (SCALE_MIN_NUM as int) * scaled@.d,
                        scaled@.d > 0,
                        SCALE_MIN_NUM as int > 0,
                        SCALE_MIN_DEN as int > 0;
            }
        }
        r
    }

    /// The 4x4 homogeneous transform combining the three axes; with `use_z`
    /// false (two axes in use) the z axis is the identity with offset zero.
    pub fn get_matrix(&self, use_z: bool) -> (m: [[Frac; 4]; 4])
        requires
            self.wf(),
        ensures
            m[0][0] == self.scale_x && m[0][1]@ == rat_int(0) && m[0][2]@ == rat_int(0)
                && m[0][3]@ == rat_int(0),
            m[1][0]@ == rat_int(0) && m[1][1] == self.scale_y && m[1][2]@ == rat_int(0)
                && m[1][3]@ == rat_int(0),
            m[2][0]@ == rat_int(0) && m[2][1]@ == rat_int(0) && m[2][3]@ == rat_int(0),
            m[2][2] == if use_z { self.scale_z } else { Frac { num: 1, den: 1 } },
            m[3][0] == self.delta_x && m[3][1] == self.delta_y && m[3][3]@ == rat_int(1),
            m[3][2] == if use_z { self.delta_z } else { Frac { num: 0, den: 1 } },
    {
        let zero = Frac::from_int(0);
        let one = Frac::from_int(1);
        let sz = if use_z { self.scale_z } else { one };
        let dz = if use_z { self.delta_z } else { zero };
        [
            [self.scale_x, zero, zero, zero],
            [zero, self.scale_y, zero, zero],
            [zero, zero, sz, zero],
            [self.delta_x, self.delta_y, dz, one],
        ]
    }
}

} // verus!
