//! Visual parameters: gamma, point size and border visibility.
//!
//! Gamma and point size move by a fixed multiplicative step and are clamped
//! into their configured bounds on every mutation; `reset` restores the
//! defaults.  The bounds are an invariant: no sequence of steps can leave
//! them (see [`lemma_gamma_bounded_after_any_sequence`] and
//! [`lemma_pointsize_bounded_after_any_sequence`]).

use vstd::prelude::*;
use crate::rat::{
    Rat, rat_wf, rat_int, rat_mul, rat_div, rat_le, rat_min, rat_max, norm_rat,
    lemma_norm_within, NUM_MAX, SNAP_DEN,
};
use crate::frac::Frac;
use crate::cfg::{
    GAMMA_CHANGE_NUM, GAMMA_CHANGE_DEN, GAMMA_DEFAULT, GAMMA_MIN, GAMMA_MAX, POINTSIZE_CHANGE_NUM,
    POINTSIZE_CHANGE_DEN, POINTSIZE_DEFAULT, POINTSIZE_MIN, POINTSIZE_MAX, SHOWBORDER_DEFAULT,
};

verus! {

/// The multiplicative step shared by the gamma and point-size keys.
pub open spec fn param_change() -> Rat {
    Rat { n: 11, d: 10 }
}

/// A parameter value lies inside `[lo, hi]`.
pub open spec fn param_in_bounds(v: Rat, lo: int, hi: int) -> bool {
    &&& rat_le(rat_int(lo), v)
    &&& rat_le(v, rat_int(hi))
}

/// One upward step: multiply by the step factor, clamp at `hi`.
pub open spec fn param_step_up(v: Rat, hi: int) -> Rat {
    rat_min(rat_mul(v, param_change()), rat_int(hi))
}

/// One downward step: divide by the step factor, clamp at `lo`.
pub open spec fn param_step_down(v: Rat, lo: int) -> Rat {
    rat_max(rat_div(v, param_change()), rat_int(lo))
}

/// Stepping a bounded parameter keeps it well formed and inside `[lo, hi]`,
/// in both directions.
proof fn lemma_param_step_bounds(v: Rat, lo: int, hi: int)
    requires
        rat_wf(v),
        1 <= lo <= hi <= 1000,
        param_in_bounds(v, lo, hi),
    ensures
        rat_wf(param_step_up(v, hi)),
        param_in_bounds(param_step_up(v, hi), lo, hi),
        rat_wf(param_step_down(v, lo)),
        param_in_bounds(param_step_down(v, lo), lo, hi),
{
    let gn = v.n;
    let gd = v.d;
    let s = SNAP_DEN as int;
    let nm = NUM_MAX as int;
    // bounds of the numerator relative to the denominator
    assert(lo * gd <= gn && gn <= hi * gd);

    // --- upward step: t = norm(11 * gn, 10 * gd) ---
    let un = 11 * gn;
    let ud = 10 * gd;
    let t = norm_rat(un, ud);
    assert(un * s <= nm * ud && -nm * ud <= un * s) by (nonlinear_arith)
        requires
            gn <= hi * gd,
            lo * gd <= gn,
            1 <= lo <= hi <= 1000,
            0 < gd,
            un == 11 * gn,
            ud == 10 * gd,
            s == SNAP_DEN as int,
            nm == NUM_MAX as int;
    lemma_norm_within(un, ud);
    // t >= lo: from  un * s - ud >= lo * ud * s
    assert(un * t.d * s < t.n * ud * s + t.d * ud);
    assert(un * s - ud >= lo * (ud * s)) by (nonlinear_arith)
        requires
            lo * gd <= gn,
            1 <= lo,
            0 < gd,
            un == 11 * gn,
            ud == 10 * gd,
            s == SNAP_DEN as int;
    assert(lo * t.d <= t.n) by (nonlinear_arith)
        requires
            un * t.d * s < t.n * ud * s + t.d * ud,
            un * s - ud >= lo * (ud * s),
            0 < t.d,
            0 < ud,
            0 < s,
        ;
    let up = param_step_up(v, hi);
    assert(rat_le(rat_int(lo), up) && rat_le(up, rat_int(hi)) && rat_wf(up)) by {
        if rat_le(rat_mul(v, param_change()), rat_int(hi)) {
            assert(up == t);
        } else {
            assert(up == rat_int(hi));
        }
    }

    // --- downward step: t2 = norm(10 * gn, 11 * gd) ---
    let dn_n = 10 * gn;
    let dn_d = 11 * gd;
    let t2 = norm_rat(dn_n, dn_d);
    assert(dn_n * s <= nm * dn_d && -nm * dn_d <= dn_n * s) by (nonlinear_arith)
        requires
            gn <= hi * gd,
            lo * gd <= gn,
            1 <= lo <= hi <= 1000,
            0 < gd,
            dn_n == 10 * gn,
            dn_d == 11 * gd,
            s == SNAP_DEN as int,
            nm == NUM_MAX as int;
    lemma_norm_within(dn_n, dn_d);
    // t2 <= hi: the result is at most the exact quotient, which is below v
    assert(t2.n * dn_d <= dn_n * t2.d);
    assert(dn_n <= hi * dn_d) by (nonlinear_arith)
        requires
            gn <= hi * gd,
            1 <= hi,
            0 < gd,
            dn_n == 10 * gn,
            dn_d == 11 * gd;
    assert(t2.n <= hi * t2.d) by (nonlinear_arith)
        requires
            t2.n * dn_d <= dn_n * t2.d,
            dn_n <= hi * dn_d,
            0 < t2.d,
            0 < dn_d,
        ;
    let dn = param_step_down(v, lo);
    assert(rat_le(rat_int(lo), dn) && rat_le(dn, rat_int(hi)) && rat_wf(dn)) by {
        if rat_le(rat_int(lo), rat_div(v, param_change())) {
            assert(dn == t2);
        } else {
            assert(dn == rat_int(lo));
        }
    }
}

/// The user-tunable view parameters.
pub struct UserState {
    pub gamma: Frac,
    pub pointsize: Frac,
    pub showborder: bool,
}

impl UserState {
    /// Both parameters are well-formed scalars inside their bounds.
    pub open spec fn wf(self) -> bool {
        &&& rat_wf(self.gamma@)
        &&& param_in_bounds(self.gamma@, GAMMA_MIN as int, GAMMA_MAX as int)
        &&& rat_wf(self.pointsize@)
        &&& param_in_bounds(self.pointsize@, POINTSIZE_MIN as int, POINTSIZE_MAX as int)
    }

    pub fn new() -> (r: UserState)
        ensures
            r.wf(),
            r.gamma@ == rat_int(GAMMA_DEFAULT as int),
            r.pointsize@ == rat_int(POINTSIZE_DEFAULT as int),
            r.showborder == SHOWBORDER_DEFAULT,
    {
        UserState {
            gamma: Frac::from_int(GAMMA_DEFAULT),
            pointsize: Frac::from_int(POINTSIZE_DEFAULT),
            showborder: SHOWBORDER_DEFAULT,
        }
    }

    /// Restore the compile-time defaults.
    pub fn reset(&mut self)
        ensures
            final(self).wf(),
            final(self).gamma@ == rat_int(GAMMA_DEFAULT as int),
            final(self).pointsize@ == rat_int(POINTSIZE_DEFAULT as int),
            final(self).showborder == SHOWBORDER_DEFAULT,
    {
        self.gamma = Frac::from_int(GAMMA_DEFAULT);
        self.pointsize = Frac::from_int(POINTSIZE_DEFAULT);
        self.showborder = SHOWBORDER_DEFAULT;
    }

    pub fn showborder_toggle(&mut self)
        requires
            old(self).wf(),
        ensures
            final(self).wf(),
            final(self).showborder == !old(self).showborder,
            final(self).gamma == old(self).gamma,
            final(self).pointsize == old(self).pointsize,
    {
        self.showborder = !self.showborder;
    }

    pub fn pointsize_increase(&mut self)
        requires
            old(self).wf(),
        ensures
            final(self).wf(),
            final(self).pointsize@ == param_step_up(old(self).pointsize@, POINTSIZE_MAX as int),
            final(self).gamma == old(self).gamma,
            final(self).showborder == old(self).showborder,
    {
        proof {
            lemma_param_step_bounds(
                self.pointsize@,
                POINTSIZE_MIN as int,
                POINTSIZE_MAX as int,
            );
        }
        let change = Frac::new(POINTSIZE_CHANGE_NUM, POINTSIZE_CHANGE_DEN);
        let stepped = self.pointsize.mul(&change);
        self.pointsize = stepped.min(&Frac::from_int(POINTSIZE_MAX));
    }

    pub fn pointsize_decrease(&mut self)
        requires
            old(self).wf(),
        ensures
            final(self).wf(),
            final(self).pointsize@ == param_step_down(old(self).pointsize@, POINTSIZE_MIN as int),
            final(self).gamma == old(self).gamma,
            final(self).showborder == old(self).showborder,
    {
        proof {
            lemma_param_step_bounds(
                self.pointsize@,
                POINTSIZE_MIN as int,
                POINTSIZE_MAX as int,
            );
        }
        let change = Frac::new(POINTSIZE_CHANGE_NUM, POINTSIZE_CHANGE_DEN);
        let stepped = self.pointsize.div(&change);
        self.pointsize = stepped.max(&Frac::from_int(POINTSIZE_MIN));
    }

    pub fn gamma_increase(&mut self)
        requires
            old(self).wf(),
        ensures
            final(self).wf(),
            final(self).gamma@ == param_step_up(old(self).gamma@, GAMMA_MAX as int),
            final(self).pointsize == old(self).pointsize,
            final(self).showborder == old(self).showborder,
    {
        proof {
            lemma_param_step_bounds(self.gamma@, GAMMA_MIN as int, GAMMA_MAX as int);
        }
        let change = Frac::new(GAMMA_CHANGE_NUM, GAMMA_CHANGE_DEN);
        let stepped = self.gamma.mul(&change);
        self.gamma = stepped.min(&Frac::from_int(GAMMA_MAX));
    }

    pub fn gamma_decrease(&mut self)
        requires
            old(self).wf(),
        ensures
            final(self).wf(),
            final(self).gamma@ == param_step_down(old(self).gamma@, GAMMA_MIN as int),
            final(self).pointsize == old(self).pointsize,
            final(self).showborder == old(self).showborder,
    {
        proof {
            lemma_param_step_bounds(self.gamma@, GAMMA_MIN as int, GAMMA_MAX as int);
        }
        let change = Frac::new(GAMMA_CHANGE_NUM, GAMMA_CHANGE_DEN);
        let stepped = self.gamma.div(&change);
        self.gamma = stepped.max(&Frac::from_int(GAMMA_MIN));
    }
}

/// A direction of one parameter key press.
pub enum ParamStep {
    Up,
    Down,
}

/// The value after a whole sequence of steps with bounds `[lo, hi]`.
pub open spec fn apply_param_steps(v: Rat, lo: int, hi: int, steps: Seq<ParamStep>) -> Rat
    decreases steps.len(),
{
    if steps.len() == 0 {
        v
    } else {
        let stepped = match steps[0] {
            ParamStep::Up => param_step_up(v, hi),
            ParamStep::Down => param_step_down(v, lo),
        };
        apply_param_steps(stepped, lo, hi, steps.drop_first())
    }
}

/// Any sequence of steps keeps a bounded parameter well formed and inside its
/// bounds.
proof fn lemma_param_bounded_after_any_sequence(v: Rat, lo: int, hi: int, steps: Seq<ParamStep>)
    requires
        rat_wf(v),
        1 <= lo <= hi <= 1000,
        param_in_bounds(v, lo, hi),
    ensures
        rat_wf(apply_param_steps(v, lo, hi, steps)),
        param_in_bounds(apply_param_steps(v, lo, hi, steps), lo, hi),
    decreases steps.len(),
{
    if steps.len() == 0 {
    } else {
        lemma_param_step_bounds(v, lo, hi);
        let stepped = match steps[0] {
            ParamStep::Up => param_step_up(v, hi),
            ParamStep::Down => param_step_down(v, lo),
        };
        lemma_param_bounded_after_any_sequence(stepped, lo, hi, steps.drop_first());
    }
}

/// Gamma never leaves `[GAMMA_MIN, GAMMA_MAX]` after any sequence of
/// increase/decrease steps, however long and wherever it starts in bounds.
pub proof fn lemma_gamma_bounded_after_any_sequence(g: Rat, steps: Seq<ParamStep>)
    requires
        rat_wf(g),
        param_in_bounds(g, GAMMA_MIN as int, GAMMA_MAX as int),
    ensures
        rat_wf(apply_param_steps(g, GAMMA_MIN as int, GAMMA_MAX as int, steps)),
        param_in_bounds(
            apply_param_steps(g, GAMMA_MIN as int, GAMMA_MAX as int, steps),
            GAMMA_MIN as int,
            GAMMA_MAX as int,
        ),
{
    lemma_param_bounded_after_any_sequence(g, GAMMA_MIN as int, GAMMA_MAX as int, steps);
}

/// Point size never leaves `[POINTSIZE_MIN, POINTSIZE_MAX]` after any
/// sequence of increase/decrease steps.
pub proof fn lemma_pointsize_bounded_after_any_sequence(p: Rat, steps: Seq<ParamStep>)
    requires
        rat_wf(p),
        param_in_bounds(p, POINTSIZE_MIN as int, POINTSIZE_MAX as int),
    ensures
        rat_wf(apply_param_steps(p, POINTSIZE_MIN as int, POINTSIZE_MAX as int, steps)),
        param_in_bounds(
            apply_param_steps(p, POINTSIZE_MIN as int, POINTSIZE_MAX as int, steps),
            POINTSIZE_MIN as int,
            POINTSIZE_MAX as int,
        ),
{
    lemma_param_bounded_after_any_sequence(
        p,
        POINTSIZE_MIN as int,
        POINTSIZE_MAX as int,
        steps,
    );
}

} // verus!
