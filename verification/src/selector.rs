//! Cyclic axis-to-column selection.
//!
//! Three indices pick which data columns feed the x, y and z screen axes.
//! Stepping an index forwards or backwards wraps modulo the column count `m`,
//! so each index always stays a valid column index.

use vstd::prelude::*;
use vstd::arithmetic::div_mod::{
    lemma_fundamental_div_mod, lemma_fundamental_div_mod_converse, lemma_mod_bound,
};

verus! {

/// One cyclic step forwards over `[0, m)`.
pub open spec fn cyc_next(i: int, m: int) -> int {
    if i + 1 >= m {
        0
    } else {
        i + 1
    }
}

/// One cyclic step backwards over `[0, m)`.
pub open spec fn cyc_prev(i: int, m: int) -> int {
    if i == 0 {
        m - 1
    } else {
        i - 1
    }
}

/// `k` forward steps.
pub open spec fn cyc_next_k(i: int, m: int, k: nat) -> int
    decreases k,
{
    if k == 0 {
        i
    } else {
        cyc_next(cyc_next_k(i, m, (k - 1) as nat), m)
    }
}

/// `k` backward steps.
pub open spec fn cyc_prev_k(i: int, m: int, k: nat) -> int
    decreases k,
{
    if k == 0 {
        i
    } else {
        cyc_prev(cyc_prev_k(i, m, (k - 1) as nat), m)
    }
}

/// Stepping forwards `k` times lands on `(i + k) mod m`.
proof fn lemma_cyc_next_k_mod(i: int, m: int, k: nat)
    requires
        0 <= i < m,
    ensures
        cyc_next_k(i, m, k) == (i + k) % m,
    decreases k,
{
    if k == 0 {
        lemma_mod_bound(i, m);
        lemma_fundamental_div_mod_converse(i, m, 0, i);
    } else {
        lemma_cyc_next_k_mod(i, m, (k - 1) as nat);
        let p = (i + k - 1) % m;
        lemma_mod_bound(i + k - 1, m);
        lemma_fundamental_div_mod(i + k - 1, m);
        let q = (i + k - 1) / m;
        assert(i + k - 1 == m * q + p);
        if p + 1 < m {
            assert(i + k == q * m + (p + 1)) by (nonlinear_arith)
                requires i + k - 1 == m * q + p;
            lemma_fundamental_div_mod_converse(i + k, m, q, p + 1);
        } else {
            assert(i + k == (q + 1) * m + 0) by (nonlinear_arith)
                requires i + k - 1 == m * q + p && p + 1 == m;
            lemma_fundamental_div_mod_converse(i + k, m, q + 1, 0);
        }
    }
}

/// Stepping backwards `k` times lands on `(i - k) mod m`.
proof fn lemma_cyc_prev_k_mod(i: int, m: int, k: nat)
    requires
        0 <= i < m,
    ensures
        cyc_prev_k(i, m, k) == (i - k) % m,
    decreases k,
{
    if k == 0 {
        lemma_mod_bound(i, m);
        lemma_fundamental_div_mod_converse(i, m, 0, i);
    } else {
        lemma_cyc_prev_k_mod(i, m, (k - 1) as nat);
        let p = (i - (k - 1)) % m;
        lemma_mod_bound(i - (k - 1), m);
        lemma_fundamental_div_mod(i - (k - 1), m);
        let q = (i - (k - 1)) / m;
        assert(i - (k - 1) == m * q + p);
        if p == 0 {
            assert(i - k == (q - 1) * m + (m - 1)) by (nonlinear_arith)
                requires i - (k - 1) == m * q + p && p == 0;
            lemma_fundamental_div_mod_converse(i - k, m, q - 1, m - 1);
        } else {
            assert(i - k == q * m + (p - 1)) by (nonlinear_arith)
                requires i - (k - 1) == m * q + p;
            lemma_fundamental_div_mod_converse(i - k, m, q, p - 1);
        }
    }
}

/// Composing `next` exactly `m` times returns to the starting index, for any
/// column count `m >= 2` and any valid starting index.
pub proof fn lemma_next_cycle_returns(i: int, m: int)
    requires
        2 <= m,
        0 <= i < m,
    ensures
        cyc_next_k(i, m, m as nat) == i,
{
    lemma_cyc_next_k_mod(i, m, m as nat);
    lemma_fundamental_div_mod_converse(i + m, m, 1, i);
}

/// Composing `prev` exactly `m` times returns to the starting index, for any
/// column count `m >= 2` and any valid starting index.
pub proof fn lemma_prev_cycle_returns(i: int, m: int)
    requires
        2 <= m,
        0 <= i < m,
    ensures
        cyc_prev_k(i, m, m as nat) == i,
{
    lemma_cyc_prev_k_mod(i, m, m as nat);
    lemma_fundamental_div_mod_converse(i - m, m, -1, i);
}

/// The current column index of each visualized axis.
pub struct ColumnState {
    pub x: usize,
    pub y: usize,
    pub z: usize,
}

impl ColumnState {
    /// All three indices are valid for a table of `m` columns.
    pub open spec fn wf(self, m: int) -> bool {
        &&& (self.x as int) < m
        &&& (self.y as int) < m
        &&& (self.z as int) < m
    }

    /// Initial selection: x from column 0, y from column 1, z from column 2
    /// when it exists, otherwise aliasing y.
    pub fn new(m: usize) -> (r: ColumnState)
        requires
            2 <= m,
        ensures
            r.x == 0,
            r.y == 1,
            r.z == if m > 2 { 2int } else { 1int },
            r.wf(m as int),
    {
        ColumnState { x: 0, y: 1, z: if m > 2 { 2 } else { 1 } }
    }

    pub fn x_prev(&mut self, m: usize)
        requires
            old(self).wf(m as int),
            1 <= m,
        ensures
            final(self).x == cyc_prev(old(self).x as int, m as int),
            final(self).y == old(self).y,
            final(self).z == old(self).z,
            final(self).wf(m as int),
    {
        if self.x == 0 {
            self.x = m;
        }
        self.x = self.x - 1;
    }

    pub fn y_prev(&mut self, m: usize)
        requires
            old(self).wf(m as int),
            1 <= m,
        ensures
            final(self).y == cyc_prev(old(self).y as int, m as int),
            final(self).x == old(self).x,
            final(self).z == old(self).z,
            final(self).wf(m as int),
    {
        if self.y == 0 {
            self.y = m;
        }
        self.y = self.y - 1;
    }

    pub fn z_prev(&mut self, m: usize)
        requires
            old(self).wf(m as int),
            1 <= m,
        ensures
            final(self).z == cyc_prev(old(self).z as int, m as int),
            final(self).x == old(self).x,
            final(self).y == old(self).y,
            final(self).wf(m as int),
    {
        if self.z == 0 {
            self.z = m;
        }
        self.z = self.z - 1;
    }

    pub fn x_next(&mut self, m: usize)
        requires
            old(self).wf(m as int),
            1 <= m,
        ensures
            final(self).x == cyc_next(old(self).x as int, m as int),
            final(self).y == old(self).y,
            final(self).z == old(self).z,
            final(self).wf(m as int),
    {
        self.x = self.x + 1;
        if self.x >= m {
            self.x = 0;
        }
    }

    pub fn y_next(&mut self, m: usize)
        requires
            old(self).wf(m as int),
            1 <= m,
        ensures
            final(self).y == cyc_next(old(self).y as int, m as int),
            final(self).x == old(self).x,
            final(self).z == old(self).z,
            final(self).wf(m as int),
    {
        self.y = self.y + 1;
        if self.y >= m {
            self.y = 0;
        }
    }

    pub fn z_next(&mut self, m: usize)
        requires
            old(self).wf(m as int),
            1 <= m,
        ensures
            final(self).z == cyc_next(old(self).z as int, m as int),
            final(self).x == old(self).x,
            final(self).y == old(self).y,
            final(self).wf(m as int),
    {
        self.z = self.z + 1;
        if self.z >= m {
            self.z = 0;
        }
    }
}

} // verus!
