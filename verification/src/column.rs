//! Columns of engine-unit data and the point geometry derived from them.
//!
//! A cell is either a value in engine units (an integer coordinate) or
//! missing.  A column tracks the running minimum and maximum over its
//! non-missing cells; a column with no non-missing cell has no bounds and the
//! projection leaves its axis alone.

use vstd::prelude::*;
use crate::projection::COORD_LIMIT;

verus! {

/// One cell of a column: an engine-unit coordinate or a missing entry.
#[derive(Clone, Copy, Debug, PartialEq, Eq, Structural)]
pub enum Cell {
    Missing,
    Value(i64),
}

/// A cell that carries a value within the engine's coordinate range.
pub open spec fn cell_in_range(c: Cell) -> bool {
    c is Value ==> -COORD_LIMIT <= c->0 <= COORD_LIMIT
}

/// One point of the geometry: the selected columns' cells for one row.
#[derive(Clone, Copy, Debug)]
pub struct Point {
    pub position: [Cell; 3],
}

/// A named series of cells with running extrema over the non-missing ones.
pub struct Column {
    pub name: String,
    pub data: Vec<Cell>,
    pub min: i64,
    pub max: i64,
    pub has_values: bool,
}

impl Column {
    /// `min` and `max` are the extrema of the non-missing cells, which exist
    /// exactly when `has_values` is set, and stay in the coordinate range.
    pub open spec fn wf(self) -> bool {
        &&& self.has_values <==> exists|i: int|
            0 <= i < self.data@.len() && self.data@[i] is Value
        &&& forall|i: int|
            0 <= i < self.data@.len() ==> cell_in_range(#[trigger] self.data@[i])
        &&& self.has_values ==> {
            &&& -COORD_LIMIT <= self.min <= self.max <= COORD_LIMIT
            &&& forall|i: int|
                0 <= i < self.data@.len() && (#[trigger] self.data@[i]) is Value
                    ==> self.min <= self.data@[i]->0 <= self.max
            &&& exists|i: int|
                0 <= i < self.data@.len() && self.data@[i] == Cell::Value(self.min)
            &&& exists|i: int|
                0 <= i < self.data@.len() && self.data@[i] == Cell::Value(self.max)
        }
    }

    /// An empty column with the given name and no bounds yet.
    pub fn new(name: &String) -> (r: Column)
        ensures
            r.wf(),
            r.name@ == name@,
            r.data@.len() == 0,
            !r.has_values,
    {
        Column { name: name.clone(), data: Vec::new(), min: 0, max: 0, has_values: false }
    }

    /// Append one cell.  A missing cell never touches the extrema; a value
    /// extends them (or starts them on the first value).
    pub fn push(&mut self, cell: Cell)
        requires
            old(self).wf(),
            cell_in_range(cell),
        ensures
            final(self).wf(),
            final(self).name == old(self).name,
            final(self).data@ == old(self).data@.push(cell),
            cell is Missing ==> {
                &&& final(self).min == old(self).min
                &&& final(self).max == old(self).max
                &&& final(self).has_values == old(self).has_values
            },
            cell is Value ==> {
                &&& final(self).has_values
                &&& final(self).min == if old(self).has_values && old(self).min <= cell->0 {
                    old(self).min as int
                } else {
                    cell->0 as int
                }
                &&& final(self).max == if old(self).has_values && old(self).max >= cell->0 {
                    old(self).max as int
                } else {
                    cell->0 as int
                }
            },
    {
        let ghost prev = *self;
        self.data.push(cell);
        match cell {
            Cell::Missing => {
                proof {
                    assert forall|i: int|
                        0 <= i < self.data@.len() && (#[trigger] self.data@[i]) is Value
                        implies prev.has_values && (prev.has_values ==> prev.min
                            <= self.data@[i]->0 <= prev.max) by {
                        assert(i < prev.data@.len());
                        assert(self.data@[i] == prev.data@[i]);
                    }
                }
            },
            Cell::Value(v) => {
                if self.has_values {
                    if v < self.min {
                        self.min = v;
                    }
                    if v > self.max {
                        self.max = v;
                    }
                } else {
                    self.min = v;
                    self.max = v;
                    self.has_values = true;
                }
                proof {
                    assert(self.data@[self.data@.len() - 1] == cell);
                    if prev.has_values {
                        let wmin = choose|i: int|
                            0 <= i < prev.data@.len() && prev.data@[i] == Cell::Value(prev.min);
                        let wmax = choose|i: int|
                            0 <= i < prev.data@.len() && prev.data@[i] == Cell::Value(prev.max);
                        if v < prev.min {
                            assert(self.data@[self.data@.len() - 1] == Cell::Value(self.min));
                        } else {
                            assert(self.data@[wmin] == Cell::Value(self.min));
                        }
                        if v > prev.max {
                            assert(self.data@[self.data@.len() - 1] == Cell::Value(self.max));
                        } else {
                            assert(self.data@[wmax] == Cell::Value(self.max));
                        }
                    } else {
                        assert(forall|i: int|
                            0 <= i < prev.data@.len() ==> !((#[trigger] prev.data@[i]) is Value));
                        assert(self.data@[self.data@.len() - 1] == Cell::Value(self.min));
                        assert(self.data@[self.data@.len() - 1] == Cell::Value(self.max));
                    }
                    assert forall|i: int|
                        0 <= i < self.data@.len() && (#[trigger] self.data@[i]) is Value
                        implies self.min <= self.data@[i]->0 <= self.max by {
                        if i < prev.data@.len() {
                            assert(self.data@[i] == prev.data@[i]);
                            if !prev.has_values {
                                assert(!(prev.data@[i] is Value));
                            }
                        } else {
                            assert(self.data@[i] == cell);
                        }
                    }
                }
            },
        }
    }
}

/// Zip three columns by row index into point geometry, one point per row.
pub fn points_from_columns(cols: &Vec<Column>, a: usize, b: usize, c: usize) -> (r: Vec<Point>)
    requires
        a < cols@.len(),
        b < cols@.len(),
        c < cols@.len(),
        cols@[b as int].data@.len() == cols@[a as int].data@.len(),
        cols@[c as int].data@.len() == cols@[a as int].data@.len(),
    ensures
        r@.len() == cols@[a as int].data@.len(),
        forall|i: int|
            0 <= i < r@.len() ==> {
                &&& (#[trigger] r@[i]).position[0] == cols@[a as int].data@[i]
                &&& r@[i].position[1] == cols@[b as int].data@[i]
                &&& r@[i].position[2] == cols@[c as int].data@[i]
            },
{
    let n = cols[a].data.len();
    let mut r: Vec<Point> = Vec::new();
    let mut i: usize = 0;
    while i < n
        invariant
            a < cols@.len(),
            b < cols@.len(),
            c < cols@.len(),
            n == cols@[a as int].data@.len(),
            cols@[b as int].data@.len() == n,
            cols@[c as int].data@.len() == n,
            i <= n,
            r@.len() == i,
            forall|j: int|
                0 <= j < i ==> {
                    &&& (#[trigger] r@[j]).position[0] == cols@[a as int].data@[j]
                    &&& r@[j].position[1] == cols@[b as int].data@[j]
                    &&& r@[j].position[2] == cols@[c as int].data@[j]
                },
        decreases n - i,
    {
        let p = Point {
            position: [cols[a].data[i], cols[b].data[i], cols[c].data[i]],
        };
        r.push(p);
        i = i + 1;
    }
    r
}

/// The strings that mark a cell as missing: `?` and `na` in any letter case.
pub open spec fn is_na_chars(s: Seq<char>) -> bool {
    ||| (s.len() == 1 && s[0] == '?')
    ||| (s.len() == 2 && (s[0] == 'n' || s[0] == 'N') && (s[1] == 'a' || s[1] == 'A'))
}

/// Recognise the strings that stand for a missing cell.
pub fn is_na_string(s: &String) -> (r: bool)
    ensures
        r == is_na_chars(s@),
{
    let st = s.as_str();
    let len = st.unicode_len();
    if len == 1 {
        st.get_char(0) == '?'
    } else if len == 2 {
        let c0 = st.get_char(0);
        let c1 = st.get_char(1);
        (c0 == 'n' || c0 == 'N') && (c1 == 'a' || c1 == 'A')
    } else {
        false
    }
}

} // verus!
