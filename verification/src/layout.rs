//! The placement authority: a row-addressed assignment grid.
//!
//! The layouter maps logical regions requested by chips onto physical rows,
//! records the witness value of every assigned advice cell (write-once per
//! cell), the rows on which each selector is enabled, copy constraints
//! between assigned cells, and bindings of assigned cells to rows of
//! instance columns.

use vstd::prelude::*;

use crate::columns::{AdviceColumn, InstanceColumn, Selector};
use crate::expr::grid_value;
use crate::system::ConstraintSystem;
use crate::value::Value;

verus! {

/// Why a configuration, assignment or binding step was aborted.  Errors are
/// value-returned and propagate unchanged to the caller; no operation is
/// retried and a failed synthesis leaves no usable constraint system.
#[derive(Clone, Copy, Debug, PartialEq, Eq, Structural)]
pub enum Error {
    /// A region or row lies beyond the rows the layouter was given.
    NotEnoughRows,
    /// A cell would be written twice within one synthesis pass.
    CellAlreadyAssigned,
    /// A cell handle does not address an allocated region of the grid.
    CellOutOfRange,
    /// A column lacks the equality enablement a copy constraint needs.
    EqualityNotEnabled,
    /// An instance row index exceeds the public instance vector.
    InstanceOutOfRange,
    /// The number of public instance vectors differs from the number of
    /// instance columns.
    InstanceCount,
}

/// The coordinate of an assigned advice cell.
#[derive(Clone, Copy, Debug, PartialEq, Eq, Structural)]
pub struct Cell {
    pub column: AdviceColumn,
    pub row: usize,
}

/// The result of placing a witness value: the value itself together with
/// the coordinate it was placed at.  Handles are shared between the
/// assigning chip and the circuit and are what equality binding works on.
#[derive(Clone, Copy, Debug, PartialEq, Eq, Structural)]
pub struct AssignedCell {
    pub cell: Cell,
    pub value: Value,
}

impl AssignedCell {
    /// The witness value this handle carries.
    pub fn value(&self) -> (v: Value)
        ensures
            v == self.value,
    {
        self.value
    }

    /// The coordinate this handle addresses.
    pub fn cell(&self) -> (c: Cell)
        ensures
            c == self.cell,
    {
        self.cell
    }
}

/// An enforced equality between two assigned cells, possibly from different
/// chips or regions.
#[derive(Clone, Copy, Debug, PartialEq, Eq, Structural)]
pub struct CopyConstraint {
    pub left: Cell,
    pub right: Cell,
}

/// An enforced equality between an assigned cell and one row of an instance
/// column.
#[derive(Clone, Copy, Debug, PartialEq, Eq, Structural)]
pub struct InstanceBinding {
    pub cell: Cell,
    pub column: InstanceColumn,
    pub row: usize,
}

/// The assignment grid and everything recorded while a circuit is
/// synthesized.
pub struct Layouter {
    /// The number of physical rows of every column.
    pub num_rows: usize,
    /// The witness grid: one entry per advice column, one slot per row.
    pub advice: Vec<Vec<Option<Value>>>,
    /// Per selector, the rows on which it is enabled.
    pub selectors: Vec<Vec<bool>>,
    /// Frozen per-advice-column equality enablement, from the configuration.
    pub advice_equality: Vec<bool>,
    /// Frozen per-instance-column equality enablement, from the configuration.
    pub instance_equality: Vec<bool>,
    /// The recorded copy constraints.
    pub copies: Vec<CopyConstraint>,
    /// The recorded instance bindings.
    pub bindings: Vec<InstanceBinding>,
    /// The first row not yet claimed by a region.
    pub next_row: usize,
}

impl Layouter {
    /// The witness grid as a mathematical value.
    pub open spec fn grid(self) -> Seq<Seq<Option<Value>>> {
        self.advice@.map_values(|c: Vec<Option<Value>>| c@)
    }

    /// The cell addresses an existing column and row.
    pub open spec fn cell_in_range(self, cell: Cell) -> bool {
        cell.column.index < self.advice@.len() && cell.row < self.num_rows
    }

    /// The cell's column may take part in equality constraints.
    pub open spec fn cell_equality_enabled(self, cell: Cell) -> bool {
        self.advice_equality@[cell.column.index as int]
    }

    /// The witness value the grid holds at `cell`.
    pub open spec fn cell_value(self, cell: Cell) -> Value {
        grid_value(self.grid(), cell.column.index as int, cell.row as int)
    }

    /// The selector `s` is enabled on `row`.
    pub open spec fn selector_on(self, s: int, row: int) -> bool {
        0 <= s < self.selectors@.len() && 0 <= row < self.num_rows && self.selectors@[s]@[row]
    }

    pub open spec fn copy_wf(self, c: CopyConstraint) -> bool {
        &&& self.cell_in_range(c.left)
        &&& self.cell_in_range(c.right)
        &&& self.cell_equality_enabled(c.left)
        &&& self.cell_equality_enabled(c.right)
    }

    pub open spec fn binding_wf(self, b: InstanceBinding) -> bool {
        &&& self.cell_in_range(b.cell)
        &&& self.cell_equality_enabled(b.cell)
        &&& b.column.index < self.instance_equality@.len()
        &&& self.instance_equality@[b.column.index as int]
    }

    pub open spec fn wf(self) -> bool {
        &&& self.advice@.len() == self.advice_equality@.len()
        &&& forall|c: int|
            0 <= c < self.advice@.len() ==> (#[trigger] self.advice@[c])@.len() == self.num_rows
        &&& forall|s: int|
            0 <= s < self.selectors@.len() ==> (#[trigger] self.selectors@[s])@.len()
                == self.num_rows
        &&& self.next_row <= self.num_rows
        &&& forall|c: int, r: int|
            0 <= c < self.advice@.len() && 0 <= r < self.num_rows ==> ((
            #[trigger] self.advice@[c]@[r]) matches Some(v) ==> v.wf() && r < self.next_row)
        &&& forall|k: int|
            0 <= k < self.copies@.len() ==> self.copy_wf(#[trigger] self.copies@[k])
        &&& forall|k: int|
            0 <= k < self.bindings@.len() ==> self.binding_wf(#[trigger] self.bindings@[k])
    }

    /// The layouter was laid out for this configuration: same columns, same
    /// selectors, same equality enablement.
    pub open spec fn matches_config(self, cs: ConstraintSystem) -> bool {
        &&& self.advice_equality@ == cs.advice_equality@
        &&& self.instance_equality@ == cs.instance_equality@
        &&& self.selectors@.len() == cs.num_selectors
    }

    /// A fresh, fully unassigned grid for the configured shape, with
    /// `num_rows` physical rows.
    pub fn new(cs: &ConstraintSystem, num_rows: usize) -> (r: Layouter)
        requires
            cs.wf(),
        ensures
            r.wf(),
            r.matches_config(*cs),
            r.num_rows == num_rows,
            r.next_row == 0,
            r.copies@ =~= Seq::<CopyConstraint>::empty(),
            r.bindings@ =~= Seq::<InstanceBinding>::empty(),
            forall|c: int, rr: int|
                0 <= c < r.advice@.len() && 0 <= rr < num_rows ==> (#[trigger] r.advice@[c]@[rr])
                    is None,
            forall|s: int, rr: int|
                0 <= s < r.selectors@.len() && 0 <= rr < num_rows ==> !(
                #[trigger] r.selectors@[s]@[rr]),
    {
        let width = cs.advice_equality.len();
        let mut advice: Vec<Vec<Option<Value>>> = Vec::new();
        let mut c: usize = 0;
        while c < width
            invariant
                advice@.len() == c,
                c <= width,
                forall|i: int|
                    0 <= i < c ==> (#[trigger] advice@[i])@.len() == num_rows,
                forall|i: int, rr: int|
                    0 <= i < c && 0 <= rr < num_rows ==> (#[trigger] advice@[i]@[rr]) is None,
            decreases width - c,
        {
            advice.push(blank_column(num_rows));
            c = c + 1;
        }
        let mut selectors: Vec<Vec<bool>> = Vec::new();
        let mut s: usize = 0;
        while s < cs.num_selectors
            invariant
                selectors@.len() == s,
                s <= cs.num_selectors,
                forall|i: int|
                    0 <= i < s ==> (#[trigger] selectors@[i])@.len() == num_rows,
                forall|i: int, rr: int|
                    0 <= i < s && 0 <= rr < num_rows ==> !(#[trigger] selectors@[i]@[rr]),
            decreases cs.num_selectors - s,
        {
            selectors.push(blank_selector_column(num_rows));
            s = s + 1;
        }
        Layouter {
            num_rows,
            advice,
            selectors,
            advice_equality: copy_flags(&cs.advice_equality),
            instance_equality: copy_flags(&cs.instance_equality),
            copies: Vec::new(),
            bindings: Vec::new(),
            next_row: 0,
        }
    }

    /// Claims the next `height` free rows as a region and returns the
    /// region's first absolute row.  Fails, changing nothing, exactly when
    /// fewer than `height` rows remain.
    pub fn assign_region(&mut self, height: usize) -> (r: Result<usize, Error>)
        requires
            old(self).wf(),
        ensures
            final(self).wf(),
            match r {
                Ok(start) => {
                    &&& start == old(self).next_row
                    &&& start + height <= old(self).num_rows
                    &&& final(self).next_row == start + height
                    &&& *final(self) == (Layouter {
                        next_row: final(self).next_row,
                        ..*old(self)
                    })
                },
                Err(e) => {
                    &&& e == Error::NotEnoughRows
                    &&& old(self).next_row + height > old(self).num_rows
                    &&& *final(self) == *old(self)
                },
            },
    {
        if height > self.num_rows - self.next_row {
            return Err(Error::NotEnoughRows);
        }
        let start = self.next_row;
        self.next_row = self.next_row + height;
        Ok(start)
    }

    /// Writes `value` into the cell at `(column, row)` and returns its
    /// handle.  The row must lie inside a claimed region and the cell must
    /// not have been written before; otherwise nothing changes and the
    /// matching error is returned.
    pub fn assign_advice(&mut self, column: AdviceColumn, row: usize, value: Value) -> (r: Result<
        Cell,
        Error,
    >)
        requires
            old(self).wf(),
            column.index < old(self).advice@.len(),
            value.wf(),
        ensures
            final(self).wf(),
            match r {
                Ok(cell) => {
                    &&& cell == (Cell { column, row })
                    &&& row < old(self).next_row
                    &&& old(self).advice@[column.index as int]@[row as int] is None
                    &&& final(self).advice@.len() == old(self).advice@.len()
                    &&& final(self).advice@[column.index as int]@ == old(self).advice@[column.index as int]@.update(row as int, Some(value))
                    &&& forall|i: int|
                        0 <= i < old(self).advice@.len() && i != column.index ==> final(self).advice@[i] == old(self).advice@[i]
                    &&& forall|c: int, rr: int|
                        #![trigger grid_value(final(self).grid(), c, rr)]
                        0 <= c < old(self).advice@.len() && 0 <= rr < old(self).num_rows ==>
                            grid_value(final(self).grid(), c, rr) == (if c == column.index && rr
                                == row {
                                value
                            } else {
                                grid_value(old(self).grid(), c, rr)
                            })
                    &&& *final(self) == (Layouter { advice: final(self).advice, ..*old(self) })
                },
                Err(e) => {
                    &&& *final(self) == *old(self)
                    &&& (e == Error::CellOutOfRange <==> row >= old(self).next_row)
                    &&& (e == Error::CellAlreadyAssigned ==> row < old(self).next_row && old(self).advice@[column.index as int]@[row as int] is Some)
                    &&& (e == Error::CellOutOfRange || e == Error::CellAlreadyAssigned)
                },
            },
            r is Ok <==> row < old(self).next_row && old(self).advice@[column.index as int]@[row as int] is None,
    {
        if row >= self.next_row {
            return Err(Error::CellOutOfRange);
        }
        if self.advice[column.index][row].is_some() {
            return Err(Error::CellAlreadyAssigned);
        }
        let inner: &mut Vec<Option<Value>> = &mut self.advice[column.index];
        inner.set(row, Some(value));
        Ok(Cell { column, row })
    }

    /// Enables the selector `s` on `row`.  Enabling an already enabled row
    /// again changes nothing; a row beyond the grid is rejected.
    pub fn enable_selector(&mut self, s: Selector, row: usize) -> (r: Result<(), Error>)
        requires
            old(self).wf(),
            s.index < old(self).selectors@.len(),
        ensures
            final(self).wf(),
            match r {
                Ok(_) => {
                    &&& row < old(self).num_rows
                    &&& final(self).selectors@.len() == old(self).selectors@.len()
                    &&& final(self).selectors@[s.index as int]@ == old(self).selectors@[s.index as int]@.update(row as int, true)
                    &&& forall|i: int|
                        0 <= i < old(self).selectors@.len() && i != s.index ==> final(self).selectors@[i] == old(self).selectors@[i]
                    &&& forall|j: int, rr: int|
                        #![trigger final(self).selector_on(j, rr)]
                        final(self).selector_on(j, rr) <==> (old(self).selector_on(j, rr) || (j
                            == s.index && rr == row))
                    &&& *final(self) == (Layouter { selectors: final(self).selectors, ..*old(self) })
                },
                Err(e) => {
                    &&& e == Error::NotEnoughRows
                    &&& row >= old(self).num_rows
                    &&& *final(self) == *old(self)
                },
            },
            r is Ok <==> row < old(self).num_rows,
    {
        if row >= self.num_rows {
            return Err(Error::NotEnoughRows);
        }
        let inner: &mut Vec<bool> = &mut self.selectors[s.index];
        inner.set(row, true);
        Ok(())
    }

    /// Both cells may lawfully take part in a copy constraint: they address
    /// the grid and their columns are equality-enabled.
    pub open spec fn can_copy(self, a: Cell, b: Cell) -> bool {
        &&& self.cell_in_range(a)
        &&& self.cell_in_range(b)
        &&& self.cell_equality_enabled(a)
        &&& self.cell_equality_enabled(b)
    }

    /// Records the copy constraint `a == b`.  Fails, changing nothing, when
    /// a cell is out of range or a column lacks equality enablement.
    pub fn constrain_equal(&mut self, a: Cell, b: Cell) -> (r: Result<(), Error>)
        requires
            old(self).wf(),
        ensures
            final(self).wf(),
            match r {
                Ok(_) => {
                    &&& old(self).can_copy(a, b)
                    &&& final(self).copies@ == old(self).copies@.push(
                        (CopyConstraint { left: a, right: b }),
                    )
                    &&& *final(self) == (Layouter { copies: final(self).copies, ..*old(self) })
                },
                Err(e) => {
                    &&& *final(self) == *old(self)
                    &&& !old(self).can_copy(a, b)
                    &&& (e == Error::CellOutOfRange || e == Error::EqualityNotEnabled)
                },
            },
            r is Ok <==> old(self).can_copy(a, b),
    {
        if !(a.column.index < self.advice.len() && a.row < self.num_rows && b.column.index
            < self.advice.len() && b.row < self.num_rows) {
            return Err(Error::CellOutOfRange);
        }
        if !(self.advice_equality[a.column.index] && self.advice_equality[b.column.index]) {
            return Err(Error::EqualityNotEnabled);
        }
        self.copies.push(CopyConstraint { left: a, right: b });
        Ok(())
    }

    /// The cell may lawfully be bound to a row of the instance column: both
    /// exist and both columns are equality-enabled.  The row itself is
    /// checked against the public instance vector when one is supplied.
    pub open spec fn can_bind(self, cell: Cell, column: InstanceColumn) -> bool {
        &&& self.cell_in_range(cell)
        &&& self.cell_equality_enabled(cell)
        &&& column.index < self.instance_equality@.len()
        &&& self.instance_equality@[column.index as int]
    }

    /// Exec mirror of [`Self::can_bind`], used to validate a whole batch of
    /// bindings before recording any of them.
    pub fn check_bind(&self, cell: Cell, column: InstanceColumn) -> (r: bool)
        requires
            self.wf(),
        ensures
            r == self.can_bind(cell, column),
    {
        cell.column.index < self.advice.len() && cell.row < self.num_rows
            && self.advice_equality[cell.column.index] && column.index
            < self.instance_equality.len() && self.instance_equality[column.index]
    }

    /// Records the binding of `cell` to row `row` of the instance column.
    /// Fails, changing nothing, when the cell is out of range or a column
    /// lacks equality enablement.
    pub fn constrain_instance(&mut self, cell: Cell, column: InstanceColumn, row: usize) -> (r:
        Result<(), Error>)
        requires
            old(self).wf(),
        ensures
            final(self).wf(),
            match r {
                Ok(_) => {
                    &&& old(self).can_bind(cell, column)
                    &&& final(self).bindings@ == old(self).bindings@.push(
                        (InstanceBinding { cell, column, row }),
                    )
                    &&& *final(self) == (Layouter { bindings: final(self).bindings, ..*old(self) })
                },
                Err(e) => {
                    &&& *final(self) == *old(self)
                    &&& !old(self).can_bind(cell, column)
                    &&& (e == Error::CellOutOfRange || e == Error::EqualityNotEnabled)
                },
            },
            r is Ok <==> old(self).can_bind(cell, column),
    {
        if !(cell.column.index < self.advice.len() && cell.row < self.num_rows && column.index
            < self.instance_equality.len()) {
            return Err(Error::CellOutOfRange);
        }
        if !(self.advice_equality[cell.column.index] && self.instance_equality[column.index]) {
            return Err(Error::EqualityNotEnabled);
        }
        self.bindings.push(InstanceBinding { cell, column, row });
        Ok(())
    }
}

/// A column of `height` unassigned slots.
fn blank_column(height: usize) -> (r: Vec<Option<Value>>)
    ensures
        r@.len() == height,
        forall|i: int| 0 <= i < height ==> (#[trigger] r@[i]) is None,
{
    let mut col: Vec<Option<Value>> = Vec::new();
    let mut i: usize = 0;
    while i < height
        invariant
            col@.len() == i,
            i <= height,
            forall|j: int| 0 <= j < i ==> (#[trigger] col@[j]) is None,
        decreases height - i,
    {
        col.push(None);
        i = i + 1;
    }
    col
}

/// A selector column with every row disabled.
fn blank_selector_column(height: usize) -> (r: Vec<bool>)
    ensures
        r@.len() == height,
        forall|i: int| 0 <= i < height ==> !(#[trigger] r@[i]),
{
    let mut col: Vec<bool> = Vec::new();
    let mut i: usize = 0;
    while i < height
        invariant
            col@.len() == i,
            i <= height,
            forall|j: int| 0 <= j < i ==> !(#[trigger] col@[j]),
        decreases height - i,
    {
        col.push(false);
        i = i + 1;
    }
    col
}

/// An element-wise copy of the configuration's equality flags.
fn copy_flags(src: &Vec<bool>) -> (r: Vec<bool>)
    ensures
        r@ == src@,
{
    let mut out: Vec<bool> = Vec::new();
    let mut i: usize = 0;
    while i < src.len()
        invariant
            i <= src@.len(),
            out@ == src@.subrange(0, i as int),
        decreases src@.len() - i,
    {
        out.push(src[i]);
        i = i + 1;
    }
    proof {
        assert(out@ == src@.subrange(0, src@.len() as int));
        assert(src@.subrange(0, src@.len() as int) =~= src@);
    }
    out
}

} // verus!
