//! Polynomial gate expressions.
//!
//! A gate's polynomial is an expression tree over advice-cell queries at row
//! rotations.  Evaluation reads the assignment grid; querying an unassigned
//! or out-of-range cell yields the unknown value, which arithmetic
//! propagates.

use vstd::prelude::*;

use crate::columns::AdviceColumn;
use crate::field::Fp;
use crate::value::Value;

verus! {

/// A row offset relative to the row a gate is evaluated at.
#[derive(Clone, Copy, Debug, PartialEq, Eq, Structural)]
pub enum Rotation {
    Cur,
    Next,
}

/// The absolute row a rotation addresses when evaluated at `row`.
pub open spec fn rotated_row(row: int, rot: Rotation) -> int {
    match rot {
        Rotation::Cur => row,
        Rotation::Next => row + 1,
    }
}

/// A polynomial over advice cells, evaluated per row.
pub enum Expression {
    Constant(Fp),
    Advice(AdviceColumn, Rotation),
    Sum(Box<Expression>, Box<Expression>),
    Sub(Box<Expression>, Box<Expression>),
    Product(Box<Expression>, Box<Expression>),
}

/// The value held by the grid at `(column, row)`: the assigned witness value,
/// or unknown for an unassigned or out-of-range cell.
pub open spec fn grid_value(grid: Seq<Seq<Option<Value>>>, column: int, row: int) -> Value {
    if 0 <= column < grid.len() && 0 <= row < grid[column].len() {
        match grid[column][row] {
            Some(v) => v,
            None => Value::Unknown,
        }
    } else {
        Value::Unknown
    }
}

impl Expression {
    /// Every queried column exists among the `num_advice` advice columns and
    /// every constant is reduced.
    pub open spec fn wf(self, num_advice: int) -> bool
        decreases self,
    {
        match self {
            Expression::Constant(c) => c.wf(),
            Expression::Advice(col, _) => col.index < num_advice,
            Expression::Sum(l, r) => l.wf(num_advice) && r.wf(num_advice),
            Expression::Sub(l, r) => l.wf(num_advice) && r.wf(num_advice),
            Expression::Product(l, r) => l.wf(num_advice) && r.wf(num_advice),
        }
    }

    /// The value of the expression at `row` under the assignment `grid`.
    pub open spec fn eval_spec(self, grid: Seq<Seq<Option<Value>>>, row: int) -> Value
        decreases self,
    {
        match self {
            Expression::Constant(c) => Value::Known(c),
            Expression::Advice(col, rot) => grid_value(grid, col.index as int, rotated_row(row, rot)),
            Expression::Sum(l, r) => l.eval_spec(grid, row).spec_add(r.eval_spec(grid, row)),
            Expression::Sub(l, r) => l.eval_spec(grid, row).spec_sub(r.eval_spec(grid, row)),
            Expression::Product(l, r) => l.eval_spec(grid, row).spec_mul(r.eval_spec(grid, row)),
        }
    }
}

/// An expression over the first `n` advice columns is still one over any
/// wider registry.
pub proof fn lemma_wf_monotone(e: Expression, n: int, m: int)
    requires
        e.wf(n),
        n <= m,
    ensures
        e.wf(m),
    decreases e,
{
    match e {
        Expression::Constant(_) => {}
        Expression::Advice(_, _) => {}
        Expression::Sum(l, r) => {
            lemma_wf_monotone(*l, n, m);
            lemma_wf_monotone(*r, n, m);
        }
        Expression::Sub(l, r) => {
            lemma_wf_monotone(*l, n, m);
            lemma_wf_monotone(*r, n, m);
        }
        Expression::Product(l, r) => {
            lemma_wf_monotone(*l, n, m);
            lemma_wf_monotone(*r, n, m);
        }
    }
}

} // verus!
