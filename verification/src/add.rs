//! The addition chip: the unit of reuse for one field addition.
//!
//! The chip follows the compute-then-constrain idiom: `assign` computes
//! `res = a + b` and writes all three values into one region, while the
//! "addition gate" registered by `configure` re-asserts `a + b - res = 0`
//! wherever the chip's selector is enabled.  The framework never trusts its
//! own arithmetic; that constraint is what the proof backend checks.

use vstd::prelude::*;

use crate::circuit::Circuit;
use crate::columns::{AdviceColumn, InstanceColumn, Selector};
use crate::expr::{grid_value, Expression, Rotation};
use crate::layout::{AssignedCell, Cell, Error, InstanceBinding, Layouter};
use crate::system::ConstraintSystem;
use crate::value::Value;

verus! {

/// The polynomial `a + b - res`, queried on the current row.
pub open spec fn is_add_poly(
    e: Expression,
    a: AdviceColumn,
    b: AdviceColumn,
    res: AdviceColumn,
) -> bool {
    match e {
        Expression::Sub(l, r) => match (*l, *r) {
            (Expression::Sum(x, y), Expression::Advice(rc, Rotation::Cur)) => match (*x, *y) {
                (
                    Expression::Advice(ac, Rotation::Cur),
                    Expression::Advice(bc, Rotation::Cur),
                ) => ac == a && bc == b && rc == res,
                _ => false,
            },
            _ => false,
        },
        _ => false,
    }
}

/// The addition polynomial evaluates to `a + b - res` over the cells of its
/// three columns at the evaluation row.
pub proof fn lemma_add_poly_eval(
    e: Expression,
    a: AdviceColumn,
    b: AdviceColumn,
    res: AdviceColumn,
    grid: Seq<Seq<Option<Value>>>,
    row: int,
)
    requires
        is_add_poly(e, a, b, res),
    ensures
        e.eval_spec(grid, row) == grid_value(grid, a.index as int, row).spec_add(
            grid_value(grid, b.index as int, row),
        ).spec_sub(grid_value(grid, res.index as int, row)),
{
    reveal_with_fuel(Expression::eval_spec, 4);
}

/// The opaque, cloneable configuration of an addition chip: three advice
/// lanes, the instance column its results are exposed on, its selector and
/// the index of its gate.  Multiple chip instances may share one frozen
/// configuration without re-registering gates.
#[derive(Clone, Copy, Debug, PartialEq, Eq, Structural)]
pub struct AddConfig {
    pub a_col: AdviceColumn,
    pub b_col: AdviceColumn,
    pub res_col: AdviceColumn,
    pub instance: InstanceColumn,
    pub selector: Selector,
    pub gate_index: usize,
}

impl AddConfig {
    /// The chip writes three different lanes.
    pub open spec fn cols_distinct(self) -> bool {
        &&& self.a_col.index != self.b_col.index
        &&& self.a_col.index != self.res_col.index
        &&& self.b_col.index != self.res_col.index
    }

    /// The configuration addresses this layouter: its columns and selector
    /// exist and every equality flag it relies on is set.
    pub open spec fn fits(self, ly: Layouter) -> bool {
        &&& self.cols_distinct()
        &&& self.a_col.index < ly.advice@.len()
        &&& self.b_col.index < ly.advice@.len()
        &&& self.res_col.index < ly.advice@.len()
        &&& self.selector.index < ly.selectors@.len()
        &&& ly.advice_equality@[self.a_col.index as int]
        &&& ly.advice_equality@[self.b_col.index as int]
        &&& ly.advice_equality@[self.res_col.index as int]
        &&& self.instance.index < ly.instance_equality@.len()
        &&& ly.instance_equality@[self.instance.index as int]
    }

    /// What [`AddChip::configure`] leaves in the registry: the columns
    /// exist, are equality-enabled, and the chip's gate carries the addition
    /// polynomial under the chip's selector.
    pub open spec fn configured_in(self, cs: ConstraintSystem) -> bool {
        &&& self.cols_distinct()
        &&& self.a_col.index < cs.num_advice()
        &&& self.b_col.index < cs.num_advice()
        &&& self.res_col.index < cs.num_advice()
        &&& cs.advice_equality@[self.a_col.index as int]
        &&& cs.advice_equality@[self.b_col.index as int]
        &&& cs.advice_equality@[self.res_col.index as int]
        &&& self.instance.index < cs.num_instance()
        &&& cs.instance_equality@[self.instance.index as int]
        &&& self.selector.index < cs.num_selectors
        &&& self.gate_index < cs.gates@.len()
        &&& cs.gates@[self.gate_index as int].selector == self.selector
        &&& cs.gates@[self.gate_index as int].name@ == "addition gate"@
        &&& is_add_poly(cs.gates@[self.gate_index as int].poly, self.a_col, self.b_col, self.res_col)
    }
}

/// The grid after one addition-chip assignment at `row`: the three lanes
/// hold `a`, `b` and `a + b` on that row, the chip's selector is enabled
/// there, and nothing else changed.
pub open spec fn add_region_assigned(
    cfg: AddConfig,
    pre: Layouter,
    post: Layouter,
    row: int,
    a: Value,
    b: Value,
) -> bool {
    &&& post.next_row == row + 1
    &&& forall|c: int, rr: int|
        #![trigger grid_value(post.grid(), c, rr)]
        0 <= c < pre.advice@.len() && 0 <= rr < pre.num_rows ==> grid_value(post.grid(), c, rr)
            == (if c == cfg.a_col.index && rr == row {
            a
        } else if c == cfg.b_col.index && rr == row {
            b
        } else if c == cfg.res_col.index && rr == row {
            a.spec_add(b)
        } else {
            grid_value(pre.grid(), c, rr)
        })
    &&& forall|c: int, rr: int|
        #![trigger post.advice@[c]@[rr]]
        0 <= c < pre.advice@.len() && 0 <= rr < pre.num_rows ==> ((post.advice@[c]@[rr]) is Some
            <==> ((pre.advice@[c]@[rr]) is Some || (rr == row && (c == cfg.a_col.index || c
            == cfg.b_col.index || c == cfg.res_col.index))))
    &&& forall|j: int, rr: int|
        #![trigger post.selector_on(j, rr)]
        post.selector_on(j, rr) <==> (pre.selector_on(j, rr) || (j == cfg.selector.index && rr
            == row))
}

/// One addition-chip instance, running on a frozen configuration.
pub struct AddChip {
    pub config: AddConfig,
}

impl AddChip {
    pub fn construct(config: AddConfig) -> (c: AddChip)
        ensures
            c.config == config,
    {
        AddChip { config }
    }

    /// Declares the chip's shape into the registry: allocates a selector,
    /// enables equality on all four columns handed in, and registers the
    /// "addition gate" `a + b - res` under that selector.  Handing in
    /// distinct, already-allocated columns keeps two configurations from
    /// sharing state.
    pub fn configure(
        cs: &mut ConstraintSystem,
        a_col: AdviceColumn,
        b_col: AdviceColumn,
        res_col: AdviceColumn,
        instance: InstanceColumn,
    ) -> (cfg: AddConfig)
        requires
            old(cs).wf(),
            a_col.index < old(cs).num_advice(),
            b_col.index < old(cs).num_advice(),
            res_col.index < old(cs).num_advice(),
            instance.index < old(cs).num_instance(),
            a_col.index != b_col.index,
            a_col.index != res_col.index,
            b_col.index != res_col.index,
            old(cs).num_selectors < usize::MAX,
        ensures
            final(cs).wf(),
            cfg == (AddConfig {
                a_col,
                b_col,
                res_col,
                instance,
                selector: (Selector { index: old(cs).num_selectors }),
                gate_index: old(cs).gates@.len() as usize,
            }),
            cfg.configured_in(*final(cs)),
            final(cs).num_selectors == old(cs).num_selectors + 1,
            final(cs).advice_equality@ == old(cs).advice_equality@.update(
                a_col.index as int,
                true,
            ).update(b_col.index as int, true).update(res_col.index as int, true),
            final(cs).instance_equality@ == old(cs).instance_equality@.update(
                instance.index as int,
                true,
            ),
            final(cs).gates@.len() == old(cs).gates@.len() + 1,
            final(cs).gates@.subrange(0, old(cs).gates@.len() as int) == old(cs).gates@,
            final(cs).gates@[cfg.gate_index as int].name@ == "addition gate"@,
    {
        let selector = cs.selector();
        cs.enable_equality(a_col);
        cs.enable_equality(b_col);
        cs.enable_equality(res_col);
        cs.enable_instance_equality(instance);
        let poly = Expression::Sub(
            Box::new(
                Expression::Sum(
                    Box::new(Expression::Advice(a_col, Rotation::Cur)),
                    Box::new(Expression::Advice(b_col, Rotation::Cur)),
                ),
            ),
            Box::new(Expression::Advice(res_col, Rotation::Cur)),
        );
        proof {
            reveal_with_fuel(Expression::wf, 4);
        }
        let gate_index = cs.create_gate("addition gate", selector, poly);
        proof {
            assert(final(cs).gates@.subrange(0, old(cs).gates@.len() as int) =~= old(cs).gates@);
        }
        AddConfig { a_col, b_col, res_col, instance, selector, gate_index }
    }

    /// Claims one region of `offset + 1` rows, enables the chip's selector
    /// at the region's relative `offset`, and writes `a`, `b` and the
    /// computed sum into the three lanes on that row, returning the three
    /// cell handles.  Fails, changing nothing, exactly when fewer than
    /// `offset + 1` rows remain.
    pub fn assign(&self, ly: &mut Layouter, a: Value, b: Value, offset: usize) -> (r: Result<
        (AssignedCell, AssignedCell, AssignedCell),
        Error,
    >)
        requires
            old(ly).wf(),
            self.config.fits(*old(ly)),
            a.wf(),
            b.wf(),
        ensures
            final(ly).wf(),
            final(ly).same_config(*old(ly)),
            self.config.fits(*final(ly)),
            match r {
                Ok(cells) => {
                    &&& old(ly).next_row + offset < old(ly).num_rows
                    &&& cells.0 == (AssignedCell {
                        cell: (Cell {
                            column: self.config.a_col,
                            row: (old(ly).next_row + offset) as usize,
                        }),
                        value: a,
                    })
                    &&& cells.1 == (AssignedCell {
                        cell: (Cell {
                            column: self.config.b_col,
                            row: (old(ly).next_row + offset) as usize,
                        }),
                        value: b,
                    })
                    &&& cells.2 == (AssignedCell {
                        cell: (Cell {
                            column: self.config.res_col,
                            row: (old(ly).next_row + offset) as usize,
                        }),
                        value: a.spec_add(b),
                    })
                    &&& add_region_assigned(
                        self.config,
                        *old(ly),
                        *final(ly),
                        old(ly).next_row + offset,
                        a,
                        b,
                    )
                    &&& final(ly).copies@ == old(ly).copies@
                    &&& final(ly).bindings@ == old(ly).bindings@
                },
                Err(e) => {
                    &&& e == Error::NotEnoughRows
                    &&& *final(ly) == *old(ly)
                },
            },
            r is Ok <==> old(ly).next_row + offset + 1 <= old(ly).num_rows,
    {
        if offset >= ly.num_rows {
            return Err(Error::NotEnoughRows);
        }
        let start = match ly.assign_region(offset + 1) {
            Ok(s) => s,
            Err(e) => {
                return Err(e);
            },
        };
        let row = start + offset;
        match ly.enable_selector(self.config.selector, row) {
            Ok(_) => {},
            Err(_) => {
                return Err(Error::NotEnoughRows);
            },
        }
        let a_cell = match ly.assign_advice(self.config.a_col, row, a) {
            Ok(c) => c,
            Err(_) => {
                return Err(Error::NotEnoughRows);
            },
        };
        let b_cell = match ly.assign_advice(self.config.b_col, row, b) {
            Ok(c) => c,
            Err(_) => {
                return Err(Error::NotEnoughRows);
            },
        };
        let res = a.add(b);
        let res_cell = match ly.assign_advice(self.config.res_col, row, res) {
            Ok(c) => c,
            Err(_) => {
                return Err(Error::NotEnoughRows);
            },
        };
        Ok(
            (
                AssignedCell { cell: a_cell, value: a },
                AssignedCell { cell: b_cell, value: b },
                AssignedCell { cell: res_cell, value: res },
            ),
        )
    }

    /// Binds the three cells to rows 0, 1 and 2 of the chip's instance
    /// column.  Either all three bindings are recorded, or the first
    /// failure is returned and nothing is recorded.
    pub fn expose_public(
        &self,
        ly: &mut Layouter,
        a_cell: AssignedCell,
        b_cell: AssignedCell,
        res_cell: AssignedCell,
    ) -> (r: Result<(), Error>)
        requires
            old(ly).wf(),
        ensures
            final(ly).wf(),
            final(ly).same_config(*old(ly)),
            match r {
                Ok(_) => {
                    &&& final(ly).bindings@ == old(ly).bindings@.push(
                        (InstanceBinding {
                            cell: a_cell.cell,
                            column: self.config.instance,
                            row: 0,
                        }),
                    ).push(
                        (InstanceBinding {
                            cell: b_cell.cell,
                            column: self.config.instance,
                            row: 1,
                        }),
                    ).push(
                        (InstanceBinding {
                            cell: res_cell.cell,
                            column: self.config.instance,
                            row: 2,
                        }),
                    )
                    &&& *final(ly) == (Layouter { bindings: final(ly).bindings, ..*old(ly) })
                },
                Err(e) => {
                    &&& *final(ly) == *old(ly)
                    &&& (e == Error::CellOutOfRange || e == Error::EqualityNotEnabled)
                },
            },
            r is Ok <==> {
                &&& old(ly).can_bind(a_cell.cell, self.config.instance)
                &&& old(ly).can_bind(b_cell.cell, self.config.instance)
                &&& old(ly).can_bind(res_cell.cell, self.config.instance)
            },
    {
        let ok_a = ly.check_bind(a_cell.cell(), self.config.instance);
        let ok_b = ly.check_bind(b_cell.cell(), self.config.instance);
        let ok_res = ly.check_bind(res_cell.cell(), self.config.instance);
        if !ok_a {
            return ly.constrain_instance(a_cell.cell(), self.config.instance, 0);
        }
        if !ok_b {
            return ly.constrain_instance(b_cell.cell(), self.config.instance, 1);
        }
        if !ok_res {
            return ly.constrain_instance(res_cell.cell(), self.config.instance, 2);
        }
        let r0 = ly.constrain_instance(a_cell.cell(), self.config.instance, 0);
        match r0 {
            Ok(_) => {},
            Err(e) => {
                return Err(e);
            },
        }
        let r1 = ly.constrain_instance(b_cell.cell(), self.config.instance, 1);
        match r1 {
            Ok(_) => {},
            Err(e) => {
                return Err(e);
            },
        }
        let r2 = ly.constrain_instance(res_cell.cell(), self.config.instance, 2);
        match r2 {
            Ok(_) => {},
            Err(e) => {
                return Err(e);
            },
        }
        Ok(())
    }
}

/// A circuit of one addition chip: exposes `a`, `b` and their sum on rows
/// 0, 1 and 2 of its instance column.
#[derive(Clone, Copy, Debug, PartialEq, Eq, Structural)]
pub struct AddCircuit {
    pub a: Value,
    pub b: Value,
}

impl Default for AddCircuit {
    /// The circuit with both witness inputs unknown.
    fn default() -> (r: AddCircuit)
        ensures
            r.a == Value::Unknown,
            r.b == Value::Unknown,
    {
        AddCircuit { a: Value::Unknown, b: Value::Unknown }
    }
}

impl Circuit for AddCircuit {
    type Config = AddConfig;

    open spec fn wf(self) -> bool {
        self.a.wf() && self.b.wf()
    }

    open spec fn blank(self) -> AddCircuit {
        AddCircuit { a: Value::Unknown, b: Value::Unknown }
    }

    open spec fn config_ok(cfg: AddConfig, cs: ConstraintSystem) -> bool {
        &&& cfg.configured_in(cs)
        &&& cs.gates@.len() == 1
        &&& cs.num_selectors == 1
        &&& cs.advice_equality@ =~= seq![true, true, true]
        &&& cs.instance_equality@ =~= seq![true]
    }

    open spec fn pre_synth(cfg: AddConfig, ly: Layouter) -> bool {
        cfg.fits(ly)
    }

    open spec fn synth_rel(
        self,
        cfg: AddConfig,
        pre: Layouter,
        post: Layouter,
        r: Result<(), Error>,
    ) -> bool {
        if pre.next_row < pre.num_rows {
            let row = pre.next_row as int;
            &&& r is Ok
            &&& add_region_assigned(cfg, pre, post, row, self.a, self.b)
            &&& post.copies@ == pre.copies@
            &&& post.bindings@ == pre.bindings@.push(
                (InstanceBinding {
                    cell: (Cell { column: cfg.a_col, row: pre.next_row }),
                    column: cfg.instance,
                    row: 0,
                }),
            ).push(
                (InstanceBinding {
                    cell: (Cell { column: cfg.b_col, row: pre.next_row }),
                    column: cfg.instance,
                    row: 1,
                }),
            ).push(
                (InstanceBinding {
                    cell: (Cell { column: cfg.res_col, row: pre.next_row }),
                    column: cfg.instance,
                    row: 2,
                }),
            )
        } else {
            &&& r == Err::<(), Error>(Error::NotEnoughRows)
            &&& post == pre
        }
    }

    fn without_witnesses(&self) -> (r: AddCircuit) {
        AddCircuit::default()
    }

    fn configure(cs: &mut ConstraintSystem) -> (cfg: AddConfig) {
        let a_col = cs.advice_column();
        let b_col = cs.advice_column();
        let res_col = cs.advice_column();
        let instance = cs.instance_column();
        AddChip::configure(cs, a_col, b_col, res_col, instance)
    }

    proof fn config_fits(cfg: AddConfig, cs: ConstraintSystem, ly: Layouter) {
    }

    fn synthesize(&self, cfg: &AddConfig, ly: &mut Layouter) -> (r: Result<(), Error>) {
        let chip = AddChip::construct(*cfg);
        let cells = match chip.assign(ly, self.a, self.b, 0) {
            Ok(c) => c,
            Err(e) => {
                return Err(e);
            },
        };
        let ghost mid = *ly;
        match chip.expose_public(ly, cells.0, cells.1, cells.2) {
            Ok(_) => {},
            Err(e) => {
                return Err(e);
            },
        }
        proof {
            let row = old(ly).next_row as int;
            assert(ly.advice == mid.advice);
            assert(ly.grid() == mid.grid());
            assert(ly.selectors == mid.selectors);
            assert(ly.next_row == row + 1);
            assert(add_region_assigned(*cfg, *old(ly), mid, row, self.a, self.b));
            assert(add_region_assigned(*cfg, *old(ly), *ly, row, self.a, self.b)) by {
                assert forall|c: int, rr: int|
                    0 <= c < old(ly).advice@.len() && 0 <= rr < old(ly).num_rows implies #[trigger]
                grid_value(ly.grid(), c, rr) == (if c == cfg.a_col.index && rr == row {
                    self.a
                } else if c == cfg.b_col.index && rr == row {
                    self.b
                } else if c == cfg.res_col.index && rr == row {
                    self.a.spec_add(self.b)
                } else {
                    grid_value(old(ly).grid(), c, rr)
                }) by {
                    assert(grid_value(ly.grid(), c, rr) == grid_value(mid.grid(), c, rr));
                }
                assert forall|j: int, rr: int| #[trigger]
                    ly.selector_on(j, rr) <==> (old(ly).selector_on(j, rr) || (j
                    == cfg.selector.index && rr == row)) by {
                    assert(ly.selector_on(j, rr) == mid.selector_on(j, rr));
                }
            }
            assert(ly.copies@ == old(ly).copies@);
            assert(ly.bindings@ == old(ly).bindings@.push(
                (InstanceBinding {
                    cell: (Cell { column: cfg.a_col, row: old(ly).next_row }),
                    column: cfg.instance,
                    row: 0,
                }),
            ).push(
                (InstanceBinding {
                    cell: (Cell { column: cfg.b_col, row: old(ly).next_row }),
                    column: cfg.instance,
                    row: 1,
                }),
            ).push(
                (InstanceBinding {
                    cell: (Cell { column: cfg.res_col, row: old(ly).next_row }),
                    column: cfg.instance,
                    row: 2,
                }),
            ));
        }
        Ok(())
    }
}

} // verus!
