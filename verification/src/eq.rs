//! The equality chip: constrains one advice lane to equal another.
//!
//! Its "equal gate" re-asserts `input - output = 0` wherever the chip's
//! selector is enabled; `assign` writes the two witness values into one
//! region and `expose_public` binds both cells to rows 0 and 1 of the
//! chip's instance column.

use vstd::prelude::*;

use crate::circuit::Circuit;
use crate::columns::{AdviceColumn, InstanceColumn, Selector};
use crate::expr::{grid_value, Expression, Rotation};
use crate::layout::{AssignedCell, Cell, Error, InstanceBinding, Layouter};
use crate::system::ConstraintSystem;
use crate::value::Value;

verus! {

/// The polynomial `input - output`, queried on the current row.
pub open spec fn is_eq_poly(e: Expression, input: AdviceColumn, output: AdviceColumn) -> bool {
    match e {
        Expression::Sub(l, r) => match (*l, *r) {
            (
                Expression::Advice(ic, Rotation::Cur),
                Expression::Advice(oc, Rotation::Cur),
            ) => ic == input && oc == output,
            _ => false,
        },
        _ => false,
    }
}

/// The equality polynomial evaluates to `input - output` over the cells of
/// its two columns at the evaluation row.
pub proof fn lemma_eq_poly_eval(
    e: Expression,
    input: AdviceColumn,
    output: AdviceColumn,
    grid: Seq<Seq<Option<Value>>>,
    row: int,
)
    requires
        is_eq_poly(e, input, output),
    ensures
        e.eval_spec(grid, row) == grid_value(grid, input.index as int, row).spec_sub(
            grid_value(grid, output.index as int, row),
        ),
{
    reveal_with_fuel(Expression::eval_spec, 3);
}

/// The frozen configuration of an equality chip.
#[derive(Clone, Copy, Debug, PartialEq, Eq, Structural)]
pub struct EqConfig {
    pub input_col: AdviceColumn,
    pub output_col: AdviceColumn,
    pub instance: InstanceColumn,
    pub selector: Selector,
    pub gate_index: usize,
}

impl EqConfig {
    /// The configuration addresses this layouter: its columns and selector
    /// exist and every equality flag it relies on is set.
    pub open spec fn fits(self, ly: Layouter) -> bool {
        &&& self.input_col.index != self.output_col.index
        &&& self.input_col.index < ly.advice@.len()
        &&& self.output_col.index < ly.advice@.len()
        &&& self.selector.index < ly.selectors@.len()
        &&& ly.advice_equality@[self.input_col.index as int]
        &&& ly.advice_equality@[self.output_col.index as int]
        &&& self.instance.index < ly.instance_equality@.len()
        &&& ly.instance_equality@[self.instance.index as int]
    }

    /// What [`EqChip::configure`] leaves in the registry.
    pub open spec fn configured_in(self, cs: ConstraintSystem) -> bool {
        &&& self.input_col.index != self.output_col.index
        &&& self.input_col.index < cs.num_advice()
        &&& self.output_col.index < cs.num_advice()
        &&& cs.advice_equality@[self.input_col.index as int]
        &&& cs.advice_equality@[self.output_col.index as int]
        &&& self.instance.index < cs.num_instance()
        &&& cs.instance_equality@[self.instance.index as int]
        &&& self.selector.index < cs.num_selectors
        &&& self.gate_index < cs.gates@.len()
        &&& cs.gates@[self.gate_index as int].selector == self.selector
        &&& cs.gates@[self.gate_index as int].name@ == "equal gate"@
        &&& is_eq_poly(cs.gates@[self.gate_index as int].poly, self.input_col, self.output_col)
    }
}

/// The grid after one equality-chip assignment at `row`: the two lanes hold
/// `input` and `output` on that row, the chip's selector is enabled there,
/// and nothing else changed.
pub open spec fn eq_region_assigned(
    cfg: EqConfig,
    pre: Layouter,
    post: Layouter,
    row: int,
    input: Value,
    output: Value,
) -> bool {
    &&& post.next_row == row + 1
    &&& forall|c: int, rr: int|
        #![trigger grid_value(post.grid(), c, rr)]
        0 <= c < pre.advice@.len() && 0 <= rr < pre.num_rows ==> grid_value(post.grid(), c, rr)
            == (if c == cfg.input_col.index && rr == row {
            input
        } else if c == cfg.output_col.index && rr == row {
            output
        } else {
            grid_value(pre.grid(), c, rr)
        })
    &&& forall|c: int, rr: int|
        #![trigger post.advice@[c]@[rr]]
        0 <= c < pre.advice@.len() && 0 <= rr < pre.num_rows ==> ((post.advice@[c]@[rr]) is Some
            <==> ((pre.advice@[c]@[rr]) is Some || (rr == row && (c == cfg.input_col.index || c
            == cfg.output_col.index))))
    &&& forall|j: int, rr: int|
        #![trigger post.selector_on(j, rr)]
        post.selector_on(j, rr) <==> (pre.selector_on(j, rr) || (j == cfg.selector.index && rr
            == row))
}

/// One equality-chip instance, running on a frozen configuration.
pub struct EqChip {
    pub config: EqConfig,
}

impl EqChip {
    pub fn construct(config: EqConfig) -> (c: EqChip)
        ensures
            c.config == config,
    {
        EqChip { config }
    }

    /// Declares the chip's shape: allocates its two advice lanes, its
    /// instance column and its selector, enables equality on all of them,
    /// and registers the "equal gate" `input - output`.
    pub fn configure(cs: &mut ConstraintSystem) -> (cfg: EqConfig)
        requires
            old(cs).wf(),
            old(cs).num_selectors < usize::MAX,
        ensures
            final(cs).wf(),
            cfg.configured_in(*final(cs)),
            cfg.input_col.index == old(cs).num_advice(),
            cfg.output_col.index == old(cs).num_advice() + 1,
            cfg.instance.index == old(cs).num_instance(),
            cfg.selector.index == old(cs).num_selectors,
            cfg.gate_index == old(cs).gates@.len(),
            final(cs).num_selectors == old(cs).num_selectors + 1,
            final(cs).advice_equality@ == old(cs).advice_equality@.push(false).push(false).update(
                cfg.input_col.index as int,
                true,
            ).update(cfg.output_col.index as int, true),
            final(cs).instance_equality@ == old(cs).instance_equality@.push(false).update(
                cfg.instance.index as int,
                true,
            ),
            final(cs).gates@.len() == old(cs).gates@.len() + 1,
            final(cs).gates@.subrange(0, old(cs).gates@.len() as int) == old(cs).gates@,
            final(cs).gates@[cfg.gate_index as int].name@ == "equal gate"@,
    {
        let input_col = cs.advice_column();
        let output_col = cs.advice_column();
        let instance = cs.instance_column();
        let selector = cs.selector();
        cs.enable_equality(input_col);
        cs.enable_equality(output_col);
        cs.enable_instance_equality(instance);
        let poly = Expression::Sub(
            Box::new(Expression::Advice(input_col, Rotation::Cur)),
            Box::new(Expression::Advice(output_col, Rotation::Cur)),
        );
        proof {
            reveal_with_fuel(Expression::wf, 3);
        }
        let gate_index = cs.create_gate("equal gate", selector, poly);
        proof {
            assert(final(cs).gates@.subrange(0, old(cs).gates@.len() as int) =~= old(cs).gates@);
        }
        EqConfig { input_col, output_col, instance, selector, gate_index }
    }

    /// Claims one region of `offset + 1` rows, enables the chip's selector
    /// at the region's relative `offset`, and writes the two witness values
    /// into the two lanes on that row.  Fails, changing nothing, exactly
    /// when fewer than `offset + 1` rows remain.
    pub fn assign(
        &self,
        ly: &mut Layouter,
        input_value: Value,
        output_value: Value,
        offset: usize,
    ) -> (r: Result<(AssignedCell, AssignedCell), Error>)
        requires
            old(ly).wf(),
            self.config.fits(*old(ly)),
            input_value.wf(),
            output_value.wf(),
        ensures
            final(ly).wf(),
            final(ly).same_config(*old(ly)),
            self.config.fits(*final(ly)),
            match r {
                Ok(cells) => {
                    &&& old(ly).next_row + offset < old(ly).num_rows
                    &&& cells.0 == (AssignedCell {
                        cell: (Cell {
                            column: self.config.input_col,
                            row: (old(ly).next_row + offset) as usize,
                        }),
                        value: input_value,
                    })
                    &&& cells.1 == (AssignedCell {
                        cell: (Cell {
                            column: self.config.output_col,
                            row: (old(ly).next_row + offset) as usize,
                        }),
                        value: output_value,
                    })
                    &&& eq_region_assigned(
                        self.config,
                        *old(ly),
                        *final(ly),
                        old(ly).next_row + offset,
                        input_value,
                        output_value,
                    )
                    &&& final(ly).copies@ == old(ly).copies@
                    &&& final(ly).bindings@ == old(ly).bindings@
                },
                Err(e) => {
                    &&& e == Error::NotEnoughRows
                    &&& *final(ly) == *old(ly)
                },
            },
            r is Ok <==> old(ly).next_row + offset + 1 <= old(ly).num_rows,
    {
        if offset >= ly.num_rows {
            return Err(Error::NotEnoughRows);
        }
        let start = match ly.assign_region(offset + 1) {
            Ok(s) => s,
            Err(e) => {
                return Err(e);
            },
        };
        let row = start + offset;
        match ly.enable_selector(self.config.selector, row) {
            Ok(_) => {},
            Err(_) => {
                return Err(Error::NotEnoughRows);
            },
        }
        let input_cell = match ly.assign_advice(self.config.input_col, row, input_value) {
            Ok(c) => c,
            Err(_) => {
                return Err(Error::NotEnoughRows);
            },
        };
        let output_cell = match ly.assign_advice(self.config.output_col, row, output_value) {
            Ok(c) => c,
            Err(_) => {
                return Err(Error::NotEnoughRows);
            },
        };
        Ok(
            (
                AssignedCell { cell: input_cell, value: input_value },
                AssignedCell { cell: output_cell, value: output_value },
            ),
        )
    }

    /// Binds the two cells to rows 0 and 1 of the chip's instance column.
    /// Either both bindings are recorded, or the first failure is returned
    /// and nothing is recorded.
    pub fn expose_public(
        &self,
        ly: &mut Layouter,
        input_cell: AssignedCell,
        output_cell: AssignedCell,
    ) -> (r: Result<(), Error>)
        requires
            old(ly).wf(),
        ensures
            final(ly).wf(),
            final(ly).same_config(*old(ly)),
            match r {
                Ok(_) => {
                    &&& final(ly).bindings@ == old(ly).bindings@.push(
                        (InstanceBinding {
                            cell: input_cell.cell,
                            column: self.config.instance,
                            row: 0,
                        }),
                    ).push(
                        (InstanceBinding {
                            cell: output_cell.cell,
                            column: self.config.instance,
                            row: 1,
                        }),
                    )
                    &&& *final(ly) == (Layouter { bindings: final(ly).bindings, ..*old(ly) })
                },
                Err(e) => {
                    &&& *final(ly) == *old(ly)
                    &&& (e == Error::CellOutOfRange || e == Error::EqualityNotEnabled)
                },
            },
            r is Ok <==> {
                &&& old(ly).can_bind(input_cell.cell, self.config.instance)
                &&& old(ly).can_bind(output_cell.cell, self.config.instance)
            },
    {
        let ok_in = ly.check_bind(input_cell.cell(), self.config.instance);
        let ok_out = ly.check_bind(output_cell.cell(), self.config.instance);
        if !ok_in {
            return ly.constrain_instance(input_cell.cell(), self.config.instance, 0);
        }
        if !ok_out {
            return ly.constrain_instance(output_cell.cell(), self.config.instance, 1);
        }
        match ly.constrain_instance(input_cell.cell(), self.config.instance, 0) {
            Ok(_) => {},
            Err(e) => {
                return Err(e);
            },
        }
        match ly.constrain_instance(output_cell.cell(), self.config.instance, 1) {
            Ok(_) => {},
            Err(e) => {
                return Err(e);
            },
        }
        Ok(())
    }
}

/// A circuit of one equality chip: exposes its input and output on rows 0
/// and 1 of its instance column.
#[derive(Clone, Copy, Debug, PartialEq, Eq, Structural)]
pub struct EqCircuit {
    pub input: Value,
    pub output: Value,
}

impl Default for EqCircuit {
    /// The circuit with both witness inputs unknown.
    fn default() -> (r: EqCircuit)
        ensures
            r.input == Value::Unknown,
            r.output == Value::Unknown,
    {
        EqCircuit { input: Value::Unknown, output: Value::Unknown }
    }
}

impl Circuit for EqCircuit {
    type Config = EqConfig;

    open spec fn wf(self) -> bool {
        self.input.wf() && self.output.wf()
    }

    open spec fn blank(self) -> EqCircuit {
        EqCircuit { input: Value::Unknown, output: Value::Unknown }
    }

    open spec fn config_ok(cfg: EqConfig, cs: ConstraintSystem) -> bool {
        &&& cfg.configured_in(cs)
        &&& cs.gates@.len() == 1
        &&& cs.num_selectors == 1
        &&& cs.advice_equality@ =~= seq![true, true]
        &&& cs.instance_equality@ =~= seq![true]
    }

    open spec fn pre_synth(cfg: EqConfig, ly: Layouter) -> bool {
        cfg.fits(ly)
    }

    open spec fn synth_rel(
        self,
        cfg: EqConfig,
        pre: Layouter,
        post: Layouter,
        r: Result<(), Error>,
    ) -> bool {
        if pre.next_row < pre.num_rows {
            let row = pre.next_row as int;
            &&& r is Ok
            &&& eq_region_assigned(cfg, pre, post, row, self.input, self.output)
            &&& post.copies@ == pre.copies@
            &&& post.bindings@ == pre.bindings@.push(
                (InstanceBinding {
                    cell: (Cell { column: cfg.input_col, row: pre.next_row }),
                    column: cfg.instance,
                    row: 0,
                }),
            ).push(
                (InstanceBinding {
                    cell: (Cell { column: cfg.output_col, row: pre.next_row }),
                    column: cfg.instance,
                    row: 1,
                }),
            )
        } else {
            &&& r == Err::<(), Error>(Error::NotEnoughRows)
            &&& post == pre
        }
    }

    fn without_witnesses(&self) -> (r: EqCircuit) {
        EqCircuit::default()
    }

    fn configure(cs: &mut ConstraintSystem) -> (cfg: EqConfig) {
        EqChip::configure(cs)
    }

    proof fn config_fits(cfg: EqConfig, cs: ConstraintSystem, ly: Layouter) {
    }

    fn synthesize(&self, cfg: &EqConfig, ly: &mut Layouter) -> (r: Result<(), Error>) {
        let chip = EqChip::construct(*cfg);
        let cells = match chip.assign(ly, self.input, self.output, 0) {
            Ok(c) => c,
            Err(e) => {
                return Err(e);
            },
        };
        let ghost mid = *ly;
        match chip.expose_public(ly, cells.0, cells.1) {
            Ok(_) => {},
            Err(e) => {
                return Err(e);
            },
        }
        proof {
            let row = old(ly).next_row as int;
            assert(ly.advice == mid.advice);
            assert(ly.grid() == mid.grid());
            assert(ly.selectors == mid.selectors);
            assert(eq_region_assigned(*cfg, *old(ly), mid, row, self.input, self.output));
            assert(eq_region_assigned(*cfg, *old(ly), *ly, row, self.input, self.output)) by {
                assert forall|c: int, rr: int|
                    0 <= c < old(ly).advice@.len() && 0 <= rr < old(ly).num_rows implies #[trigger]
                grid_value(ly.grid(), c, rr) == (if c == cfg.input_col.index && rr == row {
                    self.input
                } else if c == cfg.output_col.index && rr == row {
                    self.output
                } else {
                    grid_value(old(ly).grid(), c, rr)
                }) by {
                    assert(grid_value(ly.grid(), c, rr) == grid_value(mid.grid(), c, rr));
                }
                assert forall|j: int, rr: int| #[trigger]
                    ly.selector_on(j, rr) <==> (old(ly).selector_on(j, rr) || (j
                    == cfg.selector.index && rr == row)) by {
                    assert(ly.selector_on(j, rr) == mid.selector_on(j, rr));
                }
            }
        }
        Ok(())
    }
}

} // verus!
