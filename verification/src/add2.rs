//! Chaining two addition-chip instances: `a + b + c`.
//!
//! Two instances of the addition chip share one frozen configuration.  The
//! first computes `a + b`; its output cell is both exposed as a public
//! intermediate and wired, by a direct copy constraint, to the cell the
//! second instance reads that sum back through.  The backend therefore
//! enforces that both cells carry the same value even though the two
//! instances assign their regions independently.

use vstd::prelude::*;

use crate::add::{add_region_assigned, AddChip, AddConfig};
use crate::circuit::Circuit;
use crate::columns::{AdviceColumn, InstanceColumn, Selector};
use crate::expr::{grid_value, Expression, Rotation};
use crate::layout::{Cell, CopyConstraint, Error, InstanceBinding, Layouter};
use crate::system::ConstraintSystem;
use crate::value::Value;

verus! {

/// The polynomial `a + b + c - res`, with `c` and `res` queried on the next
/// row.
pub open spec fn is_add2_poly(
    e: Expression,
    a: AdviceColumn,
    b: AdviceColumn,
    c: AdviceColumn,
    res: AdviceColumn,
) -> bool {
    match e {
        Expression::Sub(l, r) => match (*l, *r) {
            (Expression::Sum(xy, z), Expression::Advice(rc, Rotation::Next)) => match (*xy, *z) {
                (Expression::Sum(x, y), Expression::Advice(cc, Rotation::Next)) => match (
                    *x,
                    *y,
                ) {
                    (
                        Expression::Advice(ac, Rotation::Cur),
                        Expression::Advice(bc, Rotation::Cur),
                    ) => ac == a && bc == b && cc == c && rc == res,
                    _ => false,
                },
                _ => false,
            },
            _ => false,
        },
        _ => false,
    }
}

/// The frozen configuration of the chained-addition chip: its own four
/// lanes and selector, plus the shared addition-chip configuration both
/// sub-instances run on.
#[derive(Clone, Copy, Debug, PartialEq, Eq, Structural)]
pub struct Add2Config {
    pub a_col: AdviceColumn,
    pub b_col: AdviceColumn,
    pub c_col: AdviceColumn,
    pub res_col: AdviceColumn,
    pub instance: InstanceColumn,
    pub selector: Selector,
    pub add_config: AddConfig,
    pub gate_index: usize,
}

impl Add2Config {
    /// What [`Add2Chip::configure`] leaves in the registry.
    pub open spec fn configured_in(self, cs: ConstraintSystem) -> bool {
        &&& self.add_config.configured_in(cs)
        &&& self.add_config.a_col == self.a_col
        &&& self.add_config.b_col == self.b_col
        &&& self.add_config.res_col == self.res_col
        &&& self.instance == self.add_config.instance
        &&& self.c_col.index < cs.num_advice()
        &&& self.selector.index < cs.num_selectors
        &&& self.gate_index < cs.gates@.len()
        &&& cs.gates@[self.gate_index as int].selector == self.selector
        &&& cs.gates@[self.gate_index as int].name@ == "add 2 constraint"@
        &&& is_add2_poly(
            cs.gates@[self.gate_index as int].poly,
            self.a_col,
            self.b_col,
            self.c_col,
            self.res_col,
        )
    }

    /// The configuration addresses this layouter.
    pub open spec fn fits(self, ly: Layouter) -> bool {
        &&& self.add_config.fits(ly)
        &&& self.instance == self.add_config.instance
    }
}

/// The grid after one chained-addition assignment starting at
/// `pre.next_row`: the first addition sits on that row, the second two rows
/// later, the intermediate sum is both exposed on instance row 2 and
/// copy-constrained into the second instance's first lane, and the final
/// sum is exposed on instance row 3.
pub open spec fn add2_assigned(
    cfg: Add2Config,
    pre: Layouter,
    post: Layouter,
    a: Value,
    b: Value,
    c: Value,
) -> bool {
    let r1 = pre.next_row as int;
    let r2 = pre.next_row + 2;
    let s = a.spec_add(b);
    &&& post.next_row == pre.next_row + 3
    &&& forall|cc: int, rr: int|
        #![trigger grid_value(post.grid(), cc, rr)]
        0 <= cc < pre.advice@.len() && 0 <= rr < pre.num_rows ==> grid_value(post.grid(), cc, rr)
            == (if cc == cfg.add_config.a_col.index && rr == r1 {
            a
        } else if cc == cfg.add_config.b_col.index && rr == r1 {
            b
        } else if cc == cfg.add_config.res_col.index && rr == r1 {
            s
        } else if cc == cfg.add_config.a_col.index && rr == r2 {
            s
        } else if cc == cfg.add_config.b_col.index && rr == r2 {
            c
        } else if cc == cfg.add_config.res_col.index && rr == r2 {
            s.spec_add(c)
        } else {
            grid_value(pre.grid(), cc, rr)
        })
    &&& forall|cc: int, rr: int|
        #![trigger post.advice@[cc]@[rr]]
        0 <= cc < pre.advice@.len() && 0 <= rr < pre.num_rows ==> ((post.advice@[cc]@[rr]) is Some
            <==> ((pre.advice@[cc]@[rr]) is Some || ((rr == r1 || rr == r2) && (cc
            == cfg.add_config.a_col.index || cc == cfg.add_config.b_col.index || cc
            == cfg.add_config.res_col.index))))
    &&& forall|j: int, rr: int|
        #![trigger post.selector_on(j, rr)]
        post.selector_on(j, rr) <==> (pre.selector_on(j, rr) || (j
            == cfg.add_config.selector.index && (rr == r1 || rr == r2)))
    &&& post.copies@ == pre.copies@.push(
        (CopyConstraint {
            left: (Cell { column: cfg.add_config.res_col, row: pre.next_row }),
            right: (Cell { column: cfg.add_config.a_col, row: (pre.next_row + 2) as usize }),
        }),
    )
    &&& post.bindings@ == pre.bindings@.push(
        (InstanceBinding {
            cell: (Cell { column: cfg.add_config.a_col, row: pre.next_row }),
            column: cfg.add_config.instance,
            row: 0,
        }),
    ).push(
        (InstanceBinding {
            cell: (Cell { column: cfg.add_config.b_col, row: pre.next_row }),
            column: cfg.add_config.instance,
            row: 1,
        }),
    ).push(
        (InstanceBinding {
            cell: (Cell { column: cfg.add_config.res_col, row: pre.next_row }),
            column: cfg.add_config.instance,
            row: 2,
        }),
    ).push(
        (InstanceBinding {
            cell: (Cell { column: cfg.add_config.res_col, row: (pre.next_row + 2) as usize }),
            column: cfg.instance,
            row: 3,
        }),
    )
}

/// One chained-addition chip instance.
pub struct Add2Chip {
    pub config: Add2Config,
}

impl Add2Chip {
    pub fn construct(config: Add2Config) -> (ch: Add2Chip)
        ensures
            ch.config == config,
    {
        Add2Chip { config }
    }

    /// Declares the chip's shape: four advice lanes, an instance column and
    /// a selector of its own, the shared addition-chip configuration over
    /// the first, second and fourth lanes, and the two-row gate
    /// "add 2 constraint" relating the first addition's inputs to the
    /// second addition's cells on the next row.
    pub fn configure(cs: &mut ConstraintSystem) -> (cfg: Add2Config)
        requires
            old(cs).wf(),
            old(cs).fresh(),
        ensures
            final(cs).wf(),
            cfg.configured_in(*final(cs)),
            cfg.instance == cfg.add_config.instance,
            final(cs).gates@.len() == 2,
            final(cs).num_selectors == 2,
            final(cs).advice_equality@ =~= seq![true, true, false, true],
            final(cs).instance_equality@ =~= seq![true],
            cfg.a_col.index == 0,
            cfg.b_col.index == 1,
            cfg.c_col.index == 2,
            cfg.res_col.index == 3,
            cfg.instance.index == 0,
            cfg.add_config.gate_index == 0,
            cfg.gate_index == 1,
            cfg.selector.index != cfg.add_config.selector.index,
    {
        let a_col = cs.advice_column();
        let b_col = cs.advice_column();
        let c_col = cs.advice_column();
        let res_col = cs.advice_column();
        let instance = cs.instance_column();
        let selector = cs.selector();
        let add_config = AddChip::configure(cs, a_col, b_col, res_col, instance);
        let poly = Expression::Sub(
            Box::new(
                Expression::Sum(
                    Box::new(
                        Expression::Sum(
                            Box::new(Expression::Advice(a_col, Rotation::Cur)),
                            Box::new(Expression::Advice(b_col, Rotation::Cur)),
                        ),
                    ),
                    Box::new(Expression::Advice(c_col, Rotation::Next)),
                ),
            ),
            Box::new(Expression::Advice(res_col, Rotation::Next)),
        );
        proof {
            reveal_with_fuel(Expression::wf, 5);
        }
        let gate_index = cs.create_gate("add 2 constraint", selector, poly);
        Add2Config { a_col, b_col, c_col, res_col, instance, selector, add_config, gate_index }
    }

    /// Drives the two addition-chip instances: assigns `a + b`, exposes it
    /// with its inputs, feeds the intermediate sum (by value) into the
    /// second instance together with `c`, binds the final sum to instance
    /// row 3, and records the copy constraint wiring the first instance's
    /// output cell to the second instance's input cell.  Fails exactly when
    /// fewer than three rows remain; a failure aborts the remaining steps
    /// and the caller must discard the synthesis.
    pub fn assign(&self, ly: &mut Layouter, a: Value, b: Value, c: Value) -> (r: Result<(), Error>)
        requires
            old(ly).wf(),
            self.config.fits(*old(ly)),
            a.wf(),
            b.wf(),
            c.wf(),
        ensures
            final(ly).wf(),
            final(ly).same_config(*old(ly)),
            self.config.fits(*final(ly)),
            match r {
                Ok(_) => add2_assigned(self.config, *old(ly), *final(ly), a, b, c),
                Err(e) => e == Error::NotEnoughRows,
            },
            r is Ok <==> old(ly).next_row + 3 <= old(ly).num_rows,
    {
        let chip1 = AddChip::construct(self.config.add_config);
        let cells1 = match chip1.assign(ly, a, b, 0) {
            Ok(cs1) => cs1,
            Err(e) => {
                return Err(e);
            },
        };
        let ghost s1 = *ly;
        match chip1.expose_public(ly, cells1.0, cells1.1, cells1.2) {
            Ok(_) => {},
            Err(e) => {
                return Err(e);
            },
        }
        let ghost s2 = *ly;
        let res_1_value = cells1.2.value();
        let chip2 = AddChip::construct(self.config.add_config);
        let cells2 = match chip2.assign(ly, res_1_value, c, 1) {
            Ok(cs2) => cs2,
            Err(e) => {
                return Err(e);
            },
        };
        let ghost s3 = *ly;
        match ly.constrain_instance(cells2.2.cell(), self.config.instance, 3) {
            Ok(_) => {},
            Err(e) => {
                return Err(e);
            },
        }
        match ly.constrain_equal(cells1.2.cell(), cells2.0.cell()) {
            Ok(_) => {},
            Err(e) => {
                return Err(e);
            },
        }
        proof {
            let pre = *old(ly);
            let r1 = pre.next_row as int;
            let r2 = pre.next_row + 2;
            let acfg = self.config.add_config;
            let s = a.spec_add(b);
            assert(ly.advice == s3.advice);
            assert(ly.grid() == s3.grid());
            assert(s2.grid() == s1.grid());
            assert(ly.selectors == s3.selectors);
            assert(s2.selectors == s1.selectors);
            assert(add_region_assigned(acfg, pre, s1, r1, a, b));
            assert(add_region_assigned(acfg, s2, s3, r2, s, c));
            assert forall|cc: int, rr: int|
                0 <= cc < pre.advice@.len() && 0 <= rr < pre.num_rows implies #[trigger]
            grid_value(ly.grid(), cc, rr) == (if cc == acfg.a_col.index && rr == r1 {
                a
            } else if cc == acfg.b_col.index && rr == r1 {
                b
            } else if cc == acfg.res_col.index && rr == r1 {
                s
            } else if cc == acfg.a_col.index && rr == r2 {
                s
            } else if cc == acfg.b_col.index && rr == r2 {
                c
            } else if cc == acfg.res_col.index && rr == r2 {
                s.spec_add(c)
            } else {
                grid_value(pre.grid(), cc, rr)
            }) by {
                assert(grid_value(ly.grid(), cc, rr) == grid_value(s3.grid(), cc, rr));
                assert(grid_value(s2.grid(), cc, rr) == grid_value(s1.grid(), cc, rr));
            }
            assert forall|cc: int, rr: int|
                0 <= cc < pre.advice@.len() && 0 <= rr < pre.num_rows implies ((
            #[trigger] ly.advice@[cc]@[rr]) is Some <==> ((pre.advice@[cc]@[rr]) is Some || ((rr
                == r1 || rr == r2) && (cc == acfg.a_col.index || cc == acfg.b_col.index || cc
                == acfg.res_col.index)))) by {
                assert(ly.advice@[cc] == s3.advice@[cc]);
                assert(s2.advice@[cc] == s1.advice@[cc]);
                assert((s3.advice@[cc]@[rr]) is Some <==> ((s2.advice@[cc]@[rr]) is Some || (rr
                    == r2 && (cc == acfg.a_col.index || cc == acfg.b_col.index || cc
                    == acfg.res_col.index))));
                assert((s1.advice@[cc]@[rr]) is Some <==> ((pre.advice@[cc]@[rr]) is Some || (rr
                    == r1 && (cc == acfg.a_col.index || cc == acfg.b_col.index || cc
                    == acfg.res_col.index))));
            }
            assert forall|j: int, rr: int| #[trigger]
                ly.selector_on(j, rr) <==> (pre.selector_on(j, rr) || (j == acfg.selector.index && (
            rr == r1 || rr == r2))) by {
                assert(ly.selector_on(j, rr) == s3.selector_on(j, rr));
                assert(s2.selector_on(j, rr) == s1.selector_on(j, rr));
            }
        }
        Ok(())
    }
}

/// A circuit of two chained addition-chip instances computing `a + b + c`:
/// exposes `a`, `b`, the intermediate sum `a + b` and the final sum on
/// rows 0 to 3 of its instance column.
#[derive(Clone, Copy, Debug, PartialEq, Eq, Structural)]
pub struct Add2Circuit {
    pub a: Value,
    pub b: Value,
    pub c: Value,
}

impl Default for Add2Circuit {
    /// The circuit with all three witness inputs unknown.
    fn default() -> (r: Add2Circuit)
        ensures
            r.a == Value::Unknown,
            r.b == Value::Unknown,
            r.c == Value::Unknown,
    {
        Add2Circuit { a: Value::Unknown, b: Value::Unknown, c: Value::Unknown }
    }
}

impl Circuit for Add2Circuit {
    type Config = Add2Config;

    open spec fn wf(self) -> bool {
        self.a.wf() && self.b.wf() && self.c.wf()
    }

    open spec fn blank(self) -> Add2Circuit {
        Add2Circuit { a: Value::Unknown, b: Value::Unknown, c: Value::Unknown }
    }

    open spec fn config_ok(cfg: Add2Config, cs: ConstraintSystem) -> bool {
        &&& cfg.configured_in(cs)
        &&& cs.gates@.len() == 2
        &&& cs.num_selectors == 2
        &&& cs.advice_equality@ =~= seq![true, true, false, true]
        &&& cs.instance_equality@ =~= seq![true]
        &&& cfg.add_config.gate_index == 0
        &&& cfg.gate_index == 1
        &&& cfg.selector.index != cfg.add_config.selector.index
    }

    open spec fn pre_synth(cfg: Add2Config, ly: Layouter) -> bool {
        cfg.fits(ly)
    }

    open spec fn synth_rel(
        self,
        cfg: Add2Config,
        pre: Layouter,
        post: Layouter,
        r: Result<(), Error>,
    ) -> bool {
        if pre.next_row + 3 <= pre.num_rows {
            &&& r is Ok
            &&& add2_assigned(cfg, pre, post, self.a, self.b, self.c)
        } else {
            r == Err::<(), Error>(Error::NotEnoughRows)
        }
    }

    fn without_witnesses(&self) -> (r: Add2Circuit) {
        Add2Circuit::default()
    }

    fn configure(cs: &mut ConstraintSystem) -> (cfg: Add2Config) {
        Add2Chip::configure(cs)
    }

    proof fn config_fits(cfg: Add2Config, cs: ConstraintSystem, ly: Layouter) {
    }

    fn synthesize(&self, cfg: &Add2Config, ly: &mut Layouter) -> (r: Result<(), Error>) {
        let chip = Add2Chip::construct(*cfg);
        match chip.assign(ly, self.a, self.b, self.c) {
            Ok(_) => Ok(()),
            Err(e) => Err(e),
        }
    }
}

} // verus!
