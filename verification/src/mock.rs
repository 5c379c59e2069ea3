//! The diagnostic mock prover.
//!
//! Given a constraint system, a witness assignment and the public instance
//! vector, it evaluates every gate against every row of the actual
//! assignment and reports, per failing check, which constraint did not hold.
//! It accepts exactly the assignments in which every gate vanishes on every
//! selector-enabled row, every copy constraint links two equal known cells,
//! and every instance binding matches the public value it names.

use vstd::prelude::*;

use crate::expr::{grid_value, Expression};
use crate::field::Fp;
use crate::layout::{Error, Layouter};
use crate::system::ConstraintSystem;
use crate::value::Value;

verus! {

/// One unsatisfied check, reported by the mock prover.  A gate failure names
/// its gate (by registration index) and the row; a gate's name can be read
/// back from the constraint system.
#[derive(Clone, Copy, Debug, PartialEq, Eq, Structural)]
pub enum VerifyFailure {
    /// A gate's polynomial did not evaluate to zero on a selector-enabled
    /// row (or evaluated over unknown witness values).
    GateNotSatisfied { gate: usize, row: usize },
    /// The two cells of a copy constraint do not hold one known value.
    CopyMismatch { index: usize },
    /// A cell bound to an instance row differs from the public value there.
    InstanceMismatch { index: usize },
}

/// Evaluates `e` at `row` over the layouter's witness grid.
pub fn eval(e: &Expression, ly: &Layouter, row: usize) -> (r: Value)
    requires
        ly.wf(),
        row < ly.num_rows,
        e.wf(ly.advice@.len() as int),
    ensures
        r == e.eval_spec(ly.grid(), row as int),
        r.wf(),
    decreases *e,
{
    match e {
        Expression::Constant(c) => Value::Known(*c),
        Expression::Advice(col, rot) => {
            let rr: usize = match rot {
                crate::expr::Rotation::Cur => row,
                crate::expr::Rotation::Next => row + 1,
            };
            proof {
                assert(ly.grid()[col.index as int] == ly.advice@[col.index as int]@);
            }
            if rr < ly.num_rows {
                match ly.advice[col.index][rr] {
                    Some(v) => v,
                    None => Value::Unknown,
                }
            } else {
                Value::Unknown
            }
        }
        Expression::Sum(l, r) => {
            let lv = eval(l, ly, row);
            let rv = eval(r, ly, row);
            lv.add(rv)
        }
        Expression::Sub(l, r) => {
            let lv = eval(l, ly, row);
            let rv = eval(r, ly, row);
            lv.sub(rv)
        }
        Expression::Product(l, r) => {
            let lv = eval(l, ly, row);
            let rv = eval(r, ly, row);
            lv.mul(rv)
        }
    }
}

/// A frozen constraint system, its witness assignment and the public
/// instance vector, ready to be checked.
pub struct MockProver {
    pub cs: ConstraintSystem,
    pub layouter: Layouter,
    /// One vector of public values per instance column.
    pub instance: Vec<Vec<Fp>>,
}

impl MockProver {
    pub open spec fn wf(self) -> bool {
        &&& self.cs.wf()
        &&& self.layouter.wf()
        &&& self.layouter.matches_config(self.cs)
        &&& self.instance@.len() == self.cs.num_instance()
        &&& forall|i: int, j: int|
            0 <= i < self.instance@.len() && 0 <= j < self.instance@[i]@.len()
                ==> (#[trigger] self.instance@[i]@[j]).wf()
    }

    /// Gate `g` holds on `row`: wherever its selector is enabled, its
    /// polynomial evaluates to the known zero.
    pub open spec fn gate_ok(self, g: int, row: int) -> bool
        recommends
            0 <= g < self.cs.gates@.len(),
    {
        let gate = self.cs.gates@[g];
        self.layouter.selector_on(gate.selector.index as int, row) ==> gate.poly.eval_spec(
            self.layouter.grid(),
            row,
        ) == Value::Known(Fp { repr: 0 })
    }

    pub open spec fn all_gates_ok(self) -> bool {
        forall|g: int, row: int|
            0 <= g < self.cs.gates@.len() && 0 <= row < self.layouter.num_rows ==> self.gate_ok(
                g,
                row,
            )
    }

    /// The copy constraint `k` holds: both cells carry one known value.
    pub open spec fn copy_ok(self, k: int) -> bool
        recommends
            0 <= k < self.layouter.copies@.len(),
    {
        let c = self.layouter.copies@[k];
        &&& self.layouter.cell_value(c.left) == self.layouter.cell_value(c.right)
        &&& self.layouter.cell_value(c.left) is Known
    }

    pub open spec fn all_copies_ok(self) -> bool {
        forall|k: int| 0 <= k < self.layouter.copies@.len() ==> self.copy_ok(k)
    }

    /// The binding `k` names a row the public instance vector actually has.
    pub open spec fn binding_in_range(self, k: int) -> bool
        recommends
            0 <= k < self.layouter.bindings@.len(),
    {
        let b = self.layouter.bindings@[k];
        b.column.index < self.instance@.len() && b.row < self.instance@[b.column.index as int]@.len()
    }

    pub open spec fn bindings_in_range(self) -> bool {
        forall|k: int| 0 <= k < self.layouter.bindings@.len() ==> self.binding_in_range(k)
    }

    /// The instance binding `k` holds: the bound cell carries exactly the
    /// public value of the instance row it was exposed at.
    pub open spec fn binding_ok(self, k: int) -> bool
        recommends
            0 <= k < self.layouter.bindings@.len(),
    {
        let b = self.layouter.bindings@[k];
        &&& self.binding_in_range(k)
        &&& self.layouter.cell_value(b.cell) == Value::Known(
            self.instance@[b.column.index as int]@[b.row as int],
        )
    }

    pub open spec fn all_bindings_ok(self) -> bool {
        forall|k: int| 0 <= k < self.layouter.bindings@.len() ==> self.binding_ok(k)
    }

    /// The whole assignment satisfies the constraint system under the given
    /// public input.
    pub open spec fn satisfied(self) -> bool {
        self.all_gates_ok() && self.all_copies_ok() && self.all_bindings_ok()
    }

    /// The reported failure names a check that really does not hold.
    pub open spec fn failure_real(self, f: VerifyFailure) -> bool {
        match f {
            VerifyFailure::GateNotSatisfied { gate, row } => {
                0 <= gate < self.cs.gates@.len() && row < self.layouter.num_rows && !self.gate_ok(
                    gate as int,
                    row as int,
                )
            },
            VerifyFailure::CopyMismatch { index } => {
                index < self.layouter.copies@.len() && !self.copy_ok(index as int)
            },
            VerifyFailure::InstanceMismatch { index } => {
                index < self.layouter.bindings@.len() && !self.binding_ok(index as int)
            },
        }
    }

    /// Every unsatisfied check appears in the report: a failing (gate,
    /// row) pair, a violated copy constraint or a mismatched instance
    /// binding is never passed over.
    pub open spec fn reports_all_failures(self, fs: Seq<VerifyFailure>) -> bool {
        &&& forall|g: int, row: int|
            #![trigger self.gate_ok(g, row)]
            0 <= g < self.cs.gates@.len() && 0 <= row < self.layouter.num_rows && !self.gate_ok(
                g,
                row,
            ) ==> fs.contains(
                (VerifyFailure::GateNotSatisfied { gate: g as usize, row: row as usize }),
            )
        &&& forall|k: int|
            #![trigger self.copy_ok(k)]
            0 <= k < self.layouter.copies@.len() && !self.copy_ok(k) ==> fs.contains(
                (VerifyFailure::CopyMismatch { index: k as usize }),
            )
        &&& forall|k: int|
            #![trigger self.binding_ok(k)]
            0 <= k < self.layouter.bindings@.len() && !self.binding_ok(k) ==> fs.contains(
                (VerifyFailure::InstanceMismatch { index: k as usize }),
            )
    }

    /// Accepts an already synthesized constraint system, witness
    /// assignment and public instance vector.  Fails with a binding error, before any satisfiability check,
    /// when the vector does not supply every bound instance row, and when
    /// the number of vectors differs from the number of instance columns.
    pub fn from_parts(cs: ConstraintSystem, layouter: Layouter, instance: Vec<Vec<Fp>>) -> (r: Result<
        MockProver,
        Error,
    >)
        requires
            cs.wf(),
            layouter.wf(),
            layouter.matches_config(cs),
            forall|i: int, j: int|
                0 <= i < instance@.len() && 0 <= j < instance@[i]@.len()
                    ==> (#[trigger] instance@[i]@[j]).wf(),
        ensures
            match r {
                Ok(p) => {
                    &&& p == (MockProver { cs, layouter, instance })
                    &&& p.wf()
                    &&& p.bindings_in_range()
                },
                Err(e) => {
                    &&& (e == Error::InstanceCount <==> instance@.len() != cs.num_instance())
                    &&& (e == Error::InstanceCount || e == Error::InstanceOutOfRange)
                    &&& !((MockProver { cs, layouter, instance }).wf() && (MockProver {
                        cs,
                        layouter,
                        instance,
                    }).bindings_in_range())
                },
            },
    {
        if instance.len() != cs.instance_equality.len() {
            return Err(Error::InstanceCount);
        }
        let p = MockProver { cs, layouter, instance };
        let mut k: usize = 0;
        while k < p.layouter.bindings.len()
            invariant
                p == (MockProver { cs, layouter, instance }),
                p.wf(),
                k <= p.layouter.bindings@.len(),
                forall|i: int| 0 <= i < k ==> p.binding_in_range(i),
            decreases p.layouter.bindings@.len() - k,
        {
            let b = p.layouter.bindings[k];
            if b.column.index >= p.instance.len() || b.row >= p.instance[b.column.index].len() {
                proof {
                    assert(!p.bindings_in_range()) by {
                        assert((k as int) < p.layouter.bindings@.len());
                        assert(!p.binding_in_range(k as int));
                    }
                }
                return Err(Error::InstanceOutOfRange);
            }
            k = k + 1;
        }
        Ok(p)
    }

    /// The correctness oracle: returns `Ok` exactly when the assignment
    /// satisfies every gate on every row, every copy constraint and every
    /// instance binding; otherwise returns the list of failed checks, each
    /// of which really is unsatisfied, and with every unsatisfied check
    /// listed.
    pub fn verify(&self) -> (r: Result<(), Vec<VerifyFailure>>)
        requires
            self.wf(),
            self.bindings_in_range(),
        ensures
            r is Ok <==> self.satisfied(),
            r matches Err(fs) ==> fs@.len() > 0 && forall|i: int|
                0 <= i < fs@.len() ==> self.failure_real(#[trigger] fs@[i]),
            r matches Err(fs) ==> self.reports_all_failures(fs@),
    {
        let mut fails: Vec<VerifyFailure> = Vec::new();
        let num_gates = self.cs.gates.len();
        let mut g: usize = 0;
        while g < num_gates
            invariant
                self.wf(),
                self.bindings_in_range(),
                num_gates == self.cs.gates@.len(),
                g <= num_gates,
                forall|i: int| 0 <= i < fails@.len() ==> self.failure_real(#[trigger] fails@[i]),
                fails@.len() == 0 <==> forall|gg: int, rr: int|
                    0 <= gg < g && 0 <= rr < self.layouter.num_rows ==> self.gate_ok(gg, rr),
                forall|gg: int, rr: int|
                    #![trigger self.gate_ok(gg, rr)]
                    0 <= gg < g && 0 <= rr < self.layouter.num_rows && !self.gate_ok(gg, rr)
                        ==> fails@.contains(
                        (VerifyFailure::GateNotSatisfied { gate: gg as usize, row: rr as usize }),
                    ),
            decreases num_gates - g,
        {
            let gate = &self.cs.gates[g];
            let mut row: usize = 0;
            while row < self.layouter.num_rows
                invariant
                    self.wf(),
                    num_gates == self.cs.gates@.len(),
                    g < num_gates,
                    row <= self.layouter.num_rows,
                    forall|i: int|
                        0 <= i < fails@.len() ==> self.failure_real(#[trigger] fails@[i]),
                    fails@.len() == 0 <==> ((forall|gg: int, rr: int|
                        0 <= gg < g && 0 <= rr < self.layouter.num_rows ==> self.gate_ok(gg, rr))
                        && (forall|rr: int| 0 <= rr < row ==> self.gate_ok(g as int, rr))),
                    forall|gg: int, rr: int|
                        #![trigger self.gate_ok(gg, rr)]
                        0 <= gg < g && 0 <= rr < self.layouter.num_rows && !self.gate_ok(gg, rr)
                            ==> fails@.contains(
                            (VerifyFailure::GateNotSatisfied {
                                gate: gg as usize,
                                row: rr as usize,
                            }),
                        ),
                    forall|rr: int|
                        #![trigger self.gate_ok(g as int, rr)]
                        0 <= rr < row && !self.gate_ok(g as int, rr) ==> fails@.contains(
                            (VerifyFailure::GateNotSatisfied { gate: g, row: rr as usize }),
                        ),
                    gate == self.cs.gates@[g as int],
                decreases self.layouter.num_rows - row,
            {
                proof {
                    assert(self.cs.gates@[g as int].selector.index < self.cs.num_selectors);
                }
                let enabled = self.layouter.selectors[gate.selector.index][row];
                let item_ok: bool = if enabled {
                    let v = eval(&gate.poly, &self.layouter, row);
                    match v {
                        Value::Known(x) => x.repr == 0,
                        Value::Unknown => false,
                    }
                } else {
                    true
                };
                proof {
                    assert(item_ok == self.gate_ok(g as int, row as int));
                }
                if !item_ok {
                    let ghost fails0 = fails@;
                    fails.push(VerifyFailure::GateNotSatisfied { gate: g, row });
                    proof {
                        lemma_push_keeps_contents(
                            fails0,
                            (VerifyFailure::GateNotSatisfied { gate: g, row }),
                        );
                    }
                }
                row = row + 1;
            }
            g = g + 1;
        }
        proof {
            assert(fails@.len() == 0 <==> self.all_gates_ok());
        }
        let num_copies = self.layouter.copies.len();
        let mut k: usize = 0;
        while k < num_copies
            invariant
                self.wf(),
                num_copies == self.layouter.copies@.len(),
                k <= num_copies,
                forall|i: int| 0 <= i < fails@.len() ==> self.failure_real(#[trigger] fails@[i]),
                fails@.len() == 0 <==> (self.all_gates_ok() && forall|kk: int|
                    0 <= kk < k ==> self.copy_ok(kk)),
                forall|gg: int, rr: int|
                    #![trigger self.gate_ok(gg, rr)]
                    0 <= gg < self.cs.gates@.len() && 0 <= rr < self.layouter.num_rows
                        && !self.gate_ok(gg, rr) ==> fails@.contains(
                        (VerifyFailure::GateNotSatisfied { gate: gg as usize, row: rr as usize }),
                    ),
                forall|kk: int|
                    #![trigger self.copy_ok(kk)]
                    0 <= kk < k && !self.copy_ok(kk) ==> fails@.contains(
                        (VerifyFailure::CopyMismatch { index: kk as usize }),
                    ),
            decreases num_copies - k,
        {
            proof {
                assert(self.layouter.copy_wf(self.layouter.copies@[k as int]));
            }
            let c = self.layouter.copies[k];
            let lv = match self.layouter.advice[c.left.column.index][c.left.row] {
                Some(v) => v,
                None => Value::Unknown,
            };
            let rv = match self.layouter.advice[c.right.column.index][c.right.row] {
                Some(v) => v,
                None => Value::Unknown,
            };
            proof {
                assert(self.layouter.grid()[c.left.column.index as int]
                    == self.layouter.advice@[c.left.column.index as int]@);
                assert(self.layouter.grid()[c.right.column.index as int]
                    == self.layouter.advice@[c.right.column.index as int]@);
                assert(lv == self.layouter.cell_value(c.left));
                assert(rv == self.layouter.cell_value(c.right));
            }
            let ok = match (lv, rv) {
                (Value::Known(x), Value::Known(y)) => x.repr == y.repr,
                _ => false,
            };
            proof {
                assert(ok == self.copy_ok(k as int));
            }
            if !ok {
                let ghost fails0 = fails@;
                fails.push(VerifyFailure::CopyMismatch { index: k });
                proof {
                    lemma_push_keeps_contents(fails0, (VerifyFailure::CopyMismatch { index: k }));
                }
            }
            k = k + 1;
        }
        let num_bindings = self.layouter.bindings.len();
        let mut k2: usize = 0;
        while k2 < num_bindings
            invariant
                self.wf(),
                self.bindings_in_range(),
                num_bindings == self.layouter.bindings@.len(),
                k2 <= num_bindings,
                forall|i: int| 0 <= i < fails@.len() ==> self.failure_real(#[trigger] fails@[i]),
                fails@.len() == 0 <==> (self.all_gates_ok() && self.all_copies_ok() && forall|
                    kk: int,
                |
                    0 <= kk < k2 ==> self.binding_ok(kk)),
                forall|gg: int, rr: int|
                    #![trigger self.gate_ok(gg, rr)]
                    0 <= gg < self.cs.gates@.len() && 0 <= rr < self.layouter.num_rows
                        && !self.gate_ok(gg, rr) ==> fails@.contains(
                        (VerifyFailure::GateNotSatisfied { gate: gg as usize, row: rr as usize }),
                    ),
                forall|kk: int|
                    #![trigger self.copy_ok(kk)]
                    0 <= kk < self.layouter.copies@.len() && !self.copy_ok(kk) ==> fails@.contains(
                        (VerifyFailure::CopyMismatch { index: kk as usize }),
                    ),
                forall|kk: int|
                    #![trigger self.binding_ok(kk)]
                    0 <= kk < k2 && !self.binding_ok(kk) ==> fails@.contains(
                        (VerifyFailure::InstanceMismatch { index: kk as usize }),
                    ),
            decreases num_bindings - k2,
        {
            proof {
                assert(self.layouter.binding_wf(self.layouter.bindings@[k2 as int]));
                assert(self.binding_in_range(k2 as int));
            }
            let b = self.layouter.bindings[k2];
            let cv = match self.layouter.advice[b.cell.column.index][b.cell.row] {
                Some(v) => v,
                None => Value::Unknown,
            };
            proof {
                assert(self.layouter.grid()[b.cell.column.index as int]
                    == self.layouter.advice@[b.cell.column.index as int]@);
                assert(cv == self.layouter.cell_value(b.cell));
            }
            let expected = self.instance[b.column.index][b.row];
            let ok = match cv {
                Value::Known(x) => x.repr == expected.repr,
                Value::Unknown => false,
            };
            proof {
                assert(ok == self.binding_ok(k2 as int));
            }
            if !ok {
                let ghost fails0 = fails@;
                fails.push(VerifyFailure::InstanceMismatch { index: k2 });
                proof {
                    lemma_push_keeps_contents(
                        fails0,
                        (VerifyFailure::InstanceMismatch { index: k2 }),
                    );
                }
            }
            k2 = k2 + 1;
        }
        if fails.len() == 0 {
            Ok(())
        } else {
            Err(fails)
        }
    }
}

/// Pushing onto a report keeps everything already reported, and reports
/// the pushed failure itself.
proof fn lemma_push_keeps_contents(s: Seq<VerifyFailure>, x: VerifyFailure)
    ensures
        s.push(x).contains(x),
        forall|y: VerifyFailure| s.contains(y) ==> #[trigger] s.push(x).contains(y),
{
    assert(s.push(x)[s.len() as int] == x);
    assert forall|y: VerifyFailure| s.contains(y) implies s.push(x).contains(y) by {
        let i = choose|i: int| 0 <= i < s.len() && s[i] == y;
        assert(s.push(x)[i] == y);
    }
}

} // verus!
