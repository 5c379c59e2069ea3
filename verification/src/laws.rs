//! The framework's laws, stated once and proved for every input.

use vstd::prelude::*;

use crate::add::{add_region_assigned, lemma_add_poly_eval, AddCircuit, AddConfig};
use crate::add2::Add2Circuit;
use crate::circuit::{shape_eq, Circuit};
use crate::eq::EqCircuit;
use crate::expr::grid_value;
use crate::field::{lemma_sub_zero_iff_eq, Fp, FIELD_MODULUS};
use crate::layout::{Error, Layouter};
use crate::mock::MockProver;
use crate::value::Value;

verus! {

/// The addition gate is exact: on a row where the chip's selector is
/// enabled and its three lanes hold the known values `a`, `b` and `res`,
/// its gate is satisfied exactly when `res` is the field sum of `a` and
/// `b` — and fails for every other claimed result.
pub proof fn lemma_addition_gate_exact(
    p: MockProver,
    cfg: AddConfig,
    row: int,
    a: Fp,
    b: Fp,
    res: Fp,
)
    requires
        p.wf(),
        cfg.configured_in(p.cs),
        0 <= row < p.layouter.num_rows,
        p.layouter.selector_on(cfg.selector.index as int, row),
        a.wf(),
        b.wf(),
        res.wf(),
        grid_value(p.layouter.grid(), cfg.a_col.index as int, row) == Value::Known(a),
        grid_value(p.layouter.grid(), cfg.b_col.index as int, row) == Value::Known(b),
        grid_value(p.layouter.grid(), cfg.res_col.index as int, row) == Value::Known(res),
    ensures
        p.gate_ok(cfg.gate_index as int, row) <==> res == a.spec_add(b),
{
    lemma_add_poly_eval(
        p.cs.gates@[cfg.gate_index as int].poly,
        cfg.a_col,
        cfg.b_col,
        cfg.res_col,
        p.layouter.grid(),
        row,
    );
    assert(a.spec_add(b).wf()) by {
        assert((a.repr + b.repr) % (FIELD_MODULUS as int) < FIELD_MODULUS) by (nonlinear_arith)
            requires
                a.repr < FIELD_MODULUS,
                b.repr < FIELD_MODULUS,
        ;
    }
    lemma_sub_zero_iff_eq(a.spec_add(b), res);
}

/// Two regions claimed in sequence occupy disjoint rows: the cells two
/// independent instances of the addition chip assign within one synthesis
/// pass never alias one (column, row) pair, whatever their offsets.
pub proof fn lemma_regions_do_not_alias(
    cfg1: AddConfig,
    cfg2: AddConfig,
    pre: Layouter,
    mid: Layouter,
    post: Layouter,
    o1: int,
    o2: int,
    a1: Value,
    b1: Value,
    a2: Value,
    b2: Value,
)
    requires
        o1 >= 0,
        o2 >= 0,
        add_region_assigned(cfg1, pre, mid, pre.next_row + o1, a1, b1),
        add_region_assigned(cfg2, mid, post, mid.next_row + o2, a2, b2),
    ensures
        pre.next_row + o1 != mid.next_row + o2,
{
}

/// Composition is exact at the copy constraint: when a recorded copy links
/// a cell holding the known value `u` (one chip instance's output) to a
/// cell holding the known value `w` (another instance's input), the copy
/// check is satisfied exactly when `u == w`, and a satisfied assignment
/// forces the two values to agree.
pub proof fn lemma_chained_copy_exact(p: MockProver, k: int, u: Fp, w: Fp)
    requires
        p.wf(),
        0 <= k < p.layouter.copies@.len(),
        p.layouter.cell_value(p.layouter.copies@[k].left) == Value::Known(u),
        p.layouter.cell_value(p.layouter.copies@[k].right) == Value::Known(w),
    ensures
        p.copy_ok(k) <==> u == w,
        p.satisfied() ==> u == w,
{
    if p.satisfied() {
        assert(p.copy_ok(k));
    }
}

/// A witness-free copy of an addition circuit synthesizes the identical
/// layout shape: the same assigned positions, selectors, copy constraints
/// and instance bindings, succeeding exactly when the witnessed circuit
/// does; only the witness values differ.  (Configuration reads no witness
/// data at all, so the configure-time shape is identical by construction.)
pub proof fn lemma_add_without_witnesses_same_shape(
    c: AddCircuit,
    cfg: AddConfig,
    pre: Layouter,
    post1: Layouter,
    post2: Layouter,
    r1: Result<(), Error>,
    r2: Result<(), Error>,
)
    requires
        c.synth_rel(cfg, pre, post1, r1),
        c.blank().synth_rel(cfg, pre, post2, r2),
        post1.same_config(pre),
        post2.same_config(pre),
    ensures
        r1 is Ok <==> r2 is Ok,
        shape_eq(post1, post2),
{
}

/// The same shape identity for the equality circuit.
pub proof fn lemma_eq_without_witnesses_same_shape(
    c: EqCircuit,
    cfg: <EqCircuit as Circuit>::Config,
    pre: Layouter,
    post1: Layouter,
    post2: Layouter,
    r1: Result<(), Error>,
    r2: Result<(), Error>,
)
    requires
        c.synth_rel(cfg, pre, post1, r1),
        c.blank().synth_rel(cfg, pre, post2, r2),
        post1.same_config(pre),
        post2.same_config(pre),
    ensures
        r1 is Ok <==> r2 is Ok,
        shape_eq(post1, post2),
{
}

/// The same shape identity for the chained-addition circuit, on the
/// successful path.
pub proof fn lemma_add2_without_witnesses_same_shape(
    c: Add2Circuit,
    cfg: <Add2Circuit as Circuit>::Config,
    pre: Layouter,
    post1: Layouter,
    post2: Layouter,
    r1: Result<(), Error>,
    r2: Result<(), Error>,
)
    requires
        c.synth_rel(cfg, pre, post1, r1),
        c.blank().synth_rel(cfg, pre, post2, r2),
        post1.same_config(pre),
        post2.same_config(pre),
    ensures
        r1 is Ok <==> r2 is Ok,
        r1 is Ok ==> shape_eq(post1, post2),
{
}

/// The addition circuit end to end: a freshly configured and synthesized
/// addition circuit with known inputs `a` and `b` is satisfied exactly
/// under the public instance vector `[a, b, a + b]` — any other public
/// vector of the right length is rejected.
pub proof fn lemma_add_circuit_accepts_exactly(
    p: MockProver,
    c: AddCircuit,
    cfg: AddConfig,
    ly0: Layouter,
    a: Fp,
    b: Fp,
)
    requires
        p.wf(),
        p.bindings_in_range(),
        a.wf(),
        b.wf(),
        c.a == Value::Known(a),
        c.b == Value::Known(b),
        <AddCircuit as Circuit>::config_ok(cfg, p.cs),
        ly0.wf(),
        ly0.is_fresh(p.cs, p.layouter.num_rows as int),
        c.synth_rel(cfg, ly0, p.layouter, Ok(())),
    ensures
        p.satisfied() <==> {
            &&& p.instance@[cfg.instance.index as int]@[0] == a
            &&& p.instance@[cfg.instance.index as int]@[1] == b
            &&& p.instance@[cfg.instance.index as int]@[2] == a.spec_add(b)
        },
{
    let s = a.spec_add(b);
    let grid = p.layouter.grid();
    let ca = cfg.a_col.index as int;
    let cb = cfg.b_col.index as int;
    let cr = cfg.res_col.index as int;
    assert(s.wf()) by {
        assert((a.repr + b.repr) % (FIELD_MODULUS as int) < FIELD_MODULUS) by (nonlinear_arith)
            requires
                a.repr < FIELD_MODULUS,
                b.repr < FIELD_MODULUS,
        ;
    }
    assert(ly0.next_row < ly0.num_rows);
    assert(grid_value(grid, ca, 0) == Value::Known(a));
    assert(grid_value(grid, cb, 0) == Value::Known(b));
    assert(grid_value(grid, cr, 0) == Value::Known(s));
    assert(p.all_gates_ok()) by {
        assert forall|g: int, row: int|
            0 <= g < p.cs.gates@.len() && 0 <= row < p.layouter.num_rows implies p.gate_ok(
            g,
            row,
        ) by {
            assert(g == 0);
            if p.layouter.selector_on(p.cs.gates@[0].selector.index as int, row) {
                assert(!ly0.selector_on(p.cs.gates@[0].selector.index as int, row));
                assert(row == 0);
                lemma_add_poly_eval(p.cs.gates@[0].poly, cfg.a_col, cfg.b_col, cfg.res_col, grid, 0);
                lemma_sub_zero_iff_eq(s, s);
                assert(p.cs.gates@[0].poly.eval_spec(grid, 0) == Value::Known(Fp { repr: 0 }));
            }
        }
    }
    assert(p.all_copies_ok());
    let inst = cfg.instance.index as int;
    assert(p.layouter.bindings@.len() == 3);
    assert(p.layouter.cell_value(p.layouter.bindings@[0].cell) == Value::Known(a));
    assert(p.layouter.cell_value(p.layouter.bindings@[1].cell) == Value::Known(b));
    assert(p.layouter.cell_value(p.layouter.bindings@[2].cell) == Value::Known(s));
    assert(p.binding_in_range(0) && p.binding_in_range(1) && p.binding_in_range(2));
    assert(p.all_bindings_ok() <==> {
        &&& p.instance@[inst]@[0] == a
        &&& p.instance@[inst]@[1] == b
        &&& p.instance@[inst]@[2] == s
    }) by {
        assert(p.binding_ok(0) <==> p.instance@[inst]@[0] == a);
        assert(p.binding_ok(1) <==> p.instance@[inst]@[1] == b);
        assert(p.binding_ok(2) <==> p.instance@[inst]@[2] == s);
        if p.binding_ok(0) && p.binding_ok(1) && p.binding_ok(2) {
            assert forall|k: int| 0 <= k < p.layouter.bindings@.len() implies p.binding_ok(k) by {
                assert(k == 0 || k == 1 || k == 2);
            }
        }
    }
}

/// The chained-addition circuit end to end: freshly configured and
/// synthesized with known inputs `a`, `b` and `c`, it is satisfied exactly
/// under the public instance vector `[a, b, a + b, (a + b) + c]`.  In
/// particular the copy constraint wiring the first instance's output into
/// the second instance's input holds here because both cells carry the one
/// intermediate sum.
pub proof fn lemma_add2_circuit_accepts_exactly(
    p: MockProver,
    c: Add2Circuit,
    cfg: <Add2Circuit as Circuit>::Config,
    ly0: Layouter,
    x: Fp,
    y: Fp,
    z: Fp,
)
    requires
        p.wf(),
        p.bindings_in_range(),
        x.wf(),
        y.wf(),
        z.wf(),
        c.a == Value::Known(x),
        c.b == Value::Known(y),
        c.c == Value::Known(z),
        <Add2Circuit as Circuit>::config_ok(cfg, p.cs),
        ly0.wf(),
        ly0.is_fresh(p.cs, p.layouter.num_rows as int),
        c.synth_rel(cfg, ly0, p.layouter, Ok(())),
    ensures
        p.satisfied() <==> {
            &&& p.instance@[cfg.instance.index as int]@[0] == x
            &&& p.instance@[cfg.instance.index as int]@[1] == y
            &&& p.instance@[cfg.instance.index as int]@[2] == x.spec_add(y)
            &&& p.instance@[cfg.instance.index as int]@[3] == x.spec_add(y).spec_add(z)
        },
{
    let s = x.spec_add(y);
    let t = s.spec_add(z);
    let grid = p.layouter.grid();
    let acfg = cfg.add_config;
    let ca = acfg.a_col.index as int;
    let cb = acfg.b_col.index as int;
    let cr = acfg.res_col.index as int;
    assert(s.wf()) by {
        assert((x.repr + y.repr) % (FIELD_MODULUS as int) < FIELD_MODULUS) by (nonlinear_arith)
            requires
                x.repr < FIELD_MODULUS,
                y.repr < FIELD_MODULUS,
        ;
    }
    assert(t.wf()) by {
        assert((s.repr + z.repr) % (FIELD_MODULUS as int) < FIELD_MODULUS) by (nonlinear_arith)
            requires
                s.repr < FIELD_MODULUS,
                z.repr < FIELD_MODULUS,
        ;
    }
    assert(ly0.next_row + 3 <= ly0.num_rows);
    assert(grid_value(grid, ca, 0) == Value::Known(x));
    assert(grid_value(grid, cb, 0) == Value::Known(y));
    assert(grid_value(grid, cr, 0) == Value::Known(s));
    assert(grid_value(grid, ca, 2) == Value::Known(s));
    assert(grid_value(grid, cb, 2) == Value::Known(z));
    assert(grid_value(grid, cr, 2) == Value::Known(t));
    assert(p.all_gates_ok()) by {
        assert forall|g: int, row: int|
            0 <= g < p.cs.gates@.len() && 0 <= row < p.layouter.num_rows implies p.gate_ok(
            g,
            row,
        ) by {
            assert(g == 0 || g == 1);
            if p.layouter.selector_on(p.cs.gates@[g].selector.index as int, row) {
                assert(!ly0.selector_on(p.cs.gates@[g].selector.index as int, row));
                assert(p.cs.gates@[g].selector.index == acfg.selector.index);
                assert(g == 0);
                assert(row == 0 || row == 2);
                lemma_add_poly_eval(
                    p.cs.gates@[0].poly,
                    acfg.a_col,
                    acfg.b_col,
                    acfg.res_col,
                    grid,
                    row,
                );
                if row == 0 {
                    lemma_sub_zero_iff_eq(s, s);
                } else {
                    lemma_sub_zero_iff_eq(t, t);
                }
                assert(p.cs.gates@[g].poly.eval_spec(grid, row) == Value::Known(Fp { repr: 0 }));
            }
        }
    }
    assert(p.all_copies_ok()) by {
        assert(p.layouter.copies@.len() == 1);
        assert(p.layouter.cell_value(p.layouter.copies@[0].left) == Value::Known(s));
        assert(p.layouter.cell_value(p.layouter.copies@[0].right) == Value::Known(s));
        assert forall|k: int| 0 <= k < p.layouter.copies@.len() implies p.copy_ok(k) by {
            assert(k == 0);
        }
    }
    let inst = cfg.instance.index as int;
    assert(p.layouter.bindings@.len() == 4);
    assert(p.layouter.cell_value(p.layouter.bindings@[0].cell) == Value::Known(x));
    assert(p.layouter.cell_value(p.layouter.bindings@[1].cell) == Value::Known(y));
    assert(p.layouter.cell_value(p.layouter.bindings@[2].cell) == Value::Known(s));
    assert(p.layouter.cell_value(p.layouter.bindings@[3].cell) == Value::Known(t));
    assert(p.binding_in_range(0) && p.binding_in_range(1) && p.binding_in_range(2)
        && p.binding_in_range(3));
    assert(p.all_bindings_ok() <==> {
        &&& p.instance@[inst]@[0] == x
        &&& p.instance@[inst]@[1] == y
        &&& p.instance@[inst]@[2] == s
        &&& p.instance@[inst]@[3] == t
    }) by {
        assert(p.binding_ok(0) <==> p.instance@[inst]@[0] == x);
        assert(p.binding_ok(1) <==> p.instance@[inst]@[1] == y);
        assert(p.binding_ok(2) <==> p.instance@[inst]@[2] == s);
        assert(p.binding_ok(3) <==> p.instance@[inst]@[3] == t);
        if p.binding_ok(0) && p.binding_ok(1) && p.binding_ok(2) && p.binding_ok(3) {
            assert forall|k: int| 0 <= k < p.layouter.bindings@.len() implies p.binding_ok(k) by {
                assert(k == 0 || k == 1 || k == 2 || k == 3);
            }
        }
    }
}

/// A corrupted gate cell is rejected and reported as a gate failure: on a
/// selector-enabled row whose lanes hold known values with a claimed result
/// different from the field sum of the inputs, the assignment is
/// unsatisfied, and any report of [`MockProver::verify`] lists that
/// (gate, row) pair among its failures.
pub proof fn lemma_gate_corruption_reported(
    p: MockProver,
    cfg: AddConfig,
    row: int,
    a: Fp,
    b: Fp,
    res: Fp,
    fs: Seq<crate::mock::VerifyFailure>,
)
    requires
        p.wf(),
        cfg.configured_in(p.cs),
        0 <= row < p.layouter.num_rows,
        p.layouter.selector_on(cfg.selector.index as int, row),
        a.wf(),
        b.wf(),
        res.wf(),
        res != a.spec_add(b),
        grid_value(p.layouter.grid(), cfg.a_col.index as int, row) == Value::Known(a),
        grid_value(p.layouter.grid(), cfg.b_col.index as int, row) == Value::Known(b),
        grid_value(p.layouter.grid(), cfg.res_col.index as int, row) == Value::Known(res),
        p.reports_all_failures(fs),
    ensures
        !p.satisfied(),
        fs.contains(
            (crate::mock::VerifyFailure::GateNotSatisfied {
                gate: cfg.gate_index,
                row: row as usize,
            }),
        ),
{
    lemma_addition_gate_exact(p, cfg, row, a, b, res);
    assert(!p.gate_ok(cfg.gate_index as int, row));
}

/// A corrupted public instance vector is rejected: changing the public
/// value at any bound instance coordinate of a satisfied prover leaves the
/// same assignment unsatisfied.  (That every assignment whose gates,
/// copies and bindings all hold is accepted is the contract of
/// [`MockProver::verify`] itself.)
pub proof fn lemma_corrupted_instance_rejected(p: MockProver, q: MockProver, k: int)
    requires
        p.satisfied(),
        0 <= k < p.layouter.bindings@.len(),
        q.cs == p.cs,
        q.layouter == p.layouter,
        q.instance@[p.layouter.bindings@[k].column.index as int]@[p.layouter.bindings@[k].row as int]
            != p.instance@[p.layouter.bindings@[k].column.index as int]@[p.layouter.bindings@[k].row as int],
    ensures
        !q.satisfied(),
{
    assert(p.binding_ok(k));
    assert(!q.binding_ok(k));
    if q.satisfied() {
        assert(q.binding_ok(k));
    }
}

} // verus!
