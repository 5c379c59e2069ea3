//! The constraint-system description: the column registry and the
//! registry of gates.
//!
//! Columns, selectors and gates are created exactly once while a circuit
//! shape is configured and are immutable afterwards.  The description is
//! what an external proof backend consumes, together with a witness
//! assignment and the public instance vector.

use vstd::prelude::*;

use crate::columns::{AdviceColumn, InstanceColumn, Selector};
use crate::expr::Expression;

verus! {

/// A named polynomial constraint, gated by a selector: wherever the selector
/// is enabled the polynomial must evaluate to zero under the witness
/// assignment.  That contract is enforced by the proof backend (or by the
/// mock prover), not by the registry itself.
pub struct Gate {
    pub name: &'static str,
    pub selector: Selector,
    pub poly: Expression,
}

/// The registry of columns, selectors and gates of one circuit shape.
pub struct ConstraintSystem {
    /// One entry per advice column: whether the column may take part in
    /// equality (copy) constraints.
    pub advice_equality: Vec<bool>,
    /// One entry per instance column: whether the column may take part in
    /// equality (copy) constraints.
    pub instance_equality: Vec<bool>,
    /// How many selectors have been allocated.
    pub num_selectors: usize,
    /// The registered gates, in registration order.
    pub gates: Vec<Gate>,
}

impl ConstraintSystem {
    /// The number of advice columns allocated so far.
    pub open spec fn num_advice(self) -> int {
        self.advice_equality@.len() as int
    }

    /// The number of instance columns allocated so far.
    pub open spec fn num_instance(self) -> int {
        self.instance_equality@.len() as int
    }

    /// Every gate queries only existing columns and an existing selector.
    pub open spec fn wf(self) -> bool {
        forall|g: int|
            0 <= g < self.gates@.len() ==> {
                &&& (#[trigger] self.gates@[g]).selector.index < self.num_selectors
                &&& self.gates@[g].poly.wf(self.num_advice())
            }
    }

    /// An empty registry: no columns, no selectors, no gates.
    pub fn new() -> (r: ConstraintSystem)
        ensures
            r.wf(),
            r.advice_equality@ =~= Seq::<bool>::empty(),
            r.instance_equality@ =~= Seq::<bool>::empty(),
            r.num_selectors == 0,
            r.gates@ =~= Seq::<Gate>::empty(),
    {
        ConstraintSystem {
            advice_equality: Vec::new(),
            instance_equality: Vec::new(),
            num_selectors: 0,
            gates: Vec::new(),
        }
    }

    /// Allocates a fresh advice column, not yet equality-enabled.
    pub fn advice_column(&mut self) -> (c: AdviceColumn)
        requires
            old(self).wf(),
        ensures
            final(self).wf(),
            c.index == old(self).num_advice(),
            final(self).advice_equality@ == old(self).advice_equality@.push(false),
            final(self).instance_equality == old(self).instance_equality,
            final(self).num_selectors == old(self).num_selectors,
            final(self).gates@ == old(self).gates@,
    {
        let index = self.advice_equality.len();
        self.advice_equality.push(false);
        proof {
            assert forall|g: int| 0 <= g < self.gates@.len() implies (#[trigger] self.gates@[g]).poly.wf(
                self.num_advice(),
            ) by {
                crate::expr::lemma_wf_monotone(self.gates@[g].poly, index as int, index + 1);
            }
        }
        AdviceColumn { index }
    }

    /// Allocates a fresh instance column, not yet equality-enabled.
    pub fn instance_column(&mut self) -> (c: InstanceColumn)
        requires
            old(self).wf(),
        ensures
            final(self).wf(),
            c.index == old(self).num_instance(),
            final(self).instance_equality@ == old(self).instance_equality@.push(false),
            final(self).advice_equality == old(self).advice_equality,
            final(self).num_selectors == old(self).num_selectors,
            final(self).gates@ == old(self).gates@,
    {
        let index = self.instance_equality.len();
        self.instance_equality.push(false);
        InstanceColumn { index }
    }

    /// Allocates a fresh selector.
    pub fn selector(&mut self) -> (s: Selector)
        requires
            old(self).wf(),
            old(self).num_selectors < usize::MAX,
        ensures
            final(self).wf(),
            s.index == old(self).num_selectors,
            final(self).num_selectors == old(self).num_selectors + 1,
            final(self).advice_equality == old(self).advice_equality,
            final(self).instance_equality == old(self).instance_equality,
            final(self).gates@ == old(self).gates@,
    {
        let index = self.num_selectors;
        self.num_selectors = self.num_selectors + 1;
        Selector { index }
    }

    /// Permits the cells of an advice column to take part in equality
    /// constraints.
    pub fn enable_equality(&mut self, c: AdviceColumn)
        requires
            old(self).wf(),
            c.index < old(self).num_advice(),
        ensures
            final(self).wf(),
            final(self).advice_equality@ == old(self).advice_equality@.update(c.index as int, true),
            final(self).instance_equality == old(self).instance_equality,
            final(self).num_selectors == old(self).num_selectors,
            final(self).gates@ == old(self).gates@,
    {
        self.advice_equality.set(c.index, true);
    }

    /// Permits the cells of an instance column to take part in equality
    /// constraints.
    pub fn enable_instance_equality(&mut self, c: InstanceColumn)
        requires
            old(self).wf(),
            c.index < old(self).num_instance(),
        ensures
            final(self).wf(),
            final(self).instance_equality@ == old(self).instance_equality@.update(
                c.index as int,
                true,
            ),
            final(self).advice_equality == old(self).advice_equality,
            final(self).num_selectors == old(self).num_selectors,
            final(self).gates@ == old(self).gates@,
    {
        self.instance_equality.set(c.index, true);
    }

    /// Registers a named gate: wherever `selector` is enabled, `poly` must
    /// vanish.  Returns that gate's stable index.
    pub fn create_gate(&mut self, name: &'static str, selector: Selector, poly: Expression) -> (g:
        usize)
        requires
            old(self).wf(),
            selector.index < old(self).num_selectors,
            poly.wf(old(self).num_advice()),
        ensures
            final(self).wf(),
            g == old(self).gates@.len(),
            final(self).gates@ == old(self).gates@.push((Gate { name, selector, poly })),
            final(self).advice_equality == old(self).advice_equality,
            final(self).instance_equality == old(self).instance_equality,
            final(self).num_selectors == old(self).num_selectors,
    {
        let g = self.gates.len();
        self.gates.push(Gate { name, selector, poly });
        g
    }
}

} // verus!
