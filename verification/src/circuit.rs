//! The top-level circuit abstraction.
//!
//! A circuit is driven through two phases, each entered exactly once per
//! circuit shape: configure (pure shape declaration, no witness data) and
//! synthesize (witness assignment).  A witness-free copy obtained from
//! `without_witnesses` runs the identical gate, selector and region
//! structure, so key generation is independent of any private data.

use vstd::prelude::*;

use crate::field::Fp;
use crate::layout::{Error, Layouter};
use crate::mock::MockProver;
use crate::system::ConstraintSystem;

verus! {

impl ConstraintSystem {
    /// A registry nothing has been configured into yet.
    pub open spec fn fresh(self) -> bool {
        &&& self.advice_equality@ =~= Seq::<bool>::empty()
        &&& self.instance_equality@ =~= Seq::<bool>::empty()
        &&& self.num_selectors == 0
        &&& self.gates@.len() == 0
    }
}

impl Layouter {
    /// The two layouters have the same shape parameters: the same columns,
    /// the same selectors, the same equality enablement, the same height.
    pub open spec fn same_config(self, other: Layouter) -> bool {
        &&& self.advice_equality@ == other.advice_equality@
        &&& self.instance_equality@ == other.instance_equality@
        &&& self.advice@.len() == other.advice@.len()
        &&& self.selectors@.len() == other.selectors@.len()
        &&& self.num_rows == other.num_rows
    }

    /// A layouter freshly laid out for `cs` with `num_rows` rows: fully
    /// unassigned, no selector enabled, nothing recorded.
    pub open spec fn is_fresh(self, cs: ConstraintSystem, num_rows: int) -> bool {
        &&& self.matches_config(cs)
        &&& self.num_rows == num_rows
        &&& self.next_row == 0
        &&& self.copies@.len() == 0
        &&& self.bindings@.len() == 0
        &&& forall|c: int, rr: int|
            0 <= c < self.advice@.len() && 0 <= rr < self.num_rows ==> (
            #[trigger] self.advice@[c]@[rr]) is None
        &&& forall|s: int, rr: int| !(#[trigger] self.selector_on(s, rr))
    }
}

/// The two layouts have one shape: the same grid dimensions, the same set
/// of assigned cell positions, the same enabled selectors, the same copy
/// constraints and instance bindings.  The witness values held by the
/// assigned cells are free to differ.
pub open spec fn shape_eq(l1: Layouter, l2: Layouter) -> bool {
    &&& l1.num_rows == l2.num_rows
    &&& l1.next_row == l2.next_row
    &&& l1.advice@.len() == l2.advice@.len()
    &&& l1.selectors@.len() == l2.selectors@.len()
    &&& forall|c: int, rr: int|
        0 <= c < l1.advice@.len() && 0 <= rr < l1.num_rows ==> ((#[trigger] l1.advice@[c]@[rr])
            is Some <==> (#[trigger] l2.advice@[c]@[rr]) is Some)
    &&& forall|j: int, rr: int| #[trigger] l1.selector_on(j, rr) <==> l2.selector_on(j, rr)
    &&& l1.copies@ == l2.copies@
    &&& l1.bindings@ == l2.bindings@
}

/// The unit of composition the framework drives: one `configure` declaring
/// shape, one `synthesize` placing witness values.  Each implementation
/// gives the spec relations that its two phases are proved against.
pub trait Circuit: Sized {
    /// The opaque, shareable configuration the circuit's chips run on.
    type Config;

    /// Every witness value the circuit carries is well formed.
    spec fn wf(self) -> bool;

    /// The same circuit with every witness value unknown.
    spec fn blank(self) -> Self;

    /// What `configure` leaves in a fresh registry.
    spec fn config_ok(cfg: Self::Config, cs: ConstraintSystem) -> bool;

    /// The configuration addresses this layouter: every column, selector and
    /// equality flag it relies on is present.
    spec fn pre_synth(cfg: Self::Config, ly: Layouter) -> bool;

    /// How synthesis transforms the layouter, and when it succeeds.
    spec fn synth_rel(
        self,
        cfg: Self::Config,
        pre: Layouter,
        post: Layouter,
        r: Result<(), Error>,
    ) -> bool;

    /// A copy of the circuit whose synthesis runs the identical structure
    /// with every witness value unknown.
    fn without_witnesses(&self) -> (r: Self)
        ensures
            r == self.blank(),
    ;

    /// Declares the circuit's columns, selectors and gates, exactly once,
    /// into a fresh registry.
    fn configure(cs: &mut ConstraintSystem) -> (cfg: Self::Config)
        requires
            old(cs).wf(),
            old(cs).fresh(),
        ensures
            final(cs).wf(),
            Self::config_ok(cfg, *final(cs)),
    ;

    /// A configuration fits any layouter laid out for the registry it was
    /// configured into.
    proof fn config_fits(cfg: Self::Config, cs: ConstraintSystem, ly: Layouter)
        requires
            Self::config_ok(cfg, cs),
            cs.wf(),
            ly.wf(),
            ly.matches_config(cs),
        ensures
            Self::pre_synth(cfg, ly),
    ;

    /// Drives the circuit's chips: claims regions, writes witness values,
    /// enables selectors, records copy constraints and instance bindings.
    fn synthesize(&self, cfg: &Self::Config, ly: &mut Layouter) -> (r: Result<(), Error>)
        requires
            self.wf(),
            old(ly).wf(),
            Self::pre_synth(*cfg, *old(ly)),
        ensures
            final(ly).wf(),
            final(ly).same_config(*old(ly)),
            Self::pre_synth(*cfg, *final(ly)),
            self.synth_rel(*cfg, *old(ly), *final(ly), r),
    ;
}

/// One way driving a circuit can fail, named by its witnesses: either the
/// circuit's own synthesis over a fresh layouter for its freshly configured
/// registry returned the error, or synthesis succeeded and the public
/// instance vector does not fit the recorded bindings (too few vectors, or
/// a bound row the vector does not supply), exactly as
/// [`MockProver::from_parts`] refuses them.
pub open spec fn run_failure<C: Circuit>(
    circuit: C,
    num_rows: int,
    instance: Vec<Vec<Fp>>,
    e: Error,
    cfg: C::Config,
    cs: ConstraintSystem,
    ly0: Layouter,
    ly1: Layouter,
) -> bool {
    &&& cs.wf()
    &&& C::config_ok(cfg, cs)
    &&& ly0.wf()
    &&& ly0.is_fresh(cs, num_rows)
    &&& ly1.wf()
    &&& ly1.matches_config(cs)
    &&& (circuit.synth_rel(cfg, ly0, ly1, Err::<(), Error>(e)) || {
        &&& circuit.synth_rel(cfg, ly0, ly1, Ok::<(), Error>(()))
        &&& (e == Error::InstanceCount || e == Error::InstanceOutOfRange)
        &&& (e == Error::InstanceCount <==> instance@.len() != cs.num_instance())
        &&& !((MockProver { cs, layouter: ly1, instance }).wf() && (MockProver {
            cs,
            layouter: ly1,
            instance,
        }).bindings_in_range())
    })
}

impl MockProver {
    /// Drives a circuit through its two phases over a grid of `num_rows`
    /// rows, then accepts it with its public instance vector as
    /// [`MockProver::from_parts`] does.  A failure is never invented: it is
    /// either the circuit's own synthesis error or the instance vector
    /// refusal of [`MockProver::from_parts`].
    pub fn run<C: Circuit>(num_rows: usize, circuit: &C, instance: Vec<Vec<Fp>>) -> (r: Result<
        MockProver,
        Error,
    >)
        requires
            circuit.wf(),
            forall|i: int, j: int|
                0 <= i < instance@.len() && 0 <= j < instance@[i]@.len() ==> (
                #[trigger] instance@[i]@[j]).wf(),
        ensures
            r matches Ok(p) ==> {
                &&& p.wf()
                &&& p.bindings_in_range()
                &&& p.instance@ == instance@
                &&& exists|cfg: C::Config, ly0: Layouter|
                    {
                        &&& C::config_ok(cfg, p.cs)
                        &&& ly0.wf()
                        &&& ly0.is_fresh(p.cs, num_rows as int)
                        &&& #[trigger] circuit.synth_rel(cfg, ly0, p.layouter, Ok(()))
                    }
            },
            r matches Err(e) ==> exists|cfg: C::Config, cs: ConstraintSystem, ly0: Layouter, ly1: Layouter|
                #[trigger] run_failure::<C>(*circuit, num_rows as int, instance, e, cfg, cs, ly0, ly1),
    {
        let mut cs = ConstraintSystem::new();
        let cfg = C::configure(&mut cs);
        let mut ly = Layouter::new(&cs, num_rows);
        let ghost ly0 = ly;
        proof {
            C::config_fits(cfg, cs, ly);
            assert forall|s: int, rr: int| !(#[trigger] ly.selector_on(s, rr)) by {
                if 0 <= s < ly.selectors@.len() && 0 <= rr < ly.num_rows {
                    assert(!ly.selectors@[s]@[rr]);
                }
            }
        }
        let res = circuit.synthesize(&cfg, &mut ly);
        match res {
            Ok(u) => {
                proof {
                    assert(circuit.synth_rel(cfg, ly0, ly, res));
                    assert(res == Ok::<(), Error>(u));
                }
                let ghost cs1 = cs;
                let ghost ly1 = ly;
                let ghost inst1 = instance;
                let out = MockProver::from_parts(cs, ly, instance);
                proof {
                    if out is Ok {
                        let p = out->Ok_0;
                        assert(circuit.synth_rel(cfg, ly0, p.layouter, Ok(())));
                    } else {
                        let e = out->Err_0;
                        assert(run_failure::<C>(
                            *circuit,
                            num_rows as int,
                            inst1,
                            e,
                            cfg,
                            cs1,
                            ly0,
                            ly1,
                        ));
                    }
                }
                out
            },
            Err(e) => {
                proof {
                    assert(circuit.synth_rel(cfg, ly0, ly, res));
                    assert(res == Err::<(), Error>(e));
                    assert(run_failure::<C>(
                        *circuit,
                        num_rows as int,
                        instance,
                        e,
                        cfg,
                        cs,
                        ly0,
                        ly,
                    ));
                }
                Err(e)
            },
        }
    }
}

} // verus!
