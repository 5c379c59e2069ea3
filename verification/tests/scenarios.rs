use plonkish::add::{AddChip, AddCircuit};
use plonkish::add2::Add2Circuit;
use plonkish::circuit::Circuit;
use plonkish::eq::EqCircuit;
use plonkish::field::Fp;
use plonkish::layout::{Error, Layouter};
use plonkish::mock::{MockProver, VerifyFailure};
use plonkish::system::ConstraintSystem;
use plonkish::value::Value;

#[test]
fn single_addition_satisfied() {
    let circuit = AddCircuit {
        a: Value::known(Fp::from_u64(5)),
        b: Value::known(Fp::from_u64(7)),
    };
    let public = vec![Fp::from_u64(5), Fp::from_u64(7), Fp::from_u64(12)];
    let prover = MockProver::run(4, &circuit, vec![public]).unwrap();
    assert!(prover.verify().is_ok());
}

#[test]
fn single_addition_wrong_result_unsatisfied() {
    let circuit = AddCircuit {
        a: Value::known(Fp::from_u64(5)),
        b: Value::known(Fp::from_u64(7)),
    };
    let public = vec![Fp::from_u64(5), Fp::from_u64(7), Fp::from_u64(13)];
    let prover = MockProver::run(4, &circuit, vec![public]).unwrap();
    assert!(prover.verify().is_err());
}

#[test]
fn equality_gate_satisfied_and_not() {
    let good = EqCircuit {
        input: Value::known(Fp::from_u64(5)),
        output: Value::known(Fp::from_u64(5)),
    };
    let prover = MockProver::run(4, &good, vec![vec![Fp::from_u64(5), Fp::from_u64(5)]]).unwrap();
    assert!(prover.verify().is_ok());

    let bad = EqCircuit {
        input: Value::known(Fp::from_u64(5)),
        output: Value::known(Fp::from_u64(6)),
    };
    let prover = MockProver::run(4, &bad, vec![vec![Fp::from_u64(5), Fp::from_u64(6)]]).unwrap();
    assert!(prover.verify().is_err());
}

#[test]
fn chained_additions_satisfied() {
    let circuit = Add2Circuit {
        a: Value::known(Fp::from_u64(5)),
        b: Value::known(Fp::from_u64(7)),
        c: Value::known(Fp::from_u64(12)),
    };
    let public = vec![
        Fp::from_u64(5),
        Fp::from_u64(7),
        Fp::from_u64(12),
        Fp::from_u64(24),
    ];
    let prover = MockProver::run(4, &circuit, vec![public]).unwrap();
    assert!(prover.verify().is_ok());
}

#[test]
fn mismatched_chain_fails_only_copy_check() {
    // Drive the two addition-chip instances by hand, feeding the second one
    // an intermediate value that differs from the first one's output, so
    // only the recorded copy constraint can be violated.
    let mut cs = ConstraintSystem::new();
    let cfg = <AddCircuit as Circuit>::configure(&mut cs);
    let mut ly = Layouter::new(&cs, 8);
    let chip = AddChip::construct(cfg);

    let a = Fp::from_u64(5);
    let b = Fp::from_u64(7);
    let c = Fp::from_u64(12);
    let wrong = Fp::from_u64(13);

    let cells1 = chip
        .assign(&mut ly, Value::known(a), Value::known(b), 0)
        .unwrap();
    chip.expose_public(&mut ly, cells1.0, cells1.1, cells1.2)
        .unwrap();
    let cells2 = chip
        .assign(&mut ly, Value::known(wrong), Value::known(c), 1)
        .unwrap();
    ly.constrain_instance(cells2.2.cell(), cfg.instance, 3)
        .unwrap();
    ly.constrain_equal(cells1.2.cell(), cells2.0.cell()).unwrap();

    // Both addition gates hold (5 + 7 = 12 and 13 + 12 = 25), and every
    // instance binding matches; only the copy 12 == 13 fails.
    let public = vec![a, b, a.add(b), wrong.add(c)];
    let prover = MockProver::from_parts(cs, ly, vec![public]).unwrap();
    let failures = prover.verify().unwrap_err();
    assert_eq!(failures, vec![VerifyFailure::CopyMismatch { index: 0 }]);
}

#[test]
fn short_instance_vector_is_a_binding_error() {
    // Three rows are bound but only two public values are supplied: the
    // binding error surfaces before any satisfiability check.
    let circuit = AddCircuit {
        a: Value::known(Fp::from_u64(5)),
        b: Value::known(Fp::from_u64(7)),
    };
    let public = vec![Fp::from_u64(5), Fp::from_u64(7)];
    let r = MockProver::run(4, &circuit, vec![public]);
    assert_eq!(r.err(), Some(Error::InstanceOutOfRange));
}

#[test]
fn wrong_instance_column_count_is_rejected() {
    let circuit = AddCircuit {
        a: Value::known(Fp::from_u64(5)),
        b: Value::known(Fp::from_u64(7)),
    };
    let r = MockProver::run(4, &circuit, vec![]);
    assert_eq!(r.err(), Some(Error::InstanceCount));
}

#[test]
fn corrupted_result_binding_reports_instance_mismatch() {
    let circuit = AddCircuit {
        a: Value::known(Fp::from_u64(2)),
        b: Value::known(Fp::from_u64(3)),
    };
    // The public vector is wrong only at the result row, so the one failed
    // check is that binding; the addition gate itself still holds.
    let public = vec![Fp::from_u64(2), Fp::from_u64(3), Fp::from_u64(9)];
    let prover = MockProver::run(4, &circuit, vec![public]).unwrap();
    let failures = prover.verify().unwrap_err();
    assert_eq!(failures, vec![VerifyFailure::InstanceMismatch { index: 2 }]);
}

#[test]
fn unknown_witness_fails_gate_check() {
    // A witness-free synthesis lays out the same shape, but its gates
    // evaluate over unknown values and cannot be accepted.
    let circuit = AddCircuit {
        a: Value::known(Fp::from_u64(5)),
        b: Value::known(Fp::from_u64(7)),
    }
    .without_witnesses();
    let public = vec![Fp::from_u64(5), Fp::from_u64(7), Fp::from_u64(12)];
    let prover = MockProver::run(4, &circuit, vec![public]).unwrap();
    let failures = prover.verify().unwrap_err();
    assert!(failures.contains(&VerifyFailure::GateNotSatisfied { gate: 0, row: 0 }));
}
