use plonkish::add::AddCircuit;
use plonkish::add2::Add2Circuit;
use plonkish::circuit::Circuit;
use plonkish::eq::EqCircuit;
use plonkish::field::Fp;
use plonkish::mock::MockProver;
use plonkish::value::Value;

#[test]
fn test_circuit() {
    let k = 4;
    let a = Fp::from_u64(5);
    let b = Fp::from_u64(7);
    let res = Fp::from_u64(12);

    let circuit = AddCircuit {
        a: Value::known(a),
        b: Value::known(b),
    };

    let public_input = vec![a, b, res];
    let prover_res = MockProver::run(k, &circuit, vec![public_input.clone()]);

    if prover_res.is_err() {
        println!("{:?}", prover_res.err());
    }
}

#[test]
fn example2_test1() {
    let k = 4;
    let input = Fp::from_u64(5);
    let output = Fp::from_u64(5);

    let circuit = EqCircuit {
        input: Value::known(input),
        output: Value::known(output),
    };

    let public_input = vec![input, output];

    let prover = MockProver::run(k, &circuit, vec![public_input.clone()]).unwrap();
    assert!(prover.verify().is_ok());
}

#[test]
fn example3_test1() {
    let k = 4;
    let input = Fp::from_u64(1);
    let output = Fp::from_u64(1);

    let circuit = EqCircuit {
        input: Value::known(input),
        output: Value::known(output),
    };

    let public_input = vec![input, output];

    let prover = MockProver::run(k, &circuit, vec![public_input.clone()]).unwrap();
    assert!(prover.verify().is_ok());
}

#[test]
fn example4_gadget_test() {
    let k = 4;
    let a = Fp::from_u64(5);
    let b = Fp::from_u64(1);
    let res = a.add(b);

    let circuit = AddCircuit {
        a: Value::known(a),
        b: Value::known(b),
    };
    let public_input = vec![a, b, res];

    let prover = MockProver::run(k, &circuit, vec![public_input.clone()]).unwrap();
    assert!(prover.verify().is_ok());
}

#[test]
fn example5_test() {
    let k = 4;
    let a = Fp::from_u64(5);
    let b = Fp::from_u64(7);
    let c = Fp::from_u64(12);
    let res = a.add(b).add(c);

    let circuit = Add2Circuit {
        a: Value::known(a),
        b: Value::known(b),
        c: Value::known(c),
    };

    let pub_instances = vec![a, b, c, res];

    let prover = MockProver::run(k, &circuit, vec![pub_instances.clone()]).unwrap();
    assert!(prover.verify().is_ok());
}

#[test]
fn without_witnesses_blanks_inputs() {
    let circuit = AddCircuit {
        a: Value::known(Fp::from_u64(5)),
        b: Value::known(Fp::from_u64(7)),
    };
    let blank = circuit.without_witnesses();
    assert_eq!(blank.a, Value::Unknown);
    assert_eq!(blank.b, Value::Unknown);

    let blank2 = Add2Circuit {
        a: Value::known(Fp::from_u64(1)),
        b: Value::known(Fp::from_u64(2)),
        c: Value::known(Fp::from_u64(3)),
    }
    .without_witnesses();
    assert_eq!(blank2.a, Value::Unknown);
    assert_eq!(blank2.b, Value::Unknown);
    assert_eq!(blank2.c, Value::Unknown);
}

#[test]
fn gate_names_follow_registration() {
    let mut cs = plonkish::system::ConstraintSystem::new();
    let cfg = <Add2Circuit as Circuit>::configure(&mut cs);
    assert_eq!(cs.gates.len(), 2);
    assert_eq!(cs.gates[cfg.add_config.gate_index].name, "addition gate");
    assert_eq!(cs.gates[cfg.gate_index].name, "add 2 constraint");
}
