use plonkish::field::{Fp, FIELD_MODULUS};
use plonkish::layout::{Cell, Error, Layouter};
use plonkish::system::ConstraintSystem;
use plonkish::value::Value;

#[test]
fn field_arithmetic_exact_values() {
    assert_eq!(Fp::from_u64(5).add(Fp::from_u64(7)).repr, 12);
    assert_eq!(Fp::from_u64(5).sub(Fp::from_u64(7)).repr, FIELD_MODULUS - 2);
    assert_eq!(Fp::from_u64(5).mul(Fp::from_u64(7)).repr, 35);
    assert_eq!(Fp::from_u64(FIELD_MODULUS).repr, 0);
    assert_eq!(
        Fp::from_u64(FIELD_MODULUS - 1).add(Fp::from_u64(1)).repr,
        0
    );
    assert_eq!(Fp::zero().repr, 0);
    assert_eq!(Fp::one().repr, 1);
}

#[test]
fn unknown_propagates_through_arithmetic() {
    let k = Value::known(Fp::from_u64(3));
    let u = Value::unknown();
    assert_eq!(k.add(u), Value::Unknown);
    assert_eq!(u.add(k), Value::Unknown);
    assert_eq!(u.sub(u), Value::Unknown);
    assert_eq!(k.mul(u), Value::Unknown);
    assert_eq!(
        k.add(Value::known(Fp::from_u64(4))),
        Value::Known(Fp::from_u64(7))
    );
}

#[test]
fn cells_are_write_once() {
    let mut cs = ConstraintSystem::new();
    let col = cs.advice_column();
    let mut ly = Layouter::new(&cs, 4);
    let start = ly.assign_region(2).unwrap();
    assert_eq!(start, 0);
    let v = Value::known(Fp::from_u64(1));
    ly.assign_advice(col, 0, v).unwrap();
    assert_eq!(ly.assign_advice(col, 0, v), Err(Error::CellAlreadyAssigned));
    // A row outside every claimed region is rejected.
    assert_eq!(ly.assign_advice(col, 3, v), Err(Error::CellOutOfRange));
}

#[test]
fn regions_never_overlap() {
    let mut cs = ConstraintSystem::new();
    let _col = cs.advice_column();
    let mut ly = Layouter::new(&cs, 4);
    let first = ly.assign_region(2).unwrap();
    let second = ly.assign_region(2).unwrap();
    assert_eq!(first, 0);
    assert_eq!(second, 2);
    assert_eq!(ly.assign_region(1), Err(Error::NotEnoughRows));
}

#[test]
fn equality_must_be_enabled_for_copies() {
    let mut cs = ConstraintSystem::new();
    let col_a = cs.advice_column();
    let col_b = cs.advice_column();
    cs.enable_equality(col_a);
    let mut ly = Layouter::new(&cs, 4);
    ly.assign_region(1).unwrap();
    let v = Value::known(Fp::from_u64(9));
    let a = ly.assign_advice(col_a, 0, v).unwrap();
    let b = ly.assign_advice(col_b, 0, v).unwrap();
    assert_eq!(ly.constrain_equal(a, b), Err(Error::EqualityNotEnabled));
    let far = Cell {
        column: col_a,
        row: 17,
    };
    assert_eq!(ly.constrain_equal(a, far), Err(Error::CellOutOfRange));
    assert_eq!(ly.copies.len(), 0);
}

#[test]
fn configuration_allocates_stable_indexes() {
    let mut cs = ConstraintSystem::new();
    let a = cs.advice_column();
    let b = cs.advice_column();
    let i = cs.instance_column();
    let s = cs.selector();
    assert_eq!(a.index, 0);
    assert_eq!(b.index, 1);
    assert_eq!(i.index, 0);
    assert_eq!(s.index, 0);
    assert_eq!(cs.advice_equality, vec![false, false]);
    cs.enable_equality(b);
    assert_eq!(cs.advice_equality, vec![false, true]);
}
