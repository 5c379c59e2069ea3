//! Typed column and selector handles.
//!
//! A column is a typed, append-only vertical lane of the circuit grid.
//! Handles are stable indexes assigned at configuration time; they live for
//! the lifetime of the circuit shape.

use vstd::prelude::*;

verus! {

/// A column of private witness values.
#[derive(Clone, Copy, Debug, PartialEq, Eq, Structural)]
pub struct AdviceColumn {
    pub index: usize,
}

/// A column of public input values, one value per row bound to it.
#[derive(Clone, Copy, Debug, PartialEq, Eq, Structural)]
pub struct InstanceColumn {
    pub index: usize,
}

/// A boolean-valued column gating gates: a gate's constraint is inert on
/// rows where its selector is off.
#[derive(Clone, Copy, Debug, PartialEq, Eq, Structural)]
pub struct Selector {
    pub index: usize,
}

} // verus!
