//! Witness values: either a concrete field element or the "unknown"
//! placeholder used when a circuit is synthesized without witnesses (for
//! example to derive proving and verification keys).  Arithmetic on a
//! partially unknown pair of values propagates "unknown", so a witness-free
//! synthesis lays the circuit out identically to a witnessed one.

use vstd::prelude::*;

use crate::field::Fp;

verus! {

/// A witness value placed into (or read back from) the assignment grid.
#[derive(Clone, Copy, Debug, PartialEq, Eq, Structural)]
pub enum Value {
    Known(Fp),
    Unknown,
}

impl Value {
    /// A value is well formed when any field element it carries is reduced.
    pub open spec fn wf(self) -> bool {
        match self {
            Value::Known(x) => x.wf(),
            Value::Unknown => true,
        }
    }

    pub open spec fn is_known(self) -> bool {
        self is Known
    }

    pub open spec fn spec_add(self, other: Value) -> Value {
        match (self, other) {
            (Value::Known(x), Value::Known(y)) => Value::Known(x.spec_add(y)),
            _ => Value::Unknown,
        }
    }

    pub open spec fn spec_sub(self, other: Value) -> Value {
        match (self, other) {
            (Value::Known(x), Value::Known(y)) => Value::Known(x.spec_sub(y)),
            _ => Value::Unknown,
        }
    }

    pub open spec fn spec_mul(self, other: Value) -> Value {
        match (self, other) {
            (Value::Known(x), Value::Known(y)) => Value::Known(x.spec_mul(y)),
            _ => Value::Unknown,
        }
    }

    /// A concrete witness value.
    pub fn known(x: Fp) -> (r: Value)
        ensures
            r == Value::Known(x),
    {
        Value::Known(x)
    }

    /// The placeholder used by witness-free synthesis.
    pub fn unknown() -> (r: Value)
        ensures
            r == Value::Unknown,
    {
        Value::Unknown
    }

    pub fn add(self, other: Value) -> (r: Value)
        requires
            self.wf(),
            other.wf(),
        ensures
            r.wf(),
            r == self.spec_add(other),
    {
        match (self, other) {
            (Value::Known(x), Value::Known(y)) => Value::Known(x.add(y)),
            _ => Value::Unknown,
        }
    }

    pub fn sub(self, other: Value) -> (r: Value)
        requires
            self.wf(),
            other.wf(),
        ensures
            r.wf(),
            r == self.spec_sub(other),
    {
        match (self, other) {
            (Value::Known(x), Value::Known(y)) => Value::Known(x.sub(y)),
            _ => Value::Unknown,
        }
    }

    pub fn mul(self, other: Value) -> (r: Value)
        requires
            self.wf(),
            other.wf(),
        ensures
            r.wf(),
            r == self.spec_mul(other),
    {
        match (self, other) {
            (Value::Known(x), Value::Known(y)) => Value::Known(x.mul(y)),
            _ => Value::Unknown,
        }
    }
}

} // verus!
