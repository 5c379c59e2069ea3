//! The scalar field the framework's witness values live in.
//!
//! Elements are residues modulo the prime `FIELD_MODULUS`; every operation
//! returns a reduced representative.

use vstd::prelude::*;

verus! {

/// The prime modulus of the scalar field: 2^31 - 1.
pub const FIELD_MODULUS: u64 = 0x7fff_ffff;

/// An element of the prime field of order `FIELD_MODULUS`, kept reduced.
#[derive(Clone, Copy, Debug, PartialEq, Eq, Structural)]
pub struct Fp {
    pub repr: u64,
}

impl Fp {
    /// A field element is well formed when its representative is reduced.
    pub open spec fn wf(self) -> bool {
        self.repr < FIELD_MODULUS
    }

    pub open spec fn spec_add(self, other: Fp) -> Fp {
        Fp { repr: ((self.repr + other.repr) % (FIELD_MODULUS as int)) as u64 }
    }

    pub open spec fn spec_sub(self, other: Fp) -> Fp {
        Fp { repr: ((self.repr + FIELD_MODULUS - other.repr) % (FIELD_MODULUS as int)) as u64 }
    }

    pub open spec fn spec_mul(self, other: Fp) -> Fp {
        Fp { repr: ((self.repr * other.repr) % (FIELD_MODULUS as int)) as u64 }
    }

    /// The additive identity.
    pub fn zero() -> (r: Fp)
        ensures
            r.wf(),
            r.repr == 0,
    {
        Fp { repr: 0 }
    }

    /// The multiplicative identity.
    pub fn one() -> (r: Fp)
        ensures
            r.wf(),
            r.repr == 1,
    {
        Fp { repr: 1 }
    }

    /// The field element represented by `v`, reduced modulo the field order.
    pub fn from_u64(v: u64) -> (r: Fp)
        ensures
            r.wf(),
            r.repr == v % FIELD_MODULUS,
    {
        Fp { repr: v % FIELD_MODULUS }
    }

    pub fn add(self, other: Fp) -> (r: Fp)
        requires
            self.wf(),
            other.wf(),
        ensures
            r.wf(),
            r == self.spec_add(other),
    {
        Fp { repr: (self.repr + other.repr) % FIELD_MODULUS }
    }

    pub fn sub(self, other: Fp) -> (r: Fp)
        requires
            self.wf(),
            other.wf(),
        ensures
            r.wf(),
            r == self.spec_sub(other),
    {
        Fp { repr: (self.repr + FIELD_MODULUS - other.repr) % FIELD_MODULUS }
    }

    pub fn mul(self, other: Fp) -> (r: Fp)
        requires
            self.wf(),
            other.wf(),
        ensures
            r.wf(),
            r == self.spec_mul(other),
    {
        proof {
            assert(self.repr * other.repr < 0x4000_0000_0000_0000) by (nonlinear_arith)
                requires
                    self.repr < 0x8000_0000,
                    other.repr < 0x8000_0000,
            ;
        }
        Fp { repr: (self.repr * other.repr) % FIELD_MODULUS }
    }
}

/// The difference of two reduced field elements vanishes exactly when they
/// are equal: a gate polynomial `x - y` is satisfied if and only if `x == y`.
pub proof fn lemma_sub_zero_iff_eq(x: Fp, y: Fp)
    requires
        x.wf(),
        y.wf(),
    ensures
        x.spec_sub(y).repr == 0 <==> x == y,
{
    if x.repr >= y.repr {
        assert((x.repr + FIELD_MODULUS - y.repr) % (FIELD_MODULUS as int)
            == x.repr - y.repr) by (nonlinear_arith)
            requires
                x.repr < FIELD_MODULUS,
                y.repr <= x.repr,
        ;
    } else {
        assert((x.repr + FIELD_MODULUS - y.repr) % (FIELD_MODULUS as int)
            == x.repr + FIELD_MODULUS - y.repr) by (nonlinear_arith)
            requires
                x.repr < y.repr,
                y.repr < FIELD_MODULUS,
        ;
    }
}

} // verus!
