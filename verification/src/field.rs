//! The prime field the engine computes over.
//!
//! All witness values are residues modulo `FIELD_MODULUS`, a 64-bit prime
//! (the "Goldilocks" prime `2^64 - 2^32 + 1`).  The engine only ever needs
//! zero, one, addition, subtraction, multiplication, negation and equality,
//! so that is all this module offers.

use vstd::prelude::*;

verus! {

/// The field modulus: the Goldilocks prime `2^64 - 2^32 + 1`.
pub const FIELD_MODULUS: u64 = 18446744069414584321;

/// A field element: a residue modulo [`FIELD_MODULUS`].
#[derive(Clone, Copy, Debug, PartialEq, Eq, Structural)]
pub struct Felt {
    pub v: u64,
}

/// The canonical representative of `f`'s residue class.
pub open spec fn spec_norm(f: Felt) -> Felt {
    Felt { v: ((f.v % FIELD_MODULUS) as u64) }
}

/// The canonical representative of `a + b` in the field.
pub open spec fn spec_add(a: Felt, b: Felt) -> Felt {
    Felt { v: (((a.v + b.v) % (FIELD_MODULUS as int)) as u64) }
}

/// The canonical representative of `a - b` in the field.
pub open spec fn spec_sub(a: Felt, b: Felt) -> Felt {
    Felt { v: (((a.v + FIELD_MODULUS - b.v) % (FIELD_MODULUS as int)) as u64) }
}

/// The canonical representative of `a * b` in the field.
pub open spec fn spec_mul(a: Felt, b: Felt) -> Felt {
    Felt { v: (((a.v * b.v) % (FIELD_MODULUS as int)) as u64) }
}

/// The canonical representative of `-a` in the field.
pub open spec fn spec_neg(a: Felt) -> Felt {
    Felt { v: (((FIELD_MODULUS - a.v) % (FIELD_MODULUS as int)) as u64) }
}

impl Felt {
    /// A field element is well formed when it is the canonical
    /// representative of its residue class.
    pub open spec fn inv(self) -> bool {
        self.v < FIELD_MODULUS
    }

    /// The residue this element represents.
    pub open spec fn value(self) -> int {
        self.v as int
    }

    /// The additive identity.
    pub fn zero() -> (r: Felt)
        ensures
            r.value() == 0,
            r.inv(),
    {
        Felt { v: 0 }
    }

    /// The multiplicative identity.
    pub fn one() -> (r: Felt)
        ensures
            r.value() == 1,
            r.inv(),
    {
        Felt { v: 1 }
    }

    /// The field element representing `x`.
    pub fn from_u64(x: u64) -> (r: Felt)
        ensures
            r.value() == x % FIELD_MODULUS,
            r.inv(),
    {
        Felt { v: x % FIELD_MODULUS }
    }

    /// Reduce to the canonical representative.  Already-canonical
    /// elements are unchanged.
    pub fn normalize(self) -> (r: Felt)
        ensures
            r == spec_norm(self),
            r.inv(),
            self.inv() ==> r == self,
    {
        Felt { v: self.v % FIELD_MODULUS }
    }

    /// Field addition.
    pub fn add(self, other: Felt) -> (r: Felt)
        requires
            self.inv(),
            other.inv(),
        ensures
            r == spec_add(self, other),
            r.inv(),
    {
        let m: u128 = FIELD_MODULUS as u128;
        let s: u128 = self.v as u128 + other.v as u128;
        Felt { v: (s % m) as u64 }
    }

    /// Field subtraction.
    pub fn sub(self, other: Felt) -> (r: Felt)
        requires
            self.inv(),
            other.inv(),
        ensures
            r == spec_sub(self, other),
            r.inv(),
    {
        let m: u128 = FIELD_MODULUS as u128;
        let s: u128 = self.v as u128 + m - other.v as u128;
        Felt { v: (s % m) as u64 }
    }

    /// Field multiplication.
    pub fn mul(self, other: Felt) -> (r: Felt)
        requires
            self.inv(),
            other.inv(),
        ensures
            r == spec_mul(self, other),
            r.inv(),
    {
        let m: u128 = FIELD_MODULUS as u128;
        assert(self.v as u128 * other.v as u128 <= u64::MAX as u128 * u64::MAX as u128)
            by (nonlinear_arith)
            requires self.v <= u64::MAX && other.v <= u64::MAX,
        ;
        let p: u128 = self.v as u128 * other.v as u128;
        Felt { v: (p % m) as u64 }
    }

    /// Field negation.
    pub fn neg(self) -> (r: Felt)
        requires
            self.inv(),
        ensures
            r == spec_neg(self),
            r.inv(),
    {
        let m: u128 = FIELD_MODULUS as u128;
        let s: u128 = m - self.v as u128;
        Felt { v: (s % m) as u64 }
    }
}

} // verus!
