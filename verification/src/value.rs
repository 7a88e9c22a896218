//! Witness values: a grid cell is either still unassigned or holds a
//! field element.  Arithmetic on unassigned values propagates
//! "unassigned" rather than erroring, which is what a structural-only
//! synthesis pass (no private inputs) relies on.

use crate::field::{spec_add, spec_mul, spec_neg, spec_norm, spec_sub, Felt};
use vstd::prelude::*;

verus! {

/// The content of one grid cell.
#[derive(Clone, Copy, Debug, PartialEq, Eq, Structural)]
pub enum CellValue {
    Unassigned,
    Assigned(Felt),
}

impl CellValue {
    /// A cell value is well formed when any field element it holds is.
    pub open spec fn inv(self) -> bool {
        match self {
            CellValue::Unassigned => true,
            CellValue::Assigned(f) => f.inv(),
        }
    }

    /// The canonical representative of any field element held.
    pub open spec fn spec_vnorm(self) -> CellValue {
        match self {
            CellValue::Unassigned => CellValue::Unassigned,
            CellValue::Assigned(f) => CellValue::Assigned(spec_norm(f)),
        }
    }

    /// Executable counterpart of [`CellValue::spec_vnorm`].
    pub fn vnorm(self) -> (r: CellValue)
        ensures
            r == self.spec_vnorm(),
            r.inv(),
            self.inv() ==> r == self,
    {
        match self {
            CellValue::Unassigned => CellValue::Unassigned,
            CellValue::Assigned(f) => CellValue::Assigned(f.normalize()),
        }
    }

    /// `a + b`, where an unassigned operand makes the result unassigned.
    pub open spec fn spec_vadd(self, other: CellValue) -> CellValue {
        match (self, other) {
            (CellValue::Assigned(a), CellValue::Assigned(b)) => CellValue::Assigned(
                spec_add(a, b),
            ),
            _ => CellValue::Unassigned,
        }
    }

    /// Executable counterpart of [`CellValue::spec_vadd`].
    pub fn vadd(self, other: CellValue) -> (r: CellValue)
        requires
            self.inv(),
            other.inv(),
        ensures
            r == self.spec_vadd(other),
            r.inv(),
    {
        match (self, other) {
            (CellValue::Assigned(a), CellValue::Assigned(b)) => CellValue::Assigned(a.add(b)),
            _ => CellValue::Unassigned,
        }
    }

    /// `a - b`, where an unassigned operand makes the result unassigned.
    pub open spec fn spec_vsub(self, other: CellValue) -> CellValue {
        match (self, other) {
            (CellValue::Assigned(a), CellValue::Assigned(b)) => CellValue::Assigned(
                spec_sub(a, b),
            ),
            _ => CellValue::Unassigned,
        }
    }

    /// Executable counterpart of [`CellValue::spec_vsub`].
    pub fn vsub(self, other: CellValue) -> (r: CellValue)
        requires
            self.inv(),
            other.inv(),
        ensures
            r == self.spec_vsub(other),
            r.inv(),
    {
        match (self, other) {
            (CellValue::Assigned(a), CellValue::Assigned(b)) => CellValue::Assigned(a.sub(b)),
            _ => CellValue::Unassigned,
        }
    }

    /// `a * b`, where an unassigned operand makes the result unassigned.
    pub open spec fn spec_vmul(self, other: CellValue) -> CellValue {
        match (self, other) {
            (CellValue::Assigned(a), CellValue::Assigned(b)) => CellValue::Assigned(
                spec_mul(a, b),
            ),
            _ => CellValue::Unassigned,
        }
    }

    /// Executable counterpart of [`CellValue::spec_vmul`].
    pub fn vmul(self, other: CellValue) -> (r: CellValue)
        requires
            self.inv(),
            other.inv(),
        ensures
            r == self.spec_vmul(other),
            r.inv(),
    {
        match (self, other) {
            (CellValue::Assigned(a), CellValue::Assigned(b)) => CellValue::Assigned(a.mul(b)),
            _ => CellValue::Unassigned,
        }
    }

    /// `-a`, where an unassigned operand makes the result unassigned.
    pub open spec fn spec_vneg(self) -> CellValue {
        match self {
            CellValue::Assigned(a) => CellValue::Assigned(spec_neg(a)),
            CellValue::Unassigned => CellValue::Unassigned,
        }
    }

    /// Executable counterpart of [`CellValue::spec_vneg`].
    pub fn vneg(self) -> (r: CellValue)
        requires
            self.inv(),
        ensures
            r == self.spec_vneg(),
            r.inv(),
    {
        match self {
            CellValue::Assigned(a) => CellValue::Assigned(a.neg()),
            CellValue::Unassigned => CellValue::Unassigned,
        }
    }
}

} // verus!
