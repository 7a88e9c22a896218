//! The error taxonomy of synthesis and finalization.
//!
//! None of these conditions is retried internally: the engine is
//! deterministic, so every error reports a structural defect in the
//! circuit description or in its assignment logic.

use crate::columns::{Cell, Column};
use vstd::prelude::*;

verus! {

/// Everything that can go wrong while configuring, synthesizing or
/// finalizing a circuit.
#[derive(Debug, PartialEq, Eq)]
pub enum SynthesisError {
    /// A copy constraint was attempted on a column without equality enabled.
    ColumnNotEquality { column: Column },
    /// A region request exceeded the grid capacity; carries the region's name.
    RegionOverflow { region: String },
    /// A cell was written a second time with a different value.
    CellAlreadyAssigned { cell: Cell },
    /// A gate's constraint is nonzero at a row where its selector is 1.
    GateUnsatisfied { gate: String, row: usize },
    /// Two cells declared equal hold different values.
    PermutationUnsatisfied { cell_a: Cell, cell_b: Cell },
}

} // verus!
