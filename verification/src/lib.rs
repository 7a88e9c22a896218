//! A PLONKish constraint-system and witness-assignment engine.
//!
//! The crate turns a declarative description of columns, selectors and
//! polynomial gates into a concrete, row-indexed grid of field-element
//! values, and checks that the finished grid satisfies every enabled gate
//! and every declared cell-equality constraint.
//!
//! The pieces, leaf first: [`field`] supplies the prime field, [`value`]
//! the unassigned-or-assigned cell values, [`columns`] the column,
//! selector and cell handles, [`expr`] the symbolic gate expressions,
//! [`cs`] the column registry and gate accumulator, [`grid`] the witness
//! grid and expression evaluation, [`permutation`] the cell-equality
//! groups, [`layouter`] the region allocator, [`synth`] the synthesis
//! state machine with its finalize pass, and [`chip`] and [`circuit`]
//! the addition chip and the Fibonacci circuit built on all of it.

pub mod chip;
pub mod circuit;
pub mod columns;
pub mod cs;
pub mod errors;
pub mod expr;
pub mod field;
pub mod grid;
pub mod layouter;
pub mod permutation;
pub mod synth;
pub mod value;
