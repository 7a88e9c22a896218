//! Column, selector and cell handles.
//!
//! A column is identified by its kind together with an index that is
//! unique within that kind; a selector is a boolean-valued control
//! column with its own index space; a cell names one grid location by
//! column and absolute row.

use vstd::prelude::*;

verus! {

/// The three kinds of value columns.
#[derive(Clone, Copy, Debug, PartialEq, Eq, Structural)]
pub enum ColumnKind {
    /// Private witness values, supplied during synthesis.
    Advice,
    /// Values fixed at circuit setup.
    Fixed,
    /// Public input values.
    Instance,
}

/// A handle to one registered column.
#[derive(Clone, Copy, Debug, PartialEq, Eq, Structural)]
pub struct Column {
    pub kind: ColumnKind,
    pub index: usize,
}

/// A handle to one registered selector: a control column restricted to
/// the values 0 and 1 that turns a gate's constraints on or off per row.
#[derive(Clone, Copy, Debug, PartialEq, Eq, Structural)]
pub struct Selector {
    pub index: usize,
}

/// One addressable grid location.
#[derive(Clone, Copy, Debug, PartialEq, Eq, Structural)]
pub struct Cell {
    pub column: Column,
    pub row: usize,
}

} // verus!
