//! The synthesis state machine.
//!
//! A [`Synthesizer`] takes a configured [`ConstraintSystem`] by value —
//! freezing the registered columns, selectors and gates — and drives
//! the synthesis phase: regions are allocated through the layouter,
//! chip assignment calls populate the witness grid and the permutation
//! argument, and [`Synthesizer::finalize`] checks the completed grid
//! against every gate and every equality group.

use crate::columns::{Cell, Column, ColumnKind, Selector};
use crate::cs::ConstraintSystem;
use crate::errors::SynthesisError;
use crate::expr::Expr;
use crate::field::Felt;
use crate::grid::{evaluate, spec_eval, EvalOutcome, Grid};
use crate::layouter::{Layouter, Region};
use crate::permutation::Permutation;
use crate::value::CellValue;
use vstd::prelude::*;

verus! {

/// The synthesis-phase state: frozen configuration, witness grid,
/// permutation argument and region allocator.
pub struct Synthesizer {
    /// The frozen configuration.
    pub cs: ConstraintSystem,
    /// The witness grid under construction.
    pub grid: Grid,
    /// The recorded equality groups.
    pub permutation: Permutation,
    /// The region allocator.
    pub layouter: Layouter,
}

impl Synthesizer {
    /// All components well formed and sized consistently with the
    /// frozen configuration.
    pub open spec fn inv(self) -> bool {
        &&& self.cs.inv()
        &&& self.grid.inv()
        &&& self.permutation.inv()
        &&& self.layouter.inv()
        &&& self.grid.rows == self.layouter.capacity
        &&& self.grid.advice@.len() == self.cs.num_advice
        &&& self.grid.fixed@.len() == self.cs.num_fixed
        &&& self.grid.instance@.len() == self.cs.num_instance
        &&& self.grid.selectors@.len() == self.cs.num_selectors
    }

    /// Gate `gi` holds at `row`: wherever its selector is 1, every one
    /// of its constraint expressions evaluates to the concrete value
    /// zero.  An unassigned or out-of-range evaluation does not count
    /// as zero.
    pub open spec fn gate_ok_at(self, gi: int, row: int) -> bool {
        self.grid.selector_at(self.cs.gates@[gi].selector.index as int, row) ==> forall|ci: int|
            0 <= ci < self.cs.gates@[gi].constraints@.len() ==> spec_eval(
                self.cs.gates@[gi].constraints@[ci],
                self.grid,
                row,
            ) == EvalOutcome::Known((Felt { v: 0 }))
    }

    /// Every gate holds at every row of the grid.
    pub open spec fn gates_satisfied(self) -> bool {
        forall|gi: int, row: int|
            0 <= gi < self.cs.gates@.len() && 0 <= row < self.grid.rows ==> self.gate_ok_at(
                gi,
                row,
            )
    }

    /// Rows the layouter has not yet handed out hold no values: only
    /// allocated regions are ever written.
    pub open spec fn unallocated_rows_unassigned(self) -> bool {
        forall|c: Column, rr: int|
            rr >= self.layouter.cursor ==> self.grid.value_at(c, rr) == CellValue::Unassigned
    }

    /// All cells of every permutation group hold identical values.
    pub open spec fn permutation_satisfied(self) -> bool {
        forall|u: Cell, v: Cell|
            self.permutation.same_group(u, v) ==> self.grid.cell_value(u) == self.grid.cell_value(
                v,
            )
    }

    /// Begin synthesis over `rows` rows with the given frozen
    /// configuration: an all-unassigned grid, no equality groups, and
    /// an allocation cursor at row 0.
    pub fn new(cs: ConstraintSystem, rows: usize) -> (s: Synthesizer)
        requires
            cs.inv(),
        ensures
            s.inv(),
            s.cs == cs,
            s.grid.rows == rows,
            s.layouter.capacity == rows,
            s.layouter.cursor == 0,
            s.layouter.regions@.len() == 0,
            s.permutation.cells@.len() == 0,
            forall|x: Cell, y: Cell| s.permutation.same_group(x, y) <==> x == y,
            forall|c: Column, r: int| s.grid.value_at(c, r) == CellValue::Unassigned,
            forall|t: int, r: int| !s.grid.selector_at(t, r),
            s.unallocated_rows_unassigned(),
    {
        let grid = Grid::new(rows, cs.num_advice, cs.num_fixed, cs.num_instance, cs.num_selectors);
        Synthesizer { cs, grid, permutation: Permutation::new(), layouter: Layouter::new(rows) }
    }

    /// Reserve the next `rows` rows as a new region (see
    /// [`Layouter::assign_region`]).  The grid and the permutation
    /// argument are untouched whether or not the request fits.
    pub fn assign_region(&mut self, name: String, rows: usize) -> (r: Result<
        Region,
        SynthesisError,
    >)
        requires
            old(self).inv(),
        ensures
            final(self).inv(),
            final(self).cs == old(self).cs,
            final(self).grid == old(self).grid,
            final(self).permutation == old(self).permutation,
            final(self).layouter.capacity == old(self).layouter.capacity,
            r is Ok <==> old(self).layouter.cursor + rows <= old(self).layouter.capacity,
            r is Ok ==> {
                &&& r == Ok::<Region, SynthesisError>(
                    (Region { start: old(self).layouter.cursor, rows }),
                )
                &&& final(self).layouter.cursor == old(self).layouter.cursor + rows
                &&& final(self).layouter.regions@ == old(self).layouter.regions@.push(
                    (Region { start: old(self).layouter.cursor, rows }),
                )
            },
            r is Err ==> {
                &&& final(self).layouter.cursor == old(self).layouter.cursor
                &&& final(self).layouter.regions == old(self).layouter.regions
                &&& r == Err::<Region, SynthesisError>(
                    (SynthesisError::RegionOverflow { region: name }),
                )
            },
    {
        self.layouter.assign_region(name, rows)
    }

    /// Write `value` into the advice cell at `offset` within `region`.
    ///
    /// Succeeds exactly when the cell is still unassigned or already
    /// holds `value`; on success the returned handle names the
    /// absolute cell written, and no other cell changes.
    pub fn assign_advice(
        &mut self,
        region: Region,
        offset: usize,
        column: Column,
        value: Felt,
    ) -> (r: Result<Cell, SynthesisError>)
        requires
            old(self).inv(),
            value.inv(),
            column.kind == ColumnKind::Advice,
            column.index < old(self).cs.num_advice,
            offset < region.rows,
            region.start + region.rows <= old(self).grid.rows,
        ensures
            final(self).inv(),
            final(self).cs == old(self).cs,
            final(self).permutation == old(self).permutation,
            final(self).layouter == old(self).layouter,
            final(self).grid.rows == old(self).grid.rows,
            final(self).grid.selectors == old(self).grid.selectors,
            forall|k: ColumnKind|
                final(self).grid.column_count(k) == old(self).grid.column_count(k),
            r is Ok <==> (old(self).grid.value_at(column, region.start + offset)
                == CellValue::Unassigned || old(self).grid.value_at(column, region.start + offset)
                == CellValue::Assigned(value)),
            r is Ok ==> {
                &&& r == Ok::<Cell, SynthesisError>(
                    (Cell { column, row: (region.start + offset) as usize }),
                )
                &&& final(self).grid.value_at(column, region.start + offset)
                    == CellValue::Assigned(value)
                &&& forall|c: Column, rr: int|
                    !(c == column && rr == region.start + offset) ==> final(self).grid.value_at(
                        c,
                        rr,
                    ) == old(self).grid.value_at(c, rr)
            },
            r is Err ==> {
                &&& final(self).grid == old(self).grid
                &&& r == Err::<Cell, SynthesisError>(
                    (SynthesisError::CellAlreadyAssigned {
                        cell: Cell { column, row: (region.start + offset) as usize },
                    }),
                )
            },
    {
        let row: usize = region.start + offset;
        let res = self.grid.assign(column, row, value);
        proof {
            assert(self.grid.column_count(ColumnKind::Advice) == old(self).grid.column_count(
                ColumnKind::Advice,
            ));
            assert(self.grid.column_count(ColumnKind::Fixed) == old(self).grid.column_count(
                ColumnKind::Fixed,
            ));
            assert(self.grid.column_count(ColumnKind::Instance) == old(self).grid.column_count(
                ColumnKind::Instance,
            ));
        }
        match res {
            Ok(_) => Ok(Cell { column, row }),
            Err(e) => Err(e),
        }
    }

    /// Write a possibly-unassigned value into the advice cell at
    /// `offset` within `region`.
    ///
    /// An unassigned value writes nothing — a structural pass walks
    /// the same code path without touching the grid — while an
    /// assigned value behaves as [`Synthesizer::assign_advice`].  The
    /// returned handle names the addressed cell either way.
    pub fn assign_advice_value(
        &mut self,
        region: Region,
        offset: usize,
        column: Column,
        value: CellValue,
    ) -> (r: Result<Cell, SynthesisError>)
        requires
            old(self).inv(),
            value.inv(),
            column.kind == ColumnKind::Advice,
            column.index < old(self).cs.num_advice,
            offset < region.rows,
            region.start + region.rows <= old(self).grid.rows,
        ensures
            final(self).inv(),
            final(self).cs == old(self).cs,
            final(self).permutation == old(self).permutation,
            final(self).layouter == old(self).layouter,
            final(self).grid.rows == old(self).grid.rows,
            final(self).grid.selectors == old(self).grid.selectors,
            forall|k: ColumnKind|
                final(self).grid.column_count(k) == old(self).grid.column_count(k),
            r is Ok <==> (value == CellValue::Unassigned || old(self).grid.value_at(
                column,
                region.start + offset,
            ) == CellValue::Unassigned || old(self).grid.value_at(column, region.start + offset)
                == value),
            r is Ok ==> {
                &&& r == Ok::<Cell, SynthesisError>(
                    (Cell { column, row: (region.start + offset) as usize }),
                )
                &&& final(self).grid.value_at(column, region.start + offset) == (
                if value == CellValue::Unassigned {
                    old(self).grid.value_at(column, region.start + offset)
                } else {
                    value
                })
                &&& forall|c: Column, rr: int|
                    !(c == column && rr == region.start + offset) ==> final(self).grid.value_at(
                        c,
                        rr,
                    ) == old(self).grid.value_at(c, rr)
            },
            r is Err ==> {
                &&& final(self).grid == old(self).grid
                &&& r == Err::<Cell, SynthesisError>(
                    (SynthesisError::CellAlreadyAssigned {
                        cell: Cell { column, row: (region.start + offset) as usize },
                    }),
                )
            },
    {
        match value {
            CellValue::Unassigned => {
                let row: usize = region.start + offset;
                Ok(Cell { column, row })
            },
            CellValue::Assigned(f) => self.assign_advice(region, offset, column, f),
        }
    }

    /// Turn `selector` on at `offset` within `region`.  Enabling an
    /// already-enabled position is harmless.
    pub fn enable_selector(&mut self, region: Region, offset: usize, selector: Selector)
        requires
            old(self).inv(),
            selector.index < old(self).cs.num_selectors,
            offset < region.rows,
            region.start + region.rows <= old(self).grid.rows,
        ensures
            final(self).inv(),
            final(self).cs == old(self).cs,
            final(self).permutation == old(self).permutation,
            final(self).layouter == old(self).layouter,
            final(self).grid.rows == old(self).grid.rows,
            final(self).grid.advice == old(self).grid.advice,
            final(self).grid.fixed == old(self).grid.fixed,
            final(self).grid.instance == old(self).grid.instance,
            final(self).grid.selectors@.len() == old(self).grid.selectors@.len(),
            final(self).grid.selector_at(selector.index as int, region.start + offset),
            forall|t: int, rr: int|
                !(t == selector.index && rr == region.start + offset) ==> final(self).grid.selector_at(
                    t,
                    rr,
                ) == old(self).grid.selector_at(t, rr),
    {
        let row: usize = region.start + offset;
        self.grid.enable_selector(selector, row);
    }

    /// Declare the cells `a` and `b` equal.
    ///
    /// Both cells' columns must have equality enabled; otherwise the
    /// call fails with `ColumnNotEquality` for the first offending
    /// column and the permutation argument is left unchanged.  On
    /// success the two classes containing `a` and `b` are merged and
    /// nothing else changes.
    pub fn copy(&mut self, a: Cell, b: Cell) -> (r: Result<(), SynthesisError>)
        requires
            old(self).inv(),
        ensures
            final(self).inv(),
            final(self).cs == old(self).cs,
            final(self).grid == old(self).grid,
            final(self).layouter == old(self).layouter,
            r is Ok <==> (old(self).cs.equality_enabled(a.column) && old(self).cs.equality_enabled(
                b.column,
            )),
            r is Ok ==> {
                &&& final(self).permutation.same_group(a, b)
                &&& final(self).permutation.cells@.len() <= old(self).permutation.cells@.len() + 2
                &&& forall|k: int|
                    0 <= k < final(self).permutation.cells@.len() ==> ((k < old(
                        self,
                    ).permutation.cells@.len() && final(self).permutation.cells@[k] == old(
                        self,
                    ).permutation.cells@[k]) || (#[trigger] final(self).permutation.cells@[k]) == a
                        || final(self).permutation.cells@[k] == b)
                &&& forall|u: Cell, v: Cell|
                    #[trigger] final(self).permutation.same_group(u, v) <==> (old(
                        self,
                    ).permutation.same_group(u, v) || (old(self).permutation.same_group(u, a)
                        && old(self).permutation.same_group(b, v)) || (old(
                        self,
                    ).permutation.same_group(u, b) && old(self).permutation.same_group(a, v)))
            },
            r is Err ==> {
                &&& final(self).permutation == old(self).permutation
                &&& (!old(self).cs.equality_enabled(a.column) ==> r == Err::<(), SynthesisError>(
                    (SynthesisError::ColumnNotEquality { column: a.column }),
                ))
                &&& (old(self).cs.equality_enabled(a.column) ==> r == Err::<(), SynthesisError>(
                    (SynthesisError::ColumnNotEquality { column: b.column }),
                ))
            },
    {
        if !self.cs.is_equality_enabled(a.column) {
            return Err(SynthesisError::ColumnNotEquality { column: a.column });
        }
        if !self.cs.is_equality_enabled(b.column) {
            return Err(SynthesisError::ColumnNotEquality { column: b.column });
        }
        self.permutation.union(a, b);
        Ok(())
    }

    /// Check every gate at every row of the completed grid.
    ///
    /// Succeeds exactly when [`Synthesizer::gates_satisfied`] holds;
    /// the first violation found is reported with its gate's name and
    /// the offending row.
    pub fn check_gates(&self) -> (r: Result<(), SynthesisError>)
        requires
            self.inv(),
        ensures
            r is Ok <==> self.gates_satisfied(),
            (match r {
                Ok(_) => true,
                Err(e) => match e {
                    SynthesisError::GateUnsatisfied { gate, row } => {
                        &&& row < self.grid.rows
                        &&& exists|gi: int|
                            0 <= gi < self.cs.gates@.len() && self.cs.gates@[gi].name == gate
                                && !self.gate_ok_at(gi, row as int)
                    },
                    _ => false,
                },
            }),
    {
        let ngates: usize = self.cs.gates.len();
        let mut gi: usize = 0;
        while gi < ngates
            invariant
                self.inv(),
                ngates == self.cs.gates@.len(),
                gi <= ngates,
                forall|a: int, row: int|
                    0 <= a < gi && 0 <= row < self.grid.rows ==> self.gate_ok_at(a, row),
            decreases ngates - gi,
        {
            let sel: Selector = self.cs.gates[gi].selector;
            let mut row: usize = 0;
            while row < self.grid.rows
                invariant
                    self.inv(),
                    ngates == self.cs.gates@.len(),
                    gi < ngates,
                    sel == self.cs.gates@[gi as int].selector,
                    row <= self.grid.rows,
                    forall|rr: int| 0 <= rr < row ==> self.gate_ok_at(gi as int, rr),
                decreases self.grid.rows - row,
            {
                if self.grid.selector_value(sel, row) {
                    let ncons: usize = self.cs.gates[gi].constraints.len();
                    let mut ci: usize = 0;
                    while ci < ncons
                        invariant
                            self.inv(),
                            ngates == self.cs.gates@.len(),
                            gi < ngates,
                            row < self.grid.rows,
                            sel == self.cs.gates@[gi as int].selector,
                            self.grid.selector_at(sel.index as int, row as int),
                            ncons == self.cs.gates@[gi as int].constraints@.len(),
                            ci <= ncons,
                            forall|cc: int|
                                0 <= cc < ci ==> spec_eval(
                                    self.cs.gates@[gi as int].constraints@[cc],
                                    self.grid,
                                    row as int,
                                ) == EvalOutcome::Known((Felt { v: 0 })),
                        decreases ncons - ci,
                    {
                        let e: &Expr = &self.cs.gates[gi].constraints[ci];
                        proof {
                            assert(self.cs.gates@[gi as int].inv());
                        }
                        let outcome: EvalOutcome = evaluate(e, &self.grid, row);
                        let zero: EvalOutcome = EvalOutcome::Known(Felt::zero());
                        if outcome != zero {
                            proof {
                                assert(spec_eval(
                                    self.cs.gates@[gi as int].constraints@[ci as int],
                                    self.grid,
                                    row as int,
                                ) != EvalOutcome::Known((Felt { v: 0 })));
                                assert(!self.gate_ok_at(gi as int, row as int));
                            }
                            return Err(
                                SynthesisError::GateUnsatisfied {
                                    gate: self.cs.gates[gi].name.clone(),
                                    row,
                                },
                            );
                        }
                        ci = ci + 1;
                    }
                }
                row = row + 1;
            }
            gi = gi + 1;
        }
        Ok(())
    }

    /// The finalize pass: check every gate, then every equality group,
    /// against the completed grid.
    ///
    /// Succeeds exactly when both checks pass; a gate violation is
    /// reported before any permutation violation.
    pub fn finalize(&self) -> (r: Result<(), SynthesisError>)
        requires
            self.inv(),
        ensures
            r is Ok <==> (self.gates_satisfied() && self.permutation_satisfied()),
            (match r {
                Ok(_) => true,
                Err(e) => match e {
                    SynthesisError::GateUnsatisfied { gate, row } => {
                        &&& row < self.grid.rows
                        &&& exists|gi: int|
                            0 <= gi < self.cs.gates@.len() && self.cs.gates@[gi].name == gate
                                && !self.gate_ok_at(gi, row as int)
                    },
                    SynthesisError::PermutationUnsatisfied { cell_a, cell_b } => {
                        &&& self.gates_satisfied()
                        &&& self.permutation.same_group(cell_a, cell_b)
                        &&& self.grid.cell_value(cell_a) != self.grid.cell_value(cell_b)
                    },
                    _ => false,
                },
            }),
    {
        match self.check_gates() {
            Ok(_) => self.permutation.check(&self.grid),
            Err(e) => Err(e),
        }
    }
}

} // verus!
