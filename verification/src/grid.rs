//! The witness grid: one ordered sequence of cell values per column,
//! one boolean track per selector, all of a fixed number of rows.
//!
//! A cell moves from unassigned to assigned at most once; writing the
//! identical value again is a no-op, writing a different one is the
//! error `CellAlreadyAssigned`.  This module also evaluates gate
//! expressions against a grid snapshot.

use crate::columns::{Cell, Column, ColumnKind, Selector};
use crate::errors::SynthesisError;
use crate::expr::Expr;
use crate::field::{spec_add, spec_mul, spec_neg, spec_sub, Felt};
use crate::value::CellValue;
use vstd::prelude::*;

verus! {

/// The outcome of evaluating one gate expression at one row.
#[derive(Clone, Copy, Debug, PartialEq, Eq, Structural)]
pub enum EvalOutcome {
    /// A query resolved to a row or column outside the grid:
    /// a configuration error, reported at finalize.
    OutOfRange,
    /// Some queried cell is still unassigned.
    Unknown,
    /// The expression's concrete value.
    Known(Felt),
}

impl EvalOutcome {
    /// Any field element the outcome holds is canonical.
    pub open spec fn inv(self) -> bool {
        match self {
            EvalOutcome::Known(f) => f.inv(),
            _ => true,
        }
    }
}

/// The complete, row-indexed table of witness values.
pub struct Grid {
    pub rows: usize,
    pub advice: Vec<Vec<CellValue>>,
    pub fixed: Vec<Vec<CellValue>>,
    pub instance: Vec<Vec<CellValue>>,
    pub selectors: Vec<Vec<bool>>,
}

/// One value column is well formed: one entry per row, all canonical.
pub open spec fn value_column_inv(col: Vec<CellValue>, rows: usize) -> bool {
    &&& col@.len() == rows
    &&& forall|j: int| 0 <= j < col@.len() ==> (#[trigger] col@[j]).inv()
}

/// A family of value columns is well formed.
pub open spec fn value_columns_inv(cols: Vec<Vec<CellValue>>, rows: usize) -> bool {
    forall|i: int| 0 <= i < cols@.len() ==> value_column_inv(#[trigger] cols@[i], rows)
}

impl Grid {
    /// The grid is well formed: every column and every selector track
    /// has exactly one entry per row, and every value is canonical.
    pub open spec fn inv(self) -> bool {
        &&& value_columns_inv(self.advice, self.rows)
        &&& value_columns_inv(self.fixed, self.rows)
        &&& value_columns_inv(self.instance, self.rows)
        &&& forall|i: int|
            0 <= i < self.selectors@.len() ==> (#[trigger] self.selectors@[i])@.len() == self.rows
    }

    /// How many columns of `kind` the grid holds.
    pub open spec fn column_count(self, kind: ColumnKind) -> nat {
        match kind {
            ColumnKind::Advice => self.advice@.len(),
            ColumnKind::Fixed => self.fixed@.len(),
            ColumnKind::Instance => self.instance@.len(),
        }
    }

    /// The columns of `kind`.
    pub open spec fn columns_of(self, kind: ColumnKind) -> Seq<Vec<CellValue>> {
        match kind {
            ColumnKind::Advice => self.advice@,
            ColumnKind::Fixed => self.fixed@,
            ColumnKind::Instance => self.instance@,
        }
    }

    /// The value at `column` and `row`; unassigned outside the grid,
    /// so that every cell address denotes something.
    pub open spec fn value_at(self, column: Column, row: int) -> CellValue {
        if column.index < self.column_count(column.kind) && 0 <= row < self.rows {
            self.columns_of(column.kind)[column.index as int]@[row]
        } else {
            CellValue::Unassigned
        }
    }

    /// The value at a cell.
    pub open spec fn cell_value(self, cell: Cell) -> CellValue {
        self.value_at(cell.column, cell.row as int)
    }

    /// Whether selector `s` is enabled at `row`; disabled outside the grid.
    pub open spec fn selector_at(self, s: int, row: int) -> bool {
        if 0 <= s < self.selectors@.len() && 0 <= row < self.rows {
            self.selectors@[s]@[row]
        } else {
            false
        }
    }

    /// An empty grid: `rows` rows, all cells unassigned, all selectors off.
    pub fn new(
        rows: usize,
        num_advice: usize,
        num_fixed: usize,
        num_instance: usize,
        num_selectors: usize,
    ) -> (g: Grid)
        ensures
            g.inv(),
            g.rows == rows,
            g.advice@.len() == num_advice,
            g.fixed@.len() == num_fixed,
            g.instance@.len() == num_instance,
            g.selectors@.len() == num_selectors,
            forall|c: Column, r: int| g.value_at(c, r) == CellValue::Unassigned,
            forall|s: int, r: int| !g.selector_at(s, r),
    {
        Grid {
            rows,
            advice: new_value_columns(num_advice, rows),
            fixed: new_value_columns(num_fixed, rows),
            instance: new_value_columns(num_instance, rows),
            selectors: new_selector_columns(num_selectors, rows),
        }
    }

    /// Read one cell.
    pub fn get(&self, column: Column, row: usize) -> (v: CellValue)
        requires
            self.inv(),
        ensures
            v == self.value_at(column, row as int),
    {
        let count: usize = match column.kind {
            ColumnKind::Advice => self.advice.len(),
            ColumnKind::Fixed => self.fixed.len(),
            ColumnKind::Instance => self.instance.len(),
        };
        if column.index < count && row < self.rows {
            match column.kind {
                ColumnKind::Advice => {
                    assert(value_column_inv(self.advice@[column.index as int], self.rows));
                    self.advice[column.index][row]
                },
                ColumnKind::Fixed => {
                    assert(value_column_inv(self.fixed@[column.index as int], self.rows));
                    self.fixed[column.index][row]
                },
                ColumnKind::Instance => {
                    assert(value_column_inv(self.instance@[column.index as int], self.rows));
                    self.instance[column.index][row]
                },
            }
        } else {
            CellValue::Unassigned
        }
    }

    /// Read one cell by its address.
    pub fn get_cell(&self, cell: Cell) -> (v: CellValue)
        requires
            self.inv(),
        ensures
            v == self.cell_value(cell),
    {
        self.get(cell.column, cell.row)
    }

    /// Read one selector position.
    pub fn selector_value(&self, s: Selector, row: usize) -> (b: bool)
        requires
            self.inv(),
        ensures
            b == self.selector_at(s.index as int, row as int),
    {
        if s.index < self.selectors.len() && row < self.rows {
            self.selectors[s.index][row]
        } else {
            false
        }
    }

    /// Write `value` into one cell.
    ///
    /// The write succeeds exactly when the cell is still unassigned or
    /// already holds `value`; a second write with a different value is
    /// refused and leaves the grid unchanged.
    pub fn assign(&mut self, column: Column, row: usize, value: Felt) -> (r: Result<
        (),
        SynthesisError,
    >)
        requires
            old(self).inv(),
            value.inv(),
            column.index < old(self).column_count(column.kind),
            row < old(self).rows,
        ensures
            final(self).inv(),
            final(self).rows == old(self).rows,
            final(self).selectors == old(self).selectors,
            forall|k: ColumnKind| final(self).column_count(k) == old(self).column_count(k),
            r is Ok <==> (old(self).value_at(column, row as int) == CellValue::Unassigned
                || old(self).value_at(column, row as int) == CellValue::Assigned(value)),
            r is Ok ==> {
                &&& final(self).value_at(column, row as int) == CellValue::Assigned(value)
                &&& forall|c: Column, rr: int|
                    !(c == column && rr == row) ==> final(self).value_at(c, rr) == old(
                        self,
                    ).value_at(c, rr)
            },
            r is Err ==> {
                &&& *final(self) == *old(self)
                &&& r == Err::<(), SynthesisError>(
                    SynthesisError::CellAlreadyAssigned { cell: Cell { column, row } },
                )
            },
    {
        let existing: CellValue = self.get(column, row);
        match existing {
            CellValue::Unassigned => {
                self.write(column, row, value);
                Ok(())
            },
            CellValue::Assigned(w) => {
                if w == value {
                    Ok(())
                } else {
                    Err(SynthesisError::CellAlreadyAssigned { cell: Cell { column, row } })
                }
            },
        }
    }

    /// Unconditionally overwrite one cell with an assigned value.
    fn write(&mut self, column: Column, row: usize, value: Felt)
        requires
            old(self).inv(),
            value.inv(),
            column.index < old(self).column_count(column.kind),
            row < old(self).rows,
        ensures
            final(self).inv(),
            final(self).rows == old(self).rows,
            final(self).selectors == old(self).selectors,
            forall|k: ColumnKind| final(self).column_count(k) == old(self).column_count(k),
            final(self).value_at(column, row as int) == CellValue::Assigned(value),
            forall|c: Column, rr: int|
                !(c == column && rr == row) ==> final(self).value_at(c, rr) == old(self).value_at(
                    c,
                    rr,
                ),
    {
        let ci: usize = column.index;
        match column.kind {
            ColumnKind::Advice => {
                let inner: &mut Vec<CellValue> = &mut self.advice[ci];
                inner.set(row, CellValue::Assigned(value));
            },
            ColumnKind::Fixed => {
                let inner: &mut Vec<CellValue> = &mut self.fixed[ci];
                inner.set(row, CellValue::Assigned(value));
            },
            ColumnKind::Instance => {
                let inner: &mut Vec<CellValue> = &mut self.instance[ci];
                inner.set(row, CellValue::Assigned(value));
            },
        }
        assert(final(self).inv()) by {
            assert forall|i: int| 0 <= i < final(self).advice@.len() implies value_column_inv(
                #[trigger] final(self).advice@[i],
                final(self).rows,
            ) by {
                assert(value_column_inv(old(self).advice@[i], old(self).rows));
            }
            assert forall|i: int| 0 <= i < final(self).fixed@.len() implies value_column_inv(
                #[trigger] final(self).fixed@[i],
                final(self).rows,
            ) by {
                assert(value_column_inv(old(self).fixed@[i], old(self).rows));
            }
            assert forall|i: int| 0 <= i < final(self).instance@.len() implies value_column_inv(
                #[trigger] final(self).instance@[i],
                final(self).rows,
            ) by {
                assert(value_column_inv(old(self).instance@[i], old(self).rows));
            }
        }
    }

    /// Turn selector `s` on at `row`.  Enabling twice is harmless.
    pub fn enable_selector(&mut self, s: Selector, row: usize)
        requires
            old(self).inv(),
            s.index < old(self).selectors@.len(),
            row < old(self).rows,
        ensures
            final(self).inv(),
            final(self).rows == old(self).rows,
            final(self).advice == old(self).advice,
            final(self).fixed == old(self).fixed,
            final(self).instance == old(self).instance,
            final(self).selectors@.len() == old(self).selectors@.len(),
            final(self).selector_at(s.index as int, row as int),
            forall|t: int, rr: int|
                !(t == s.index && rr == row) ==> final(self).selector_at(t, rr) == old(
                    self,
                ).selector_at(t, rr),
    {
        let si: usize = s.index;
        let inner: &mut Vec<bool> = &mut self.selectors[si];
        inner.set(row, true);
    }
}

/// `n` fresh value columns of `rows` unassigned entries each.
fn new_value_columns(n: usize, rows: usize) -> (cols: Vec<Vec<CellValue>>)
    ensures
        cols@.len() == n,
        value_columns_inv(cols, rows),
        forall|i: int, j: int|
            0 <= i < n && 0 <= j < rows ==> (#[trigger] cols@[i]@[j]) == CellValue::Unassigned,
{
    let mut cols: Vec<Vec<CellValue>> = Vec::new();
    let mut i: usize = 0;
    while i < n
        invariant
            i <= n,
            cols@.len() == i,
            value_columns_inv(cols, rows),
            forall|a: int, j: int|
                0 <= a < i && 0 <= j < rows ==> (#[trigger] cols@[a]@[j]) == CellValue::Unassigned,
        decreases n - i,
    {
        let mut col: Vec<CellValue> = Vec::new();
        let mut j: usize = 0;
        while j < rows
            invariant
                j <= rows,
                col@.len() == j,
                forall|k: int| 0 <= k < j ==> (#[trigger] col@[k]) == CellValue::Unassigned,
            decreases rows - j,
        {
            col.push(CellValue::Unassigned);
            j = j + 1;
        }
        cols.push(col);
        i = i + 1;
    }
    cols
}

/// `n` fresh selector tracks of `rows` disabled entries each.
fn new_selector_columns(n: usize, rows: usize) -> (cols: Vec<Vec<bool>>)
    ensures
        cols@.len() == n,
        forall|i: int| 0 <= i < n ==> (#[trigger] cols@[i])@.len() == rows,
        forall|i: int, j: int| 0 <= i < n && 0 <= j < rows ==> !(#[trigger] cols@[i]@[j]),
{
    let mut cols: Vec<Vec<bool>> = Vec::new();
    let mut i: usize = 0;
    while i < n
        invariant
            i <= n,
            cols@.len() == i,
            forall|a: int| 0 <= a < i ==> (#[trigger] cols@[a])@.len() == rows,
            forall|a: int, j: int| 0 <= a < i && 0 <= j < rows ==> !(#[trigger] cols@[a]@[j]),
        decreases n - i,
    {
        let mut col: Vec<bool> = Vec::new();
        let mut j: usize = 0;
        while j < rows
            invariant
                j <= rows,
                col@.len() == j,
                forall|k: int| 0 <= k < j ==> !(#[trigger] col@[k]),
            decreases rows - j,
        {
            col.push(false);
            j = j + 1;
        }
        cols.push(col);
        i = i + 1;
    }
    cols
}

/// The selector's contribution to an expression: 1 where enabled, 0 elsewhere.
pub open spec fn selector_felt(b: bool) -> Felt {
    if b {
        Felt { v: 1 }
    } else {
        Felt { v: 0 }
    }
}

/// What a gate expression evaluates to at `row` against grid `g`.
///
/// The value is a pure function of the expression, the grid contents
/// and the row: evaluation has no hidden state.  An out-of-range query
/// dominates an unassigned one; otherwise arithmetic on any unassigned
/// operand stays unassigned.
pub open spec fn spec_eval(e: Expr, g: Grid, row: int) -> EvalOutcome
    decreases e,
{
    match e {
        Expr::Constant(f) => EvalOutcome::Known(f),
        Expr::SelectorQuery(s) => {
            if s.index < g.selectors@.len() && 0 <= row < g.rows {
                EvalOutcome::Known(selector_felt(g.selector_at(s.index as int, row)))
            } else {
                EvalOutcome::OutOfRange
            }
        },
        Expr::Query { column, rotation } => {
            let target = row + rotation;
            if column.index < g.column_count(column.kind) && 0 <= target < g.rows {
                match g.value_at(column, target) {
                    CellValue::Unassigned => EvalOutcome::Unknown,
                    CellValue::Assigned(f) => EvalOutcome::Known(f),
                }
            } else {
                EvalOutcome::OutOfRange
            }
        },
        Expr::Add(a, b) => combine(spec_eval(*a, g, row), spec_eval(*b, g, row), true),
        Expr::Sub(a, b) => combine_sub(spec_eval(*a, g, row), spec_eval(*b, g, row)),
        Expr::Mul(a, b) => combine(spec_eval(*a, g, row), spec_eval(*b, g, row), false),
        Expr::Neg(a) => {
            match spec_eval(*a, g, row) {
                EvalOutcome::OutOfRange => EvalOutcome::OutOfRange,
                EvalOutcome::Unknown => EvalOutcome::Unknown,
                EvalOutcome::Known(f) => EvalOutcome::Known(spec_neg(f)),
            }
        },
    }
}

/// Combine two sub-evaluations with field addition (`plus`) or multiplication.
pub open spec fn combine(x: EvalOutcome, y: EvalOutcome, plus: bool) -> EvalOutcome {
    match (x, y) {
        (EvalOutcome::OutOfRange, _) => EvalOutcome::OutOfRange,
        (_, EvalOutcome::OutOfRange) => EvalOutcome::OutOfRange,
        (EvalOutcome::Unknown, _) => EvalOutcome::Unknown,
        (_, EvalOutcome::Unknown) => EvalOutcome::Unknown,
        (EvalOutcome::Known(a), EvalOutcome::Known(b)) => EvalOutcome::Known(
            if plus {
                spec_add(a, b)
            } else {
                spec_mul(a, b)
            },
        ),
    }
}

/// Combine two sub-evaluations with field subtraction.
pub open spec fn combine_sub(x: EvalOutcome, y: EvalOutcome) -> EvalOutcome {
    match (x, y) {
        (EvalOutcome::OutOfRange, _) => EvalOutcome::OutOfRange,
        (_, EvalOutcome::OutOfRange) => EvalOutcome::OutOfRange,
        (EvalOutcome::Unknown, _) => EvalOutcome::Unknown,
        (_, EvalOutcome::Unknown) => EvalOutcome::Unknown,
        (EvalOutcome::Known(a), EvalOutcome::Known(b)) => EvalOutcome::Known(spec_sub(a, b)),
    }
}

/// Expression evaluation is idempotent: evaluating the same gate
/// expression twice against an unchanged grid yields the same value.
/// Evaluation is a pure function of the expression, the grid contents
/// and the row — there is no hidden state — so [`evaluate`], whose
/// result equals `spec_eval` of its arguments, returns the same
/// outcome however often it is called.
pub proof fn lemma_eval_idempotent(e: Expr, g1: Grid, g2: Grid, row: int)
    requires
        g1 == g2,
    ensures
        spec_eval(e, g1, row) == spec_eval(e, g2, row),
{
}

/// Evaluate a gate expression at one row of a grid.
pub fn evaluate(e: &Expr, g: &Grid, row: usize) -> (r: EvalOutcome)
    requires
        e.inv(),
        g.inv(),
    ensures
        r == spec_eval(*e, *g, row as int),
        r.inv(),
    decreases *e,
{
    match e {
        Expr::Constant(f) => EvalOutcome::Known(*f),
        Expr::SelectorQuery(s) => {
            if s.index < g.selectors.len() && row < g.rows {
                if g.selector_value(*s, row) {
                    EvalOutcome::Known(Felt::one())
                } else {
                    EvalOutcome::Known(Felt::zero())
                }
            } else {
                EvalOutcome::OutOfRange
            }
        },
        Expr::Query { column, rotation } => {
            let count: usize = match column.kind {
                ColumnKind::Advice => g.advice.len(),
                ColumnKind::Fixed => g.fixed.len(),
                ColumnKind::Instance => g.instance.len(),
            };
            let target: i128 = row as i128 + *rotation as i128;
            if column.index < count && 0 <= target && target < g.rows as i128 {
                match g.get(*column, target as usize) {
                    CellValue::Unassigned => EvalOutcome::Unknown,
                    CellValue::Assigned(f) => EvalOutcome::Known(f),
                }
            } else {
                EvalOutcome::OutOfRange
            }
        },
        Expr::Add(a, b) => {
            let x = evaluate(a, g, row);
            let y = evaluate(b, g, row);
            match (x, y) {
                (EvalOutcome::OutOfRange, _) => EvalOutcome::OutOfRange,
                (_, EvalOutcome::OutOfRange) => EvalOutcome::OutOfRange,
                (EvalOutcome::Unknown, _) => EvalOutcome::Unknown,
                (_, EvalOutcome::Unknown) => EvalOutcome::Unknown,
                (EvalOutcome::Known(va), EvalOutcome::Known(vb)) => EvalOutcome::Known(va.add(vb)),
            }
        },
        Expr::Sub(a, b) => {
            let x = evaluate(a, g, row);
            let y = evaluate(b, g, row);
            match (x, y) {
                (EvalOutcome::OutOfRange, _) => EvalOutcome::OutOfRange,
                (_, EvalOutcome::OutOfRange) => EvalOutcome::OutOfRange,
                (EvalOutcome::Unknown, _) => EvalOutcome::Unknown,
                (_, EvalOutcome::Unknown) => EvalOutcome::Unknown,
                (EvalOutcome::Known(va), EvalOutcome::Known(vb)) => EvalOutcome::Known(va.sub(vb)),
            }
        },
        Expr::Mul(a, b) => {
            let x = evaluate(a, g, row);
            let y = evaluate(b, g, row);
            match (x, y) {
                (EvalOutcome::OutOfRange, _) => EvalOutcome::OutOfRange,
                (_, EvalOutcome::OutOfRange) => EvalOutcome::OutOfRange,
                (EvalOutcome::Unknown, _) => EvalOutcome::Unknown,
                (_, EvalOutcome::Unknown) => EvalOutcome::Unknown,
                (EvalOutcome::Known(va), EvalOutcome::Known(vb)) => EvalOutcome::Known(va.mul(vb)),
            }
        },
        Expr::Neg(a) => {
            match evaluate(a, g, row) {
                EvalOutcome::OutOfRange => EvalOutcome::OutOfRange,
                EvalOutcome::Unknown => EvalOutcome::Unknown,
                EvalOutcome::Known(f) => EvalOutcome::Known(f.neg()),
            }
        },
    }
}

} // verus!
