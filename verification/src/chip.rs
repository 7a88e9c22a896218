//! The addition chip: the canonical three-column gate `s * (a + b - c)`.
//!
//! The chip couples a frozen configuration — three advice columns and
//! one selector — to one assignment operation.  Assigning a row writes
//! `a` and `b`, computes `c = a + b` in the field, writes `c`, and
//! enables the selector at that row; chaining rows into a recurrence is
//! done by the caller through copy constraints.  The inputs are cell
//! values, and an unassigned input propagates instead of erroring, so
//! a structural pass without witnesses walks the same path.  The chip
//! never allocates regions: it receives a region handle and a relative
//! offset and computes absolute addressing from `region.start + offset`.

use crate::columns::{Cell, Column, ColumnKind, Selector};
use crate::cs::ConstraintSystem;
use crate::errors::SynthesisError;
use crate::expr::Expr;
use crate::field::{spec_add, spec_mul, spec_sub, Felt};
use crate::grid::{selector_felt, spec_eval, EvalOutcome, Grid};
use crate::layouter::Region;
use crate::synth::Synthesizer;
use crate::value::CellValue;
use vstd::prelude::*;

verus! {

/// The frozen configuration of the addition chip.
#[derive(Clone, Copy, Debug, PartialEq, Eq, Structural)]
pub struct FibConfig {
    pub col_a: Column,
    pub col_b: Column,
    pub col_c: Column,
    pub selector: Selector,
}

impl FibConfig {
    /// The configuration fits the given frozen constraint system:
    /// three distinct registered advice columns, all equality-enabled,
    /// and a registered selector.
    pub open spec fn wf(self, cs: ConstraintSystem) -> bool {
        &&& self.col_a.kind == ColumnKind::Advice
        &&& self.col_b.kind == ColumnKind::Advice
        &&& self.col_c.kind == ColumnKind::Advice
        &&& self.col_a.index < cs.num_advice
        &&& self.col_b.index < cs.num_advice
        &&& self.col_c.index < cs.num_advice
        &&& self.col_a != self.col_b
        &&& self.col_a != self.col_c
        &&& self.col_b != self.col_c
        &&& cs.equality_enabled(self.col_a)
        &&& cs.equality_enabled(self.col_b)
        &&& cs.equality_enabled(self.col_c)
        &&& self.selector.index < cs.num_selectors
    }
}

/// The expression `selector * (a + b - c)` over the chip's columns,
/// all queried at the current row.
pub open spec fn is_add_constraint(e: Expr, cfg: FibConfig) -> bool {
    match e {
        Expr::Mul(s, t) => match (*s, *t) {
            (Expr::SelectorQuery(sq), Expr::Sub(ab, c)) => {
                sq == cfg.selector && match (*ab, *c) {
                    (Expr::Add(a, b), Expr::Query { column: cc, rotation: rc }) => {
                        cc == cfg.col_c && rc == 0 && match (*a, *b) {
                            (
                                Expr::Query { column: ca, rotation: ra },
                                Expr::Query { column: cb, rotation: rb },
                            ) => ca == cfg.col_a && ra == 0 && cb == cfg.col_b && rb == 0,
                            _ => false,
                        }
                    },
                    _ => false,
                }
            },
            _ => false,
        },
        _ => false,
    }
}

/// A row whose sum column holds the sum of its two input columns
/// satisfies the addition constraint: `s * (a + b - c)` evaluates to
/// zero there, whatever the selector's value.
pub proof fn lemma_add_constraint_zero(
    e: Expr,
    cfg: FibConfig,
    g: Grid,
    row: int,
    fa: Felt,
    fb: Felt,
)
    requires
        is_add_constraint(e, cfg),
        fa.inv(),
        fb.inv(),
        cfg.selector.index < g.selectors@.len(),
        cfg.col_a.index < g.column_count(cfg.col_a.kind),
        cfg.col_b.index < g.column_count(cfg.col_b.kind),
        cfg.col_c.index < g.column_count(cfg.col_c.kind),
        0 <= row < g.rows,
        g.value_at(cfg.col_a, row) == CellValue::Assigned(fa),
        g.value_at(cfg.col_b, row) == CellValue::Assigned(fb),
        g.value_at(cfg.col_c, row) == CellValue::Assigned(spec_add(fa, fb)),
    ensures
        spec_eval(e, g, row) == EvalOutcome::Known((Felt { v: 0 })),
{
    let fc = spec_add(fa, fb);
    assert(spec_sub(spec_add(fa, fb), fc) == (Felt { v: 0 }));
    match e {
        Expr::Mul(sx, rest) => {
            match (*sx, *rest) {
                (Expr::SelectorQuery(sq), Expr::Sub(ab, c)) => {
                    let sf = selector_felt(
                        g.selector_at(cfg.selector.index as int, row),
                    );
                    assert(spec_eval(*sx, g, row)
                        == EvalOutcome::Known(sf));
                    match (*ab, *c) {
                        (Expr::Add(a, b), Expr::Query { column: cc, rotation: rc }) => {
                            assert(spec_eval(*a, g, row)
                                == EvalOutcome::Known(fa));
                            assert(spec_eval(*b, g, row)
                                == EvalOutcome::Known(fb));
                            assert(spec_eval(*ab, g, row)
                                == EvalOutcome::Known(spec_add(fa, fb)));
                            assert(spec_eval(*c, g, row)
                                == EvalOutcome::Known(fc));
                            assert(spec_eval(*rest, g, row)
                                == EvalOutcome::Known((Felt { v: 0 })));
                            assert((Felt { v: 0 }).v == 0);
                            assert(sf.v * (Felt { v: 0 }).v == 0) by (nonlinear_arith);
                            assert(spec_mul(sf, (Felt { v: 0 })) == (Felt {
                                v: 0,
                            }));
                        },
                        _ => {
                            assert(false);
                        },
                    }
                },
                _ => {
                    assert(false);
                },
            }
        },
        _ => {
            assert(false);
        },
    }
}

/// The addition chip.
pub struct FibChip {
    pub config: FibConfig,
}

impl FibChip {
    /// Bind a chip to a frozen configuration.
    pub fn construct(config: FibConfig) -> (chip: FibChip)
        ensures
            chip.config == config,
    {
        FibChip { config }
    }

    /// Configure the chip's gate over already-registered columns:
    /// enable equality on all three columns and store a gate
    /// `selector * (a + b - c)` under the name "add".
    pub fn configure(
        cs: &mut ConstraintSystem,
        col_a: Column,
        col_b: Column,
        col_c: Column,
        selector: Selector,
    ) -> (cfg: FibConfig)
        requires
            old(cs).inv(),
            col_a.kind == ColumnKind::Advice && col_a.index < old(cs).num_advice,
            col_b.kind == ColumnKind::Advice && col_b.index < old(cs).num_advice,
            col_c.kind == ColumnKind::Advice && col_c.index < old(cs).num_advice,
            col_a != col_b && col_a != col_c && col_b != col_c,
            selector.index < old(cs).num_selectors,
        ensures
            final(cs).inv(),
            cfg == (FibConfig { col_a, col_b, col_c, selector }),
            cfg.wf(*final(cs)),
            final(cs).num_advice == old(cs).num_advice,
            final(cs).num_fixed == old(cs).num_fixed,
            final(cs).num_instance == old(cs).num_instance,
            final(cs).num_selectors == old(cs).num_selectors,
            final(cs).gates@.len() == old(cs).gates@.len() + 1,
            forall|i: int| 0 <= i < old(cs).gates@.len() ==> final(cs).gates@[i] == old(cs).gates@[i],
            final(cs).gates@.last().selector == selector,
            final(cs).gates@.last().name@ == "add"@,
            final(cs).gates@.last().constraints@.len() == 1,
            is_add_constraint(final(cs).gates@.last().constraints@[0], cfg),
            forall|c2: Column|
                c2 != col_a && c2 != col_b && c2 != col_c ==> final(cs).equality_enabled(c2) == old(
                    cs,
                ).equality_enabled(c2),
    {
        cs.enable_equality(col_a);
        cs.enable_equality(col_b);
        cs.enable_equality(col_c);
        let s_expr = Expr::query_selector(selector);
        let a_expr = Expr::query_advice(col_a, 0);
        let b_expr = Expr::query_advice(col_b, 0);
        let c_expr = Expr::query_advice(col_c, 0);
        let constraint = s_expr.mul(a_expr.add(b_expr).sub(c_expr));
        let mut constraints: Vec<Expr> = Vec::new();
        constraints.push(constraint);
        let cfg = FibConfig { col_a, col_b, col_c, selector };
        let name: String = "add".to_string();
        proof {
            assert(is_add_constraint(constraints@[0], cfg));
            vstd::string::to_string_from_display_ensures_for_str("add", name);
            assert(name@ == "add"@);
        }
        cs.create_gate(name, selector, constraints);
        cfg
    }

    /// Assign one addition row at `offset` within `region`: write `a`
    /// and `b`, write `c = a + b`, and enable the selector there.  An
    /// unassigned input propagates: the sum cell then stays unassigned
    /// and nothing is written for it, while the selector is enabled
    /// either way, so a structural pass walks the same path.  The
    /// three target cells must still be unassigned; the returned
    /// handles name the addressed cells, in column order.
    pub fn assign_row(
        &self,
        syn: &mut Synthesizer,
        region: Region,
        offset: usize,
        a: CellValue,
        b: CellValue,
    ) -> (r: Result<(Cell, Cell, Cell), SynthesisError>)
        requires
            old(syn).inv(),
            self.config.wf(old(syn).cs),
            a.inv(),
            b.inv(),
            offset < region.rows,
            region.start + region.rows <= old(syn).grid.rows,
            old(syn).grid.value_at(self.config.col_a, region.start + offset)
                == CellValue::Unassigned,
            old(syn).grid.value_at(self.config.col_b, region.start + offset)
                == CellValue::Unassigned,
            old(syn).grid.value_at(self.config.col_c, region.start + offset)
                == CellValue::Unassigned,
        ensures
            final(syn).inv(),
            final(syn).cs == old(syn).cs,
            final(syn).permutation == old(syn).permutation,
            final(syn).layouter == old(syn).layouter,
            final(syn).grid.rows == old(syn).grid.rows,
            forall|k: ColumnKind| final(syn).grid.column_count(k) == old(syn).grid.column_count(k),
            final(syn).grid.selectors@.len() == old(syn).grid.selectors@.len(),
            r == Ok::<(Cell, Cell, Cell), SynthesisError>(
                (
                    (
                        Cell { column: self.config.col_a, row: (region.start + offset) as usize },
                        Cell { column: self.config.col_b, row: (region.start + offset) as usize },
                        Cell { column: self.config.col_c, row: (region.start + offset) as usize },
                    )
                ),
            ),
            final(syn).grid.value_at(self.config.col_a, region.start + offset) == a,
            final(syn).grid.value_at(self.config.col_b, region.start + offset) == b,
            final(syn).grid.value_at(self.config.col_c, region.start + offset) == a.spec_vadd(b),
            forall|c2: Column, rr: int|
                !((c2 == self.config.col_a || c2 == self.config.col_b || c2 == self.config.col_c)
                    && rr == region.start + offset) ==> final(syn).grid.value_at(c2, rr)
                    == old(syn).grid.value_at(c2, rr),
            final(syn).grid.selector_at(self.config.selector.index as int, region.start + offset),
            forall|t: int, rr: int|
                !(t == self.config.selector.index && rr == region.start + offset)
                    ==> final(syn).grid.selector_at(t, rr) == old(syn).grid.selector_at(t, rr),
    {
        let c: CellValue = a.vadd(b);
        let cell_a = match syn.assign_advice_value(region, offset, self.config.col_a, a) {
            Ok(cl) => cl,
            Err(e) => {
                proof {
                    assert(false);
                }
                return Err(e);
            },
        };
        let cell_b = match syn.assign_advice_value(region, offset, self.config.col_b, b) {
            Ok(cl) => cl,
            Err(e) => {
                proof {
                    assert(false);
                }
                return Err(e);
            },
        };
        let cell_c = match syn.assign_advice_value(region, offset, self.config.col_c, c) {
            Ok(cl) => cl,
            Err(e) => {
                proof {
                    assert(false);
                }
                return Err(e);
            },
        };
        syn.enable_selector(region, offset, self.config.selector);
        Ok((cell_a, cell_b, cell_c))
    }
}

} // verus!
