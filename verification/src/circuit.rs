//! Circuits: the lifecycle interface the engine expects, and the
//! Fibonacci circuit built from the addition chip.
//!
//! A circuit exposes exactly three capabilities — `configure`,
//! `synthesize` and `without_witnesses` — and the engine depends only
//! on that interface, never on a concrete circuit type.

use crate::chip::{is_add_constraint, lemma_add_constraint_zero, FibChip, FibConfig};
use crate::columns::{Cell, Column};
use crate::cs::ConstraintSystem;
use crate::errors::SynthesisError;
use crate::field::spec_add;
use crate::grid::Grid;
use crate::layouter::Region;
use crate::synth::Synthesizer;
use crate::value::CellValue;
use vstd::prelude::*;

verus! {

/// The lifecycle interface between a circuit description and the
/// engine: register the configuration once, populate the grid once,
/// and offer a witness-free structural copy.
pub trait Circuit<Cfg>: Sized {
    /// When a configuration fits a frozen constraint system.
    spec fn config_wf(cfg: Cfg, cs: ConstraintSystem) -> bool;

    /// What this circuit's synthesis guarantees, relating the state
    /// before and after the call.
    spec fn synth_ens(
        &self,
        config: Cfg,
        pre: Synthesizer,
        post: Synthesizer,
        r: Result<(), SynthesisError>,
    ) -> bool;

    /// What the witness-free structural copy guarantees: which inputs
    /// are cleared and what is kept.
    spec fn without_witnesses_ens(&self, r: Self) -> bool;

    /// What this circuit's configuration registers, relating the
    /// constraint system before and after the call.
    spec fn configure_ens(cfg: Cfg, pre: ConstraintSystem, post: ConstraintSystem) -> bool;

    /// A structurally identical circuit with all witness inputs cleared.
    fn without_witnesses(&self) -> (r: Self)
        ensures
            self.without_witnesses_ens(r),
    ;

    /// Register columns, selectors and gates.  Called exactly once,
    /// before any synthesis.
    fn configure(cs: &mut ConstraintSystem) -> (cfg: Cfg)
        requires
            old(cs).inv(),
            old(cs).is_fresh(),
        ensures
            final(cs).inv(),
            Self::config_wf(cfg, *final(cs)),
            Self::configure_ens(cfg, *old(cs), *final(cs)),
    ;

    /// Populate the witness grid and the permutation argument.
    fn synthesize(&self, config: Cfg, syn: &mut Synthesizer) -> (r: Result<(), SynthesisError>)
        requires
            old(syn).inv(),
            Self::config_wf(config, old(syn).cs),
            old(syn).unallocated_rows_unassigned(),
        ensures
            final(syn).inv(),
            final(syn).cs == old(syn).cs,
            final(syn).unallocated_rows_unassigned(),
            self.synth_ens(config, *old(syn), *final(syn), r),
    ;
}

/// The shifted Fibonacci recurrence seeded by `(x, y)`: the value of
/// the first advice column at step `i`.  The seeds are cell values, so
/// an unassigned seed propagates through the whole recurrence and a
/// structural pass computes nothing.
pub open spec fn fib_a(x: CellValue, y: CellValue, i: nat) -> CellValue
    decreases i,
{
    if i == 0 {
        x
    } else {
        fib_b(x, y, (i - 1) as nat)
    }
}

/// The value of the second advice column at step `i`.
pub open spec fn fib_b(x: CellValue, y: CellValue, i: nat) -> CellValue
    decreases i,
{
    if i == 0 {
        y
    } else {
        fib_a(x, y, (i - 1) as nat).spec_vadd(fib_b(x, y, (i - 1) as nat))
    }
}

/// The value of the third advice column at step `i`: the row's sum.
pub open spec fn fib_c(x: CellValue, y: CellValue, i: nat) -> CellValue {
    fib_a(x, y, i).spec_vadd(fib_b(x, y, i))
}

/// The region's advice cells hold the recurrence values.
pub open spec fn fib_values_ok(
    cfg: FibConfig,
    g: Grid,
    x: CellValue,
    y: CellValue,
    start: int,
    n: int,
) -> bool {
    forall|i: int|
        0 <= i < n ==> {
            &&& g.value_at(cfg.col_a, start + i) == (#[trigger] fib_a(x, y, i as nat))
            &&& g.value_at(cfg.col_b, start + i) == fib_b(x, y, i as nat)
            &&& g.value_at(cfg.col_c, start + i) == fib_c(x, y, i as nat)
        }
}

/// Reads one row's values back out of [`fib_values_ok`].
proof fn lemma_fib_values_at(
    cfg: FibConfig,
    g: Grid,
    x: CellValue,
    y: CellValue,
    start: int,
    n: int,
    j: int,
)
    requires
        fib_values_ok(cfg, g, x, y, start, n),
        0 <= j < n,
    ensures
        g.value_at(cfg.col_a, start + j) == fib_a(x, y, j as nat),
        g.value_at(cfg.col_b, start + j) == fib_b(x, y, j as nat),
        g.value_at(cfg.col_c, start + j) == fib_c(x, y, j as nat),
{
    assert(g.value_at(cfg.col_a, start + j) == fib_a(x, y, j as nat));
}

/// The chip's selector is enabled on every region row.
pub open spec fn fib_selectors_ok(cfg: FibConfig, g: Grid, start: int, n: int) -> bool {
    forall|rr: int| start <= rr < start + n ==> g.selector_at(cfg.selector.index as int, rr)
}

/// Outside the region's three columns, and outside its rows, the grid
/// is exactly as it was.
pub open spec fn fib_frame_ok(cfg: FibConfig, pre: Grid, post: Grid, start: int, n: int) -> bool {
    &&& forall|c2: Column, rr: int|
        !((c2 == cfg.col_a || c2 == cfg.col_b || c2 == cfg.col_c) && start <= rr < start + n)
            ==> post.value_at(c2, rr) == pre.value_at(c2, rr)
    &&& forall|t: int, rr: int|
        !(t == cfg.selector.index && start <= rr < start + n) ==> post.selector_at(t, rr)
            == pre.selector_at(t, rr)
}

/// The `a`-column cell of step `k`.
pub open spec fn fib_cell_a(cfg: FibConfig, start: int, k: int) -> Cell {
    Cell { column: cfg.col_a, row: ((start + k) as usize) }
}

/// The `b`-column cell of step `k`.
pub open spec fn fib_cell_b(cfg: FibConfig, start: int, k: int) -> Cell {
    Cell { column: cfg.col_b, row: ((start + k) as usize) }
}

/// The `c`-column cell of step `k`.
pub open spec fn fib_cell_c(cfg: FibConfig, start: int, k: int) -> Cell {
    Cell { column: cfg.col_c, row: ((start + k) as usize) }
}

/// The relation `r` with the groups of `x` and `y` merged.
pub open spec fn merge_rel(
    r: spec_fn(Cell, Cell) -> bool,
    x: Cell,
    y: Cell,
) -> spec_fn(Cell, Cell) -> bool {
    |u: Cell, v: Cell| r(u, v) || (r(u, x) && r(y, v)) || (r(u, y) && r(x, v))
}

/// The equality groups after `m` chain steps of the Fibonacci wiring:
/// step `k` declares `b_(k-1) = a_k` and `c_(k-1) = b_k`.  With no
/// steps, only each cell equals itself.
pub open spec fn fib_rel(cfg: FibConfig, start: int, m: nat) -> spec_fn(Cell, Cell) -> bool
    decreases m,
{
    if m == 0 {
        |u: Cell, v: Cell| u == v
    } else {
        merge_rel(
            merge_rel(
                fib_rel(cfg, start, (m - 1) as nat),
                fib_cell_b(cfg, start, m - 1),
                fib_cell_a(cfg, start, m as int),
            ),
            fib_cell_c(cfg, start, m - 1),
            fib_cell_b(cfg, start, m as int),
        )
    }
}

/// How many chain steps `n` assigned rows produce.
pub open spec fn fib_steps_done(n: int) -> nat {
    if n == 0 {
        0
    } else {
        (n - 1) as nat
    }
}

/// Whether `r` failed with a region overflow.
pub open spec fn is_region_overflow(r: Result<(), SynthesisError>) -> bool {
    match r {
        Err(SynthesisError::RegionOverflow { .. }) => true,
        _ => false,
    }
}

/// The full behaviour of [`FibCircuit::synthesize`].
///
/// Synthesis succeeds exactly when one region of `steps` rows still
/// fits; it then pins every cell of the grid — the recurrence values
/// inside the region, everything else unchanged — every selector bit,
/// and, started from an empty permutation argument, the whole
/// equality-group partition, whose groups the grid satisfies.  The
/// seeds enter as cell values: a cleared seed propagates Unassigned
/// through the recurrence, so a structural pass writes no witness
/// value yet walks the same path, selectors and copy constraints
/// included.  On failure nothing is allocated or written.
pub open spec fn fib_synth_ens(
    circ: FibCircuit,
    cfg: FibConfig,
    pre: Synthesizer,
    post: Synthesizer,
    r: Result<(), SynthesisError>,
) -> bool {
    let start = pre.layouter.cursor as int;
    let n = circ.steps as int;
    let x = circ.seed_a.spec_vnorm();
    let y = circ.seed_b.spec_vnorm();
    &&& (r is Ok <==> start + n <= pre.layouter.capacity)
    &&& r is Ok ==> {
        &&& post.layouter.cursor == start + n
        &&& post.layouter.regions@ == pre.layouter.regions@.push(
            (Region { start: pre.layouter.cursor, rows: circ.steps }),
        )
        &&& fib_values_ok(cfg, post.grid, x, y, start, n)
        &&& fib_selectors_ok(cfg, post.grid, start, n)
        &&& fib_frame_ok(cfg, pre.grid, post.grid, start, n)
        &&& pre.permutation.cells@.len() == 0 ==> post.permutation_satisfied()
        &&& pre.permutation.cells@.len() == 0 ==> (forall|u: Cell, v: Cell|
            #[trigger] post.permutation.same_group(u, v) == fib_rel(
                cfg,
                start,
                fib_steps_done(n),
            )(u, v))
    }
    &&& r is Err ==> {
        &&& is_region_overflow(r)
        &&& post.grid == pre.grid
        &&& post.permutation == pre.permutation
        &&& post.layouter.cursor == pre.layouter.cursor
        &&& post.layouter.regions == pre.layouter.regions
    }
}

/// A Fibonacci circuit: `steps` chained addition rows seeded by two
/// witness inputs, wired with the copy constraints
/// `b_i = a_(i+1)` and `c_i = b_(i+1)`.
pub struct FibCircuit {
    /// The first seed, or unassigned for a structural pass.
    pub seed_a: CellValue,
    /// The second seed.
    pub seed_b: CellValue,
    /// How many addition rows to assign.
    pub steps: usize,
}

impl Circuit<FibConfig> for FibCircuit {
    open spec fn config_wf(cfg: FibConfig, cs: ConstraintSystem) -> bool {
        cfg.wf(cs)
    }

    open spec fn without_witnesses_ens(&self, r: Self) -> bool {
        &&& r.seed_a == CellValue::Unassigned
        &&& r.seed_b == CellValue::Unassigned
        &&& r.steps == self.steps
    }

    open spec fn configure_ens(
        cfg: FibConfig,
        pre: ConstraintSystem,
        post: ConstraintSystem,
    ) -> bool {
        &&& cfg == fib_default_config()
        &&& post.num_advice == 3
        &&& post.num_fixed == pre.num_fixed
        &&& post.num_instance == pre.num_instance
        &&& post.num_selectors == 1
        &&& post.gates@.len() == 1
        &&& post.gates@[0].selector == cfg.selector
        &&& post.gates@[0].name@ == "add"@
        &&& post.gates@[0].constraints@.len() == 1
        &&& is_add_constraint(post.gates@[0].constraints@[0], cfg)
        &&& forall|c: Column|
            #[trigger] post.equality_enabled(c) <==> (c == cfg.col_a || c == cfg.col_b
                || c == cfg.col_c)
    }

    open spec fn synth_ens(
        &self,
        config: FibConfig,
        pre: Synthesizer,
        post: Synthesizer,
        r: Result<(), SynthesisError>,
    ) -> bool {
        fib_synth_ens(*self, config, pre, post, r)
    }

    fn without_witnesses(&self) -> Self {
        FibCircuit { seed_a: CellValue::Unassigned, seed_b: CellValue::Unassigned, steps: self.steps }
    }

    fn configure(cs: &mut ConstraintSystem) -> FibConfig {
        let col_a = cs.add_advice_column();
        let col_b = cs.add_advice_column();
        let col_c = cs.add_advice_column();
        let selector = cs.add_selector();
        let cfg = FibChip::configure(cs, col_a, col_b, col_c, selector);
        proof {
            assert(cs.gates@.last() == cs.gates@[0]);
            assert forall|c: Column| #[trigger]
                cs.equality_enabled(c) <==> (c == cfg.col_a || c == cfg.col_b
                    || c == cfg.col_c) by {
                if !(c == cfg.col_a || c == cfg.col_b || c == cfg.col_c) {
                    assert(!old(cs).equality_enabled(c));
                }
            }
        }
        cfg
    }

    fn synthesize(&self, config: FibConfig, syn: &mut Synthesizer) -> Result<(), SynthesisError> {
        let x: CellValue = self.seed_a.vnorm();
        let y: CellValue = self.seed_b.vnorm();
        let chip = FibChip::construct(config);
        let n: usize = self.steps;
        let ghost pre = *old(syn);
        let region: Region = match syn.assign_region("fib".to_string(), n) {
            Ok(rg) => rg,
            Err(e) => {
                return Err(e);
            },
        };
        let ghost start = region.start as int;
        let ghost g0 = *syn;
        proof {
            if pre.permutation.cells@.len() == 0 {
                assert(fib_steps_done(0) == 0);
                assert forall|u: Cell, v: Cell|
                    #[trigger] syn.permutation.same_group(u, v) == fib_rel(
                        config,
                        start,
                        0,
                    )(u, v) by {
                    assert(fib_rel(config, start, 0)(u, v) == (u == v));
                }
            }
        }
        let mut i: usize = 0;
        let mut cur_a: CellValue = x;
        let mut cur_b: CellValue = y;
        let mut prev_b_cell: Cell = Cell { column: config.col_b, row: 0 };
        let mut prev_c_cell: Cell = Cell { column: config.col_c, row: 0 };
        while i < n
            invariant
                syn.inv(),
                syn.cs == pre.cs,
                config.wf(syn.cs),
                n == self.steps,
                region.start == start,
                region.rows == n,
                start == pre.layouter.cursor,
                pre.unallocated_rows_unassigned(),
                chip.config == config,
                start + n <= syn.grid.rows,
                syn.grid.rows == pre.grid.rows,
                syn.layouter == g0.layouter,
                g0.grid == pre.grid,
                g0.permutation == pre.permutation,
                i <= n,
                cur_a == fib_a(x, y, i as nat),
                cur_b == fib_b(x, y, i as nat),
                cur_a.inv(),
                cur_b.inv(),
                x == self.seed_a.spec_vnorm(),
                y == self.seed_b.spec_vnorm(),
                fib_values_ok(config, syn.grid, x, y, start, i as int),
                fib_selectors_ok(config, syn.grid, start, i as int),
                fib_frame_ok(config, pre.grid, syn.grid, start, i as int),
                i > 0 ==> prev_b_cell == (Cell {
                    column: config.col_b,
                    row: (start + i - 1) as usize,
                }),
                i > 0 ==> prev_c_cell == (Cell {
                    column: config.col_c,
                    row: (start + i - 1) as usize,
                }),
                pre.permutation.cells@.len() == 0 ==> {
                    &&& syn.permutation_satisfied()
                    &&& forall|k: int|
                        0 <= k < syn.permutation.cells@.len() ==> start <= (
                        #[trigger] syn.permutation.cells@[k]).row < start + i
                    &&& forall|u: Cell, v: Cell|
                        #[trigger] syn.permutation.same_group(u, v) == fib_rel(
                            config,
                            start,
                            fib_steps_done(i as int),
                        )(u, v)
                },
            decreases n - i,
        {
            let ghost syn_at_head = *syn;
            proof {
                // the three target cells lie past every earlier write
                assert(syn.grid.value_at(config.col_a, start + i) == pre.grid.value_at(
                    config.col_a,
                    start + i,
                ));
                assert(syn.grid.value_at(config.col_b, start + i) == pre.grid.value_at(
                    config.col_b,
                    start + i,
                ));
                assert(syn.grid.value_at(config.col_c, start + i) == pre.grid.value_at(
                    config.col_c,
                    start + i,
                ));
                assert(pre.grid.value_at(config.col_a, start + i) == CellValue::Unassigned);
                assert(pre.grid.value_at(config.col_b, start + i) == CellValue::Unassigned);
                assert(pre.grid.value_at(config.col_c, start + i) == CellValue::Unassigned);
            }
            let cells = match chip.assign_row(syn, region, i, cur_a, cur_b) {
                Ok(t) => t,
                Err(e) => {
                    proof {
                        assert(false);
                    }
                    return Err(e);
                },
            };
            let (ca, cb, cc) = cells;
            proof {
                if pre.permutation.cells@.len() == 0 {
                    assert forall|u: Cell, v: Cell|
                        syn.permutation.same_group(u, v) implies syn.grid.cell_value(u)
                        == syn.grid.cell_value(v) by {
                        if u != v {
                            let (ai, bi): (int, int) = choose|ai: int, bi: int|
                                0 <= ai < syn.permutation.cells@.len() && 0 <= bi
                                    < syn.permutation.cells@.len() && syn.permutation.cells@[ai]
                                    == u && syn.permutation.cells@[bi] == v
                                    && syn.permutation.class@[ai] == syn.permutation.class@[bi];
                            assert(u.row < start + i && v.row < start + i);
                            assert(syn.grid.cell_value(u) == syn_at_head.grid.cell_value(u));
                            assert(syn.grid.cell_value(v) == syn_at_head.grid.cell_value(v));
                            assert(syn_at_head.permutation.same_group(u, v));
                        }
                    }
                }
            }
            if i > 0 {
                let ghost syn_before_copy = *syn;
                match syn.copy(prev_b_cell, ca) {
                    Ok(_) => (),
                    Err(e) => {
                        proof {
                            assert(false);
                        }
                        return Err(e);
                    },
                };
                proof {
                    lemma_fib_values_at(config, syn_at_head.grid, x, y, start, i as int, i - 1);
                    assert(syn.grid.value_at(config.col_b, start + (i - 1))
                        == syn_at_head.grid.value_at(config.col_b, start + (i - 1)));
                    assert(syn.grid.cell_value(prev_b_cell) == fib_b(x, y, (i - 1) as nat));
                    assert(syn.grid.cell_value(ca) == fib_a(x, y, i as nat));
                    assert(fib_a(x, y, i as nat) == fib_b(x, y, (i - 1) as nat));
                    if pre.permutation.cells@.len() == 0 {
                        assert forall|u: Cell, v: Cell|
                            syn.permutation.same_group(u, v) implies syn.grid.cell_value(u)
                            == syn.grid.cell_value(v) by {
                            if !syn_before_copy.permutation.same_group(u, v) {
                                if syn_before_copy.permutation.same_group(u, prev_b_cell)
                                    && syn_before_copy.permutation.same_group(ca, v) {
                                    assert(syn.grid.cell_value(u) == syn.grid.cell_value(
                                        prev_b_cell,
                                    ));
                                    assert(syn.grid.cell_value(ca) == syn.grid.cell_value(v));
                                } else {
                                    assert(syn_before_copy.permutation.same_group(u, ca)
                                        && syn_before_copy.permutation.same_group(prev_b_cell, v));
                                    assert(syn.grid.cell_value(u) == syn.grid.cell_value(ca));
                                    assert(syn.grid.cell_value(prev_b_cell)
                                        == syn.grid.cell_value(v));
                                }
                            }
                        }
                        assert(fib_steps_done(i as int) == (i - 1) as nat);
                        assert(prev_b_cell == fib_cell_b(config, start, i - 1));
                        assert(ca == fib_cell_a(config, start, i as int));
                        assert forall|u: Cell, v: Cell|
                            #[trigger] syn.permutation.same_group(u, v) == merge_rel(
                                fib_rel(config, start, (i - 1) as nat),
                                prev_b_cell,
                                ca,
                            )(u, v) by {
                            assert(syn_before_copy.permutation.same_group(u, v) == fib_rel(
                                config,
                                start,
                                (i - 1) as nat,
                            )(u, v));
                            assert(syn_before_copy.permutation.same_group(u, prev_b_cell)
                                == fib_rel(config, start, (i - 1) as nat)(u, prev_b_cell));
                            assert(syn_before_copy.permutation.same_group(ca, v) == fib_rel(
                                config,
                                start,
                                (i - 1) as nat,
                            )(ca, v));
                            assert(syn_before_copy.permutation.same_group(u, ca) == fib_rel(
                                config,
                                start,
                                (i - 1) as nat,
                            )(u, ca));
                            assert(syn_before_copy.permutation.same_group(prev_b_cell, v)
                                == fib_rel(config, start, (i - 1) as nat)(prev_b_cell, v));
                        }
                    }
                }
                let ghost syn_before_copy2 = *syn;
                match syn.copy(prev_c_cell, cb) {
                    Ok(_) => (),
                    Err(e) => {
                        proof {
                            assert(false);
                        }
                        return Err(e);
                    },
                };
                proof {
                    lemma_fib_values_at(config, syn_at_head.grid, x, y, start, i as int, i - 1);
                    assert(syn.grid.value_at(config.col_c, start + (i - 1))
                        == syn_at_head.grid.value_at(config.col_c, start + (i - 1)));
                    assert(syn.grid.cell_value(prev_c_cell) == fib_c(x, y, (i - 1) as nat));
                    assert(syn.grid.cell_value(cb) == fib_b(x, y, i as nat));
                    assert(fib_b(x, y, i as nat) == fib_c(x, y, (i - 1) as nat));
                    if pre.permutation.cells@.len() == 0 {
                        assert forall|u: Cell, v: Cell|
                            syn.permutation.same_group(u, v) implies syn.grid.cell_value(u)
                            == syn.grid.cell_value(v) by {
                            if !syn_before_copy2.permutation.same_group(u, v) {
                                if syn_before_copy2.permutation.same_group(u, prev_c_cell)
                                    && syn_before_copy2.permutation.same_group(cb, v) {
                                    assert(syn.grid.cell_value(u) == syn.grid.cell_value(
                                        prev_c_cell,
                                    ));
                                    assert(syn.grid.cell_value(cb) == syn.grid.cell_value(v));
                                } else {
                                    assert(syn_before_copy2.permutation.same_group(u, cb)
                                        && syn_before_copy2.permutation.same_group(prev_c_cell, v));
                                    assert(syn.grid.cell_value(u) == syn.grid.cell_value(cb));
                                    assert(syn.grid.cell_value(prev_c_cell)
                                        == syn.grid.cell_value(v));
                                }
                            }
                        }
                        assert(prev_c_cell == fib_cell_c(config, start, i - 1));
                        assert(cb == fib_cell_b(config, start, i as int));
                        let ghost half_rel = merge_rel(
                            fib_rel(config, start, (i - 1) as nat),
                            fib_cell_b(config, start, i - 1),
                            fib_cell_a(config, start, i as int),
                        );
                        assert forall|u: Cell, v: Cell|
                            #[trigger] syn.permutation.same_group(u, v) == fib_rel(
                                config,
                                start,
                                i as nat,
                            )(u, v) by {
                            assert(syn_before_copy2.permutation.same_group(u, v) == half_rel(
                                u,
                                v,
                            ));
                            assert(syn_before_copy2.permutation.same_group(u, prev_c_cell)
                                == half_rel(u, prev_c_cell));
                            assert(syn_before_copy2.permutation.same_group(cb, v) == half_rel(
                                cb,
                                v,
                            ));
                            assert(syn_before_copy2.permutation.same_group(u, cb) == half_rel(
                                u,
                                cb,
                            ));
                            assert(syn_before_copy2.permutation.same_group(prev_c_cell, v)
                                == half_rel(prev_c_cell, v));
                            assert(fib_rel(config, start, i as nat)(u, v) == merge_rel(
                                half_rel,
                                fib_cell_c(config, start, i - 1),
                                fib_cell_b(config, start, i as int),
                            )(u, v));
                        }
                    }
                }
                proof {
                    if pre.permutation.cells@.len() == 0 {
                        assert forall|k: int|
                            0 <= k < syn.permutation.cells@.len() implies start <= (
                        #[trigger] syn.permutation.cells@[k]).row < start + i + 1 by {
                            if k < syn_before_copy2.permutation.cells@.len()
                                && syn.permutation.cells@[k]
                                == syn_before_copy2.permutation.cells@[k] {
                                if k < syn_before_copy.permutation.cells@.len()
                                    && syn_before_copy2.permutation.cells@[k]
                                    == syn_before_copy.permutation.cells@[k] {
                                } else {
                                    assert(syn_before_copy2.permutation.cells@[k] == prev_b_cell
                                        || syn_before_copy2.permutation.cells@[k] == ca);
                                }
                            } else {
                                assert(syn.permutation.cells@[k] == prev_c_cell
                                    || syn.permutation.cells@[k] == cb);
                            }
                        }
                    }
                }
            }
            prev_b_cell = cb;
            prev_c_cell = cc;
            let next_b: CellValue = cur_a.vadd(cur_b);
            cur_a = cur_b;
            cur_b = next_b;
            proof {
                assert(fib_steps_done((i + 1) as int) == i as nat);
                assert(fib_a(x, y, (i + 1) as nat) == fib_b(x, y, i as nat));
                assert(fib_b(x, y, (i + 1) as nat) == fib_a(x, y, i as nat).spec_vadd(
                    fib_b(x, y, i as nat),
                ));
                assert forall|j: int|
                    0 <= j < i + 1 implies {
                    &&& syn.grid.value_at(config.col_a, start + j) == (#[trigger] fib_a(
                        x,
                        y,
                        j as nat,
                    ))
                    &&& syn.grid.value_at(config.col_b, start + j) == fib_b(x, y, j as nat)
                    &&& syn.grid.value_at(config.col_c, start + j) == fib_c(x, y, j as nat)
                } by {
                    if j < i {
                        assert(syn_at_head.grid.value_at(config.col_a, start + j) == fib_a(
                            x,
                            y,
                            j as nat,
                        ));
                        assert(syn_at_head.grid.value_at(config.col_b, start + j) == fib_b(
                            x,
                            y,
                            j as nat,
                        ));
                        assert(syn_at_head.grid.value_at(config.col_c, start + j) == fib_c(
                            x,
                            y,
                            j as nat,
                        ));
                        assert(syn.grid.value_at(config.col_a, start + j)
                            == syn_at_head.grid.value_at(config.col_a, start + j));
                        assert(syn.grid.value_at(config.col_b, start + j)
                            == syn_at_head.grid.value_at(config.col_b, start + j));
                        assert(syn.grid.value_at(config.col_c, start + j)
                            == syn_at_head.grid.value_at(config.col_c, start + j));
                    } else {
                        assert(fib_c(x, y, j as nat) == fib_a(x, y, j as nat).spec_vadd(
                            fib_b(x, y, j as nat),
                        ));
                    }
                }
                assert forall|rr: int|
                    start <= rr < start + i + 1 implies syn.grid.selector_at(
                    config.selector.index as int,
                    rr,
                ) by {
                    if rr < start + i {
                        assert(syn_at_head.grid.selector_at(config.selector.index as int, rr));
                    }
                }
                assert forall|c2: Column, rr: int|
                    !((c2 == config.col_a || c2 == config.col_b || c2 == config.col_c) && start
                        <= rr < start + i + 1) implies syn.grid.value_at(c2, rr)
                    == pre.grid.value_at(c2, rr) by {
                    assert(syn_at_head.grid.value_at(c2, rr) == pre.grid.value_at(c2, rr));
                    assert(syn.grid.value_at(c2, rr) == syn_at_head.grid.value_at(c2, rr));
                }
                assert forall|t: int, rr: int|
                    !(t == config.selector.index && start <= rr < start + i + 1) implies
                    syn.grid.selector_at(t, rr) == pre.grid.selector_at(t, rr) by {
                    assert(syn_at_head.grid.selector_at(t, rr) == pre.grid.selector_at(t, rr));
                    assert(syn.grid.selector_at(t, rr) == syn_at_head.grid.selector_at(t, rr));
                }
            }
            i = i + 1;
        }
        proof {
            assert forall|c2: Column, rr: int|
                rr >= syn.layouter.cursor implies syn.grid.value_at(c2, rr)
                == CellValue::Unassigned by {
                assert(syn.grid.value_at(c2, rr) == pre.grid.value_at(c2, rr));
            }
        }
        Ok(())
    }
}

/// The engine's lifecycle: configure the constraint system, run the
/// circuit's synthesis over a fresh grid of `rows` rows, then run the
/// finalize pass.  On success the returned state's grid satisfies
/// every gate and every equality group.
pub fn run_circuit<Cfg, C: Circuit<Cfg>>(circuit: &C, rows: usize) -> (r: Result<
    Synthesizer,
    SynthesisError,
>)
    ensures
        (match r {
            Ok(s) => s.inv() && s.gates_satisfied() && s.permutation_satisfied(),
            Err(_) => true,
        }),
{
    let mut cs = ConstraintSystem::new();
    let config = C::configure(&mut cs);
    let mut syn = Synthesizer::new(cs, rows);
    match circuit.synthesize(config, &mut syn) {
        Ok(_) => (),
        Err(e) => {
            return Err(e);
        },
    };
    match syn.finalize() {
        Ok(_) => Ok(syn),
        Err(e) => Err(e),
    }
}

/// With both seeds given, every recurrence value is an assigned,
/// canonical field element, and each row's sum cell holds the field
/// sum of that row's two inputs.
pub proof fn lemma_fib_assigned(x: CellValue, y: CellValue, i: nat)
    requires
        x is Assigned,
        y is Assigned,
        x.inv(),
        y.inv(),
    ensures
        fib_a(x, y, i) is Assigned,
        fib_b(x, y, i) is Assigned,
        fib_a(x, y, i).inv(),
        fib_b(x, y, i).inv(),
        fib_c(x, y, i) == CellValue::Assigned(
            spec_add(fib_a(x, y, i)->Assigned_0, fib_b(x, y, i)->Assigned_0),
        ),
    decreases i,
{
    if i > 0 {
        lemma_fib_assigned(x, y, (i - 1) as nat);
    }
}

/// The Fibonacci assignment satisfies its own gate: with the addition
/// constraint as the one registered gate, and the selector enabled on
/// no rows but the region's, every enabled row evaluates the
/// constraint to zero, because its sum column holds the field sum of
/// its two inputs.
pub proof fn lemma_fib_gates_satisfied(
    s: Synthesizer,
    cfg: FibConfig,
    x: CellValue,
    y: CellValue,
    start: int,
    n: int,
)
    requires
        s.inv(),
        x is Assigned,
        y is Assigned,
        x.inv(),
        y.inv(),
        cfg.wf(s.cs),
        s.cs.gates@.len() == 1,
        s.cs.gates@[0].selector == cfg.selector,
        s.cs.gates@[0].constraints@.len() == 1,
        is_add_constraint(s.cs.gates@[0].constraints@[0], cfg),
        0 <= start,
        start + n <= s.grid.rows,
        fib_values_ok(cfg, s.grid, x, y, start, n),
        forall|rr: int|
            s.grid.selector_at(cfg.selector.index as int, rr) ==> start <= rr < start + n,
    ensures
        s.gates_satisfied(),
{
    assert forall|gi: int, row: int|
        0 <= gi < s.cs.gates@.len() && 0 <= row < s.grid.rows implies s.gate_ok_at(gi, row) by {
        if s.grid.selector_at(s.cs.gates@[gi].selector.index as int, row) {
            assert(start <= row < start + n);
            let j = row - start;
            lemma_fib_values_at(cfg, s.grid, x, y, start, n, j);
            lemma_fib_assigned(x, y, j as nat);
            let fa = fib_a(x, y, j as nat)->Assigned_0;
            let fb = fib_b(x, y, j as nat)->Assigned_0;
            assert(s.grid.value_at(cfg.col_a, row) == CellValue::Assigned(fa));
            assert(s.grid.value_at(cfg.col_b, row) == CellValue::Assigned(fb));
            assert(s.grid.value_at(cfg.col_c, row) == CellValue::Assigned(spec_add(fa, fb)));
            lemma_add_constraint_zero(
                s.cs.gates@[0].constraints@[0],
                cfg,
                s.grid,
                row,
                fa,
                fb,
            );
        }
    }
}

/// The configuration [`run_fib_circuit`] builds over a fresh
/// constraint system: the first three advice columns and the first
/// selector.
pub open spec fn fib_default_config() -> FibConfig {
    FibConfig {
        col_a: Column { kind: crate::columns::ColumnKind::Advice, index: 0 },
        col_b: Column { kind: crate::columns::ColumnKind::Advice, index: 1 },
        col_c: Column { kind: crate::columns::ColumnKind::Advice, index: 2 },
        selector: crate::columns::Selector { index: 0 },
    }
}

/// Configure, synthesize and finalize the Fibonacci circuit over a
/// fresh constraint system and a fresh grid of `rows` rows.
///
/// Success is owed whenever both seeds are given and the requested
/// rows fit — the finalize pass cannot fail then, because the
/// assignment satisfies the addition constraint at every enabled row
/// and every copied pair holds equal values.  On success the advice
/// columns hold the recurrence.  A structural pass enables the same
/// selectors over unassigned cells, so past the region check it is
/// rejected by the finalize pass as an unsatisfied gate, never as a
/// permutation violation.
pub fn run_fib_circuit(circuit: &FibCircuit, rows: usize) -> (r: Result<
    Synthesizer,
    SynthesisError,
>)
    ensures
        (circuit.seed_a is Assigned && circuit.seed_b is Assigned && circuit.steps <= rows)
            ==> r is Ok,
        (match r {
            Ok(s) => {
                &&& s.inv()
                &&& s.gates_satisfied()
                &&& s.permutation_satisfied()
                &&& fib_values_ok(
                    fib_default_config(),
                    s.grid,
                    circuit.seed_a.spec_vnorm(),
                    circuit.seed_b.spec_vnorm(),
                    0,
                    circuit.steps as int,
                )
            },
            Err(e) => (e matches SynthesisError::RegionOverflow { .. } || e
                matches SynthesisError::GateUnsatisfied { .. }),
        }),
{
    let mut cs = ConstraintSystem::new();
    let col_a = cs.add_advice_column();
    let col_b = cs.add_advice_column();
    let col_c = cs.add_advice_column();
    let selector = cs.add_selector();
    let config = FibChip::configure(&mut cs, col_a, col_b, col_c, selector);
    let mut syn = Synthesizer::new(cs, rows);
    let ghost pre = syn;
    proof {
        assert(config == fib_default_config());
    }
    match circuit.synthesize(config, &mut syn) {
        Ok(_) => (),
        Err(e) => {
            proof {
                assert(e matches SynthesisError::RegionOverflow { .. });
                assert(!(circuit.steps <= rows));
            }
            return Err(e);
        },
    };
    proof {
        if circuit.seed_a is Assigned && circuit.seed_b is Assigned {
            let x = circuit.seed_a.spec_vnorm();
            let y = circuit.seed_b.spec_vnorm();
            let n = circuit.steps as int;
            assert(syn.cs.gates@.last() == syn.cs.gates@[0]);
            assert forall|rr: int|
                syn.grid.selector_at(config.selector.index as int, rr) implies 0 <= rr < n by {
                if !(0 <= rr < n) {
                    assert(syn.grid.selector_at(config.selector.index as int, rr)
                        == pre.grid.selector_at(config.selector.index as int, rr));
                }
            }
            lemma_fib_gates_satisfied(syn, config, x, y, 0, n);
        }
    }
    match syn.finalize() {
        Ok(_) => Ok(syn),
        Err(e) => {
            proof {
                if circuit.seed_a is Assigned && circuit.seed_b is Assigned {
                    assert(false);
                }
                assert(e matches SynthesisError::GateUnsatisfied { .. });
            }
            Err(e)
        },
    }
}

/// Synthesis is deterministic: two runs of the Fibonacci circuit from
/// equal starting states, with equal inputs, produce bit-identical
/// witness grids and identical permutation group partitions (and agree
/// on success).  [`fib_synth_ens`] pins the grid cell by cell and the
/// partition pair by pair, so any two outcomes coincide.
pub proof fn lemma_synthesis_deterministic(
    circ: FibCircuit,
    cfg: FibConfig,
    pre: Synthesizer,
    post1: Synthesizer,
    r1: Result<(), SynthesisError>,
    post2: Synthesizer,
    r2: Result<(), SynthesisError>,
)
    requires
        fib_synth_ens(circ, cfg, pre, post1, r1),
        fib_synth_ens(circ, cfg, pre, post2, r2),
    ensures
        r1 is Ok <==> r2 is Ok,
        r1 is Ok ==> forall|c: Column, rr: int|
            post1.grid.value_at(c, rr) == post2.grid.value_at(c, rr),
        r1 is Ok ==> forall|t: int, rr: int|
            post1.grid.selector_at(t, rr) == post2.grid.selector_at(t, rr),
        r1 is Ok ==> post1.layouter.cursor == post2.layouter.cursor,
        r1 is Ok && pre.permutation.cells@.len() == 0 ==> forall|u: Cell, v: Cell|
            post1.permutation.same_group(u, v) == post2.permutation.same_group(u, v),
{
    let start = pre.layouter.cursor as int;
    let n = circ.steps as int;
    if r1 is Ok {
        let x = circ.seed_a.spec_vnorm();
        let y = circ.seed_b.spec_vnorm();
        assert forall|c: Column, rr: int| post1.grid.value_at(c, rr) == post2.grid.value_at(
            c,
            rr,
        ) by {
            if (c == cfg.col_a || c == cfg.col_b || c == cfg.col_c) && start <= rr < start + n {
                let i = rr - start;
                assert(post1.grid.value_at(cfg.col_a, start + i) == fib_a(x, y, i as nat));
                assert(post2.grid.value_at(cfg.col_a, start + i) == fib_a(x, y, i as nat));
                assert(post1.grid.value_at(cfg.col_b, start + i) == fib_b(x, y, i as nat));
                assert(post2.grid.value_at(cfg.col_b, start + i) == fib_b(x, y, i as nat));
                assert(post1.grid.value_at(cfg.col_c, start + i) == fib_c(x, y, i as nat));
                assert(post2.grid.value_at(cfg.col_c, start + i) == fib_c(x, y, i as nat));
            }
        }
        assert forall|t: int, rr: int| post1.grid.selector_at(t, rr) == post2.grid.selector_at(
            t,
            rr,
        ) by {
            if t == cfg.selector.index && start <= rr < start + n {
                assert(post1.grid.selector_at(cfg.selector.index as int, rr));
                assert(post2.grid.selector_at(cfg.selector.index as int, rr));
            }
        }
    }
}

} // verus!
