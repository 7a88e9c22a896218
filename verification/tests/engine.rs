use plonkish::columns::{Cell, Column, ColumnKind, Selector};
use plonkish::cs::ConstraintSystem;
use plonkish::errors::SynthesisError;
use plonkish::expr::Expr;
use plonkish::field::Felt;
use plonkish::grid::{evaluate, EvalOutcome, Grid};
use plonkish::layouter::Layouter;
use plonkish::synth::Synthesizer;
use plonkish::value::CellValue;

fn advice(index: usize) -> Column {
    Column { kind: ColumnKind::Advice, index }
}

/// A system with three equality-enabled advice columns, one selector
/// and a gate `s * (a + b - c)`, plus a synthesizer over `rows` rows.
fn addition_system(rows: usize) -> Synthesizer {
    let mut cs = ConstraintSystem::new();
    let col_a = cs.add_advice_column();
    let col_b = cs.add_advice_column();
    let col_c = cs.add_advice_column();
    let selector = cs.add_selector();
    cs.enable_equality(col_a);
    cs.enable_equality(col_b);
    cs.enable_equality(col_c);
    let constraint = Expr::query_selector(selector)
        .mul(Expr::query(col_a, 0).add(Expr::query(col_b, 0)).sub(Expr::query(col_c, 0)));
    cs.create_gate("add".to_string(), selector, vec![constraint]);
    Synthesizer::new(cs, rows)
}

#[test]
fn registry_hands_out_unique_handles() {
    let mut cs = ConstraintSystem::new();
    let a0 = cs.add_advice_column();
    let f0 = cs.add_fixed_column();
    let i0 = cs.add_instance_column();
    let f1 = cs.add_fixed_column();
    let s0 = cs.add_selector();
    assert_eq!(a0, advice(0));
    assert_eq!(f0, Column { kind: ColumnKind::Fixed, index: 0 });
    assert_eq!(f1, Column { kind: ColumnKind::Fixed, index: 1 });
    assert_eq!(i0, Column { kind: ColumnKind::Instance, index: 0 });
    assert_eq!(s0, Selector { index: 0 });
    cs.enable_equality(f0);
    assert!(cs.is_equality_enabled(f0));
    assert!(!cs.is_equality_enabled(f1));
    assert!(!cs.is_equality_enabled(a0));
}

#[test]
fn expression_evaluation_cases() {
    let g = Grid::new(2, 1, 0, 0, 1);
    let c = Expr::constant(Felt::from_u64(9));
    assert_eq!(evaluate(&c, &g, 0), EvalOutcome::Known(Felt::from_u64(9)));
    // an unassigned query propagates "unknown"
    let q = Expr::query(advice(0), 0);
    assert_eq!(evaluate(&q, &g, 0), EvalOutcome::Unknown);
    // a rotation past the grid edge is out of range
    let back = Expr::query(advice(0), -1);
    assert_eq!(evaluate(&back, &g, 0), EvalOutcome::OutOfRange);
    let fwd = Expr::query(advice(0), 1);
    assert_eq!(evaluate(&fwd, &g, 1), EvalOutcome::OutOfRange);
    // out-of-range dominates unknown
    let sum = back.add(q);
    assert_eq!(evaluate(&sum, &g, 0), EvalOutcome::OutOfRange);
    // arithmetic over constants
    let e = Expr::constant(Felt::from_u64(4))
        .mul(Expr::constant(Felt::from_u64(5)))
        .sub(Expr::constant(Felt::from_u64(3)))
        .neg();
    match evaluate(&e, &g, 0) {
        EvalOutcome::Known(f) => assert_eq!(f.neg(), Felt::from_u64(17)),
        other => panic!("expected a known value, got {:?}", other),
    }
    // a disabled selector evaluates to 0
    let s = Expr::query_selector(Selector { index: 0 });
    assert_eq!(evaluate(&s, &g, 0), EvalOutcome::Known(Felt::zero()));
}

#[test]
fn evaluation_is_idempotent() {
    let mut g = Grid::new(3, 2, 0, 0, 1);
    g.assign(advice(0), 1, Felt::from_u64(11)).unwrap();
    g.assign(advice(1), 2, Felt::from_u64(22)).unwrap();
    let e = Expr::query(advice(0), 0).add(Expr::query(advice(1), 1)).mul(Expr::constant(
        Felt::from_u64(3),
    ));
    let first = evaluate(&e, &g, 1);
    let second = evaluate(&e, &g, 1);
    assert_eq!(first, second);
    assert_eq!(first, EvalOutcome::Known(Felt::from_u64(99)));
}

#[test]
fn reassigning_a_cell() {
    // Scenario: a second write with a different value is refused; the
    // identical value is a no-op.
    let mut g = Grid::new(4, 1, 0, 0, 0);
    let col = advice(0);
    assert!(g.assign(col, 2, Felt::from_u64(7)).is_ok());
    assert!(g.assign(col, 2, Felt::from_u64(7)).is_ok());
    let err = g.assign(col, 2, Felt::from_u64(8));
    assert_eq!(
        err,
        Err(SynthesisError::CellAlreadyAssigned { cell: Cell { column: col, row: 2 } })
    );
    // the refused write changed nothing
    assert_eq!(g.get(col, 2), CellValue::Assigned(Felt::from_u64(7)));
}

#[test]
fn region_allocation_is_monotonic_and_disjoint() {
    let mut l = Layouter::new(10);
    let r1 = l.assign_region("one".to_string(), 4).unwrap();
    let r2 = l.assign_region("two".to_string(), 3).unwrap();
    let r3 = l.assign_region("three".to_string(), 3).unwrap();
    assert_eq!((r1.start, r1.rows), (0, 4));
    assert_eq!((r2.start, r2.rows), (4, 3));
    assert_eq!((r3.start, r3.rows), (7, 3));
    // pairwise disjoint ranges
    assert!(r1.start + r1.rows <= r2.start);
    assert!(r2.start + r2.rows <= r3.start);
}

#[test]
fn region_overflow_leaves_state_unchanged() {
    // Scenario: 10 rows requested when only 8 remain.
    let mut syn = addition_system(12);
    let first = syn.assign_region("first".to_string(), 4).unwrap();
    assert_eq!(first.start, 0);
    let err = syn.assign_region("big".to_string(), 10);
    assert_eq!(
        err,
        Err(SynthesisError::RegionOverflow { region: "big".to_string() })
    );
    // the cursor did not move and the grid holds nothing new
    let next = syn.assign_region("second".to_string(), 8).unwrap();
    assert_eq!(next.start, 4);
    for row in 0..12 {
        assert_eq!(syn.grid.get(advice(0), row), CellValue::Unassigned);
    }
}

#[test]
fn namespaces_are_a_stack() {
    let mut l = Layouter::new(4);
    l.push_namespace("outer".to_string());
    l.push_namespace("inner".to_string());
    assert_eq!(l.namespaces.len(), 2);
    l.pop_namespace();
    assert_eq!(l.namespaces, vec!["outer".to_string()]);
    // namespacing never affects addressing
    let r = l.assign_region("r".to_string(), 2).unwrap();
    assert_eq!(r.start, 0);
}

#[test]
fn copy_on_non_equality_column_fails() {
    // Scenario: copy on a column without equality enabled returns
    // ColumnNotEquality and leaves the permutation argument unchanged.
    let mut cs = ConstraintSystem::new();
    let plain = cs.add_advice_column();
    let enabled = cs.add_advice_column();
    cs.enable_equality(enabled);
    let mut syn = Synthesizer::new(cs, 4);
    let bad = Cell { column: plain, row: 0 };
    let good = Cell { column: enabled, row: 1 };
    let err = syn.copy(bad, good);
    assert_eq!(err, Err(SynthesisError::ColumnNotEquality { column: plain }));
    assert_eq!(syn.permutation.cells.len(), 0);
    // the other order blames the second column
    let err2 = syn.copy(good, bad);
    assert_eq!(err2, Err(SynthesisError::ColumnNotEquality { column: plain }));
    assert_eq!(syn.permutation.cells.len(), 0);
}

#[test]
fn permutation_groups_are_equivalence_classes() {
    let mut cs = ConstraintSystem::new();
    let col = cs.add_advice_column();
    cs.enable_equality(col);
    let mut syn = Synthesizer::new(cs, 8);
    let c0 = Cell { column: col, row: 0 };
    let c1 = Cell { column: col, row: 1 };
    let c2 = Cell { column: col, row: 2 };
    let c3 = Cell { column: col, row: 3 };
    syn.copy(c0, c1).unwrap();
    syn.copy(c1, c2).unwrap();
    assert!(syn.permutation.in_same_group(c0, c0));
    assert!(syn.permutation.in_same_group(c1, c0));
    assert!(syn.permutation.in_same_group(c0, c2));
    assert!(!syn.permutation.in_same_group(c0, c3));
}

#[test]
fn gate_violation_is_reported_at_finalize() {
    let mut syn = addition_system(2);
    let region = syn.assign_region("bad".to_string(), 1).unwrap();
    syn.assign_advice(region, 0, advice(0), Felt::from_u64(1)).unwrap();
    syn.assign_advice(region, 0, advice(1), Felt::from_u64(2)).unwrap();
    syn.assign_advice(region, 0, advice(2), Felt::from_u64(5)).unwrap();
    syn.enable_selector(region, 0, Selector { index: 0 });
    let err = syn.finalize();
    assert_eq!(
        err,
        Err(SynthesisError::GateUnsatisfied { gate: "add".to_string(), row: 0 })
    );
}

#[test]
fn unassigned_cell_under_enabled_selector_fails_finalize() {
    let mut syn = addition_system(2);
    let region = syn.assign_region("partial".to_string(), 1).unwrap();
    syn.assign_advice(region, 0, advice(0), Felt::from_u64(1)).unwrap();
    // b and c stay unassigned while the selector is on
    syn.enable_selector(region, 0, Selector { index: 0 });
    assert!(matches!(
        syn.finalize(),
        Err(SynthesisError::GateUnsatisfied { .. })
    ));
}

#[test]
fn permutation_violation_is_reported_at_finalize() {
    let mut syn = addition_system(4);
    let region = syn.assign_region("pair".to_string(), 2).unwrap();
    let a0 = syn.assign_advice(region, 0, advice(0), Felt::from_u64(1)).unwrap();
    let a1 = syn.assign_advice(region, 1, advice(0), Felt::from_u64(2)).unwrap();
    syn.copy(a0, a1).unwrap();
    // no selector is on, so every gate holds and the permutation
    // check reports the unequal pair
    match syn.finalize() {
        Err(SynthesisError::PermutationUnsatisfied { cell_a, cell_b }) => {
            assert!(cell_a == a0 || cell_a == a1);
            assert!(cell_b == a0 || cell_b == a1);
            assert_ne!(cell_a, cell_b);
        },
        other => panic!("expected a permutation violation, got {:?}", other),
    }
}

#[test]
fn satisfied_copy_passes_finalize() {
    let mut syn = addition_system(4);
    let region = syn.assign_region("pair".to_string(), 2).unwrap();
    let a0 = syn.assign_advice(region, 0, advice(0), Felt::from_u64(3)).unwrap();
    let a1 = syn.assign_advice(region, 1, advice(0), Felt::from_u64(3)).unwrap();
    syn.copy(a0, a1).unwrap();
    assert!(syn.finalize().is_ok());
}
