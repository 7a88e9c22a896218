use plonkish::chip::{FibChip, FibConfig};
use plonkish::circuit::{run_circuit, run_fib_circuit, Circuit, FibCircuit};
use plonkish::columns::{Column, ColumnKind, Selector};
use plonkish::cs::ConstraintSystem;
use plonkish::errors::SynthesisError;
use plonkish::field::Felt;
use plonkish::synth::Synthesizer;
use plonkish::value::CellValue;

fn advice(index: usize) -> Column {
    Column { kind: ColumnKind::Advice, index }
}

fn fib(seed_a: u64, seed_b: u64, steps: usize) -> FibCircuit {
    FibCircuit {
        seed_a: CellValue::Assigned(Felt::from_u64(seed_a)),
        seed_b: CellValue::Assigned(Felt::from_u64(seed_b)),
        steps,
    }
}

#[test]
fn chained_addition_rows() {
    // Scenario: seeds (1, 1), five chained rows; the sum column reads
    // 2, 3, 5, 8, 13 and finalize accepts every gate and copy.
    let circuit = fib(1, 1, 5);
    let syn = run_circuit(&circuit, 5).expect("synthesis and finalize succeed");
    let expected = [2u64, 3, 5, 8, 13];
    for (row, want) in expected.iter().enumerate() {
        assert_eq!(
            syn.grid.get(advice(2), row),
            CellValue::Assigned(Felt::from_u64(*want))
        );
    }
    // the wiring: b and c of each row feed a and b of the next
    assert_eq!(syn.grid.get(advice(0), 3), syn.grid.get(advice(1), 2));
    assert_eq!(syn.grid.get(advice(1), 3), syn.grid.get(advice(2), 2));
}

#[test]
fn synthesis_is_deterministic() {
    // Two runs with identical call sequences and inputs: bit-identical
    // grids and identical permutation group partitions.
    let s1 = run_circuit(&fib(7, 11, 6), 6).unwrap();
    let s2 = run_circuit(&fib(7, 11, 6), 6).unwrap();
    for col in 0..3 {
        for row in 0..6 {
            assert_eq!(s1.grid.get(advice(col), row), s2.grid.get(advice(col), row));
        }
    }
    for row in 0..6 {
        for col1 in 0..3 {
            for col2 in 0..3 {
                for row2 in 0..6 {
                    let x = plonkish::columns::Cell { column: advice(col1), row };
                    let y = plonkish::columns::Cell { column: advice(col2), row: row2 };
                    assert_eq!(
                        s1.permutation.in_same_group(x, y),
                        s2.permutation.in_same_group(x, y)
                    );
                }
            }
        }
    }
}

#[test]
fn circuit_overflowing_capacity_fails() {
    let circuit = fib(1, 1, 10);
    match run_circuit(&circuit, 8) {
        Err(SynthesisError::RegionOverflow { region }) => assert_eq!(region, "fib"),
        Err(other) => panic!("unexpected error {:?}", other),
        Ok(_) => panic!("expected a region overflow"),
    }
}

#[test]
fn without_witnesses_clears_the_seeds() {
    let circuit = fib(4, 9, 3);
    let cleared = circuit.without_witnesses();
    assert_eq!(cleared.seed_a, CellValue::Unassigned);
    assert_eq!(cleared.seed_b, CellValue::Unassigned);
    assert_eq!(cleared.steps, 3);
    // the structural pass walks the whole assignment path without
    // erroring: Unassigned propagates through the row sums, so no
    // witness value is written, while the selector is still enabled
    let mut cs = ConstraintSystem::new();
    let config = <FibCircuit as Circuit<FibConfig>>::configure(&mut cs);
    let mut syn = Synthesizer::new(cs, 3);
    assert!(cleared.synthesize(config, &mut syn).is_ok());
    for col in 0..3 {
        for row in 0..3 {
            assert_eq!(syn.grid.get(advice(col), row), CellValue::Unassigned);
        }
    }
    for row in 0..3 {
        assert!(syn.grid.selector_value(Selector { index: 0 }, row));
    }
    // without witness values the enabled rows cannot satisfy their
    // constraints, so the finalize pass rejects the structural grid
    assert!(matches!(
        syn.finalize(),
        Err(SynthesisError::GateUnsatisfied { .. })
    ));
}

#[test]
fn concrete_driver_succeeds_whenever_the_rows_fit() {
    let ok = run_fib_circuit(&fib(1, 1, 5), 5).expect("seeds given and rows fit");
    assert_eq!(ok.grid.get(advice(2), 4), CellValue::Assigned(Felt::from_u64(13)));
    match run_fib_circuit(&fib(1, 1, 6), 5) {
        Err(SynthesisError::RegionOverflow { .. }) => (),
        Err(other) => panic!("unexpected error {:?}", other),
        Ok(_) => panic!("expected a region overflow"),
    }
    // a structural pass of any enabled rows fails the finalize check
    let cleared = fib(1, 1, 2).without_witnesses();
    assert!(matches!(
        run_fib_circuit(&cleared, 2),
        Err(SynthesisError::GateUnsatisfied { .. })
    ));
    // with no rows at all there is nothing to check
    let empty = fib(1, 1, 0).without_witnesses();
    assert!(run_fib_circuit(&empty, 2).is_ok());
}

#[test]
fn zero_steps_is_accepted() {
    let syn = run_circuit(&fib(5, 6, 0), 4).unwrap();
    assert_eq!(syn.grid.get(advice(0), 0), CellValue::Unassigned);
}

/// Drive one chip by hand over its own region with the chained wiring.
fn drive_chip(
    chip: &FibChip,
    syn: &mut Synthesizer,
    region_name: &str,
    rows: usize,
    seed_a: u64,
    seed_b: u64,
) {
    let region = syn.assign_region(region_name.to_string(), rows).unwrap();
    let mut a = CellValue::Assigned(Felt::from_u64(seed_a));
    let mut b = CellValue::Assigned(Felt::from_u64(seed_b));
    let mut prev = None;
    for offset in 0..rows {
        let (ca, cb, cc) = chip.assign_row(syn, region, offset, a, b).unwrap();
        if let Some((pb, pc)) = prev {
            syn.copy(pb, ca).unwrap();
            syn.copy(pc, cb).unwrap();
        }
        prev = Some((cb, cc));
        let c = a.vadd(b);
        a = b;
        b = c;
    }
}

#[test]
fn two_independent_chips_do_not_interfere() {
    // Scenario: two chips on disjoint columns and disjoint regions;
    // their grids pass finalize independently and in combination.
    let mut cs = ConstraintSystem::new();
    let cols: Vec<Column> = (0..6).map(|_| cs.add_advice_column()).collect();
    let s1 = cs.add_selector();
    let s2 = cs.add_selector();
    let cfg1 = FibChip::configure(&mut cs, cols[0], cols[1], cols[2], s1);
    let cfg2 = FibChip::configure(&mut cs, cols[3], cols[4], cols[5], s2);
    let chip1 = FibChip::construct(cfg1);
    let chip2 = FibChip::construct(cfg2);
    let mut syn = Synthesizer::new(cs, 7);
    drive_chip(&chip1, &mut syn, "first", 3, 1, 1);
    drive_chip(&chip2, &mut syn, "second", 4, 2, 5);
    assert!(syn.finalize().is_ok());
    // the first chip's sums
    assert_eq!(syn.grid.get(advice(2), 0), CellValue::Assigned(Felt::from_u64(2)));
    assert_eq!(syn.grid.get(advice(2), 2), CellValue::Assigned(Felt::from_u64(5)));
    // the second chip's sums, in its own rows and columns
    assert_eq!(syn.grid.get(advice(5), 3), CellValue::Assigned(Felt::from_u64(7)));
    assert_eq!(syn.grid.get(advice(5), 6), CellValue::Assigned(Felt::from_u64(31)));
    // each chip alone also passes
    let mut cs1 = ConstraintSystem::new();
    let a = cs1.add_advice_column();
    let b = cs1.add_advice_column();
    let c = cs1.add_advice_column();
    let s = cs1.add_selector();
    let cfg = FibChip::configure(&mut cs1, a, b, c, s);
    let chip = FibChip::construct(cfg);
    let mut alone = Synthesizer::new(cs1, 3);
    drive_chip(&chip, &mut alone, "alone", 3, 1, 1);
    assert!(alone.finalize().is_ok());
}
