use halo2_fib::chip::BoundsError;
use halo2_fib::chip::FibChip;
use halo2_fib::checking::verify;
use halo2_fib::checking::VerifyError;
use halo2_fib::circuit::FibCircuit;
use halo2_fib::field::FieldValue;
use halo2_fib::recurrence::fib_calc;
use halo2_fib::runner::check_instance;
use halo2_fib::sizing::calc_k;
use halo2_fib::system::Column;
use halo2_fib::system::ColumnKind;
use halo2_fib::system::ConstraintSystem;
use halo2_fib::table::Assignment;
use halo2_fib::table::Witness;

fn build(n: usize, num_public: usize) -> (ConstraintSystem, Assignment) {
    let mut meta = ConstraintSystem::new();
    let config = FibCircuit::configure(&mut meta).unwrap();
    let circuit = FibCircuit {
        init_a: Witness::Known(FieldValue::zero()),
        init_b: Witness::Known(FieldValue::one()),
        n,
    };
    let mut table = Assignment::new(num_public);
    circuit.synthesize(config, &mut table).unwrap();
    (meta, table)
}

#[test]
fn test_fib() {
    const NUM_STEPS: usize = 180 as usize;
    let (meta, table) = build(NUM_STEPS, 1);
    let _k = calc_k(NUM_STEPS);
    let publics = vec![FieldValue::from_u128(fib_calc(NUM_STEPS))];
    assert_eq!(verify(&meta, &table, &publics), Ok(()));
}

#[test]
fn test_scenario_n8_true_public_input() {
    let (meta, table) = build(8, 1);
    assert_eq!(fib_calc(8), 21);
    let publics = vec![FieldValue::from_u128(21)];
    assert_eq!(verify(&meta, &table, &publics), Ok(()));
}

#[test]
fn test_scenario_n8_wrong_public_input() {
    let (meta, table) = build(8, 1);
    let publics = vec![FieldValue::from_u128(20)];
    assert_eq!(
        verify(&meta, &table, &publics),
        Err(VerifyError::PublicInputMismatch { row: 0 })
    );
}

#[test]
fn test_wrong_public_input_many_n() {
    for n in 2..40 {
        let (meta, table) = build(n, 1);
        let publics = vec![FieldValue::from_u128(fib_calc(n)).add(FieldValue::one())];
        assert_eq!(
            verify(&meta, &table, &publics),
            Err(VerifyError::PublicInputMismatch { row: 0 })
        );
    }
}

#[test]
fn test_selector_activated_at_step_rows_only() {
    let n = 8;
    let (meta, table) = build(n, 1);
    let s = meta.gates[0].selector.index;
    // one activation per step region: the even rows from 2 on
    assert_eq!(table.enabled.len(), n - 1);
    for (k, e) in table.enabled.iter().enumerate() {
        assert_eq!(*e, (s, 2 + 2 * k));
    }
}

#[test]
fn test_tampered_output_cell_rejected() {
    let (meta, mut table) = build(8, 1);
    let publics = vec![FieldValue::from_u128(21)];
    // overwrite one step's output (advice column 1, second row of step 3)
    table.replace_advice(1, 9, FieldValue::from_u128(999));
    assert!(verify(&meta, &table, &publics).is_err());
}

#[test]
fn test_tampered_seed_cell_rejected() {
    let (meta, mut table) = build(8, 1);
    let publics = vec![FieldValue::from_u128(21)];
    table.replace_advice(0, 0, FieldValue::from_u128(7));
    assert_eq!(
        verify(&meta, &table, &publics),
        Err(VerifyError::CopyMismatch { index: 0 })
    );
}

#[test]
fn test_tampered_step_input_cell_rejected() {
    let (meta, mut table) = build(8, 1);
    let publics = vec![FieldValue::from_u128(21)];
    table.replace_advice(0, 2, FieldValue::from_u128(5));
    // the tampered row's gate is checked before the copy edges
    assert_eq!(
        verify(&meta, &table, &publics),
        Err(VerifyError::GateUnsatisfied { row: 2 })
    );
}

#[test]
fn test_every_single_cell_tamper_is_caught() {
    let n = 8;
    let publics = vec![FieldValue::from_u128(21)];
    for col in 0..2usize {
        for row in 0..(2 * n) {
            let (meta, mut table) = build(n, 1);
            let assigned = if col == 0 {
                table.col_a[row].is_some()
            } else {
                table.col_b[row].is_some()
            };
            if !assigned {
                continue;
            }
            let old = if col == 0 { table.col_a[row] } else { table.col_b[row] };
            let tampered = FieldValue::from_u128(123456789);
            if old == Some(Witness::Known(tampered)) {
                continue;
            }
            table.replace_advice(col, row, tampered);
            assert!(
                verify(&meta, &table, &publics).is_err(),
                "tampering column {} row {} passed silently",
                col,
                row
            );
        }
    }
}

#[test]
fn test_unknown_witness_pass_is_underconstrained() {
    let mut meta = ConstraintSystem::new();
    let config = FibCircuit::configure(&mut meta).unwrap();
    let circuit = FibCircuit { init_a: Witness::Unknown, init_b: Witness::Unknown, n: 5 };
    let mut table = Assignment::new(1);
    circuit.synthesize(config, &mut table).unwrap();
    let publics = vec![FieldValue::zero()];
    assert_eq!(
        verify(&meta, &table, &publics),
        Err(VerifyError::Underconstrained {
            column: Column { kind: ColumnKind::Advice, index: 0 },
            row: 2,
        })
    );
}

#[test]
fn test_without_witnesses_drops_values() {
    let circuit = FibCircuit {
        init_a: Witness::Known(FieldValue::zero()),
        init_b: Witness::Known(FieldValue::one()),
        n: 9,
    };
    let blank = circuit.without_witnesses();
    assert_eq!(blank.init_a, Witness::Unknown);
    assert_eq!(blank.init_b, Witness::Unknown);
    assert_eq!(blank.n, 0);
}

#[test]
fn test_expose_public_out_of_bounds() {
    let mut meta = ConstraintSystem::new();
    let config = FibCircuit::configure(&mut meta).unwrap();
    let chip = FibChip::construct(config);
    let mut table = Assignment::new(1);
    let value = chip.load_private(&mut table, Witness::Known(FieldValue::one()));
    assert_eq!(
        chip.expose_public(&mut table, value, 5),
        Err(BoundsError { row: 5, len: 1 })
    );
    assert_eq!(chip.expose_public(&mut table, value, 0), Ok(()));
}

#[test]
fn test_synthesize_without_public_rows_fails() {
    let mut meta = ConstraintSystem::new();
    let config = FibCircuit::configure(&mut meta).unwrap();
    let circuit = FibCircuit {
        init_a: Witness::Known(FieldValue::zero()),
        init_b: Witness::Known(FieldValue::one()),
        n: 4,
    };
    let mut table = Assignment::new(0);
    assert_eq!(
        circuit.synthesize(config, &mut table),
        Err(BoundsError { row: 0, len: 0 })
    );
}

#[test]
fn test_configuration_error_on_undeclared_column() {
    let mut meta = ConstraintSystem::new();
    let ghostless = Column { kind: ColumnKind::Advice, index: 3 };
    assert_eq!(
        meta.enable_equality(ghostless),
        Err(halo2_fib::system::ConfigurationError { column: ghostless })
    );
    let a = meta.advice_column();
    assert_eq!(meta.enable_equality(a), Ok(()));
}

#[test]
fn test_configure_enables_equality_on_all_columns() {
    let mut meta = ConstraintSystem::new();
    let config = FibCircuit::configure(&mut meta).unwrap();
    assert_eq!(meta.num_advice, 2);
    assert_eq!(meta.num_instance, 1);
    assert_eq!(meta.num_selectors, 1);
    assert_eq!(meta.gates.len(), 1);
    assert_eq!(meta.equality.len(), 3);
    assert_eq!(meta.equality[0], config.instance);
    assert_eq!(meta.equality[1], config.advice0);
    assert_eq!(meta.equality[2], config.advice1);
}

#[test]
fn test_chip_configure_rejects_undeclared_columns() {
    // the chip asks for equality on the instance column first, so that is
    // the column a fresh, empty system refuses
    let mut meta = ConstraintSystem::new();
    let advice0 = Column { kind: ColumnKind::Advice, index: 0 };
    let advice1 = Column { kind: ColumnKind::Advice, index: 1 };
    let instance = Column { kind: ColumnKind::Instance, index: 0 };
    assert_eq!(
        FibChip::configure(&mut meta, advice0, advice1, instance),
        Err(halo2_fib::system::ConfigurationError { column: instance })
    );
}

#[test]
fn test_chip_holds_its_configuration() {
    let mut meta = ConstraintSystem::new();
    let config = FibCircuit::configure(&mut meta).unwrap();
    let chip = FibChip::construct(config);
    assert_eq!(*chip.config(), config);
    assert_eq!(chip.config().s_fib.index, 0);
}

#[test]
fn test_load_constant_records_binding() {
    let mut meta = ConstraintSystem::new();
    let config = FibCircuit::configure(&mut meta).unwrap();
    let chip = FibChip::construct(config);
    let mut table = Assignment::new(0);
    let c = FieldValue::from_u128(42);
    chip.load_constant(&mut table, c);
    assert_eq!(table.constants.len(), 1);
    let publics: Vec<FieldValue> = vec![];
    assert_eq!(verify(&meta, &table, &publics), Ok(()));
    // a tampered constant cell no longer matches its binding
    table.replace_advice(0, 0, FieldValue::from_u128(43));
    assert_eq!(
        verify(&meta, &table, &publics),
        Err(VerifyError::ConstantMismatch { index: 0 })
    );
}

#[test]
fn test_minimal_circuit_n2() {
    let (meta, table) = build(2, 1);
    // one step region: seeds 0 and 1 give 1
    assert_eq!(table.enabled.len(), 1);
    let publics = vec![FieldValue::from_u128(1)];
    assert_eq!(verify(&meta, &table, &publics), Ok(()));
}

#[test]
fn test_check_default_instance_never_fails() {
    for n in 2..60 {
        assert_eq!(halo2_fib::runner::check_default_instance(n), Ok(()));
    }
    assert_eq!(halo2_fib::runner::check_default_instance(185), Ok(()));
}

#[test]
fn test_check_instance_pipeline() {
    assert_eq!(check_instance(8, FieldValue::from_u128(21)), Ok(()));
    assert_eq!(
        check_instance(8, FieldValue::from_u128(20)),
        Err(VerifyError::PublicInputMismatch { row: 0 })
    );
    for n in 2..30 {
        assert_eq!(
            check_instance(n, FieldValue::from_u128(fib_calc(n))),
            Ok(())
        );
    }
}

#[test]
fn test_largest_supported_n() {
    let (meta, table) = build(185, 1);
    let publics = vec![FieldValue::from_u128(fib_calc(185))];
    assert_eq!(verify(&meta, &table, &publics), Ok(()));
}
