use quest_bind::ComplexMatrix2;
use quest_bind::ComplexMatrixN;
use quest_bind::Qcomplex;
use quest_bind::Qreal;
use quest_bind::QuestEnv;
use quest_bind::QuestError;
use quest_bind::Qureg;
use quest_bind::Vector;
use quest_bind::ops;

fn zero() -> Qreal {
    Qreal::from_bits(0.0f64.to_bits())
}

fn one() -> Qreal {
    Qreal::from_bits(1.0f64.to_bits())
}

fn identity2() -> ComplexMatrix2 {
    ComplexMatrix2::new(
        [[one(), zero()], [zero(), one()]],
        [[zero(), zero()], [zero(), zero()]],
    )
}

#[test]
fn register_reports_its_shape() {
    let env = QuestEnv::new();
    let qureg = Qureg::new(&env, 3, false);
    assert_eq!(qureg.num_qubits_represented(), 3);
    assert!(!qureg.is_density_matrix());
    let rho = Qureg::new(&env, 2, true);
    assert!(rho.is_density_matrix());
    assert_eq!(rho.num_qubits_represented(), 2);
}

#[test]
fn in_range_target_is_accepted() {
    let env = QuestEnv::new();
    let mut qureg = Qureg::new(&env, 3, false);
    assert_eq!(ops::pauli_x(&mut qureg, 0), Ok(()));
    assert_eq!(ops::pauli_y(&mut qureg, 1), Ok(()));
    assert_eq!(ops::pauli_z(&mut qureg, 2), Ok(()));
    assert_eq!(ops::hadamard(&mut qureg, 2), Ok(()));
}

#[test]
fn out_of_range_target_is_rejected_before_any_native_call() {
    let env = QuestEnv::new();
    let mut qureg = Qureg::new(&env, 3, false);
    assert_eq!(ops::pauli_x(&mut qureg, 3), Err(QuestError::QubitIndexError));
    assert_eq!(ops::hadamard(&mut qureg, 100), Err(QuestError::QubitIndexError));
    // The register itself is untouched by a rejected call.
    assert_eq!(qureg.num_qubits_represented(), 3);
}

#[test]
fn negative_target_is_left_to_the_native_validation() {
    // The layer's own check is only `target >= num_qubits`; a negative index
    // passes here and is rejected by the native library's error callback.
    let env = QuestEnv::new();
    let mut qureg = Qureg::new(&env, 3, false);
    assert_eq!(ops::pauli_x(&mut qureg, -1), Ok(()));
}

#[test]
fn rotations_check_their_qubit() {
    let env = QuestEnv::new();
    let mut qureg = Qureg::new(&env, 2, false);
    let angle = one();
    assert_eq!(ops::rotate_x(&mut qureg, 0, angle), Ok(()));
    assert_eq!(ops::rotate_y(&mut qureg, 1, angle), Ok(()));
    assert_eq!(ops::rotate_z(&mut qureg, 2, angle), Err(QuestError::QubitIndexError));
    let axis = Vector::new(zero(), zero(), one());
    assert_eq!(ops::rotate_around_axis(&mut qureg, 0, angle, &axis), Ok(()));
    assert_eq!(
        ops::rotate_around_axis(&mut qureg, 5, angle, &axis),
        Err(QuestError::QubitIndexError)
    );
}

#[test]
fn controlled_gates_check_both_qubits() {
    let env = QuestEnv::new();
    let mut qureg = Qureg::new(&env, 2, false);
    let angle = one();
    assert_eq!(ops::controlled_not(&mut qureg, 0, 1), Ok(()));
    assert_eq!(ops::controlled_not(&mut qureg, 2, 1), Err(QuestError::QubitIndexError));
    assert_eq!(ops::controlled_not(&mut qureg, 0, 2), Err(QuestError::QubitIndexError));
    assert_eq!(ops::controlled_rotate_x(&mut qureg, 1, 0, angle), Ok(()));
    assert_eq!(
        ops::controlled_rotate_y(&mut qureg, 1, 2, angle),
        Err(QuestError::QubitIndexError)
    );
    assert_eq!(
        ops::controlled_rotate_z(&mut qureg, 2, 0, angle),
        Err(QuestError::QubitIndexError)
    );
    let axis = Vector::new(zero(), zero(), one());
    assert_eq!(ops::controlled_rotate_around_axis(&mut qureg, 1, 0, angle, &axis), Ok(()));
}

#[test]
fn unitaries_check_their_targets() {
    let env = QuestEnv::new();
    let mut qureg = Qureg::new(&env, 2, false);
    let u = identity2();
    let alpha = Qcomplex::new(one(), zero());
    let beta = Qcomplex::new(zero(), zero());
    assert_eq!(ops::unitary(&mut qureg, 0, &u), Ok(()));
    assert_eq!(ops::unitary(&mut qureg, 2, &u), Err(QuestError::QubitIndexError));
    assert_eq!(ops::compact_unitary(&mut qureg, 1, alpha, beta), Ok(()));
    assert_eq!(
        ops::compact_unitary(&mut qureg, 2, alpha, beta),
        Err(QuestError::QubitIndexError)
    );
    assert_eq!(ops::controlled_unitary(&mut qureg, 0, 1, &u), Ok(()));
    assert_eq!(ops::controlled_unitary(&mut qureg, 0, 2, &u), Err(QuestError::QubitIndexError));
    assert_eq!(ops::controlled_compact_unitary(&mut qureg, 0, 1, alpha, beta), Ok(()));
    assert_eq!(
        ops::controlled_compact_unitary(&mut qureg, 3, 1, alpha, beta),
        Err(QuestError::QubitIndexError)
    );
}

#[test]
fn multi_controlled_unitary_bounds_the_control_count() {
    let env = QuestEnv::new();
    let mut qureg = Qureg::new(&env, 3, false);
    let u = identity2();
    assert_eq!(ops::multi_controlled_unitary(&mut qureg, &[1, 2], 0, &u), Ok(()));
    // As many controls as qubits is already rejected, with the index error.
    assert_eq!(
        ops::multi_controlled_unitary(&mut qureg, &[0, 1, 2], 0, &u),
        Err(QuestError::QubitIndexError)
    );
    assert_eq!(
        ops::multi_controlled_unitary(&mut qureg, &[1], 3, &u),
        Err(QuestError::QubitIndexError)
    );
}

#[test]
fn multi_qubit_not_checks_length_then_indices() {
    let env = QuestEnv::new();
    let mut qureg = Qureg::new(&env, 2, false);
    assert_eq!(ops::multi_qubit_not(&mut qureg, &[0, 1]), Ok(()));
    assert_eq!(
        ops::multi_qubit_not(&mut qureg, &[0, 1, 1]),
        Err(QuestError::ArrayLengthError)
    );
    assert_eq!(ops::multi_qubit_not(&mut qureg, &[0, 2]), Err(QuestError::QubitIndexError));
}

#[test]
fn multi_controlled_multi_qubit_not_checks_lengths_then_indices() {
    let env = QuestEnv::new();
    let mut qureg = Qureg::new(&env, 4, false);
    assert_eq!(
        ops::multi_controlled_multi_qubit_not(&mut qureg, &[0, 1], &[2, 3]),
        Ok(())
    );
    // A list longer than the register fails the length check first, even
    // when it also holds an out-of-range index.
    assert_eq!(
        ops::multi_controlled_multi_qubit_not(&mut qureg, &[0, 1, 2, 3, 9], &[2]),
        Err(QuestError::ArrayLengthError)
    );
    assert_eq!(
        ops::multi_controlled_multi_qubit_not(&mut qureg, &[0, 9], &[2]),
        Err(QuestError::QubitIndexError)
    );
    assert_eq!(
        ops::multi_controlled_multi_qubit_not(&mut qureg, &[0], &[4]),
        Err(QuestError::QubitIndexError)
    );
}

#[test]
fn outcome_probabilities_need_one_slot_per_outcome() {
    let env = QuestEnv::new();
    let qureg = Qureg::new(&env, 3, false);
    let mut probs = vec![zero(); 4];
    assert_eq!(ops::calc_prob_of_all_outcomes(&mut probs, &qureg, &[1, 2]), Ok(()));
    let mut short = vec![zero(); 3];
    assert_eq!(
        ops::calc_prob_of_all_outcomes(&mut short, &qureg, &[1, 2]),
        Err(QuestError::ArrayLengthError)
    );
    // More listed qubits than the register holds.
    let mut probs16 = vec![zero(); 16];
    assert_eq!(
        ops::calc_prob_of_all_outcomes(&mut probs16, &qureg, &[0, 1, 2, 2]),
        Err(QuestError::ArrayLengthError)
    );
    // No listed qubit needs exactly one slot.
    let mut one_slot = vec![zero(); 1];
    assert_eq!(ops::calc_prob_of_all_outcomes(&mut one_slot, &qureg, &[]), Ok(()));
}

#[test]
fn collapse_checks_the_measured_qubit() {
    let env = QuestEnv::new();
    let mut qureg = Qureg::new(&env, 2, false);
    assert_eq!(ops::collapse_to_outcome(&mut qureg, 0, 0), Ok(()));
    assert_eq!(ops::collapse_to_outcome(&mut qureg, 2, 0), Err(QuestError::QubitIndexError));
    // The outcome value itself is validated natively, not here.
    assert_eq!(ops::collapse_to_outcome(&mut qureg, 0, 7), Ok(()));
}

#[test]
fn matrix_initializer_needs_square_arrays_of_the_declared_size() {
    let mut m = ComplexMatrixN::new(2);
    assert_eq!(m.num_qubits(), 2);
    let row = [one(), zero()];
    let rows: [&[Qreal]; 2] = [&row, &row];
    assert_eq!(ops::init_complex_matrix_n(&mut m, &rows, &rows), Ok(()));
    let short_rows: [&[Qreal]; 1] = [&row];
    assert_eq!(
        ops::init_complex_matrix_n(&mut m, &short_rows, &rows),
        Err(QuestError::ArrayLengthError)
    );
    let short_row = [one()];
    let ragged: [&[Qreal]; 2] = [&row, &short_row];
    assert_eq!(
        ops::init_complex_matrix_n(&mut m, &rows, &ragged),
        Err(QuestError::ArrayLengthError)
    );
}

#[test]
fn diagonal_operator_stages_accept_full_buffers() {
    let env = QuestEnv::new();
    let mut op = quest_bind::DiagonalOp::new(&env, 2);
    assert_eq!(op.num_qubits(), 2);
    let re = vec![one(); 4];
    let im = vec![zero(); 4];
    assert_eq!(ops::init_diagonal_op(&mut op, &re, &im), Ok(()));
    assert_eq!(ops::set_diagonal_op_elems(&mut op, 0, &re, &im, 4), Ok(()));
}
