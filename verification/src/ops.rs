//! Pre-call argument validation of the forwarding operations.
//!
//! Each exposed operation of the binding layer forwards to one native
//! routine.  Before the foreign call is made, the layer checks the qubit
//! index arguments against the register's declared qubit count and the
//! documented array-length preconditions, and returns a typed failure
//! without touching native state when a check fails.  The functions here are
//! exactly that stage, one per operation, under the operation's name: `Ok`
//! means this layer accepts the arguments and hands the call on to the
//! native routine; the runtime making the foreign calls runs them first and
//! forwards only on `Ok`.
//!
//! The checks are deliberately no stronger than the layer's own: arguments
//! the layer leaves to the native library's validation (for instance a
//! negative qubit index, or a measurement outcome other than 0 and 1) pass
//! here and are rejected natively through the error callback, surfacing as
//! [`QuestError::InvalidQuESTInputError`] via the exception bridge.

use vstd::prelude::*;
use vstd::string::StringSliceAdditionalSpecFns;

use crate::QuestError;
use crate::handles::DiagonalOp;
use crate::handles::Qureg;
use crate::matrices::ComplexMatrix2;
use crate::matrices::ComplexMatrixN;
use crate::matrices::Qcomplex;
use crate::matrices::Vector;
use crate::precision::Qreal;
use vstd::arithmetic::power2::lemma2_to64;
use vstd::arithmetic::power2::lemma2_to64_rest;
use vstd::arithmetic::power2::lemma_pow2_strictly_increases;
use vstd::arithmetic::power2::lemma_pow2_unfold;
use vstd::arithmetic::power2::pow2;

verus! {

/// Every index in `idxs` is below the qubit count `n`.
pub open spec fn all_below(idxs: Seq<i32>, n: i32) -> bool {
    forall|i: int| 0 <= i < idxs.len() ==> idxs[i] < n
}

/// Scan `idxs` for an index at or above the register's qubit count `n`.
fn check_indices(idxs: &[i32], n: i32) -> (r: Result<(), QuestError>)
    ensures
        r is Ok <==> all_below(idxs@, n),
        r is Err ==> r == Err::<(), QuestError>(QuestError::QubitIndexError),
{
    let mut i: usize = 0;
    while i < idxs.len()
        invariant
            i <= idxs@.len(),
            forall|j: int| 0 <= j < i ==> idxs@[j] < n,
        decreases idxs@.len() - i,
    {
        if idxs[i] >= n {
            return Err(QuestError::QubitIndexError);
        }
        i += 1;
    }
    Ok(())
}

/// Checks for the single-target unitary parameterized by two complex
/// scalars (native routine `compactUnitary`).
#[allow(unused_variables)]
pub fn compact_unitary(
    qureg: &mut Qureg,
    target_qubit: i32,
    alpha: Qcomplex,
    beta: Qcomplex,
) -> (r: Result<(), QuestError>)
    ensures
        *final(qureg) == *old(qureg),
        r is Ok <==> target_qubit < old(qureg).num_qubits_represented(),
        r is Err ==> r == Err::<(), QuestError>(QuestError::QubitIndexError),
{
    if target_qubit >= qureg.num_qubits_represented() {
        return Err(QuestError::QubitIndexError);
    }
    Ok(())
}

/// Checks for the general single-qubit unitary (native routine `unitary`).
#[allow(unused_variables)]
pub fn unitary(qureg: &mut Qureg, target_qubit: i32, u: &ComplexMatrix2) -> (r: Result<
    (),
    QuestError,
>)
    ensures
        *final(qureg) == *old(qureg),
        r is Ok <==> target_qubit < old(qureg).num_qubits_represented(),
        r is Err ==> r == Err::<(), QuestError>(QuestError::QubitIndexError),
{
    if target_qubit >= qureg.num_qubits_represented() {
        return Err(QuestError::QubitIndexError);
    }
    Ok(())
}

/// Checks for the single-qubit rotation around the X-axis of the Bloch
/// sphere (native routine `rotateX`).
#[allow(unused_variables)]
pub fn rotate_x(qureg: &mut Qureg, rot_qubit: i32, angle: Qreal) -> (r: Result<
    (),
    QuestError,
>)
    ensures
        *final(qureg) == *old(qureg),
        r is Ok <==> rot_qubit < old(qureg).num_qubits_represented(),
        r is Err ==> r == Err::<(), QuestError>(QuestError::QubitIndexError),
{
    if rot_qubit >= qureg.num_qubits_represented() {
        return Err(QuestError::QubitIndexError);
    }
    Ok(())
}

/// Checks for the single-qubit rotation around the Y-axis of the Bloch
/// sphere (native routine `rotateY`).
#[allow(unused_variables)]
pub fn rotate_y(qureg: &mut Qureg, rot_qubit: i32, angle: Qreal) -> (r: Result<
    (),
    QuestError,
>)
    ensures
        *final(qureg) == *old(qureg),
        r is Ok <==> rot_qubit < old(qureg).num_qubits_represented(),
        r is Err ==> r == Err::<(), QuestError>(QuestError::QubitIndexError),
{
    if rot_qubit >= qureg.num_qubits_represented() {
        return Err(QuestError::QubitIndexError);
    }
    Ok(())
}

/// Checks for the single-qubit rotation around the Z-axis of the Bloch
/// sphere (native routine `rotateZ`).
#[allow(unused_variables)]
pub fn rotate_z(qureg: &mut Qureg, rot_qubit: i32, angle: Qreal) -> (r: Result<
    (),
    QuestError,
>)
    ensures
        *final(qureg) == *old(qureg),
        r is Ok <==> rot_qubit < old(qureg).num_qubits_represented(),
        r is Err ==> r == Err::<(), QuestError>(QuestError::QubitIndexError),
{
    if rot_qubit >= qureg.num_qubits_represented() {
        return Err(QuestError::QubitIndexError);
    }
    Ok(())
}

/// Checks for the single-qubit rotation around an arbitrary axis (native
/// routine `rotateAroundAxis`).
#[allow(unused_variables)]
pub fn rotate_around_axis(
    qureg: &mut Qureg,
    rot_qubit: i32,
    angle: Qreal,
    axis: &Vector,
) -> (r: Result<(), QuestError>)
    ensures
        *final(qureg) == *old(qureg),
        r is Ok <==> rot_qubit < old(qureg).num_qubits_represented(),
        r is Err ==> r == Err::<(), QuestError>(QuestError::QubitIndexError),
{
    if rot_qubit >= qureg.num_qubits_represented() {
        return Err(QuestError::QubitIndexError);
    }
    Ok(())
}

/// Checks for the controlled rotation around the X-axis (native routine
/// `controlledRotateX`).
#[allow(unused_variables)]
pub fn controlled_rotate_x(
    qureg: &mut Qureg,
    control_qubit: i32,
    target_qubit: i32,
    angle: Qreal,
) -> (r: Result<(), QuestError>)
    ensures
        *final(qureg) == *old(qureg),
        r is Ok <==> control_qubit < old(qureg).num_qubits_represented() && target_qubit < old(
            qureg,
        ).num_qubits_represented(),
        r is Err ==> r == Err::<(), QuestError>(QuestError::QubitIndexError),
{
    if control_qubit >= qureg.num_qubits_represented() || target_qubit
        >= qureg.num_qubits_represented() {
        return Err(QuestError::QubitIndexError);
    }
    Ok(())
}

/// Checks for the controlled rotation around the Y-axis (native routine
/// `controlledRotateY`).
#[allow(unused_variables)]
pub fn controlled_rotate_y(
    qureg: &mut Qureg,
    control_qubit: i32,
    target_qubit: i32,
    angle: Qreal,
) -> (r: Result<(), QuestError>)
    ensures
        *final(qureg) == *old(qureg),
        r is Ok <==> control_qubit < old(qureg).num_qubits_represented() && target_qubit < old(
            qureg,
        ).num_qubits_represented(),
        r is Err ==> r == Err::<(), QuestError>(QuestError::QubitIndexError),
{
    if control_qubit >= qureg.num_qubits_represented() || target_qubit
        >= qureg.num_qubits_represented() {
        return Err(QuestError::QubitIndexError);
    }
    Ok(())
}

/// Checks for the controlled rotation around the Z-axis (native routine
/// `controlledRotateZ`).
#[allow(unused_variables)]
pub fn controlled_rotate_z(
    qureg: &mut Qureg,
    control_qubit: i32,
    target_qubit: i32,
    angle: Qreal,
) -> (r: Result<(), QuestError>)
    ensures
        *final(qureg) == *old(qureg),
        r is Ok <==> control_qubit < old(qureg).num_qubits_represented() && target_qubit < old(
            qureg,
        ).num_qubits_represented(),
        r is Err ==> r == Err::<(), QuestError>(QuestError::QubitIndexError),
{
    if control_qubit >= qureg.num_qubits_represented() || target_qubit
        >= qureg.num_qubits_represented() {
        return Err(QuestError::QubitIndexError);
    }
    Ok(())
}

/// Checks for the controlled rotation around an arbitrary axis (native
/// routine `controlledRotateAroundAxis`).
#[allow(unused_variables)]
pub fn controlled_rotate_around_axis(
    qureg: &mut Qureg,
    control_qubit: i32,
    target_qubit: i32,
    angle: Qreal,
    axis: &Vector,
) -> (r: Result<(), QuestError>)
    ensures
        *final(qureg) == *old(qureg),
        r is Ok <==> control_qubit < old(qureg).num_qubits_represented() && target_qubit < old(
            qureg,
        ).num_qubits_represented(),
        r is Err ==> r == Err::<(), QuestError>(QuestError::QubitIndexError),
{
    if control_qubit >= qureg.num_qubits_represented() || target_qubit
        >= qureg.num_qubits_represented() {
        return Err(QuestError::QubitIndexError);
    }
    Ok(())
}

/// Checks for the controlled unitary parameterized by two complex scalars
/// (native routine `controlledCompactUnitary`).
#[allow(unused_variables)]
pub fn controlled_compact_unitary(
    qureg: &mut Qureg,
    control_qubit: i32,
    target_qubit: i32,
    alpha: Qcomplex,
    beta: Qcomplex,
) -> (r: Result<(), QuestError>)
    ensures
        *final(qureg) == *old(qureg),
        r is Ok <==> control_qubit < old(qureg).num_qubits_represented() && target_qubit < old(
            qureg,
        ).num_qubits_represented(),
        r is Err ==> r == Err::<(), QuestError>(QuestError::QubitIndexError),
{
    if control_qubit >= qureg.num_qubits_represented() || target_qubit
        >= qureg.num_qubits_represented() {
        return Err(QuestError::QubitIndexError);
    }
    Ok(())
}

/// Checks for the general controlled single-qubit unitary (native routine
/// `controlledUnitary`).
#[allow(unused_variables)]
pub fn controlled_unitary(
    qureg: &mut Qureg,
    control_qubit: i32,
    target_qubit: i32,
    u: &ComplexMatrix2,
) -> (r: Result<(), QuestError>)
    ensures
        *final(qureg) == *old(qureg),
        r is Ok <==> control_qubit < old(qureg).num_qubits_represented() && target_qubit < old(
            qureg,
        ).num_qubits_represented(),
        r is Err ==> r == Err::<(), QuestError>(QuestError::QubitIndexError),
{
    if control_qubit >= qureg.num_qubits_represented() || target_qubit
        >= qureg.num_qubits_represented() {
        return Err(QuestError::QubitIndexError);
    }
    Ok(())
}

/// Checks for the multiple-control single-target unitary (native routine
/// `multiControlledUnitary`).
///
/// This operation bounds the number of controls by the register's qubit
/// count with the same error kind as an out-of-range index; the machine can
/// not hold a control list longer than `i32::MAX` anyway, which the
/// precondition records.
#[allow(unused_variables)]
pub fn multi_controlled_unitary(
    qureg: &mut Qureg,
    control_qubits: &[i32],
    target_qubit: i32,
    u: &ComplexMatrix2,
) -> (r: Result<(), QuestError>)
    requires
        control_qubits@.len() <= i32::MAX,
    ensures
        *final(qureg) == *old(qureg),
        r is Ok <==> control_qubits@.len() < old(qureg).num_qubits_represented() && target_qubit
            < old(qureg).num_qubits_represented(),
        r is Err ==> r == Err::<(), QuestError>(QuestError::QubitIndexError),
{
    proof {
        use_type_invariant(&*qureg);
    }
    let n = qureg.num_qubits_represented();
    if control_qubits.len() >= n as usize || target_qubit >= n {
        return Err(QuestError::QubitIndexError);
    }
    Ok(())
}

/// Checks for the single-qubit Pauli-X gate (native routine `pauliX`).
pub fn pauli_x(qureg: &mut Qureg, target_qubit: i32) -> (r: Result<(), QuestError>)
    ensures
        *final(qureg) == *old(qureg),
        r is Ok <==> target_qubit < old(qureg).num_qubits_represented(),
        r is Err ==> r == Err::<(), QuestError>(QuestError::QubitIndexError),
{
    if target_qubit >= qureg.num_qubits_represented() {
        return Err(QuestError::QubitIndexError);
    }
    Ok(())
}

/// Checks for the single-qubit Pauli-Y gate (native routine `pauliY`).
pub fn pauli_y(qureg: &mut Qureg, target_qubit: i32) -> (r: Result<(), QuestError>)
    ensures
        *final(qureg) == *old(qureg),
        r is Ok <==> target_qubit < old(qureg).num_qubits_represented(),
        r is Err ==> r == Err::<(), QuestError>(QuestError::QubitIndexError),
{
    if target_qubit >= qureg.num_qubits_represented() {
        return Err(QuestError::QubitIndexError);
    }
    Ok(())
}

/// Checks for the single-qubit Pauli-Z gate (native routine `pauliZ`).
pub fn pauli_z(qureg: &mut Qureg, target_qubit: i32) -> (r: Result<(), QuestError>)
    ensures
        *final(qureg) == *old(qureg),
        r is Ok <==> target_qubit < old(qureg).num_qubits_represented(),
        r is Err ==> r == Err::<(), QuestError>(QuestError::QubitIndexError),
{
    if target_qubit >= qureg.num_qubits_represented() {
        return Err(QuestError::QubitIndexError);
    }
    Ok(())
}

/// Checks for the single-qubit Hadamard gate (native routine `hadamard`).
pub fn hadamard(qureg: &mut Qureg, target_qubit: i32) -> (r: Result<(), QuestError>)
    ensures
        *final(qureg) == *old(qureg),
        r is Ok <==> target_qubit < old(qureg).num_qubits_represented(),
        r is Err ==> r == Err::<(), QuestError>(QuestError::QubitIndexError),
{
    if target_qubit >= qureg.num_qubits_represented() {
        return Err(QuestError::QubitIndexError);
    }
    Ok(())
}

/// Checks for the controlled-not gate (native routine `controlledNot`).
pub fn controlled_not(qureg: &mut Qureg, control_qubit: i32, target_qubit: i32) -> (r: Result<
    (),
    QuestError,
>)
    ensures
        *final(qureg) == *old(qureg),
        r is Ok <==> control_qubit < old(qureg).num_qubits_represented() && target_qubit < old(
            qureg,
        ).num_qubits_represented(),
        r is Err ==> r == Err::<(), QuestError>(QuestError::QubitIndexError),
{
    if target_qubit >= qureg.num_qubits_represented() || control_qubit
        >= qureg.num_qubits_represented() {
        return Err(QuestError::QubitIndexError);
    }
    Ok(())
}

/// Checks for the NOT gate with multiple controls and multiple targets
/// (native routine `multiControlledMultiQubitNot`).
///
/// A control or target list longer than the register yields the length
/// error before any single index is examined; then every listed index must
/// be below the register's qubit count.
pub fn multi_controlled_multi_qubit_not(qureg: &mut Qureg, ctrls: &[i32], targs: &[i32]) -> (r:
    Result<(), QuestError>)
    requires
        ctrls@.len() <= i32::MAX,
        targs@.len() <= i32::MAX,
    ensures
        *final(qureg) == *old(qureg),
        ({
            let n = old(qureg).num_qubits_represented();
            &&& (r is Ok <==> ctrls@.len() <= n && targs@.len() <= n && all_below(ctrls@, n)
                && all_below(targs@, n))
            &&& (ctrls@.len() > n || targs@.len() > n) ==> r == Err::<(), QuestError>(
                QuestError::ArrayLengthError,
            )
            &&& (ctrls@.len() <= n && targs@.len() <= n && !(all_below(ctrls@, n) && all_below(
                targs@,
                n,
            ))) ==> r == Err::<(), QuestError>(QuestError::QubitIndexError)
        }),
{
    proof {
        use_type_invariant(&*qureg);
    }
    let n = qureg.num_qubits_represented();
    if ctrls.len() > n as usize || targs.len() > n as usize {
        return Err(QuestError::ArrayLengthError);
    }
    match check_indices(ctrls, n) {
        Ok(()) => (),
        Err(e) => {
            return Err(e);
        },
    }
    match check_indices(targs, n) {
        Ok(()) => (),
        Err(e) => {
            return Err(e);
        },
    }
    Ok(())
}

/// Checks for the NOT gate with multiple targets (native routine
/// `multiQubitNot`).
pub fn multi_qubit_not(qureg: &mut Qureg, targs: &[i32]) -> (r: Result<(), QuestError>)
    requires
        targs@.len() <= i32::MAX,
    ensures
        *final(qureg) == *old(qureg),
        ({
            let n = old(qureg).num_qubits_represented();
            &&& (r is Ok <==> targs@.len() <= n && all_below(targs@, n))
            &&& targs@.len() > n ==> r == Err::<(), QuestError>(QuestError::ArrayLengthError)
            &&& (targs@.len() <= n && !all_below(targs@, n)) ==> r == Err::<(), QuestError>(
                QuestError::QubitIndexError,
            )
        }),
{
    proof {
        use_type_invariant(&*qureg);
    }
    let n = qureg.num_qubits_represented();
    if targs.len() > n as usize {
        return Err(QuestError::ArrayLengthError);
    }
    match check_indices(targs, n) {
        Ok(()) => (),
        Err(e) => {
            return Err(e);
        },
    }
    Ok(())
}

/// Checks for the collapse of one qubit to a given measurement outcome
/// (native routine `collapseToOutcome`).
///
/// Only the qubit index is checked here; an outcome other than 0 and 1, or
/// an outcome of zero probability, is rejected by the native library itself
/// through the error callback.
#[allow(unused_variables)]
pub fn collapse_to_outcome(qureg: &mut Qureg, measure_qubit: i32, outcome: i32) -> (r: Result<
    (),
    QuestError,
>)
    ensures
        *final(qureg) == *old(qureg),
        r is Ok <==> measure_qubit < old(qureg).num_qubits_represented(),
        r is Err ==> r == Err::<(), QuestError>(QuestError::QubitIndexError),
{
    if measure_qubit >= qureg.num_qubits_represented() {
        return Err(QuestError::QubitIndexError);
    }
    Ok(())
}

/// Checks for filling the probability of every outcome of a sub-register
/// (native routine `calcProbOfAllOutcomes`).
///
/// The output buffer must hold one entry per outcome, that is `2^k` entries
/// for `k` listed qubits.  A list of more than 63 qubits that is not already
/// longer than the register cannot be sized on this machine, which the
/// precondition records.
pub fn calc_prob_of_all_outcomes(
    outcome_probs: &mut [Qreal],
    qureg: &Qureg,
    qubits: &[i32],
) -> (r: Result<(), QuestError>)
    requires
        qubits@.len() <= qureg.num_qubits_represented() ==> qubits@.len() < 64,
    ensures
        final(outcome_probs)@ == old(outcome_probs)@,
        r is Ok <==> qubits@.len() <= qureg.num_qubits_represented() && old(outcome_probs)@.len()
            >= pow2(qubits@.len() as nat),
        r is Err ==> r == Err::<(), QuestError>(QuestError::ArrayLengthError),
{
    proof {
        use_type_invariant(qureg);
    }
    let n = qureg.num_qubits_represented();
    if qubits.len() > n as usize {
        return Err(QuestError::ArrayLengthError);
    }
    let k = qubits.len();
    proof {
        lemma2_to64();
    }
    let mut p: u64 = 1;
    let mut i: usize = 0;
    while i < k
        invariant
            i <= k,
            k < 64,
            p == pow2(i as nat),
        decreases k - i,
    {
        proof {
            lemma2_to64();
            lemma2_to64_rest();
            lemma_pow2_unfold((i + 1) as nat);
            if i + 1 < 63 {
                lemma_pow2_strictly_increases((i + 1) as nat, 63);
            }
        }
        p = p * 2;
        i += 1;
    }
    if (outcome_probs.len() as u64) < p {
        return Err(QuestError::ArrayLengthError);
    }
    Ok(())
}

/// Checks for the bulk initializer of a dynamically sized complex matrix
/// (native routine `initComplexMatrixN`).
///
/// Both entry arrays must be square of dimension at least the matrix's
/// declared qubit count.
pub fn init_complex_matrix_n(
    m: &mut ComplexMatrixN,
    re: &[&[Qreal]],
    im: &[&[Qreal]],
) -> (r: Result<(), QuestError>)
    ensures
        *final(m) == *old(m),
        ({
            let n = old(m).num_qubits() as int;
            &&& (r is Ok <==> re@.len() >= n && im@.len() >= n && (forall|i: int|
                0 <= i < n ==> re@[i]@.len() >= n && im@[i]@.len() >= n))
            &&& r is Err ==> r == Err::<(), QuestError>(QuestError::ArrayLengthError)
        }),
{
    proof {
        use_type_invariant(&*m);
    }
    let n = m.num_qubits() as usize;
    if re.len() < n || im.len() < n {
        return Err(QuestError::ArrayLengthError);
    }
    let mut i: usize = 0;
    while i < n
        invariant
            i <= n,
            *m == *old(m),
            n == old(m).num_qubits(),
            n <= re@.len(),
            n <= im@.len(),
            forall|j: int| 0 <= j < i ==> re@[j]@.len() >= n && im@[j]@.len() >= n,
        decreases n - i,
    {
        if re[i].len() < n || im[i].len() < n {
            return Err(QuestError::ArrayLengthError);
        }
        i += 1;
    }
    Ok(())
}

/// Checks for overwriting a diagonal operator with a full set of elements
/// (native routine `initDiagonalOp`).
///
/// Both entry arrays must hold one value per diagonal entry, that is `2^n`
/// values; shorter arrays are not accepted by this layer at all, so with the
/// stated preconditions no further check remains and the call is always
/// handed on.
#[allow(unused_variables)]
pub fn init_diagonal_op(
    op: &mut DiagonalOp,
    re: &[Qreal],
    im: &[Qreal],
) -> (r: Result<(), QuestError>)
    requires
        re@.len() >= pow2(old(op).num_qubits() as nat),
        im@.len() >= pow2(old(op).num_qubits() as nat),
    ensures
        *final(op) == *old(op),
        r is Ok,
{
    Ok(())
}

/// Checks for overwriting a contiguous range of a diagonal operator's
/// elements (native routine `setDiagonalOpElems`).
///
/// The entry arrays must hold the declared number of elements; a start index
/// or element count outside the operator is rejected by the native library
/// itself through the error callback.
#[allow(unused_variables)]
pub fn set_diagonal_op_elems(
    op: &mut DiagonalOp,
    start_ind: i64,
    re: &[Qreal],
    im: &[Qreal],
    num_elems: i64,
) -> (r: Result<(), QuestError>)
    requires
        0 <= num_elems,
        re@.len() >= num_elems,
        im@.len() >= num_elems,
    ensures
        *final(op) == *old(op),
        r is Ok,
{
    Ok(())
}

/// Check a caller-supplied string before it crosses the native text
/// boundary: the native layer represents text as NUL-terminated bytes, so a
/// string containing an interior NUL byte cannot be passed through and is
/// rejected with the byte position of the first NUL.
pub fn validate_c_string(s: &str) -> (r: Result<(), QuestError>)
    ensures
        r is Ok <==> (forall|i: int| 0 <= i < s.spec_bytes().len() ==> s.spec_bytes()[i] != 0),
        r matches Err(e) ==> (e matches QuestError::NulError(pos) && 0 <= pos
            < s.spec_bytes().len() && s.spec_bytes()[pos as int] == 0 && (forall|i: int|
            0 <= i < pos ==> s.spec_bytes()[i] != 0)),
{
    let bytes = s.as_bytes();
    let mut i: usize = 0;
    while i < bytes.len()
        invariant
            i <= bytes@.len(),
            bytes@ == s.spec_bytes(),
            forall|j: int| 0 <= j < i ==> bytes@[j] != 0,
        decreases bytes@.len() - i,
    {
        if bytes[i] == 0 {
            return Err(QuestError::NulError(i));
        }
        i += 1;
    }
    Ok(())
}

} // verus!
