//! Safety-oriented binding layer for a native quantum-circuit simulator.
//!
//! The native engine performs every quantum-state transformation itself; this
//! crate supplies the layer around it: typed resource handles, argument
//! validation made before any native routine is entered, and an exception
//! bridge that turns the engine's fatal error-callback convention into
//! ordinary recoverable results.  The foreign calls themselves live outside
//! this library; everything here is the part of the binding that can be
//! stated and checked as plain logic.

use vstd::prelude::*;

pub mod exceptions;
pub mod handles;
pub mod matrices;
pub mod ops;
pub mod precision;

pub use handles::DiagonalOp;
pub use handles::PauliHamil;
pub use handles::QuestEnv;
pub use handles::Qureg;
pub use matrices::ComplexMatrix2;
pub use matrices::ComplexMatrix4;
pub use matrices::ComplexMatrixN;
pub use matrices::Qcomplex;
pub use matrices::Vector;
pub use ops::calc_prob_of_all_outcomes;
pub use ops::collapse_to_outcome;
pub use ops::compact_unitary;
pub use ops::controlled_compact_unitary;
pub use ops::controlled_not;
pub use ops::controlled_rotate_around_axis;
pub use ops::controlled_rotate_x;
pub use ops::controlled_rotate_y;
pub use ops::controlled_rotate_z;
pub use ops::controlled_unitary;
pub use ops::hadamard;
pub use ops::init_complex_matrix_n;
pub use ops::init_diagonal_op;
pub use ops::multi_controlled_multi_qubit_not;
pub use ops::multi_controlled_unitary;
pub use ops::multi_qubit_not;
pub use ops::pauli_x;
pub use ops::pauli_y;
pub use ops::pauli_z;
pub use ops::rotate_around_axis;
pub use ops::rotate_x;
pub use ops::rotate_y;
pub use ops::rotate_z;
pub use ops::set_diagonal_op_elems;
pub use ops::unitary;
pub use ops::validate_c_string;
pub use precision::Qreal;

verus! {

/// The failure taxonomy surfaced to callers of the binding layer.
#[derive(Debug, PartialEq, Clone)]
pub enum QuestError {
    /// An error reported by the native library through its error callback.
    ///
    /// The native convention invokes a designated callback with an error
    /// message and the name of the offending native function; the triggered
    /// call must not continue normally afterwards.  The exception bridge
    /// captures both strings and surfaces them here.
    InvalidQuESTInputError { err_msg: String, err_func: String },
    /// A caller-supplied string cannot cross the native text boundary
    /// because it contains an interior NUL byte; the payload is the byte
    /// position of the first NUL.
    NulError(usize),
    /// A native-supplied byte sequence is not valid interchange text.
    IntoStringError,
    /// A caller-supplied buffer or array fails a pre-call size check.
    ArrayLengthError,
    /// A qubit index argument is not less than the register's declared
    /// qubit count.
    QubitIndexError,
}

} // verus!
