//! Resource handles around the native library's opaque objects.
//!
//! Each native object (simulation environment, qubit register, Pauli
//! Hamiltonian, diagonal operator) is owned through exactly one handle; a
//! handle whose native destroy routine needs the creating environment keeps
//! a back-reference to it, so per-object teardown necessarily precedes
//! environment teardown.  The quantum state itself is opaque to this layer:
//! a handle records only what the pre-call validation reads — the declared
//! qubit count and, for registers, whether the register is a density matrix.

use vstd::prelude::*;

verus! {

/// The simulation environment: the native session that creates and destroys
/// every other native object.
#[derive(Debug)]
pub struct QuestEnv {
    _private: (),
}

impl QuestEnv {
    /// Open a new simulation environment.
    pub fn new() -> Self {
        QuestEnv { _private: () }
    }
}

impl Default for QuestEnv {
    fn default() -> Self {
        QuestEnv::new()
    }
}

/// A qubit register: a state-vector or density-matrix quantum state held by
/// the native library.
#[derive(Debug)]
pub struct Qureg<'a> {
    #[allow(dead_code)]
    env: &'a QuestEnv,
    num_qubits: i32,
    is_density: bool,
}

impl<'a> Qureg<'a> {
    /// The register's declared qubit count.
    pub closed spec fn spec_num_qubits(&self) -> i32 {
        self.num_qubits
    }

    /// Whether the register holds a density matrix rather than a state
    /// vector.
    pub closed spec fn spec_is_density(&self) -> bool {
        self.is_density
    }

    /// The native constructors reject a qubit count below one.
    #[verifier::type_invariant]
    pub open spec fn well_formed(&self) -> bool {
        1 <= self.spec_num_qubits()
    }

    /// Record a register the native library created in `env`.
    pub fn new(env: &'a QuestEnv, num_qubits: i32, is_density: bool) -> (qureg: Self)
        requires
            1 <= num_qubits,
        ensures
            qureg.spec_num_qubits() == num_qubits,
            qureg.spec_is_density() == is_density,
    {
        Qureg { env, num_qubits, is_density }
    }

    /// Whether the register holds a density matrix.
    #[verifier::when_used_as_spec(spec_is_density)]
    pub fn is_density_matrix(&self) -> (d: bool)
        ensures
            d == self.spec_is_density(),
    {
        self.is_density
    }

    /// The number of qubits the register represents.
    #[verifier::when_used_as_spec(spec_num_qubits)]
    pub fn num_qubits_represented(&self) -> (n: i32)
        ensures
            n == self.spec_num_qubits(),
    {
        self.num_qubits
    }
}

/// A Hamiltonian expressed as a real-weighted sum of products of Pauli
/// operators; its coefficient and code storage is owned by the native
/// library.
#[derive(Debug)]
pub struct PauliHamil {
    num_qubits: i32,
    num_sum_terms: i32,
}

impl PauliHamil {
    /// The number of qubits each product term acts on.
    pub closed spec fn spec_num_qubits(&self) -> i32 {
        self.num_qubits
    }

    /// The number of weighted product terms in the sum.
    pub closed spec fn spec_num_sum_terms(&self) -> i32 {
        self.num_sum_terms
    }

    /// The native constructor rejects a qubit count or term count below one.
    #[verifier::type_invariant]
    pub open spec fn well_formed(&self) -> bool {
        1 <= self.spec_num_qubits() && 1 <= self.spec_num_sum_terms()
    }

    /// Record a Hamiltonian the native library allocated.
    pub fn new(num_qubits: i32, num_sum_terms: i32) -> (hamil: Self)
        requires
            1 <= num_qubits,
            1 <= num_sum_terms,
        ensures
            hamil.spec_num_qubits() == num_qubits,
            hamil.spec_num_sum_terms() == num_sum_terms,
    {
        PauliHamil { num_qubits, num_sum_terms }
    }

    /// The number of qubits each product term acts on.
    #[verifier::when_used_as_spec(spec_num_qubits)]
    pub fn num_qubits(&self) -> (n: i32)
        ensures
            n == self.spec_num_qubits(),
    {
        self.num_qubits
    }

    /// The number of weighted product terms in the sum.
    #[verifier::when_used_as_spec(spec_num_sum_terms)]
    pub fn num_sum_terms(&self) -> (n: i32)
        ensures
            n == self.spec_num_sum_terms(),
    {
        self.num_sum_terms
    }
}

/// A diagonal operator over the full register, with `2^n` complex entries
/// owned by the native library.
#[derive(Debug)]
pub struct DiagonalOp<'a> {
    #[allow(dead_code)]
    env: &'a QuestEnv,
    num_qubits: i32,
}

impl<'a> DiagonalOp<'a> {
    /// The number of qubits the operator acts on; it has `2^n` diagonal
    /// entries.
    pub closed spec fn spec_num_qubits(&self) -> i32 {
        self.num_qubits
    }

    /// The native constructor rejects a qubit count below one.
    #[verifier::type_invariant]
    pub open spec fn well_formed(&self) -> bool {
        1 <= self.spec_num_qubits()
    }

    /// Record an operator the native library created in `env`.
    pub fn new(env: &'a QuestEnv, num_qubits: i32) -> (op: Self)
        requires
            1 <= num_qubits,
        ensures
            op.spec_num_qubits() == num_qubits,
    {
        DiagonalOp { env, num_qubits }
    }

    /// The number of qubits the operator acts on.
    #[verifier::when_used_as_spec(spec_num_qubits)]
    pub fn num_qubits(&self) -> (n: i32)
        ensures
            n == self.spec_num_qubits(),
    {
        self.num_qubits
    }
}

} // verus!
