//! Complex scalars, fixed-size complex matrices and the Bloch-sphere vector
//! that the forwarding operations hand to the native routines.
//!
//! These records are payloads: the binding layer validates nothing inside
//! them and passes their entries through unchanged.  Only the dynamically
//! sized matrix carries data this layer reads — its declared qubit count,
//! against which the bulk initializer checks its input arrays.

use vstd::prelude::*;

use crate::precision::Qreal;

verus! {

/// A complex scalar: real and imaginary part.
#[derive(Debug, Clone, Copy, PartialEq, Eq, Structural)]
pub struct Qcomplex {
    pub re: Qreal,
    pub im: Qreal,
}

impl Qcomplex {
    /// Pair a real and an imaginary part.
    pub fn new(re: Qreal, im: Qreal) -> (r: Self)
        ensures
            r.re == re,
            r.im == im,
    {
        Qcomplex { re, im }
    }
}

/// A 2x2 complex matrix, stored as separate real and imaginary parts.
#[derive(Debug, Clone, Copy)]
pub struct ComplexMatrix2 {
    pub re: [[Qreal; 2]; 2],
    pub im: [[Qreal; 2]; 2],
}

impl ComplexMatrix2 {
    /// Build the matrix from its real and imaginary entries.
    pub fn new(re: [[Qreal; 2]; 2], im: [[Qreal; 2]; 2]) -> (m: Self)
        ensures
            m.re == re,
            m.im == im,
    {
        ComplexMatrix2 { re, im }
    }
}

/// A 4x4 complex matrix, stored as separate real and imaginary parts.
#[derive(Debug)]
pub struct ComplexMatrix4 {
    pub re: [[Qreal; 4]; 4],
    pub im: [[Qreal; 4]; 4],
}

impl ComplexMatrix4 {
    /// Build the matrix from its real and imaginary entries.
    pub fn new(re: [[Qreal; 4]; 4], im: [[Qreal; 4]; 4]) -> (m: Self)
        ensures
            m.re == re,
            m.im == im,
    {
        ComplexMatrix4 { re, im }
    }
}

/// A square complex matrix over a declared number of qubits; its storage of
/// `2^n x 2^n` entries is owned by the native library, so this layer records
/// only the declared size.
#[derive(Debug)]
pub struct ComplexMatrixN {
    num_qubits: i32,
}

impl ComplexMatrixN {
    /// The declared number of qubits; the matrix has `2^n` rows and columns.
    pub closed spec fn spec_num_qubits(&self) -> i32 {
        self.num_qubits
    }

    /// The native constructor never hands out a matrix over less than one
    /// qubit.
    #[verifier::type_invariant]
    pub open spec fn well_formed(&self) -> bool {
        1 <= self.spec_num_qubits()
    }

    /// Record a matrix the native library allocated; the native constructor
    /// rejects a qubit count below one.
    pub fn new(num_qubits: i32) -> (m: Self)
        requires
            1 <= num_qubits,
        ensures
            m.spec_num_qubits() == num_qubits,
    {
        ComplexMatrixN { num_qubits }
    }

    /// The declared number of qubits.
    #[verifier::when_used_as_spec(spec_num_qubits)]
    pub fn num_qubits(&self) -> (n: i32)
        ensures
            n == self.spec_num_qubits(),
    {
        self.num_qubits
    }
}

/// A vector on the Bloch sphere, used as a rotation axis.
#[derive(Debug)]
pub struct Vector {
    pub x: Qreal,
    pub y: Qreal,
    pub z: Qreal,
}

impl Vector {
    /// Build the vector from its three components.
    pub fn new(x: Qreal, y: Qreal, z: Qreal) -> (v: Self)
        ensures
            v.x == x,
            v.y == y,
            v.z == z,
    {
        Vector { x, y, z }
    }
}

} // verus!
