//! The scalar type of the native floating-point interface.
//!
//! Amplitudes, angles and probabilities cross the native boundary as
//! floating-point numbers.  This layer never computes with them — it only
//! carries them through — so [`Qreal`] stores the value as its raw bit
//! pattern and the runtime that makes the foreign calls converts to and from
//! the machine's floating-point representation at the boundary.

use vstd::prelude::*;

verus! {

/// One native floating-point scalar, held as its raw bit pattern.
#[derive(Debug, Clone, Copy, PartialEq, Eq, Structural)]
pub struct Qreal {
    bits: u64,
}

impl Qreal {
    /// The bit pattern this scalar carries.
    pub closed spec fn spec_bits(&self) -> u64 {
        self.bits
    }

    /// Wrap a raw bit pattern.
    pub fn from_bits(bits: u64) -> (r: Self)
        ensures
            r.spec_bits() == bits,
    {
        Qreal { bits }
    }

    /// The raw bit pattern, for the boundary conversion back.
    pub fn to_bits(&self) -> (bits: u64)
        ensures
            bits == self.spec_bits(),
    {
        self.bits
    }
}

} // verus!
