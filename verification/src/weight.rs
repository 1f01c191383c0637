//! Finite-precision weights, carried as IEEE 754 double bit patterns.
//!
//! Verus has no theory of floating-point arithmetic, so this library never
//! computes with floating-point values. A raw affinity weight enters the
//! library as the 64-bit pattern of the double that holds it, and the three
//! floating-point questions the model construction depends on are settled
//! as follows:
//!
//! * whether a weight is strictly negative is decided here, by exact bit
//!   logic on the IEEE 754 encoding;
//! * the log transform of a weight and the tolerance comparison against the
//!   transposed matrix entry are computed by the embedding layer, which owns
//!   the floating-point hardware, and are recorded in a [`WeightCell`].
//!
//! Every structural decision made from those answers — validation order,
//! which error is reported, how the table is laid out and symmetrized — is
//! verified in this crate.

use vstd::prelude::*;

verus! {

/// A raw affinity weight: the bit pattern of the IEEE 754 double holding it.
#[derive(Debug, Clone, Copy, PartialEq, Eq, Structural)]
pub struct Weight {
    pub bits: u64,
}

/// A log-domain value: the bit pattern of the IEEE 754 double holding it.
///
/// The all-zero pattern encodes positive zero, the neutral log-weight.
#[derive(Debug, Clone, Copy, PartialEq, Eq, Structural)]
pub struct LogWeight {
    pub bits: u64,
}

/// Whether the IEEE 754 double with this bit pattern is strictly negative.
///
/// In the IEEE 754 binary64 encoding, the strictly negative values are
/// exactly the patterns above the one for negative zero (`0x8000...0000`)
/// and at most the one for negative infinity (`0xFFF0...0000`); patterns
/// beyond negative infinity are NaNs, which compare negative to nothing.
pub open spec fn weight_is_negative(w: Weight) -> bool {
    w.bits > 0x8000_0000_0000_0000 && w.bits <= 0xFFF0_0000_0000_0000
}

impl Weight {
    /// Whether this weight is strictly negative, decided on the bit pattern.
    pub fn is_negative(&self) -> (r: bool)
        ensures
            r == weight_is_negative(*self),
    {
        self.bits > 0x8000_0000_0000_0000 && self.bits <= 0xFFF0_0000_0000_0000
    }
}

/// One entry of a raw weight matrix, together with the two facts about it
/// that only floating-point arithmetic can produce, supplied by the
/// embedding layer.
#[derive(Debug, Clone, Copy, PartialEq, Eq, Structural)]
pub struct WeightCell {
    /// The raw weight at this matrix position.
    pub raw: Weight,
    /// The log transform of the raw weight: the bits of the natural
    /// logarithm of the weight plus the regularizing epsilon.
    pub log: LogWeight,
    /// Whether the raw weight agrees with the transposed matrix entry
    /// within the symmetry tolerance.
    pub matches_transpose: bool,
}

} // verus!
