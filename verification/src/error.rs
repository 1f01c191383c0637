//! Validation errors raised while constructing model components.
//!
//! All errors are structural: they are detected eagerly at construction
//! time and returned to the immediate caller. Evaluation of a built model
//! never fails.

use vstd::prelude::*;
use crate::weight::Weight;

verus! {

/// An input-validation failure during model construction.
#[derive(Debug, Clone, Copy, PartialEq, Eq, Structural)]
pub enum MrfError {
    /// A weight matrix entry disagrees with its transpose beyond tolerance.
    AsymmetricMatrix { row: usize, col: usize },
    /// A weight matrix row's length disagrees with the matrix's size.
    DimensionMismatch { expected: usize, got: usize },
    /// A raw weight is negative; weights are non-negative affinities.
    NegativeWeight { row: usize, col: usize, value: Weight },
    /// Zero labels were supplied to a pairwise weight matrix.
    EmptyStateSpace,
}

impl MrfError {
    /// A short description of the error.
    pub fn message(&self) -> (r: &'static str)
        ensures
            r@ == match *self {
                MrfError::AsymmetricMatrix { .. } => "Asymmetric Matrix Error"@,
                MrfError::DimensionMismatch { .. } => "Dimension Mismatch Error"@,
                MrfError::NegativeWeight { .. } => "Negative Weight Error"@,
                MrfError::EmptyStateSpace => "Empty StateSpace Error"@,
            },
    {
        match self {
            MrfError::AsymmetricMatrix { .. } => "Asymmetric Matrix Error",
            MrfError::DimensionMismatch { .. } => "Dimension Mismatch Error",
            MrfError::NegativeWeight { .. } => "Negative Weight Error",
            MrfError::EmptyStateSpace => "Empty StateSpace Error",
        }
    }
}

} // verus!
