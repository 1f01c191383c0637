//! Building blocks of a pairwise Markov Random Field: label/state spaces,
//! a 2D lattice neighborhood, unary and pairwise log-potentials, and a
//! builder that assembles a complete, immutable model.
//!
//! Log-weights are finite-precision values carried as IEEE 754 double bit
//! patterns; the library itself reasons only about the bit patterns, never
//! about floating-point arithmetic.

pub mod error;
pub mod model;
pub mod neighborhood;
pub mod potentials;
pub mod state;
pub mod weight;
