//! Potential functions: per-node (unary) and per-edge (pairwise)
//! log-weight tables.

pub mod pairwise;
pub mod unary;

pub use pairwise::{MatrixPairwise, PairwisePotential};
pub use unary::{NoUnary, SpatialUnary, UniformUnary, UnaryPotential};
