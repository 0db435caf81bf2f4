//! Solvers.
pub mod linesearch;
