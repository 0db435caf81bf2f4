//! Line searches: solvers that look for a step length along a fixed direction.
use vstd::prelude::*;
use crate::framework::ArgminError;

pub mod hagerzhang;

pub use hagerzhang::{HagerZhangLineSearch, HagerZhangView};

verus! {

/// What a solver asks of a line search before it runs it.
pub trait LineSearch<P, F> {
    /// Set the search direction
    fn set_search_direction(&mut self, direction: P);

    /// Set the initial step length
    fn set_init_alpha(&mut self, step_length: F) -> Result<(), ArgminError>;
}

} // verus!
