//! What a run hands back.
use vstd::prelude::*;
use crate::framework::Problem;

verus! {

/// The outcome of a run: the problem with its evaluation counts, the solver, and the
/// state in which the run ended.
pub struct OptimizationResult<O, S, I> {
    /// The problem, with the number of evaluations that the run has made
    pub problem: Problem<O>,
    /// The solver
    pub solver: S,
    /// The state in which the run ended
    pub state: I,
}

impl<O, S, I> OptimizationResult<O, S, I> {
    /// Puts the three together.
    pub fn new(problem: Problem<O>, solver: S, state: I) -> (r: Self)
        ensures
            r == (OptimizationResult { problem, solver, state }),
    {
        OptimizationResult { problem, solver, state }
    }

    /// The problem, with the number of evaluations that the run has made.
    pub fn problem(&self) -> (p: &Problem<O>)
        ensures
            *p == self.problem,
    {
        &self.problem
    }

    /// The solver.
    pub fn solver(&self) -> (s: &S)
        ensures
            *s == self.solver,
    {
        &self.solver
    }

    /// The state in which the run ended.
    pub fn state(&self) -> (s: &I)
        ensures
            *s == self.state,
    {
        &self.state
    }
}

} // verus!
