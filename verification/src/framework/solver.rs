//! The lifecycle that every solver offers.
use vstd::prelude::*;
use crate::framework::{ArgminError, Problem, TerminationReason, KV};

verus! {

/// An algorithm that the executor drives: `init` once, then `next_iter` again and
/// again, with `terminate` asked after each of them.
///
/// `O` is the objective and `I` the state of the run. The state is handed over by
/// value and handed back. A failure of `init` or `next_iter` ends the run.
pub trait Solver<O, I> {
    /// Name of the solver
    const NAME: &'static str;

    /// What `terminate` answers for this solver and `state`.
    spec fn verdict(&self, state: &I) -> TerminationReason;

    /// What `init` may do. `self` and `problem` are the solver and the problem before
    /// the call, `next` and `after` after it, and `out` is what the call returns. A
    /// solver that says nothing here may do anything.
    open spec fn init_spec(
        &self,
        problem: &Problem<O>,
        state: &I,
        out: &Result<(I, Option<KV>), ArgminError>,
        next: &Self,
        after: &Problem<O>,
    ) -> bool {
        true
    }

    /// What `next_iter` may do. `self` and `problem` are the solver and the problem
    /// before the call, `next` and `after` after it, and `out` is what the call
    /// returns. A solver that says nothing here may do anything.
    open spec fn next_iter_spec(
        &self,
        problem: &Problem<O>,
        state: &I,
        out: &Result<(I, Option<KV>), ArgminError>,
        next: &Self,
        after: &Problem<O>,
    ) -> bool {
        true
    }

    /// Prepares the solver for a run. The state that is returned may have terminated
    /// already.
    fn init(&mut self, problem: &mut Problem<O>, state: I) -> (out: Result<
        (I, Option<KV>),
        ArgminError,
    >)
        ensures
            old(self).init_spec(old(problem), &state, &out, final(self), final(problem)),
    ;

    /// Computes one iteration of the algorithm.
    fn next_iter(&mut self, problem: &mut Problem<O>, state: I) -> (out: Result<
        (I, Option<KV>),
        ArgminError,
    >)
        ensures
            old(self).next_iter_spec(old(problem), &state, &out, final(self), final(problem)),
    ;

    /// Tells whether the solver is done, and why. The answer depends on the solver and
    /// the state alone, and asking changes neither.
    fn terminate(&self, state: &I) -> (r: TerminationReason)
        ensures
            r == self.verdict(state),
    ;
}

} // verus!
