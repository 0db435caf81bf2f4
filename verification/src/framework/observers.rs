//! Watching a run.
use vstd::prelude::*;
use crate::framework::{ArgminError, KV};

verus! {

/// The failure in an answer, if it is one.
pub open spec fn failure(out: Result<(), ArgminError>) -> Option<ArgminError> {
    match out {
        Ok(_) => None,
        Err(e) => Some(e),
    }
}

/// Someone who is told of the progress of a run. A failure of an observer ends the
/// run.
pub trait Observe<I> {
    /// What `observe_init` may answer, as the observer is before it is told: `failed`
    /// is the failure that it answers with, or nothing where it accepts. An observer
    /// that says nothing here may answer anything.
    open spec fn observe_init_spec(
        &self,
        name: &str,
        kv: &KV,
        failed: Option<ArgminError>,
    ) -> bool {
        true
    }

    /// What `observe_iter` may answer, as the observer is before it is told: `failed`
    /// is the failure that it answers with, or nothing where it accepts. An observer
    /// that says nothing here may answer anything.
    open spec fn observe_iter_spec(
        &self,
        state: &I,
        kv: &KV,
        failed: Option<ArgminError>,
    ) -> bool {
        true
    }

    /// Called once, after the solver was initialized, with the name of the solver and
    /// what its `init` reported.
    fn observe_init(&mut self, name: &str, kv: &KV) -> (out: Result<(), ArgminError>)
        ensures
            old(self).observe_init_spec(name, kv, failure(out)),
    ;

    /// Called once after every iteration, with the state as it is then and the record
    /// of the iteration.
    fn observe_iter(&mut self, state: &I, kv: &KV) -> (out: Result<(), ArgminError>)
        ensures
            old(self).observe_iter_spec(state, kv, failure(out)),
    ;
}

} // verus!
