//! Saving a run so that it can be taken up again.
use vstd::prelude::*;
use crate::framework::{failure, ArgminError};

verus! {

/// How often a checkpoint is saved.
#[derive(Clone, Copy, Debug, PartialEq, Eq, Structural)]
pub enum CheckpointingFrequency {
    /// Never
    Never,
    /// After every so many iterations
    Every(u64),
    /// After every iteration
    Always,
}

impl CheckpointingFrequency {
    /// Whether a checkpoint is due once `iter` iterations are done: always, or where
    /// `iter` is a multiple of the period, which is then not zero.
    pub open spec fn is_due_spec(self, iter: u64) -> bool {
        match self {
            CheckpointingFrequency::Never => false,
            CheckpointingFrequency::Every(period) => period != 0 && iter % period == 0,
            CheckpointingFrequency::Always => true,
        }
    }

    /// Whether a checkpoint is due once `iter` iterations are done.
    pub fn is_due(self, iter: u64) -> (due: bool)
        ensures
            due == self.is_due_spec(iter),
    {
        match self {
            CheckpointingFrequency::Never => false,
            CheckpointingFrequency::Every(period) => period != 0 && iter % period == 0,
            CheckpointingFrequency::Always => true,
        }
    }
}

impl Default for CheckpointingFrequency {
    fn default() -> (r: Self)
        ensures
            r == CheckpointingFrequency::Always,
    {
        CheckpointingFrequency::Always
    }
}

/// A store that keeps a solver and a state, in whatever medium and format it chooses.
pub trait Checkpoint<S, I> {
    /// What `save` may answer: `failed` is the failure that it answers with, or nothing
    /// where the solver and the state were saved. A store that says nothing here may
    /// answer anything.
    open spec fn save_spec(&self, solver: &S, state: &I, failed: Option<ArgminError>) -> bool {
        true
    }

    /// Saves the solver and the state.
    fn save(&self, solver: &S, state: &I) -> (out: Result<(), ArgminError>)
        ensures
            self.save_spec(solver, state, failure(out)),
    ;

    /// What `load` may hand out. A store that says nothing here may hand out anything.
    open spec fn load_spec(&self, out: Result<Option<(S, I)>, ArgminError>) -> bool {
        true
    }

    /// Hands out what was saved last, if anything was.
    fn load(&self) -> (out: Result<Option<(S, I)>, ArgminError>)
        ensures
            self.load_spec(out),
    ;

    /// How often the executor is to save.
    fn frequency(&self) -> CheckpointingFrequency;
}

} // verus!
