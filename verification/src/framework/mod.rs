//! The execution engine: problem, state, solver and executor.
mod checkpointing;
mod errors;
mod executor;
mod float;
mod kv;
mod observers;
mod problem;
mod result;
mod solver;
mod state;
mod termination;

pub use checkpointing::{Checkpoint, CheckpointingFrequency};
pub use errors::ArgminError;
pub use executor::{
    conclude, count_iteration, metrics, metrics_spec, resolve_verdict, time_count, verdict_spec,
    Executor,
};
pub use float::{one, two, zero, ArgminFloat};
pub use kv::{KvValue, KV};
pub use observers::{failure, Observe};
pub use problem::{counted, CostFunction, Gradient, Hessian, Jacobian, Operator, Problem};
pub use result::OptimizationResult;
pub use solver::Solver;
pub use state::{
    lemma_best_cost_never_rises, lemma_gradient_is_taken_once, lemma_termination_is_kept,
    refers_to, slot_cloned, IterState, IterStateView,
};
pub use termination::TerminationReason;
