//! The executor: runs a solver on a problem until a verdict is reached.
use vstd::prelude::*;
use crate::framework::{
    ArgminError, ArgminFloat, Checkpoint, IterState, IterStateView, KvValue, Observe,
    OptimizationResult, Problem, Solver, TerminationReason, KV,
};

verus! {

/// The monotonic clock of the standard library.
#[verifier::external_type_specification]
#[verifier::external_body]
pub struct ExInstant(std::time::Instant);

/// Reads the clock through `std::time::Instant::now`. Nothing is claimed of the
/// reading.
#[verifier::external_body]
fn clock_now() -> std::time::Instant {
    std::time::Instant::now()
}

/// The time since `start` through `std::time::Instant::elapsed`. Nothing is claimed of
/// it.
#[verifier::external_body]
fn clock_elapsed(start: &std::time::Instant) -> core::time::Duration {
    start.elapsed()
}

/// A span of time in nanoseconds through `core::time::Duration::as_nanos`. Nothing is
/// claimed of the number.
#[verifier::external_body]
fn nanoseconds(span: &core::time::Duration) -> u128 {
    span.as_nanos()
}

/// The verdict on a run. What the solver says goes first. Where the solver goes on,
/// the run stops where `max_iters` iterations are done, where the time that has
/// passed has reached `max_time`, or where the best cost is at or below the target
/// cost, tried in this order. Else the run goes on.
pub open spec fn verdict_spec<F: ArgminFloat>(
    solver: TerminationReason,
    iter: u64,
    max_iters: u64,
    time: Option<u128>,
    max_time: Option<u128>,
    best_cost: F,
    target_cost: F,
) -> TerminationReason {
    if solver.terminated() {
        solver
    } else if iter >= max_iters {
        TerminationReason::MaxItersReached
    } else if time is Some && max_time is Some && time->0 >= max_time->0 {
        TerminationReason::MaxTimeReached
    } else if best_cost.le_spec(target_cost) {
        TerminationReason::TargetCostReached
    } else {
        TerminationReason::NotTerminated
    }
}

/// Resolves the verdict on a run from what the solver says and from the budgets.
pub fn resolve_verdict<F: ArgminFloat>(
    solver: TerminationReason,
    iter: u64,
    max_iters: u64,
    time: Option<u128>,
    max_time: Option<u128>,
    best_cost: F,
    target_cost: F,
) -> (r: TerminationReason)
    ensures
        r == verdict_spec(solver, iter, max_iters, time, max_time, best_cost, target_cost),
{
    if solver.terminated() {
        return solver;
    }
    if iter >= max_iters {
        return TerminationReason::MaxItersReached;
    }
    match (time, max_time) {
        (Some(passed), Some(budget)) => {
            if passed >= budget {
                return TerminationReason::MaxTimeReached;
            }
        },
        _ => {},
    }
    if best_cost.le(target_cost) {
        return TerminationReason::TargetCostReached;
    }
    TerminationReason::NotTerminated
}

/// The time in nanoseconds as a count for the record: a time beyond the largest count
/// is shown as the largest count.
pub open spec fn time_count(nanos: u128) -> u64 {
    if nanos > u64::MAX as u128 {
        u64::MAX
    } else {
        nanos as u64
    }
}

/// What the executor reports of every iteration, before what the solver reports: the
/// number of iterations done, the time that has passed if it is measured, and how often
/// each capability of the objective was evaluated.
pub open spec fn metrics_spec<O>(iter: u64, time: Option<u128>, problem: Problem<O>) -> Seq<
    (&'static str, KvValue),
> {
    let head = seq![("iter", KvValue::Uint(iter))];
    let timed = match time {
        Some(nanos) => head.push(("time", KvValue::Uint(time_count(nanos)))),
        None => head,
    };
    timed.push(("cost_count", KvValue::Uint(problem.cost_count))).push(
        ("gradient_count", KvValue::Uint(problem.gradient_count)),
    ).push(("hessian_count", KvValue::Uint(problem.hessian_count))).push(
        ("jacobian_count", KvValue::Uint(problem.jacobian_count)),
    ).push(("operator_count", KvValue::Uint(problem.operator_count)))
}

/// The record of the executor's own metrics.
pub fn metrics<O>(iter: u64, time: Option<u128>, problem: &Problem<O>) -> (r: KV)
    ensures
        r.kv@ == metrics_spec(iter, time, *problem),
{
    let mut kv = KV::new();
    kv.push("iter", KvValue::Uint(iter));
    match time {
        Some(nanos) => {
            let count: u64 = if nanos > u64::MAX as u128 {
                u64::MAX
            } else {
                nanos as u64
            };
            kv.push("time", KvValue::Uint(count));
        },
        None => {},
    }
    kv.push("cost_count", KvValue::Uint(problem.cost_count));
    kv.push("gradient_count", KvValue::Uint(problem.gradient_count));
    kv.push("hessian_count", KvValue::Uint(problem.hessian_count));
    kv.push("jacobian_count", KvValue::Uint(problem.jacobian_count));
    kv.push("operator_count", KvValue::Uint(problem.operator_count));
    kv
}

/// Counts the iteration that a solver has computed. `next` is the state that the
/// solver handed back for the iteration that began at the count `expected_iter`, and
/// `time` is the time that has passed since the run began. A solver that handed back a
/// state with another count has made a `PotentialBug`; else the state comes back with
/// one iteration more and the time set.
pub fn count_iteration<P, G, J, H, F: ArgminFloat>(
    next: IterState<P, G, J, H, F>,
    expected_iter: u64,
    time: Option<u128>,
) -> (r: Result<IterState<P, G, J, H, F>, ArgminError>)
    requires
        expected_iter < u64::MAX,
    ensures
        match r {
            Ok(s) => next@.iter == expected_iter && s@ == (IterStateView {
                iter: (expected_iter + 1) as u64,
                time,
                ..next@
            }),
            Err(e) => next@.iter != expected_iter && e is PotentialBug,
        },
{
    let mut state = next;
    if state.get_iter() != expected_iter {
        return Err(
            ArgminError::potential_bug("Executor: the solver changed the iteration count."),
        );
    }
    state.increment_iter();
    state.time(time);
    Ok(state)
}

/// Resolves the verdict on `state` as [`verdict_spec`] says, from the answer of the
/// solver and the budgets, and gives it to the state. A state that has terminated
/// already keeps its reason.
pub fn conclude<P, G, J, H, F: ArgminFloat>(
    state: IterState<P, G, J, H, F>,
    solver_verdict: TerminationReason,
    max_iters: u64,
    max_time: Option<u128>,
) -> (r: IterState<P, G, J, H, F>)
    ensures
        r@ == state@.terminated_with(
            verdict_spec(
                solver_verdict,
                state@.iter,
                max_iters,
                state@.time,
                max_time,
                state@.best_cost,
                state@.target_cost,
            ),
        ),
{
    let verdict = resolve_verdict(
        solver_verdict,
        state.get_iter(),
        max_iters,
        state.get_time(),
        max_time,
        state.get_best_cost(),
        state.get_target_cost(),
    );
    state.terminate_with(verdict)
}

/// An observer that was added to an executor.
struct Registered<W> {
    observer: W,
}

impl<W> Registered<W> {
    /// Takes an observer into the list of an executor.
    fn new(observer: W) -> (r: Self)
        ensures
            r == (Registered { observer }),
            r.observer == observer,
    {
        Registered { observer }
    }
}

impl<I> Registered<Box<dyn Observe<I>>> {
    /// What the observer may answer when it is told that the solver named `name` was
    /// initialized.
    spec fn told_init(self, name: &str, kv: &KV, failed: Option<ArgminError>) -> bool {
        self.observer.observe_init_spec(name, kv, failed)
    }

    /// What the observer may answer when it is told of an iteration.
    spec fn told_iter(self, state: &I, kv: &KV, failed: Option<ArgminError>) -> bool {
        self.observer.observe_iter_spec(state, kv, failed)
    }
}

/// Runs a solver on a problem: initializes it, lets it iterate until a verdict is
/// reached, tells the observers of every iteration and saves checkpoints.
#[verifier::reject_recursive_types(S)]
#[verifier::reject_recursive_types(P)]
#[verifier::reject_recursive_types(G)]
#[verifier::reject_recursive_types(J)]
#[verifier::reject_recursive_types(H)]
#[verifier::reject_recursive_types(F)]
pub struct Executor<O, S, P, G, J, H, F: ArgminFloat> {
    /// Solver
    solver: S,
    /// Problem
    problem: Problem<O>,
    /// State
    state: IterState<P, G, J, H, F>,
    /// Observers, told in the order in which they were added
    observers: Vec<Registered<Box<dyn Observe<IterState<P, G, J, H, F>>>>>,
    /// Checkpoint store
    checkpoint: Option<Box<dyn Checkpoint<S, IterState<P, G, J, H, F>>>>,
    /// Whether the time is measured
    timer: bool,
    /// The budget of time in nanoseconds
    max_time: Option<u128>,
}

impl<O, S, P, G, J, H, F> Executor<O, S, P, G, J, H, F> where
    S: Solver<O, IterState<P, G, J, H, F>>,
    F: ArgminFloat,
 {
    /// The solver.
    pub closed spec fn solver(&self) -> S {
        self.solver
    }

    /// The problem.
    pub closed spec fn problem(&self) -> Problem<O> {
        self.problem
    }

    /// The state with which the run begins.
    pub closed spec fn state(&self) -> IterState<P, G, J, H, F> {
        self.state
    }

    /// The number of observers.
    pub closed spec fn observers(&self) -> nat {
        self.observers@.len()
    }

    /// Whether a checkpoint store is set.
    pub closed spec fn has_checkpoint(&self) -> bool {
        self.checkpoint is Some
    }

    /// What the observer that was added as number `i` may answer to the news that the
    /// solver named `name` was initialized, as the observer is in this executor:
    /// `failed` is the failure that it answers with, or nothing where it accepts.
    pub closed spec fn observer_init(
        &self,
        i: int,
        name: &str,
        kv: &KV,
        failed: Option<ArgminError>,
    ) -> bool {
        self.observers@[i].told_init(name, kv, failed)
    }

    /// What the observer that was added as number `i` may answer to the news of an
    /// iteration, as the observer is in this executor.
    pub closed spec fn observer_iter(
        &self,
        i: int,
        state: &IterState<P, G, J, H, F>,
        kv: &KV,
        failed: Option<ArgminError>,
    ) -> bool {
        self.observers@[i].told_iter(state, kv, failed)
    }

    /// What the checkpoint store of this executor may answer when it is to save
    /// `solver` and `state`. Without a store there is no answer.
    pub closed spec fn store_save(
        &self,
        solver: &S,
        state: &IterState<P, G, J, H, F>,
        failed: Option<ArgminError>,
    ) -> bool {
        self.checkpoint matches Some(store) && store.save_spec(solver, state, failed)
    }

    /// What the checkpoint store of this executor may hand out. Without a store
    /// nothing is handed out.
    pub closed spec fn store_load(
        &self,
        out: Result<Option<(S, IterState<P, G, J, H, F>)>, ArgminError>,
    ) -> bool {
        self.checkpoint matches Some(store) && store.load_spec(out)
    }

    /// The first `n` observers of this executor are those of `other`: each answers as
    /// its like there does.
    pub open spec fn observers_of(&self, other: Self, n: nat) -> bool {
        &&& forall|i: int, name: &str, kv: &KV, failed: Option<ArgminError>|
            0 <= i < n ==> #[trigger] self.observer_init(i, name, kv, failed)
                == other.observer_init(i, name, kv, failed)
        &&& forall|
            i: int,
            state: &IterState<P, G, J, H, F>,
            kv: &KV,
            failed: Option<ArgminError>,
        |
            0 <= i < n ==> #[trigger] self.observer_iter(i, state, kv, failed)
                == other.observer_iter(i, state, kv, failed)
    }

    /// This executor has the checkpoint store of `other`, or like it has none.
    pub open spec fn store_of(&self, other: Self) -> bool {
        &&& self.has_checkpoint() == other.has_checkpoint()
        &&& forall|solver: &S, state: &IterState<P, G, J, H, F>, failed: Option<ArgminError>| #[trigger]
            self.store_save(solver, state, failed) == other.store_save(solver, state, failed)
        &&& forall|out: Result<Option<(S, IterState<P, G, J, H, F>)>, ArgminError>| #[trigger]
            self.store_load(out) == other.store_load(out)
    }

    /// Whether the time is measured.
    pub closed spec fn timed(&self) -> bool {
        self.timer
    }

    /// The budget of time in nanoseconds.
    pub closed spec fn time_budget(&self) -> Option<u128> {
        self.max_time
    }

    /// This executor has the problem, the observers, the checkpoint store or the want
    /// of one, and the settings of time that `other` has.
    pub open spec fn rest_of(&self, other: Self) -> bool {
        &&& self.problem() == other.problem()
        &&& self.observers() == other.observers()
        &&& self.observers_of(other, other.observers())
        &&& self.store_of(other)
        &&& self.timed() == other.timed()
        &&& self.time_budget() == other.time_budget()
    }

    /// The state `last` after the verdict on it was resolved and given to it: the
    /// verdict is what [`verdict_spec`] makes of the answer of the solver and of the
    /// budgets, and a state that has terminated already keeps its reason.
    pub open spec fn concluded(
        solver: S,
        last: IterState<P, G, J, H, F>,
        max_iters: u64,
        max_time: Option<u128>,
    ) -> IterStateView<P, G, J, H, F> {
        last@.terminated_with(
            verdict_spec(
                solver.verdict(&last),
                last@.iter,
                max_iters,
                last@.time,
                max_time,
                last@.best_cost,
                last@.target_cost,
            ),
        )
    }

    /// What the solver of this executor may do when a run initializes it: `out` is what
    /// its `init` may return for the problem and the state of this executor.
    pub open spec fn initialized_with(
        &self,
        out: Result<(IterState<P, G, J, H, F>, Option<KV>), ArgminError>,
    ) -> bool {
        exists|next: S, after: Problem<O>| #[trigger]
            self.solver().init_spec(&self.problem(), &self.state(), &out, &next, &after)
    }

    /// `state` is a state that a run of this executor may reach, with `solver` and
    /// `problem` as they are then. It is a state with the verdict on it resolved and
    /// given to it, as [`Self::concluded`] says. That state is one of: the state with
    /// which the run began, where it was taken up beyond iteration zero, with the
    /// solver and the problem untouched; a state that the solver's `init` hands back
    /// for the problem and the state of this executor, at iteration zero; or a state
    /// that `next_iter` hands back for a state that the run has reached and that has
    /// not terminated, with the iteration count that it was given, and then with one
    /// iteration more counted and the time set. `solver` and `problem` are the solver
    /// and the problem as that call left them.
    pub open spec fn reaches(
        &self,
        solver: S,
        problem: Problem<O>,
        state: IterState<P, G, J, H, F>,
    ) -> bool
        decreases state@.iter,
    {
        exists|last: IterState<P, G, J, H, F>|
            state@ == #[trigger] Self::concluded(
                solver,
                last,
                self.state()@.max_iters,
                self.time_budget(),
            ) && {
                ||| self.state()@.iter != 0 && last == self.state() && solver == self.solver()
                    && problem == self.problem()
                ||| self.state()@.iter == 0 && last@.iter == 0 && exists|kv: Option<KV>| #[trigger]
                    self.solver().init_spec(
                        &self.problem(),
                        &self.state(),
                        &Ok((last, kv)),
                        &solver,
                        &problem,
                    )
                ||| exists|
                    before: S,
                    given: Problem<O>,
                    earlier: IterState<P, G, J, H, F>,
                    out: (IterState<P, G, J, H, F>, Option<KV>),
                |
                    {
                        &&& earlier@.iter < state@.iter
                        &&& self.reaches(before, given, earlier)
                        &&& !earlier@.termination_reason.terminated()
                        &&& #[trigger] before.next_iter_spec(
                            &given,
                            &earlier,
                            &Ok(out),
                            &solver,
                            &problem,
                        )
                        &&& out.0@.iter == earlier@.iter
                        &&& last@ == (IterStateView {
                            iter: (earlier@.iter + 1) as u64,
                            time: last@.time,
                            ..out.0@
                        })
                    }
            }
    }

    /// `e` is a failure with which a run of this executor may be given up. It is one of:
    /// a failure of the solver's `init` on the problem and the state of this executor;
    /// a failure with which one of the observers answers the news of the
    /// initialization, with the name of the solver and what `init` reported or an
    /// empty record; a failure of `next_iter` on a state that the run has reached and
    /// that has not terminated; a failure with which an observer answers the news of
    /// an iteration, with a state that the run has reached and a record that begins
    /// with the metrics of that iteration; a failure of the checkpoint store of this
    /// executor when it is to save a solver and a state that the run has reached; or
    /// the `PotentialBug` of a solver whose `init` or `next_iter` hands back a state
    /// with another iteration count than the one it was given. The first two and the
    /// `PotentialBug` of `init` are for a run that begins at iteration zero.
    pub open spec fn gives_up_with(&self, e: ArgminError) -> bool {
        ||| self.state()@.iter == 0 && self.initialized_with(Err(e))
        ||| self.state()@.iter == 0 && exists|
            i: int,
            out: (IterState<P, G, J, H, F>, Option<KV>),
            kv: KV,
        |
            #![trigger self.initialized_with(Ok(out)), self.observer_init(i, S::NAME, &kv, Some(e))]
            {
                &&& 0 <= i < self.observers()
                &&& self.initialized_with(Ok(out))
                &&& kv.kv@ == match out.1 {
                    Some(reported) => reported.kv@,
                    None => Seq::empty(),
                }
                &&& self.observer_init(i, S::NAME, &kv, Some(e))
            }
        ||| exists|
            solver: S,
            problem: Problem<O>,
            state: IterState<P, G, J, H, F>,
            next: S,
            after: Problem<O>,
        |
            {
                &&& #[trigger] solver.next_iter_spec(&problem, &state, &Err(e), &next, &after)
                &&& self.reaches(solver, problem, state)
                &&& !state@.termination_reason.terminated()
            }
        ||| exists|
            watcher: Box<dyn Observe<IterState<P, G, J, H, F>>>,
            solver: S,
            problem: Problem<O>,
            state: IterState<P, G, J, H, F>,
            kv: KV,
        |
            #![trigger watcher.observe_iter_spec(&state, &kv, Some(e)), self.reaches(solver, problem, state)]
            {
                &&& self.reaches(solver, problem, state)
                &&& metrics_spec(state@.iter, state@.time, problem).is_prefix_of(kv.kv@)
                &&& watcher.observe_iter_spec(&state, &kv, Some(e))
            }
        ||| exists|solver: S, problem: Problem<O>, state: IterState<P, G, J, H, F>|
            #![trigger self.store_save(&solver, &state, Some(e)), self.reaches(solver, problem, state)]
            self.reaches(solver, problem, state) && self.store_save(&solver, &state, Some(e))
        ||| e is PotentialBug && self.state()@.iter == 0 && exists|
            out: (IterState<P, G, J, H, F>, Option<KV>),
        | #[trigger]
            self.initialized_with(Ok(out)) && out.0@.iter != 0
        ||| e is PotentialBug && exists|
            solver: S,
            problem: Problem<O>,
            state: IterState<P, G, J, H, F>,
            out: (IterState<P, G, J, H, F>, Option<KV>),
            next: S,
            after: Problem<O>,
        |
            {
                &&& #[trigger] solver.next_iter_spec(&problem, &state, &Ok(out), &next, &after)
                &&& self.reaches(solver, problem, state)
                &&& !state@.termination_reason.terminated()
                &&& out.0@.iter != state@.iter
            }
    }

    /// An executor for `solver` on `problem`: a state in which nothing is set, no
    /// evaluation counted, no observer, no checkpoint store, the time measured and not
    /// bounded.
    pub fn new(problem: O, solver: S) -> (r: Self)
        ensures
            r.solver() == solver,
            r.problem() == Problem::fresh(problem),
            r.state()@ == IterStateView::<P, G, J, H, F>::initial(),
            r.observers() == 0,
            !r.has_checkpoint(),
            r.timed(),
            r.time_budget() is None,
    {
        Executor {
            solver,
            problem: Problem::new(problem),
            state: IterState::new(),
            observers: Vec::new(),
            checkpoint: None,
            timer: true,
            max_time: None,
        }
    }

    /// Lets `init` set up the state with which the run begins: the parameter vector,
    /// the budget of iterations, the target cost.
    pub fn configure<FN: FnOnce(IterState<P, G, J, H, F>) -> IterState<P, G, J, H, F>>(
        self,
        init: FN,
    ) -> (r: Self)
        requires
            init.requires((self.state(),)),
        ensures
            init.ensures((self.state(),), r.state()),
            r.solver() == self.solver(),
            r.rest_of(self),
    {
        let Executor { solver, problem, state, observers, checkpoint, timer, max_time } = self;
        let state = init(state);
        Executor { solver, problem, state, observers, checkpoint, timer, max_time }
    }

    /// Adds an observer. It is told after those that were added before it, which stay
    /// as they are, and it answers in this executor as it would by itself.
    pub fn add_observer(self, observer: Box<dyn Observe<IterState<P, G, J, H, F>>>) -> (r: Self)
        ensures
            r.observers() == self.observers() + 1,
            r.observers_of(self, self.observers()),
            forall|name: &str, kv: &KV, failed: Option<ArgminError>| #[trigger]
                r.observer_init(self.observers() as int, name, kv, failed)
                    == observer.observe_init_spec(name, kv, failed),
            forall|state: &IterState<P, G, J, H, F>, kv: &KV, failed: Option<ArgminError>| #[trigger]
                r.observer_iter(self.observers() as int, state, kv, failed)
                    == observer.observe_iter_spec(state, kv, failed),
            r.solver() == self.solver(),
            r.problem() == self.problem(),
            r.state() == self.state(),
            r.store_of(self),
            r.timed() == self.timed(),
            r.time_budget() == self.time_budget(),
    {
        let Executor { solver, problem, state, observers, checkpoint, timer, max_time } = self;
        let mut observers = observers;
        let ghost fewer = observers@;
        let added = Registered::new(observer);
        observers.push(added);
        assert(observers@[fewer.len() as int] == added);
        Executor { solver, problem, state, observers, checkpoint, timer, max_time }
    }

    /// The executor after it has taken up what a checkpoint store handed out: where a
    /// solver and a state were handed out, the run begins with them, and all else is
    /// as it was. A failure to load is handed on.
    pub fn take_up(
        self,
        loaded: Result<Option<(S, IterState<P, G, J, H, F>)>, ArgminError>,
    ) -> (r: Result<Self, ArgminError>)
        ensures
            match loaded {
                Ok(Some((solver, state))) => r matches Ok(executor) && executor.solver() == solver
                    && executor.state() == state && executor.rest_of(self),
                Ok(None) => r matches Ok(executor) && executor.solver() == self.solver()
                    && executor.state() == self.state() && executor.rest_of(self),
                Err(e) => r matches Err(failed) && failed == e,
            },
    {
        let Executor { solver, problem, state, observers, checkpoint, timer, max_time } = self;
        match loaded {
            Ok(Some((kept_solver, kept_state))) => Ok(
                Executor {
                    solver: kept_solver,
                    problem,
                    state: kept_state,
                    observers,
                    checkpoint,
                    timer,
                    max_time,
                },
            ),
            Ok(None) => Ok(
                Executor { solver, problem, state, observers, checkpoint, timer, max_time },
            ),
            Err(e) => Err(e),
        }
    }

    /// Sets the checkpoint store and takes up what it holds, as [`Self::take_up`] says
    /// of what the store hands out: where a solver and a state were saved, the run
    /// begins with them. The store of the executor is then `checkpoint`: it answers in
    /// the executor as `checkpoint` would by itself. A failure to load is handed on,
    /// and the executor is gone.
    pub fn checkpointing(
        self,
        checkpoint: Box<dyn Checkpoint<S, IterState<P, G, J, H, F>>>,
    ) -> (r: Result<Self, ArgminError>)
        ensures
            match r {
                Ok(executor) => {
                    &&& executor.has_checkpoint()
                    &&& forall|
                        solver: &S,
                        state: &IterState<P, G, J, H, F>,
                        failed: Option<ArgminError>,
                    | #[trigger]
                        executor.store_save(solver, state, failed) == checkpoint.save_spec(
                            solver,
                            state,
                            failed,
                        )
                    &&& forall|out: Result<Option<(S, IterState<P, G, J, H, F>)>, ArgminError>| #[trigger]
                        executor.store_load(out) == checkpoint.load_spec(out)
                    &&& executor.problem() == self.problem()
                    &&& executor.observers() == self.observers()
                    &&& executor.observers_of(self, self.observers())
                    &&& executor.timed() == self.timed()
                    &&& executor.time_budget() == self.time_budget()
                    &&& {
                        ||| checkpoint.load_spec(Ok(None)) && executor.solver() == self.solver()
                            && executor.state() == self.state()
                        ||| checkpoint.load_spec(Ok(Some((executor.solver(), executor.state()))))
                    }
                },
                Err(e) => checkpoint.load_spec(Err(e)),
            },
    {
        let loaded = checkpoint.load();
        match self.take_up(loaded) {
            Ok(executor) => {
                let Executor { solver, problem, state, observers, checkpoint: _, timer, max_time } =
                    executor;
                let store = Some(checkpoint);
                assert(store->0 == checkpoint);
                let r = Executor {
                    solver,
                    problem,
                    state,
                    observers,
                    checkpoint: store,
                    timer,
                    max_time,
                };
                assert(r.observers_of(self, self.observers())) by {
                    assert forall|i: int, name: &str, kv: &KV, failed: Option<ArgminError>|
                        0 <= i < self.observers() implies #[trigger] r.observer_init(
                        i,
                        name,
                        kv,
                        failed,
                    ) == self.observer_init(i, name, kv, failed) by {
                        assert(r.observer_init(i, name, kv, failed) == executor.observer_init(
                            i,
                            name,
                            kv,
                            failed,
                        ));
                    }
                    assert forall|
                        i: int,
                        state: &IterState<P, G, J, H, F>,
                        kv: &KV,
                        failed: Option<ArgminError>,
                    |
                        0 <= i < self.observers() implies #[trigger] r.observer_iter(
                        i,
                        state,
                        kv,
                        failed,
                    ) == self.observer_iter(i, state, kv, failed) by {
                        assert(r.observer_iter(i, state, kv, failed) == executor.observer_iter(
                            i,
                            state,
                            kv,
                            failed,
                        ));
                    }
                }
                Ok(r)
            },
            Err(e) => Err(e),
        }
    }

    /// Turns the measuring of time on or off. Without it no time is recorded and the
    /// budget of time never runs out.
    pub fn timer(self, timer: bool) -> (r: Self)
        ensures
            r.timed() == timer,
            r.solver() == self.solver(),
            r.problem() == self.problem(),
            r.state() == self.state(),
            r.observers() == self.observers(),
            r.observers_of(self, self.observers()),
            r.store_of(self),
            r.time_budget() == self.time_budget(),
    {
        let mut executor = self;
        executor.timer = timer;
        executor
    }

    /// Sets the budget of time in nanoseconds, or takes it away.
    pub fn max_time(self, max_time: Option<u128>) -> (r: Self)
        ensures
            r.time_budget() == max_time,
            r.solver() == self.solver(),
            r.problem() == self.problem(),
            r.state() == self.state(),
            r.observers() == self.observers(),
            r.observers_of(self, self.observers()),
            r.store_of(self),
            r.timed() == self.timed(),
    {
        let mut executor = self;
        executor.max_time = max_time;
        executor
    }

    /// Runs the solver until a verdict is reached.
    ///
    /// A run that begins at iteration zero initializes the solver first and tells the
    /// observers of it; a run that was taken up from a checkpoint goes on where it was.
    /// Then the verdict is resolved, and as long as it is to go on: the solver computes
    /// an iteration, the iteration is counted, the time is read, the verdict is
    /// resolved as [`verdict_spec`] says and given to the state, every observer is told,
    /// and a checkpoint is saved where one is due. The budget of iterations is the one
    /// that the state has when the run begins.
    ///
    /// The run is given up with the failure of a solver, an objective, an observer or
    /// the checkpoint store, as it came; and with a `PotentialBug` where a solver hands
    /// back a state with another iteration count than the one it was given:
    /// [`Self::gives_up_with`] holds of every failure. A run that begins at iteration
    /// zero and whose solver fails to initialize is given up with that failure.
    ///
    /// The state of a run that comes to its end has terminated, no iteration was made
    /// beyond the budget, and the state is the last state that the solver handed back
    /// (or, where the solver was never called, the state with which the run began), as
    /// [`Self::reaches`] says, with the verdict of the solver that is returned. A run
    /// that is taken up from a state on which the verdict is terminal already comes to
    /// its end at once, with nothing evaluated and nobody told.
    #[verifier::loop_isolation(false)]
    pub fn run(self) -> (r: Result<
        OptimizationResult<O, S, IterState<P, G, J, H, F>>,
        ArgminError,
    >)
        ensures
            r matches Ok(res) ==> {
                &&& res.state@.termination_reason.terminated()
                &&& res.state@.iter <= self.state()@.max_iters || res.state@.iter
                    == self.state()@.iter
                &&& self.reaches(res.solver, res.problem, res.state)
            },
            self.state()@.iter != 0 && Self::concluded(
                self.solver(),
                self.state(),
                self.state()@.max_iters,
                self.time_budget(),
            ).termination_reason.terminated() ==> {
                &&& r matches Ok(res)
                &&& res.state@ == Self::concluded(
                    self.solver(),
                    self.state(),
                    self.state()@.max_iters,
                    self.time_budget(),
                )
                &&& res.solver == self.solver()
                &&& res.problem == self.problem()
            },
            self.state()@.iter == 0 ==> exists|
                out: Result<(IterState<P, G, J, H, F>, Option<KV>), ArgminError>,
            |
                {
                    &&& #[trigger] self.initialized_with(out)
                    &&& out matches Err(e) ==> r matches Err(failed) && failed == e
                },
            r matches Err(e) ==> self.gives_up_with(e),
    {
        let Executor { solver, problem, state, observers, checkpoint, timer, max_time } = self;
        let mut solver = solver;
        let mut problem = problem;
        let mut observers = observers;
        let start = if timer {
            Some(clock_now())
        } else {
            None
        };
        let max_iters = state.get_max_iters();
        let first_iter = state.get_iter();

        let mut state = if first_iter == 0 {
            let out = solver.init(&mut problem, state);
            assert(self.solver().init_spec(&self.problem(), &self.state(), &out, &solver, &problem));
            assert(self.initialized_with(out));
            let (state, kv) = match out {
                Ok(initialized) => initialized,
                Err(e) => {
                    return Err(e);
                },
            };
            if state.get_iter() != 0 {
                return Err(
                    ArgminError::potential_bug("Executor: the solver changed the iteration count."),
                );
            }
            let kv = match kv {
                Some(kv) => kv,
                None => KV::new(),
            };
            match notify_init(&mut observers, S::NAME, &kv) {
                Ok(()) => {},
                Err(e) => {
                    let ghost i = choose|i: int|
                        0 <= i < self.observers@.len() && (#[trigger] self.observers@[i]).told_init(
                            S::NAME,
                            &kv,
                            Some(e),
                        );
                    assert(self.observer_init(i, S::NAME, &kv, Some(e)));
                    return Err(e);
                },
            }
            state
        } else {
            state
        };

        let mut iter = first_iter;
        let ghost unresolved = state;
        let ghost at_its_end = first_iter != 0 && Self::concluded(
            self.solver(),
            self.state(),
            max_iters,
            max_time,
        ).termination_reason.terminated();
        let answer = solver.terminate(&state);
        state = conclude(state, answer, max_iters, max_time);
        assert(state@ == Self::concluded(solver, unresolved, max_iters, max_time));
        assert(self.reaches(solver, problem, state));

        while !state.terminated()
            invariant
                state@.iter == iter,
                !state@.termination_reason.terminated() ==> iter < max_iters,
                iter <= max_iters || iter == first_iter,
                self.reaches(solver, problem, state),
                at_its_end ==> {
                    &&& state@ == Self::concluded(
                        self.solver(),
                        self.state(),
                        max_iters,
                        max_time,
                    )
                    &&& state@.termination_reason.terminated()
                    &&& solver == self.solver()
                    &&& problem == self.problem()
                },
            decreases max_iters - iter,
        {
            let ghost before = (solver, problem, state);
            let out = solver.next_iter(&mut problem, state);
            assert(before.0.next_iter_spec(&before.1, &before.2, &out, &solver, &problem));
            let (next, kv) = match out {
                Ok(stepped) => stepped,
                Err(e) => {
                    return Err(e);
                },
            };
            let time = match &start {
                Some(start) => Some(nanoseconds(&clock_elapsed(start))),
                None => None,
            };
            state = match count_iteration(next, iter, time) {
                Ok(counted) => counted,
                Err(e) => {
                    return Err(e);
                },
            };
            iter = iter + 1;

            let mut log = metrics(iter, time, &problem);
            match kv {
                Some(kv) => {
                    log = log.merge(kv);
                },
                None => {},
            }
            assert(metrics_spec(iter, time, problem).is_prefix_of(log.kv@));

            let ghost unresolved = state;
            let answer = solver.terminate(&state);
            state = conclude(state, answer, max_iters, max_time);
            assert(state@ == Self::concluded(solver, unresolved, max_iters, max_time));
            assert(self.reaches(solver, problem, state));

            let ghost watchers = observers@;
            match notify_iter(&mut observers, &state, &log) {
                Ok(()) => {},
                Err(e) => {
                    let ghost i = choose|i: int|
                        0 <= i < watchers.len() && (#[trigger] watchers[i]).told_iter(
                            &state,
                            &log,
                            Some(e),
                        );
                    assert(watchers[i].observer.observe_iter_spec(&state, &log, Some(e)));
                    return Err(e);
                },
            }

            match &checkpoint {
                Some(store) => {
                    if store.frequency().is_due(iter) {
                        match store.save(&solver, &state) {
                            Ok(()) => {},
                            Err(e) => {
                                assert(self.store_save(&solver, &state, Some(e)));
                                return Err(e);
                            },
                        }
                    }
                },
                None => {},
            }
        }
        let res = OptimizationResult::new(problem, solver, state);
        Ok(res)
    }
}

/// Tells every observer, in the order in which they were added, that the solver named
/// `name` was initialized. The first failure ends the round and is handed back.
fn notify_init<I>(
    observers: &mut Vec<Registered<Box<dyn Observe<I>>>>,
    name: &str,
    kv: &KV,
) -> (r: Result<
    (),
    ArgminError,
>)
    ensures
        final(observers)@.len() == old(observers)@.len(),
        match r {
            Ok(()) => forall|j: int|
                0 <= j < old(observers)@.len() ==> (#[trigger] old(observers)@[j]).told_init(
                    name,
                    kv,
                    None,
                ),
            Err(e) => exists|i: int|
                {
                    &&& 0 <= i < old(observers)@.len()
                    &&& (#[trigger] old(observers)@[i]).told_init(name, kv, Some(e))
                    &&& forall|j: int|
                        0 <= j < i ==> (#[trigger] old(observers)@[j]).told_init(name, kv, None)
                    &&& forall|j: int|
                        i < j < old(observers)@.len() ==> #[trigger] final(observers)@[j] == old(
                            observers,
                        )@[j]
                },
        },
{
    let mut i: usize = 0;
    while i < observers.len()
        invariant
            observers@.len() == old(observers)@.len(),
            i <= observers@.len(),
            forall|j: int|
                0 <= j < i ==> (#[trigger] old(observers)@[j]).told_init(name, kv, None),
            forall|j: int|
                i <= j < observers@.len() ==> #[trigger] observers@[j] == old(observers)@[j],
        decreases observers@.len() - i,
    {
        let answer = observers[i].observer.observe_init(name, kv);
        match answer {
            Ok(()) => {},
            Err(e) => {
                return Err(e);
            },
        }
        i = i + 1;
    }
    Ok(())
}

/// Tells every observer, in the order in which they were added, of an iteration. The
/// first failure ends the round and is handed back.
fn notify_iter<I>(
    observers: &mut Vec<Registered<Box<dyn Observe<I>>>>,
    state: &I,
    kv: &KV,
) -> (r: Result<
    (),
    ArgminError,
>)
    ensures
        final(observers)@.len() == old(observers)@.len(),
        match r {
            Ok(()) => forall|j: int|
                0 <= j < old(observers)@.len() ==> (#[trigger] old(observers)@[j]).told_iter(
                    state,
                    kv,
                    None,
                ),
            Err(e) => exists|i: int|
                {
                    &&& 0 <= i < old(observers)@.len()
                    &&& (#[trigger] old(observers)@[i]).told_iter(state, kv, Some(e))
                    &&& forall|j: int|
                        0 <= j < i ==> (#[trigger] old(observers)@[j]).told_iter(state, kv, None)
                    &&& forall|j: int|
                        i < j < old(observers)@.len() ==> #[trigger] final(observers)@[j] == old(
                            observers,
                        )@[j]
                },
        },
{
    let mut i: usize = 0;
    while i < observers.len()
        invariant
            observers@.len() == old(observers)@.len(),
            i <= observers@.len(),
            forall|j: int|
                0 <= j < i ==> (#[trigger] old(observers)@[j]).told_iter(state, kv, None),
            forall|j: int|
                i <= j < observers@.len() ==> #[trigger] observers@[j] == old(observers)@[j],
        decreases observers@.len() - i,
    {
        let answer = observers[i].observer.observe_iter(state, kv);
        match answer {
            Ok(()) => {},
            Err(e) => {
                return Err(e);
            },
        }
        i = i + 1;
    }
    Ok(())
}

} // verus!
