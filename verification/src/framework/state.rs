//! The state of a run.
use vstd::prelude::*;
use crate::framework::{ArgminError, ArgminFloat, TerminationReason};

verus! {

/// The progress of one run: the current and the best parameter vector with their
/// costs, the derivatives that were handed over, the counters and budgets, and the
/// reason for which the run has stopped.
///
/// A parameter vector and its cost are set as a pair, first [`IterState::param`], then
/// [`IterState::cost`]; the second keeps the best pair up to date. The derivatives are
/// owned slots: what is taken out of one is gone until it is set again.
pub struct IterState<P, G, J, H, F: ArgminFloat> {
    /// Current parameter vector
    param: Option<P>,
    /// Current best parameter vector
    best_param: Option<P>,
    /// Current cost function value
    cost: F,
    /// Current best cost function value
    best_cost: F,
    /// Target cost function value
    target_cost: F,
    /// Current gradient
    grad: Option<G>,
    /// Current Hessian
    hessian: Option<H>,
    /// Current Jacobian
    jacobian: Option<J>,
    /// Current iteration
    iter: u64,
    /// Iteration number of last best cost
    last_best_iter: u64,
    /// Maximum number of iterations
    max_iters: u64,
    /// Time passed since the run began, in nanoseconds
    time: Option<u128>,
    /// Reason of termination
    termination_reason: TerminationReason,
}

/// `r` refers to what the slot holds, or is empty as the slot is.
pub open spec fn refers_to<T>(r: Option<&T>, slot: Option<T>) -> bool {
    match r {
        Some(x) => slot == Some(*x),
        None => slot is None,
    }
}

/// What an [`IterState`] holds, in the open: the contracts speak of a state through
/// this, and a state is taken apart into it and put together from it where it is to
/// be kept outside of a run.
pub struct IterStateView<P, G, J, H, F> {
    /// Current parameter vector
    pub param: Option<P>,
    /// Current best parameter vector
    pub best_param: Option<P>,
    /// Current cost function value
    pub cost: F,
    /// Current best cost function value
    pub best_cost: F,
    /// Target cost function value
    pub target_cost: F,
    /// Current gradient
    pub grad: Option<G>,
    /// Current Hessian
    pub hessian: Option<H>,
    /// Current Jacobian
    pub jacobian: Option<J>,
    /// Current iteration
    pub iter: u64,
    /// Iteration number of last best cost
    pub last_best_iter: u64,
    /// Maximum number of iterations
    pub max_iters: u64,
    /// Time passed since the run began, in nanoseconds
    pub time: Option<u128>,
    /// Reason of termination
    pub termination_reason: TerminationReason,
}

impl<P, G, J, H, F: ArgminFloat> View for IterState<P, G, J, H, F> {
    type V = IterStateView<P, G, J, H, F>;

    closed spec fn view(&self) -> IterStateView<P, G, J, H, F> {
        IterStateView {
            param: self.param,
            best_param: self.best_param,
            cost: self.cost,
            best_cost: self.best_cost,
            target_cost: self.target_cost,
            grad: self.grad,
            hessian: self.hessian,
            jacobian: self.jacobian,
            iter: self.iter,
            last_best_iter: self.last_best_iter,
            max_iters: self.max_iters,
            time: self.time,
            termination_reason: self.termination_reason,
        }
    }
}

impl<P, G, J, H, F: ArgminFloat> IterStateView<P, G, J, H, F> {
    /// The state before anything was set: no parameter vector, no derivatives, an
    /// infinite cost and best cost, a target cost of negative infinity, no iteration
    /// done and no bound on their number, not terminated.
    pub open spec fn initial() -> Self {
        IterStateView {
            param: None,
            best_param: None,
            cost: F::infinity_spec(),
            best_cost: F::infinity_spec(),
            target_cost: F::neg_infinity_spec(),
            grad: None,
            hessian: None,
            jacobian: None,
            iter: 0,
            last_best_iter: 0,
            max_iters: u64::MAX,
            time: None,
            termination_reason: TerminationReason::NotTerminated,
        }
    }

    /// What holds of every state: the current cost is the best cost or does not lie
    /// below it, and the best pair was not found later than now.
    pub open spec fn wf(self) -> bool {
        &&& self.best_cost == self.cost || !self.cost.lt_spec(self.best_cost)
        &&& self.last_best_iter <= self.iter
    }

    /// What [`IterState::from_parts`] asks of the parts: the cost does not lie below the
    /// best cost, and the best pair was not found later than now. Parts that pass
    /// are well-formed.
    pub open spec fn sound(self) -> bool {
        !self.cost.lt_spec(self.best_cost) && self.last_best_iter <= self.iter
    }

    /// The cost `cost` lies below the best cost.
    pub open spec fn improved_by(self, cost: F) -> bool {
        cost.lt_spec(self.best_cost)
    }

    /// Setting `cost` makes the current parameter vector the best one: the cost lies
    /// below the best cost, or there is a parameter vector and no best one yet.
    pub open spec fn records(self, cost: F) -> bool {
        self.improved_by(cost) || (self.best_param is None && self.param is Some)
    }

    /// The best cost after `cost` was set.
    pub open spec fn best_cost_after(self, cost: F) -> F {
        if self.improved_by(cost) {
            cost
        } else {
            self.best_cost
        }
    }

    /// The state after the gradient `gradient` was set.
    pub open spec fn with_grad(self, gradient: G) -> Self {
        IterStateView { grad: Some(gradient), ..self }
    }

    /// The state after the gradient was taken out of it, and what was taken: the
    /// gradient that the state held, if it held one.
    pub open spec fn grad_taken(self) -> (Self, Option<G>) {
        (IterStateView { grad: None, ..self }, self.grad)
    }

    /// The state after `reason` was given as the reason of termination: a state that
    /// has terminated keeps its reason.
    pub open spec fn terminated_with(self, reason: TerminationReason) -> Self {
        if self.termination_reason.terminated() {
            self
        } else {
            IterStateView { termination_reason: reason, ..self }
        }
    }
}

impl<P: Clone, G, J, H, F: ArgminFloat> IterStateView<P, G, J, H, F> {
    /// `post` is this state after `cost` was set as the cost of the current parameter
    /// vector. The pair becomes the best pair where [`Self::records`] says so; the best
    /// parameter vector is then a clone of the current one.
    pub open spec fn cost_set(self, cost: F, post: Self) -> bool {
        &&& post == (IterStateView {
            cost,
            best_cost: self.best_cost_after(cost),
            last_best_iter: if self.records(cost) {
                self.iter
            } else {
                self.last_best_iter
            },
            best_param: post.best_param,
            ..self
        })
        &&& if self.records(cost) && self.param is Some {
            post.best_param is Some && cloned(self.param->0, post.best_param->0)
        } else {
            post.best_param == self.best_param
        }
    }
}

impl<P, G, J, H, F: ArgminFloat> IterState<P, G, J, H, F> {
    #[verifier::type_invariant]
    spec fn inv(self) -> bool {
        self@.wf()
    }

    /// A state in which nothing is set.
    pub fn new() -> (r: Self)
        ensures
            r@ == IterStateView::<P, G, J, H, F>::initial(),
            r@.wf(),
    {
        IterState {
            param: None,
            best_param: None,
            cost: F::infinity(),
            best_cost: F::infinity(),
            target_cost: F::neg_infinity(),
            grad: None,
            hessian: None,
            jacobian: None,
            iter: 0,
            last_best_iter: 0,
            max_iters: u64::MAX,
            time: None,
            termination_reason: TerminationReason::NotTerminated,
        }
    }

    /// Takes the state apart.
    pub fn into_parts(self) -> (parts: IterStateView<P, G, J, H, F>)
        ensures
            parts == self@,
            parts.wf(),
    {
        proof {
            use_type_invariant(&self);
        }
        IterStateView {
            param: self.param,
            best_param: self.best_param,
            cost: self.cost,
            best_cost: self.best_cost,
            target_cost: self.target_cost,
            grad: self.grad,
            hessian: self.hessian,
            jacobian: self.jacobian,
            iter: self.iter,
            last_best_iter: self.last_best_iter,
            max_iters: self.max_iters,
            time: self.time,
            termination_reason: self.termination_reason,
        }
    }

    /// Puts a state together from its parts. Parts in which the cost lies below the
    /// best cost, or in which the best pair was found later than now, are refused with
    /// `ConditionViolated`.
    pub fn from_parts(parts: IterStateView<P, G, J, H, F>) -> (r: Result<Self, ArgminError>)
        ensures
            r is Ok <==> parts.sound(),
            r matches Ok(state) ==> state@ == parts,
            r matches Err(e) ==> e is ConditionViolated,
    {
        if parts.cost.lt(parts.best_cost) {
            return Err(
                ArgminError::ConditionViolated {
                    text: "IterState: the cost lies below the best cost.".to_owned(),
                },
            );
        }
        if parts.last_best_iter > parts.iter {
            return Err(
                ArgminError::ConditionViolated {
                    text: "IterState: the best pair was found later than now.".to_owned(),
                },
            );
        }
        Ok(
            IterState {
                param: parts.param,
                best_param: parts.best_param,
                cost: parts.cost,
                best_cost: parts.best_cost,
                target_cost: parts.target_cost,
                grad: parts.grad,
                hessian: parts.hessian,
                jacobian: parts.jacobian,
                iter: parts.iter,
                last_best_iter: parts.last_best_iter,
                max_iters: parts.max_iters,
                time: parts.time,
                termination_reason: parts.termination_reason,
            },
        )
    }

    /// Sets the cost of the current parameter vector. Where the cost lies below the
    /// best cost, or where there is no best parameter vector yet, the pair becomes the
    /// best pair, found at the current iteration. The best cost changes only where the
    /// new cost lies below it.
    pub fn cost(self, cost: F) -> (r: Self) where P: Clone
        ensures
            self@.cost_set(cost, r@),
            r@.wf(),
    {
        proof {
            use_type_invariant(&self);
        }
        let improves = cost.lt(self.best_cost);
        let records = improves || (self.best_param.is_none() && self.param.is_some());
        let best_param = if records && self.param.is_some() {
            self.param.clone()
        } else {
            self.best_param
        };
        IterState {
            param: self.param,
            best_param,
            cost,
            best_cost: if improves {
                cost
            } else {
                self.best_cost
            },
            target_cost: self.target_cost,
            grad: self.grad,
            hessian: self.hessian,
            jacobian: self.jacobian,
            iter: self.iter,
            last_best_iter: if records {
                self.iter
            } else {
                self.last_best_iter
            },
            max_iters: self.max_iters,
            time: self.time,
            termination_reason: self.termination_reason,
        }
    }

    /// Removes the gradient from the state and returns it. After this the state holds
    /// no gradient, until one is set again.
    pub fn take_grad(&mut self) -> (g: Option<G>)
        ensures
            (final(self)@, g) == old(self)@.grad_taken(),
    {
        proof {
            use_type_invariant(&*self);
        }
        let mut taken: Option<G> = None;
        core::mem::swap(&mut self.grad, &mut taken);
        taken
    }

    /// Removes the Hessian from the state and returns it. After this the state holds
    /// no Hessian, until one is set again.
    pub fn take_hessian(&mut self) -> (h: Option<H>)
        ensures
            h == old(self)@.hessian,
            final(self)@ == (IterStateView { hessian: None, ..old(self)@ }),
    {
        proof {
            use_type_invariant(&*self);
        }
        let mut taken: Option<H> = None;
        core::mem::swap(&mut self.hessian, &mut taken);
        taken
    }

    /// Removes the Jacobian from the state and returns it. After this the state holds
    /// no Jacobian, until one is set again.
    pub fn take_jacobian(&mut self) -> (j: Option<J>)
        ensures
            j == old(self)@.jacobian,
            final(self)@ == (IterStateView { jacobian: None, ..old(self)@ }),
    {
        proof {
            use_type_invariant(&*self);
        }
        let mut taken: Option<J> = None;
        core::mem::swap(&mut self.jacobian, &mut taken);
        taken
    }

    /// Removes the current parameter vector from the state and returns it.
    pub fn take_param(&mut self) -> (p: Option<P>)
        ensures
            p == old(self)@.param,
            final(self)@ == (IterStateView { param: None, ..old(self)@ }),
    {
        proof {
            use_type_invariant(&*self);
        }
        let mut taken: Option<P> = None;
        core::mem::swap(&mut self.param, &mut taken);
        taken
    }

    /// Removes the best parameter vector from the state and returns it.
    pub fn take_best_param(&mut self) -> (p: Option<P>)
        ensures
            p == old(self)@.best_param,
            final(self)@ == (IterStateView { best_param: None, ..old(self)@ }),
    {
        proof {
            use_type_invariant(&*self);
        }
        let mut taken: Option<P> = None;
        core::mem::swap(&mut self.best_param, &mut taken);
        taken
    }

    /// Gives the reason of termination. A state that has terminated keeps the reason
    /// that it has.
    pub fn terminate_with(self, reason: TerminationReason) -> (r: Self)
        ensures
            r@ == self@.terminated_with(reason),
    {
        proof {
            use_type_invariant(&self);
        }
        if self.termination_reason.terminated() {
            self
        } else {
            let mut s = self;
            s.termination_reason = reason;
            s
        }
    }

    /// Whether the run has terminated.
    pub fn terminated(&self) -> (t: bool)
        ensures
            t == self@.termination_reason.terminated(),
    {
        self.termination_reason.terminated()
    }

    /// Counts one more iteration.
    pub fn increment_iter(&mut self)
        requires
            old(self)@.iter < u64::MAX,
        ensures
            final(self)@ == (IterStateView { iter: (old(self)@.iter + 1) as u64, ..old(self)@ }),
    {
        proof {
            use_type_invariant(&*self);
        }
        self.iter = self.iter + 1;
    }

    /// Whether the best pair was found at the current iteration.
    pub fn is_best(&self) -> (b: bool)
        ensures
            b == (self@.last_best_iter == self@.iter),
    {
        self.last_best_iter == self.iter
    }

    /// Sets the time that has passed since the run began, in nanoseconds.
    pub fn time(&mut self, time: Option<u128>)
        ensures
            final(self)@ == (IterStateView { time, ..old(self)@ }),
    {
        proof {
            use_type_invariant(&*self);
        }
        self.time = time;
    }

    /// Sets the current parameter vector. Its cost is set with [`Self::cost`].
    pub fn param(self, param: P) -> (r: Self)
        ensures
            r@ == (IterStateView { param: Some(param), ..self@ }),
    {
        proof {
            use_type_invariant(&self);
        }
        let mut s = self;
        s.param = Some(param);
        s
    }

    /// Sets the gradient.
    pub fn gradient(self, gradient: G) -> (r: Self)
        ensures
            r@ == self@.with_grad(gradient),
    {
        proof {
            use_type_invariant(&self);
        }
        let mut s = self;
        s.grad = Some(gradient);
        s
    }

    /// Sets the Hessian.
    pub fn hessian(self, hessian: H) -> (r: Self)
        ensures
            r@ == (IterStateView { hessian: Some(hessian), ..self@ }),
    {
        proof {
            use_type_invariant(&self);
        }
        let mut s = self;
        s.hessian = Some(hessian);
        s
    }

    /// Sets the Jacobian.
    pub fn jacobian(self, jacobian: J) -> (r: Self)
        ensures
            r@ == (IterStateView { jacobian: Some(jacobian), ..self@ }),
    {
        proof {
            use_type_invariant(&self);
        }
        let mut s = self;
        s.jacobian = Some(jacobian);
        s
    }

    /// Sets the target cost: a run stops once its best cost is at or below it.
    pub fn target_cost(self, target_cost: F) -> (r: Self)
        ensures
            r@ == (IterStateView { target_cost, ..self@ }),
    {
        proof {
            use_type_invariant(&self);
        }
        let mut s = self;
        s.target_cost = target_cost;
        s
    }

    /// Sets the budget of iterations.
    pub fn max_iters(self, max_iters: u64) -> (r: Self)
        ensures
            r@ == (IterStateView { max_iters, ..self@ }),
    {
        proof {
            use_type_invariant(&self);
        }
        let mut s = self;
        s.max_iters = max_iters;
        s
    }

    /// The current parameter vector.
    pub fn get_param(&self) -> (p: Option<&P>)
        ensures
            refers_to(p, self@.param),
    {
        self.param.as_ref()
    }

    /// The best parameter vector.
    pub fn get_best_param(&self) -> (p: Option<&P>)
        ensures
            refers_to(p, self@.best_param),
    {
        self.best_param.as_ref()
    }

    /// The gradient.
    pub fn get_grad(&self) -> (g: Option<&G>)
        ensures
            refers_to(g, self@.grad),
    {
        self.grad.as_ref()
    }

    /// The Hessian.
    pub fn get_hessian(&self) -> (h: Option<&H>)
        ensures
            refers_to(h, self@.hessian),
    {
        self.hessian.as_ref()
    }

    /// The Jacobian.
    pub fn get_jacobian(&self) -> (j: Option<&J>)
        ensures
            refers_to(j, self@.jacobian),
    {
        self.jacobian.as_ref()
    }

    /// The current cost. It does not lie below the best cost.
    pub fn get_cost(&self) -> (c: F)
        ensures
            c == self@.cost,
            self@.wf(),
    {
        proof {
            use_type_invariant(self);
        }
        self.cost
    }

    /// The best cost.
    pub fn get_best_cost(&self) -> (c: F)
        ensures
            c == self@.best_cost,
    {
        self.best_cost
    }

    /// The target cost.
    pub fn get_target_cost(&self) -> (c: F)
        ensures
            c == self@.target_cost,
    {
        self.target_cost
    }

    /// The number of iterations done.
    pub fn get_iter(&self) -> (i: u64)
        ensures
            i == self@.iter,
    {
        self.iter
    }

    /// The iteration at which the best pair was found. It is not later than the
    /// current iteration.
    pub fn get_last_best_iter(&self) -> (i: u64)
        ensures
            i == self@.last_best_iter,
            i <= self@.iter,
    {
        proof {
            use_type_invariant(self);
        }
        self.last_best_iter
    }

    /// The budget of iterations.
    pub fn get_max_iters(&self) -> (i: u64)
        ensures
            i == self@.max_iters,
    {
        self.max_iters
    }

    /// The reason of termination.
    pub fn get_termination_reason(&self) -> (r: TerminationReason)
        ensures
            r == self@.termination_reason,
    {
        self.termination_reason
    }

    /// The time that has passed since the run began, in nanoseconds.
    pub fn get_time(&self) -> (t: Option<u128>)
        ensures
            t == self@.time,
    {
        self.time
    }
}

/// A gradient that was set is handed out once: the first taking returns it, and a
/// second taking, with nothing set in between, returns nothing.
pub proof fn lemma_gradient_is_taken_once<P, G, J, H, F: ArgminFloat>(
    state: IterStateView<P, G, J, H, F>,
    gradient: G,
)
    ensures
        state.with_grad(gradient).grad_taken().1 == Some(gradient),
        state.with_grad(gradient).grad_taken().0.grad_taken().1 is None,
        state.with_grad(gradient).grad_taken().0 == state.grad_taken().0,
{
}

/// The best cost never rises: after a cost was set, the best cost is what it was
/// before or lies below it, and the current cost does not lie below the best cost.
pub proof fn lemma_best_cost_never_rises<P: Clone, G, J, H, F: ArgminFloat>(
    pre: IterStateView<P, G, J, H, F>,
    cost: F,
    post: IterStateView<P, G, J, H, F>,
)
    requires
        pre.cost_set(cost, post),
    ensures
        post.best_cost == pre.best_cost || post.best_cost.lt_spec(pre.best_cost),
        post.best_cost == post.cost || !post.cost.lt_spec(post.best_cost),
{
}

/// A reason of termination is never taken back: in a state that has terminated,
/// giving another reason changes nothing.
pub proof fn lemma_termination_is_kept<P, G, J, H, F: ArgminFloat>(
    state: IterStateView<P, G, J, H, F>,
    first: TerminationReason,
    second: TerminationReason,
)
    requires
        first.terminated(),
    ensures
        state.terminated_with(first).termination_reason.terminated(),
        state.terminated_with(first).terminated_with(second) == state.terminated_with(first),
{
}

/// `copy` holds a clone of what the slot holds, or is empty as the slot is.
pub open spec fn slot_cloned<T: Clone>(slot: Option<T>, copy: Option<T>) -> bool {
    match slot {
        Some(value) => copy is Some && cloned(value, copy->0),
        None => copy is None,
    }
}

impl<P: Clone, G: Clone, J: Clone, H: Clone, F: ArgminFloat> IterStateView<P, G, J, H, F> {
    /// `copy` is a copy of this state: the costs, the counters, the budgets, the time
    /// and the reason of termination are the same, and each slot holds a clone of what
    /// the slot of this state holds.
    pub open spec fn copied(self, copy: Self) -> bool {
        &&& copy == (IterStateView {
            param: copy.param,
            best_param: copy.best_param,
            grad: copy.grad,
            hessian: copy.hessian,
            jacobian: copy.jacobian,
            ..self
        })
        &&& slot_cloned(self.param, copy.param)
        &&& slot_cloned(self.best_param, copy.best_param)
        &&& slot_cloned(self.grad, copy.grad)
        &&& slot_cloned(self.hessian, copy.hessian)
        &&& slot_cloned(self.jacobian, copy.jacobian)
    }
}

impl<P: Clone, G: Clone, J: Clone, H: Clone, F: ArgminFloat> Clone for IterState<P, G, J, H, F> {
    /// A copy of the state, as a checkpoint keeps one.
    fn clone(&self) -> (r: Self)
        ensures
            self@.copied(r@),
    {
        proof {
            use_type_invariant(self);
        }
        IterState {
            param: self.param.clone(),
            best_param: self.best_param.clone(),
            cost: self.cost,
            best_cost: self.best_cost,
            target_cost: self.target_cost,
            grad: self.grad.clone(),
            hessian: self.hessian.clone(),
            jacobian: self.jacobian.clone(),
            iter: self.iter,
            last_best_iter: self.last_best_iter,
            max_iters: self.max_iters,
            time: self.time,
            termination_reason: self.termination_reason,
        }
    }
}

impl<P, G, J, H, F: ArgminFloat> Default for IterState<P, G, J, H, F> {
    fn default() -> (r: Self)
        ensures
            r@ == IterStateView::<P, G, J, H, F>::initial(),
    {
        IterState::new()
    }
}

} // verus!
