//! The problem wrapper and the capabilities of an objective.
use vstd::prelude::*;
use crate::framework::ArgminError;

verus! {

/// An objective that has a cost.
pub trait CostFunction {
    /// The type of a parameter vector.
    type Param;

    /// The type of the cost.
    type Output;

    /// What `cost` may return for `param`. An objective that says nothing here may
    /// return anything.
    open spec fn cost_spec(
        &self,
        param: &Self::Param,
        out: Result<Self::Output, ArgminError>,
    ) -> bool {
        true
    }

    /// The cost at `param`, or the failure to compute it.
    fn cost(&self, param: &Self::Param) -> (out: Result<Self::Output, ArgminError>)
        ensures
            self.cost_spec(param, out),
    ;
}

/// An objective that has a gradient.
pub trait Gradient {
    /// The type of a parameter vector.
    type Param;

    /// The type of the gradient.
    type Gradient;

    /// What `gradient` may return for `param`. An objective that says nothing here may
    /// return anything.
    open spec fn gradient_spec(
        &self,
        param: &Self::Param,
        out: Result<Self::Gradient, ArgminError>,
    ) -> bool {
        true
    }

    /// The gradient at `param`, or the failure to compute it.
    fn gradient(&self, param: &Self::Param) -> (out: Result<Self::Gradient, ArgminError>)
        ensures
            self.gradient_spec(param, out),
    ;
}

/// An objective that has a Hessian.
pub trait Hessian {
    /// The type of a parameter vector.
    type Param;

    /// The type of the Hessian.
    type Hessian;

    /// What `hessian` may return for `param`. An objective that says nothing here may
    /// return anything.
    open spec fn hessian_spec(
        &self,
        param: &Self::Param,
        out: Result<Self::Hessian, ArgminError>,
    ) -> bool {
        true
    }

    /// The Hessian at `param`, or the failure to compute it.
    fn hessian(&self, param: &Self::Param) -> (out: Result<Self::Hessian, ArgminError>)
        ensures
            self.hessian_spec(param, out),
    ;
}

/// An objective that has a Jacobian.
pub trait Jacobian {
    /// The type of a parameter vector.
    type Param;

    /// The type of the Jacobian.
    type Jacobian;

    /// What `jacobian` may return for `param`. An objective that says nothing here may
    /// return anything.
    open spec fn jacobian_spec(
        &self,
        param: &Self::Param,
        out: Result<Self::Jacobian, ArgminError>,
    ) -> bool {
        true
    }

    /// The Jacobian at `param`, or the failure to compute it.
    fn jacobian(&self, param: &Self::Param) -> (out: Result<Self::Jacobian, ArgminError>)
        ensures
            self.jacobian_spec(param, out),
    ;
}

/// An objective that maps a parameter vector to an output.
pub trait Operator {
    /// The type of a parameter vector.
    type Param;

    /// The type of the output.
    type Output;

    /// What `apply` may return for `param`. An objective that says nothing here may
    /// return anything.
    open spec fn apply_spec(
        &self,
        param: &Self::Param,
        out: Result<Self::Output, ArgminError>,
    ) -> bool {
        true
    }

    /// The operator applied to `param`, or the failure to apply it.
    fn apply(&self, param: &Self::Param) -> (out: Result<Self::Output, ArgminError>)
        ensures
            self.apply_spec(param, out),
    ;
}

/// A count after one more evaluation. A count that has reached the largest number
/// stays there.
pub open spec fn counted(count: u64) -> u64 {
    if count < u64::MAX {
        (count + 1) as u64
    } else {
        count
    }
}

/// Adds one evaluation to a count.
fn count_one(count: u64) -> (r: u64)
    ensures
        r == counted(count),
{
    if count < u64::MAX {
        count + 1
    } else {
        count
    }
}

/// An objective together with the number of times that each of its capabilities was
/// called through this wrapper.
///
/// Nothing is cached: every call evaluates the objective anew.
pub struct Problem<O> {
    /// The objective.
    pub problem: O,
    /// How often the cost was evaluated.
    pub cost_count: u64,
    /// How often the gradient was evaluated.
    pub gradient_count: u64,
    /// How often the Hessian was evaluated.
    pub hessian_count: u64,
    /// How often the Jacobian was evaluated.
    pub jacobian_count: u64,
    /// How often the operator was applied.
    pub operator_count: u64,
}

impl<O> Problem<O> {
    /// The objective with nothing counted.
    pub open spec fn fresh(problem: O) -> Self {
        Problem {
            problem,
            cost_count: 0,
            gradient_count: 0,
            hessian_count: 0,
            jacobian_count: 0,
            operator_count: 0,
        }
    }

    /// Wraps an objective. Nothing is counted yet.
    pub fn new(problem: O) -> (r: Self)
        ensures
            r == Self::fresh(problem),
    {
        Problem {
            problem,
            cost_count: 0,
            gradient_count: 0,
            hessian_count: 0,
            jacobian_count: 0,
            operator_count: 0,
        }
    }
}

impl<O: CostFunction> Problem<O> {
    /// Counts one cost evaluation and returns what the objective's `cost` returns for
    /// `param`, a failure included.
    pub fn cost(&mut self, param: &O::Param) -> (out: Result<O::Output, ArgminError>)
        ensures
            *final(self) == (Problem { cost_count: counted(old(self).cost_count), ..*old(self) }),
            old(self).problem.cost_spec(param, out),
    {
        self.cost_count = count_one(self.cost_count);
        self.problem.cost(param)
    }
}

impl<O: Gradient> Problem<O> {
    /// Counts one gradient evaluation and returns what the objective's `gradient`
    /// returns for `param`, a failure included.
    pub fn gradient(&mut self, param: &O::Param) -> (out: Result<O::Gradient, ArgminError>)
        ensures
            *final(self) == (Problem {
                gradient_count: counted(old(self).gradient_count),
                ..*old(self)
            }),
            old(self).problem.gradient_spec(param, out),
    {
        self.gradient_count = count_one(self.gradient_count);
        self.problem.gradient(param)
    }
}

impl<O: Hessian> Problem<O> {
    /// Counts one Hessian evaluation and returns what the objective's `hessian` returns
    /// for `param`, a failure included.
    pub fn hessian(&mut self, param: &O::Param) -> (out: Result<O::Hessian, ArgminError>)
        ensures
            *final(self) == (Problem {
                hessian_count: counted(old(self).hessian_count),
                ..*old(self)
            }),
            old(self).problem.hessian_spec(param, out),
    {
        self.hessian_count = count_one(self.hessian_count);
        self.problem.hessian(param)
    }
}

impl<O: Jacobian> Problem<O> {
    /// Counts one Jacobian evaluation and returns what the objective's `jacobian`
    /// returns for `param`, a failure included.
    pub fn jacobian(&mut self, param: &O::Param) -> (out: Result<O::Jacobian, ArgminError>)
        ensures
            *final(self) == (Problem {
                jacobian_count: counted(old(self).jacobian_count),
                ..*old(self)
            }),
            old(self).problem.jacobian_spec(param, out),
    {
        self.jacobian_count = count_one(self.jacobian_count);
        self.problem.jacobian(param)
    }
}

impl<O: Operator> Problem<O> {
    /// Counts one application and returns what the objective's `apply` returns for
    /// `param`, a failure included.
    pub fn apply(&mut self, param: &O::Param) -> (out: Result<O::Output, ArgminError>)
        ensures
            *final(self) == (Problem {
                operator_count: counted(old(self).operator_count),
                ..*old(self)
            }),
            old(self).problem.apply_spec(param, out),
    {
        self.operator_count = count_one(self.operator_count);
        self.problem.apply(param)
    }
}

} // verus!
