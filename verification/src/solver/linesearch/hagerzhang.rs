//! The line search of Hager and Zhang.
//!
//! William W. Hager and Hongchao Zhang. "A new conjugate gradient method with guaranteed
//! descent and an efficient line search." SIAM J. Optim. 16(1), 2006, 170-192.
use vstd::prelude::*;
use crate::framework::{
    counted, one, slot_cloned, two, zero, ArgminError, ArgminFloat, CostFunction, Gradient,
    IterState, IterStateView, Problem, Solver, TerminationReason, KV,
};
use crate::math::{ArgminDot, ArgminScaledAdd};
use crate::solver::linesearch::LineSearch;

verus! {

/// A step length with the cost and the slope of the line function there: `(x, f, g)`.
pub type Triplet<F> = (F, F, F);

/// The Hager-Zhang line search is a method to find a step length which obeys the strong
/// Wolfe conditions, or their approximate form where costs are too close to tell apart.
pub struct HagerZhangLineSearch<P, G, F> {
    /// delta: (0, 1), used in the Wolfe conditions
    delta: F,
    /// sigma: [delta, 1), used in the Wolfe conditions
    sigma: F,
    /// epsilon: [0, infinity), used in the approximate Wolfe termination
    epsilon: F,
    /// epsilon_k
    epsilon_k: F,
    /// theta: (0, 1), used in the update rules when the potential intervals [a, c] or [c, b]
    /// violate the opposite slope condition
    theta: F,
    /// gamma: (0, 1), determines when a bisection step is performed
    gamma: F,
    /// eta: (0, infinity), used in the lower bound for beta_k^N
    eta: F,
    /// initial a
    a_x_init: F,
    /// a
    a_x: F,
    /// phi(a)
    a_f: F,
    /// phi'(a)
    a_g: F,
    /// initial b
    b_x_init: F,
    /// b
    b_x: F,
    /// phi(b)
    b_f: F,
    /// phi'(b)
    b_g: F,
    /// initial c
    c_x_init: F,
    /// c
    c_x: F,
    /// phi(c)
    c_f: F,
    /// phi'(c)
    c_g: F,
    /// best x
    best_x: F,
    /// best function value
    best_f: F,
    /// best slope
    best_g: F,
    /// initial parameter vector
    init_param: Option<P>,
    /// initial cost
    finit: F,
    /// initial gradient
    init_grad: Option<G>,
    /// Search direction
    search_direction: Option<P>,
    /// Slope of the line function at step length zero
    dginit: F,
}

/// What a [`HagerZhangLineSearch`] holds, in the open: the contracts speak of a line
/// search through this, and a line search is taken apart into it and put together from
/// it where it is to be kept outside of a run.
pub struct HagerZhangView<P, G, F> {
    /// delta: (0, 1), used in the Wolfe conditions
    pub delta: F,
    /// sigma: [delta, 1), used in the Wolfe conditions
    pub sigma: F,
    /// epsilon: [0, infinity), used in the approximate Wolfe termination
    pub epsilon: F,
    /// epsilon times the absolute value of the cost at the start
    pub epsilon_k: F,
    /// theta: (0, 1), weighs the ends in the bisection of the bracket update
    pub theta: F,
    /// gamma: (0, 1), determines when a bisection step is performed
    pub gamma: F,
    /// eta: (0, infinity), used in the lower bound for beta_k^N
    pub eta: F,
    /// The lower end of the first bracket.
    pub alpha_min: F,
    /// The upper end of the first bracket.
    pub alpha_max: F,
    /// The first probe.
    pub init_alpha: F,
    /// The lower end of the bracket.
    pub a: Triplet<F>,
    /// The upper end of the bracket.
    pub b: Triplet<F>,
    /// The probe.
    pub c: Triplet<F>,
    /// The best of the three.
    pub best: Triplet<F>,
    /// The start of the search.
    pub init_param: Option<P>,
    /// The cost at the start.
    pub finit: F,
    /// The gradient at the start.
    pub init_grad: Option<G>,
    /// The direction of the search.
    pub search_direction: Option<P>,
    /// The slope of the line function at the start.
    pub dginit: F,
}

impl<P, G, F> View for HagerZhangLineSearch<P, G, F> {
    type V = HagerZhangView<P, G, F>;

    closed spec fn view(&self) -> HagerZhangView<P, G, F> {
        HagerZhangView {
            delta: self.delta,
            sigma: self.sigma,
            epsilon: self.epsilon,
            epsilon_k: self.epsilon_k,
            theta: self.theta,
            gamma: self.gamma,
            eta: self.eta,
            alpha_min: self.a_x_init,
            alpha_max: self.b_x_init,
            init_alpha: self.c_x_init,
            a: (self.a_x, self.a_f, self.a_g),
            b: (self.b_x, self.b_f, self.b_g),
            c: (self.c_x, self.c_f, self.c_g),
            best: (self.best_x, self.best_f, self.best_g),
            init_param: self.init_param,
            finit: self.finit,
            init_grad: self.init_grad,
            search_direction: self.search_direction,
            dginit: self.dginit,
        }
    }
}

impl<P, G, F: ArgminFloat> HagerZhangView<P, G, F> {
    /// The line search as it is before anything was set: delta 0.1, sigma 0.9,
    /// epsilon 1e-6, theta 0.5, gamma 0.66, eta 0.01, a first bracket from the machine
    /// epsilon to 100 and a first probe at 1. Nothing is evaluated yet.
    pub open spec fn initial() -> Self {
        HagerZhangView {
            delta: F::from_ratio_spec(1, 10),
            sigma: F::from_ratio_spec(9, 10),
            epsilon: F::from_ratio_spec(1, 1_000_000),
            epsilon_k: F::nan_spec(),
            theta: F::from_ratio_spec(1, 2),
            gamma: F::from_ratio_spec(66, 100),
            eta: F::from_ratio_spec(1, 100),
            alpha_min: F::epsilon_spec(),
            alpha_max: F::from_ratio_spec(100, 1),
            init_alpha: F::from_ratio_spec(1, 1),
            a: (F::nan_spec(), F::nan_spec(), F::nan_spec()),
            b: (F::nan_spec(), F::nan_spec(), F::nan_spec()),
            c: (F::nan_spec(), F::nan_spec(), F::nan_spec()),
            best: (F::from_ratio_spec(0, 1), F::infinity_spec(), F::nan_spec()),
            init_param: None,
            finit: F::infinity_spec(),
            init_grad: None,
            search_direction: None,
            dginit: F::nan_spec(),
        }
    }
}

/// The slope at `t` is below zero.
pub open spec fn falls<F: ArgminFloat>(t: Triplet<F>) -> bool {
    t.2.lt_spec(zero::<F>())
}

/// The slope at `t` is zero or above.
pub open spec fn rises<F: ArgminFloat>(t: Triplet<F>) -> bool {
    zero::<F>().le_spec(t.2)
}

/// The opposite slope condition on a bracket `[a, b]`: the line function falls at `a`
/// and does not fall at `b`.
pub open spec fn opposite_slope<F: ArgminFloat>(a: Triplet<F>, b: Triplet<F>) -> bool {
    falls(a) && rises(b)
}

/// The cost at `t` is at most `limit`.
pub open spec fn within<F: ArgminFloat>(t: Triplet<F>, limit: F) -> bool {
    t.1.le_spec(limit)
}

/// The condition under which `[a, b]` is a bracket: the opposite slope condition, and
/// a cost at `a` of at most `limit`.
pub open spec fn brackets<F: ArgminFloat>(a: Triplet<F>, b: Triplet<F>, limit: F) -> bool {
    opposite_slope(a, b) && within(a, limit)
}

/// What a probe `c` does to a bracket `[a, b]`.
#[derive(Clone, Copy, Debug, PartialEq, Eq, Structural)]
pub enum UpdateCase {
    /// `c` lies outside of `(a, b)`: the bracket stays.
    Unchanged,
    /// The line function does not fall at `c`: the bracket becomes `[a, c]`.
    Upper,
    /// The line function falls at `c` and the cost there is within the limit: the
    /// bracket becomes `[c, b]`.
    Lower,
    /// The line function falls at `c` and the cost there is beyond the limit: a point
    /// where it does not fall is looked for between `a` and `c`.
    Bisect,
    /// None of these: the slope or the cost at `c` compares with nothing.
    Undecided,
}

/// The case that a probe `c` falls under for the bracket `[a, b]` and the cost limit
/// `limit`. The cases are tried in the order in which [`UpdateCase`] lists them.
pub open spec fn update_case<F: ArgminFloat>(
    a: Triplet<F>,
    b: Triplet<F>,
    c: Triplet<F>,
    limit: F,
) -> UpdateCase {
    if c.0.le_spec(a.0) || b.0.le_spec(c.0) {
        UpdateCase::Unchanged
    } else if rises(c) {
        UpdateCase::Upper
    } else if falls(c) && within(c, limit) {
        UpdateCase::Lower
    } else if falls(c) && limit.lt_spec(c.1) {
        UpdateCase::Bisect
    } else {
        UpdateCase::Undecided
    }
}

/// Tells which case of the bracket update a probe falls under.
pub fn classify<F: ArgminFloat>(a: Triplet<F>, b: Triplet<F>, c: Triplet<F>, limit: F) -> (r:
    UpdateCase)
    ensures
        r == update_case(a, b, c, limit),
{
    let nought = F::from_ratio(0, 1);
    if c.0.le(a.0) || b.0.le(c.0) {
        UpdateCase::Unchanged
    } else if nought.le(c.2) {
        UpdateCase::Upper
    } else if c.2.lt(nought) && c.1.le(limit) {
        UpdateCase::Lower
    } else if c.2.lt(nought) && limit.lt(c.1) {
        UpdateCase::Bisect
    } else {
        UpdateCase::Undecided
    }
}

/// The point `(1 - theta) * lower + theta * upper` between two step lengths.
pub open spec fn bisection_point_spec<F: ArgminFloat>(theta: F, lower: F, upper: F) -> F {
    one::<F>().sub_spec(&theta).mul_spec(&lower).add_spec(&theta.mul_spec(&upper))
}

/// The point `(1 - theta) * lower + theta * upper` between two step lengths.
pub fn bisection_point<F: ArgminFloat>(theta: F, lower: F, upper: F) -> (r: F)
    ensures
        r == bisection_point_spec(theta, lower, upper),
{
    F::from_ratio(1, 1).sub(&theta).mul(&lower).add(&theta.mul(&upper))
}

/// What one step of the bisection towards the lower end comes to.
pub enum Bisection<F> {
    /// The line function does not fall at the new point: the bracket is found.
    Found(Triplet<F>, Triplet<F>),
    /// The search goes on between `lower` and the step length `upper_x`.
    Narrowed { lower: Triplet<F>, upper_x: F },
}

/// One step of the bisection: `d` was evaluated between `lower` and `upper_x`. Where
/// the line function does not fall at `d`, `[lower, d]` is the bracket. Else `d`
/// becomes the lower end if its cost is within the limit, and the upper end if its
/// cost is beyond it.
pub open spec fn bisect_step_spec<F: ArgminFloat>(
    lower: Triplet<F>,
    upper_x: F,
    d: Triplet<F>,
    limit: F,
) -> Bisection<F> {
    if rises(d) {
        Bisection::Found(lower, d)
    } else {
        Bisection::Narrowed {
            lower: if falls(d) && within(d, limit) {
                d
            } else {
                lower
            },
            upper_x: if falls(d) && limit.lt_spec(d.1) {
                d.0
            } else {
                upper_x
            },
        }
    }
}

/// One step of the bisection towards the lower end of a bracket.
pub fn bisect_step<F: ArgminFloat>(lower: Triplet<F>, upper_x: F, d: Triplet<F>, limit: F) -> (r:
    Bisection<F>)
    ensures
        r == bisect_step_spec(lower, upper_x, d, limit),
{
    let nought = F::from_ratio(0, 1);
    if nought.le(d.2) {
        return Bisection::Found(lower, d);
    }
    let mut next_lower = lower;
    let mut next_upper_x = upper_x;
    if d.2.lt(nought) && d.1.le(limit) {
        next_lower = d;
    }
    if d.2.lt(nought) && limit.lt(d.1) {
        next_upper_x = d.0;
    }
    Bisection::Narrowed { lower: next_lower, upper_x: next_upper_x }
}

/// The root of the line through the slopes at two step lengths:
/// `(a_x * b_g - b_x * a_g) / (b_g - a_g)`.
pub open spec fn secant_spec<F: ArgminFloat>(a_x: F, a_g: F, b_x: F, b_g: F) -> F {
    a_x.mul_spec(&b_g).sub_spec(&b_x.mul_spec(&a_g)).div_spec(&b_g.sub_spec(&a_g))
}

/// Two step lengths are closer to each other than the machine epsilon.
pub open spec fn coincide<F: ArgminFloat>(x: F, y: F) -> bool {
    x.sub_spec(&y).abs_spec().lt_spec(F::epsilon_spec())
}

/// Whether two step lengths are closer to each other than the machine epsilon.
pub fn coincides<F: ArgminFloat>(x: F, y: F) -> (r: bool)
    ensures
        r == coincide(x, y),
{
    x.sub(&y).abs().lt(F::epsilon())
}

/// The second probe of the double secant step, if there is one. `[a, b]` is the bracket
/// before the first probe at `c_x`, `[lower, upper]` the bracket after it. Where `c_x`
/// became the upper end, the secant goes through `b` and `upper`; else, where it
/// became the lower end, through `a` and `lower`; else there is no second probe.
pub open spec fn second_probe_spec<F: ArgminFloat>(
    a: Triplet<F>,
    b: Triplet<F>,
    c_x: F,
    lower: Triplet<F>,
    upper: Triplet<F>,
) -> Option<F> {
    if coincide(c_x, upper.0) {
        Some(secant_spec(b.0, b.2, upper.0, upper.2))
    } else if coincide(c_x, lower.0) {
        Some(secant_spec(a.0, a.2, lower.0, lower.2))
    } else {
        None
    }
}

/// The root of the line through the slopes at two step lengths.
pub fn secant_point<F: ArgminFloat>(a_x: F, a_g: F, b_x: F, b_g: F) -> (r: F)
    ensures
        r == secant_spec(a_x, a_g, b_x, b_g),
{
    a_x.mul(&b_g).sub(&b_x.mul(&a_g)).div(&b_g.sub(&a_g))
}

/// The step length of the second probe of the double secant step, if there is one: the
/// upper end is looked at first.
pub fn second_probe<F: ArgminFloat>(
    a: Triplet<F>,
    b: Triplet<F>,
    c_x: F,
    lower: Triplet<F>,
    upper: Triplet<F>,
) -> (r: Option<F>)
    ensures
        r == second_probe_spec(a, b, c_x, lower, upper),
{
    if coincides(c_x, upper.0) {
        Some(secant_point(b.0, b.2, upper.0, upper.2))
    } else if coincides(c_x, lower.0) {
        Some(secant_point(a.0, a.2, lower.0, lower.2))
    } else {
        None
    }
}

/// Whether the bracket `[lower, upper]` is wider than `gamma` times the bracket
/// `[a, b]`, so that the double secant step did not shrink the bracket enough.
pub open spec fn shrunk_too_little<F: ArgminFloat>(
    gamma: F,
    a_x: F,
    b_x: F,
    lower_x: F,
    upper_x: F,
) -> bool {
    gamma.mul_spec(&b_x.sub_spec(&a_x)).lt_spec(upper_x.sub_spec(&lower_x))
}

/// Whether the double secant step did not shrink the bracket enough.
pub fn needs_bisection<F: ArgminFloat>(gamma: F, a_x: F, b_x: F, lower_x: F, upper_x: F) -> (r:
    bool)
    ensures
        r == shrunk_too_little(gamma, a_x, b_x, lower_x, upper_x),
{
    gamma.mul(&b_x.sub(&a_x)).lt(upper_x.sub(&lower_x))
}

/// The middle of two step lengths: `(lower_x + upper_x) / 2`.
pub open spec fn midpoint_spec<F: ArgminFloat>(lower_x: F, upper_x: F) -> F {
    lower_x.add_spec(&upper_x).div_spec(&two::<F>())
}

/// The middle of two step lengths.
pub fn midpoint<F: ArgminFloat>(lower_x: F, upper_x: F) -> (r: F)
    ensures
        r == midpoint_spec(lower_x, upper_x),
{
    lower_x.add(&upper_x).div(&F::from_ratio(2, 1))
}

/// The best of three probes: the first of `a`, `b`, `c` whose cost is at most the cost
/// of the other two. Where there is none, because a cost compares with nothing, the
/// best so far stays.
pub open spec fn select_best_spec<F: ArgminFloat>(
    a: Triplet<F>,
    b: Triplet<F>,
    c: Triplet<F>,
    current: Triplet<F>,
) -> Triplet<F> {
    if a.1.le_spec(b.1) && a.1.le_spec(c.1) {
        a
    } else if b.1.le_spec(a.1) && b.1.le_spec(c.1) {
        b
    } else if c.1.le_spec(a.1) && c.1.le_spec(b.1) {
        c
    } else {
        current
    }
}

/// The best of three probes by cost. On equal cost `a` goes before `b`, and `b` before
/// `c`.
pub fn select_best<F: ArgminFloat>(
    a: Triplet<F>,
    b: Triplet<F>,
    c: Triplet<F>,
    current: Triplet<F>,
) -> (r: Triplet<F>)
    ensures
        r == select_best_spec(a, b, c, current),
{
    if a.1.le(b.1) && a.1.le(c.1) {
        a
    } else if b.1.le(a.1) && b.1.le(c.1) {
        b
    } else if c.1.le(a.1) && c.1.le(b.1) {
        c
    } else {
        current
    }
}

/// The strong Wolfe conditions at the step `best`: the cost has decreased enough,
/// `best.f - finit <= delta * best.x * dginit`, and the slope has flattened enough,
/// `best.g >= sigma * dginit`.
pub open spec fn wolfe<F: ArgminFloat>(delta: F, sigma: F, finit: F, dginit: F, best: Triplet<F>) -> bool {
    &&& best.1.sub_spec(&finit).le_spec(delta.mul_spec(&best.0).mul_spec(&dginit))
    &&& sigma.mul_spec(&dginit).le_spec(best.2)
}

/// The approximate Wolfe conditions at the step `best`:
/// `(2 * delta - 1) * dginit >= best.g >= sigma * dginit`, and a cost of at most
/// `finit + epsilon_k`.
pub open spec fn approximate_wolfe<F: ArgminFloat>(
    delta: F,
    sigma: F,
    finit: F,
    dginit: F,
    epsilon_k: F,
    best: Triplet<F>,
) -> bool {
    &&& best.2.le_spec(two::<F>().mul_spec(&delta).sub_spec(&one::<F>()).mul_spec(&dginit))
    &&& sigma.mul_spec(&dginit).le_spec(best.2)
    &&& best.1.le_spec(finit.add_spec(&epsilon_k))
}

/// Whether the strong Wolfe conditions hold at the step `best`.
pub fn meets_wolfe<F: ArgminFloat>(delta: F, sigma: F, finit: F, dginit: F, best: Triplet<F>) -> (r:
    bool)
    ensures
        r == wolfe(delta, sigma, finit, dginit, best),
{
    best.1.sub(&finit).le(delta.mul(&best.0).mul(&dginit)) && sigma.mul(&dginit).le(best.2)
}

/// Whether the approximate Wolfe conditions hold at the step `best`.
pub fn meets_approximate_wolfe<F: ArgminFloat>(
    delta: F,
    sigma: F,
    finit: F,
    dginit: F,
    epsilon_k: F,
    best: Triplet<F>,
) -> (r: bool)
    ensures
        r == approximate_wolfe(delta, sigma, finit, dginit, epsilon_k, best),
{
    best.2.le(F::from_ratio(2, 1).mul(&delta).sub(&F::from_ratio(1, 1)).mul(&dginit))
        && sigma.mul(&dginit).le(best.2) && best.1.le(finit.add(&epsilon_k))
}

/// `x` lies strictly between zero and one.
pub open spec fn in_open_unit<F: ArgminFloat>(x: F) -> bool {
    zero::<F>().lt_spec(x) && x.lt_spec(one::<F>())
}

impl<P, G, F> HagerZhangLineSearch<P, G, F> {
    /// Takes the line search apart.
    pub fn into_parts(self) -> (parts: HagerZhangView<P, G, F>)
        ensures
            parts == self@,
    {
        HagerZhangView {
            delta: self.delta,
            sigma: self.sigma,
            epsilon: self.epsilon,
            epsilon_k: self.epsilon_k,
            theta: self.theta,
            gamma: self.gamma,
            eta: self.eta,
            alpha_min: self.a_x_init,
            alpha_max: self.b_x_init,
            init_alpha: self.c_x_init,
            a: (self.a_x, self.a_f, self.a_g),
            b: (self.b_x, self.b_f, self.b_g),
            c: (self.c_x, self.c_f, self.c_g),
            best: (self.best_x, self.best_f, self.best_g),
            init_param: self.init_param,
            finit: self.finit,
            init_grad: self.init_grad,
            search_direction: self.search_direction,
            dginit: self.dginit,
        }
    }

    /// Puts a line search together from its parts, as they are: the settings among them
    /// are not held to their bounds, as they are by the setters.
    pub fn from_parts(parts: HagerZhangView<P, G, F>) -> (r: Self)
        ensures
            r@ == parts,
    {
        HagerZhangLineSearch {
            delta: parts.delta,
            sigma: parts.sigma,
            epsilon: parts.epsilon,
            epsilon_k: parts.epsilon_k,
            theta: parts.theta,
            gamma: parts.gamma,
            eta: parts.eta,
            a_x_init: parts.alpha_min,
            a_x: parts.a.0,
            a_f: parts.a.1,
            a_g: parts.a.2,
            b_x_init: parts.alpha_max,
            b_x: parts.b.0,
            b_f: parts.b.1,
            b_g: parts.b.2,
            c_x_init: parts.init_alpha,
            c_x: parts.c.0,
            c_f: parts.c.1,
            c_g: parts.c.2,
            best_x: parts.best.0,
            best_f: parts.best.1,
            best_g: parts.best.2,
            init_param: parts.init_param,
            finit: parts.finit,
            init_grad: parts.init_grad,
            search_direction: parts.search_direction,
            dginit: parts.dginit,
        }
    }
}

impl<P, G, F> HagerZhangLineSearch<P, G, F> where F: ArgminFloat {
    /// Constructor
    pub fn new() -> (r: Self)
        ensures
            r@ == HagerZhangView::<P, G, F>::initial(),
    {
        HagerZhangLineSearch {
            delta: F::from_ratio(1, 10),
            sigma: F::from_ratio(9, 10),
            epsilon: F::from_ratio(1, 1_000_000),
            epsilon_k: F::nan(),
            theta: F::from_ratio(1, 2),
            gamma: F::from_ratio(66, 100),
            eta: F::from_ratio(1, 100),
            a_x_init: F::epsilon(),
            a_x: F::nan(),
            a_f: F::nan(),
            a_g: F::nan(),
            b_x_init: F::from_ratio(100, 1),
            b_x: F::nan(),
            b_f: F::nan(),
            b_g: F::nan(),
            c_x_init: F::from_ratio(1, 1),
            c_x: F::nan(),
            c_f: F::nan(),
            c_g: F::nan(),
            best_x: F::from_ratio(0, 1),
            best_f: F::infinity(),
            best_g: F::nan(),
            init_param: None,
            init_grad: None,
            search_direction: None,
            dginit: F::nan(),
            finit: F::infinity(),
        }
    }

    /// set delta: accepted if it lies in (0, 1)
    pub fn delta(self, delta: F) -> (r: Result<Self, ArgminError>)
        ensures
            r is Ok <==> in_open_unit(delta),
            r matches Ok(s) ==> s@ == (HagerZhangView { delta, ..self@ }),
            r matches Err(e) ==> e is InvalidParameter && e.text_spec() == (if !zero::<F>().lt_spec(
                delta,
            ) {
                "HagerZhangLineSearch: delta must be > 0.0."@
            } else {
                "HagerZhangLineSearch: delta must be < 1.0."@
            }),
    {
        if !F::from_ratio(0, 1).lt(delta) {
            return Err(
                ArgminError::invalid_parameter("HagerZhangLineSearch: delta must be > 0.0."),
            );
        }
        if !delta.lt(F::from_ratio(1, 1)) {
            return Err(
                ArgminError::invalid_parameter("HagerZhangLineSearch: delta must be < 1.0."),
            );
        }
        let mut s = self;
        s.delta = delta;
        Ok(s)
    }

    /// set sigma: accepted if it lies in [delta, 1)
    pub fn sigma(self, sigma: F) -> (r: Result<Self, ArgminError>)
        ensures
            r is Ok <==> self@.delta.le_spec(sigma) && sigma.lt_spec(one::<F>()),
            r matches Ok(s) ==> s@ == (HagerZhangView { sigma, ..self@ }),
            r matches Err(e) ==> e is InvalidParameter && e.text_spec() == (if !self@.delta.le_spec(
                sigma,
            ) {
                "HagerZhangLineSearch: sigma must be >= delta."@
            } else {
                "HagerZhangLineSearch: sigma must be < 1.0."@
            }),
    {
        if !self.delta.le(sigma) {
            return Err(
                ArgminError::invalid_parameter("HagerZhangLineSearch: sigma must be >= delta."),
            );
        }
        if !sigma.lt(F::from_ratio(1, 1)) {
            return Err(
                ArgminError::invalid_parameter("HagerZhangLineSearch: sigma must be < 1.0."),
            );
        }
        let mut s = self;
        s.sigma = sigma;
        Ok(s)
    }

    /// set epsilon: accepted if it is not below zero
    pub fn epsilon(self, epsilon: F) -> (r: Result<Self, ArgminError>)
        ensures
            r is Ok <==> zero::<F>().le_spec(epsilon),
            r matches Ok(s) ==> s@ == (HagerZhangView { epsilon, ..self@ }),
            r matches Err(e) ==> e is InvalidParameter && e.text_spec()
                == "HagerZhangLineSearch: epsilon must be >= 0.0."@,
    {
        if !F::from_ratio(0, 1).le(epsilon) {
            return Err(
                ArgminError::invalid_parameter("HagerZhangLineSearch: epsilon must be >= 0.0."),
            );
        }
        let mut s = self;
        s.epsilon = epsilon;
        Ok(s)
    }

    /// set theta: accepted if it lies in (0, 1)
    pub fn theta(self, theta: F) -> (r: Result<Self, ArgminError>)
        ensures
            r is Ok <==> in_open_unit(theta),
            r matches Ok(s) ==> s@ == (HagerZhangView { theta, ..self@ }),
            r matches Err(e) ==> e is InvalidParameter && e.text_spec() == (if !zero::<F>().lt_spec(
                theta,
            ) {
                "HagerZhangLineSearch: theta must be > 0.0."@
            } else {
                "HagerZhangLineSearch: theta must be < 1.0."@
            }),
    {
        if !F::from_ratio(0, 1).lt(theta) {
            return Err(
                ArgminError::invalid_parameter("HagerZhangLineSearch: theta must be > 0.0."),
            );
        }
        if !theta.lt(F::from_ratio(1, 1)) {
            return Err(
                ArgminError::invalid_parameter("HagerZhangLineSearch: theta must be < 1.0."),
            );
        }
        let mut s = self;
        s.theta = theta;
        Ok(s)
    }

    /// set gamma: accepted if it lies in (0, 1)
    pub fn gamma(self, gamma: F) -> (r: Result<Self, ArgminError>)
        ensures
            r is Ok <==> in_open_unit(gamma),
            r matches Ok(s) ==> s@ == (HagerZhangView { gamma, ..self@ }),
            r matches Err(e) ==> e is InvalidParameter && e.text_spec() == (if !zero::<F>().lt_spec(
                gamma,
            ) {
                "HagerZhangLineSearch: gamma must be > 0.0."@
            } else {
                "HagerZhangLineSearch: gamma must be < 1.0."@
            }),
    {
        if !F::from_ratio(0, 1).lt(gamma) {
            return Err(
                ArgminError::invalid_parameter("HagerZhangLineSearch: gamma must be > 0.0."),
            );
        }
        if !gamma.lt(F::from_ratio(1, 1)) {
            return Err(
                ArgminError::invalid_parameter("HagerZhangLineSearch: gamma must be < 1.0."),
            );
        }
        let mut s = self;
        s.gamma = gamma;
        Ok(s)
    }

    /// set eta: accepted if it is above zero
    pub fn eta(self, eta: F) -> (r: Result<Self, ArgminError>)
        ensures
            r is Ok <==> zero::<F>().lt_spec(eta),
            r matches Ok(s) ==> s@ == (HagerZhangView { eta, ..self@ }),
            r matches Err(e) ==> e is InvalidParameter && e.text_spec()
                == "HagerZhangLineSearch: eta must be > 0.0."@,
    {
        if !F::from_ratio(0, 1).lt(eta) {
            return Err(
                ArgminError::invalid_parameter("HagerZhangLineSearch: eta must be > 0.0."),
            );
        }
        let mut s = self;
        s.eta = eta;
        Ok(s)
    }

    /// set alpha limits: accepted if `alpha_min` is not below zero and `alpha_max` is
    /// above `alpha_min`
    pub fn alpha(self, alpha_min: F, alpha_max: F) -> (r: Result<Self, ArgminError>)
        ensures
            r is Ok <==> zero::<F>().le_spec(alpha_min) && alpha_min.lt_spec(alpha_max),
            r matches Ok(s) ==> s@ == (HagerZhangView { alpha_min, alpha_max, ..self@ }),
            r matches Err(e) ==> e is InvalidParameter && e.text_spec() == (if !zero::<F>().le_spec(
                alpha_min,
            ) {
                "HagerZhangLineSearch: alpha_min must be >= 0.0."@
            } else {
                "HagerZhangLineSearch: alpha_min must be smaller than alpha_max."@
            }),
    {
        if !F::from_ratio(0, 1).le(alpha_min) {
            return Err(
                ArgminError::invalid_parameter("HagerZhangLineSearch: alpha_min must be >= 0.0."),
            );
        }
        if !alpha_min.lt(alpha_max) {
            return Err(
                ArgminError::invalid_parameter(
                    "HagerZhangLineSearch: alpha_min must be smaller than alpha_max.",
                ),
            );
        }
        let mut s = self;
        s.a_x_init = alpha_min;
        s.b_x_init = alpha_max;
        Ok(s)
    }
}

/// The number of bisections after which the bracket update gives up.
pub const MAX_BISECTIONS: u32 = 1000;

/// `post` is the problem `pre` after a number of cost and gradient evaluations: the
/// objective is the same, the two counts have not gone down, and nothing else was
/// counted.
pub open spec fn probed<O>(pre: Problem<O>, post: Problem<O>) -> bool {
    &&& post.problem == pre.problem
    &&& pre.cost_count <= post.cost_count
    &&& pre.gradient_count <= post.gradient_count
    &&& post.hessian_count == pre.hessian_count
    &&& post.jacobian_count == pre.jacobian_count
    &&& post.operator_count == pre.operator_count
}

/// The problem after one more sample: the cost and the gradient were each evaluated
/// once more.
pub open spec fn sampled_once<O>(problem: Problem<O>) -> Problem<O> {
    Problem {
        cost_count: counted(problem.cost_count),
        gradient_count: counted(problem.gradient_count),
        ..problem
    }
}

/// The bracket `[lower, upper]` has what the bracket `[a, b]` had: the opposite slope
/// condition, and a cost within the limit at the lower end.
pub open spec fn bracket_kept<F: ArgminFloat>(
    a: Triplet<F>,
    b: Triplet<F>,
    lower: Triplet<F>,
    upper: Triplet<F>,
    limit: F,
) -> bool {
    &&& opposite_slope(a, b) ==> opposite_slope(lower, upper)
    &&& within(a, limit) ==> within(lower, limit)
}

impl<P, G, F> HagerZhangView<P, G, F> where
    F: ArgminFloat,
    P: ArgminScaledAdd<P, F, P> + ArgminDot<G, F>,
 {
    /// The line search knows where it starts and in which direction it looks.
    pub open spec fn ready(self) -> bool {
        self.init_param is Some && self.search_direction is Some
    }

    /// The point at the step length `alpha`: the start plus `alpha` times the search
    /// direction.
    pub open spec fn point_at(self, alpha: F) -> P {
        self.init_param->0.scaled_add_spec(&alpha, &self.search_direction->0)
    }

    /// The slope of the line function where the gradient is `grad`.
    pub open spec fn slope_of(self, grad: G) -> F {
        self.search_direction->0.dot_spec(&grad)
    }

    /// `finit + epsilon_k`: the cost up to which a point at which the line function
    /// falls can be the lower end of the bracket.
    pub open spec fn cost_limit(self) -> F {
        self.finit.add_spec(&self.epsilon_k)
    }

    /// `t` is what the objective gave at the step length `t.0`: its cost there, and the
    /// slope that belongs to a gradient it returned there.
    pub open spec fn sampled<O>(self, objective: O, t: Triplet<F>) -> bool where
        O: CostFunction<Param = P, Output = F> + Gradient<Param = P, Gradient = G>,
     {
        &&& objective.cost_spec(&self.point_at(t.0), Ok(t.1))
        &&& exists|grad: G| #[trigger]
            objective.gradient_spec(&self.point_at(t.0), Ok(grad)) && t.2 == self.slope_of(grad)
    }

    /// `t` is one of `a` and `b`, or was sampled.
    pub open spec fn known<O>(self, objective: O, a: Triplet<F>, b: Triplet<F>, t: Triplet<F>) -> bool where
        O: CostFunction<Param = P, Output = F> + Gradient<Param = P, Gradient = G>,
     {
        t == a || t == b || self.sampled(objective, t)
    }

    /// What a probe at the step length `alpha` comes to, and what it does to the
    /// problem. The cost is evaluated first. A sample counts one evaluation of the cost
    /// and one of the gradient. A failure is the objective's own: of the cost, with the
    /// cost alone counted, or of the gradient after a cost that it gave.
    pub open spec fn probe_of<O>(
        self,
        before: Problem<O>,
        alpha: F,
        r: Result<Triplet<F>, ArgminError>,
        after: Problem<O>,
    ) -> bool where O: CostFunction<Param = P, Output = F> + Gradient<Param = P, Gradient = G> {
        match r {
            Ok(t) => t.0 == alpha && self.sampled(before.problem, t) && after == sampled_once(
                before,
            ),
            Err(e) => {
                ||| before.problem.cost_spec(&self.point_at(alpha), Err(e)) && after == (Problem {
                    cost_count: counted(before.cost_count),
                    ..before
                })
                ||| (exists|f: F| #[trigger] before.problem.cost_spec(&self.point_at(alpha), Ok(f)))
                    && before.problem.gradient_spec(&self.point_at(alpha), Err(e)) && after
                    == sampled_once(before)
            },
        }
    }

    /// What a bisection that may sample `rounds` more points comes to, where it goes on
    /// between `lower` and the step length `upper_x`, and what it does to the problem.
    /// With no point left it ends in a `PotentialBug`. Else the probe at the next point
    /// fails, or it gives a sample: then [`bisect_step_spec`] ends the bisection with a
    /// bracket, or says between which points it goes on with one point less.
    pub open spec fn bisection<O>(
        self,
        before: Problem<O>,
        lower: Triplet<F>,
        upper_x: F,
        rounds: nat,
        r: Result<(Triplet<F>, Triplet<F>), ArgminError>,
        after: Problem<O>,
    ) -> bool where O: CostFunction<Param = P, Output = F> + Gradient<Param = P, Gradient = G>
        decreases rounds,
    {
        if rounds == 0 {
            r matches Err(e) && e is PotentialBug && after == before
        } else {
            ||| r matches Err(e) && self.probe_of(
                before,
                bisection_point_spec(self.theta, lower.0, upper_x),
                Err(e),
                after,
            )
            ||| exists|d: Triplet<F>|
                {
                    &&& #[trigger] self.probe_of(
                        before,
                        bisection_point_spec(self.theta, lower.0, upper_x),
                        Ok(d),
                        sampled_once(before),
                    )
                    &&& match bisect_step_spec(lower, upper_x, d, self.cost_limit()) {
                        Bisection::Found(found_lower, found_upper) => r == Ok::<_, ArgminError>(
                            (found_lower, found_upper),
                        ) && after == sampled_once(before),
                        Bisection::Narrowed { lower: next_lower, upper_x: next_upper_x } =>
                            self.bisection(
                            sampled_once(before),
                            next_lower,
                            next_upper_x,
                            (rounds - 1) as nat,
                            r,
                            after,
                        ),
                    }
                }
        }
    }

    /// What the bisection towards the lower end `a`, begun between `a` and the step
    /// length `c_x`, comes to. It samples up to [`MAX_BISECTIONS`] points as
    /// [`Self::bisection`] says. A bracket that it finds has an upper end that was
    /// sampled where the line function does not fall, and a lower end that is `a` or was
    /// sampled where the line function falls with a cost within the limit; and at least
    /// one sample was taken for it.
    pub open spec fn bisected<O>(
        self,
        before: Problem<O>,
        a: Triplet<F>,
        c_x: F,
        r: Result<(Triplet<F>, Triplet<F>), ArgminError>,
        after: Problem<O>,
    ) -> bool where O: CostFunction<Param = P, Output = F> + Gradient<Param = P, Gradient = G> {
        &&& self.bisection(before, a, c_x, MAX_BISECTIONS as nat, r, after)
        &&& probed(before, after)
        &&& r matches Ok((lower, upper)) ==> {
            &&& rises(upper)
            &&& self.sampled(before.problem, upper)
            &&& lower == a || (falls(lower) && within(lower, self.cost_limit()) && self.sampled(
                before.problem,
                lower,
            ))
            &&& probed(sampled_once(before), after)
        }
    }

    /// What `terminate` answers: the line search is done once the best step meets the
    /// strong Wolfe conditions or their approximate form.
    pub open spec fn verdict(self) -> TerminationReason {
        if wolfe(self.delta, self.sigma, self.finit, self.dginit, self.best) || approximate_wolfe(
            self.delta,
            self.sigma,
            self.finit,
            self.dginit,
            self.epsilon_k,
            self.best,
        ) {
            TerminationReason::LineSearchConditionMet
        } else {
            TerminationReason::NotTerminated
        }
    }

    /// The state that a step of the line search hands back: `state` with the point at
    /// the best step as its parameter vector and the best cost as its cost.
    pub open spec fn reported(
        self,
        state: IterStateView<P, G, (), (), F>,
        post: IterStateView<P, G, (), (), F>,
    ) -> bool where P: Clone {
        (IterStateView { param: Some(self.point_at(self.best.0)), ..state }).cost_set(
            self.best.1,
            post,
        )
    }

    /// What the update of the bracket `[a, b]` with the probe `c` comes to, case by
    /// case, and what it does to the problem: only the bisection evaluates the
    /// objective.
    pub open spec fn updated<O>(
        self,
        before: Problem<O>,
        a: Triplet<F>,
        b: Triplet<F>,
        c: Triplet<F>,
        r: Result<(Triplet<F>, Triplet<F>), ArgminError>,
        after: Problem<O>,
    ) -> bool where O: CostFunction<Param = P, Output = F> + Gradient<Param = P, Gradient = G> {
        match update_case(a, b, c, self.cost_limit()) {
            UpdateCase::Unchanged => r == Ok::<_, ArgminError>((a, b)) && after == before,
            UpdateCase::Upper => r == Ok::<_, ArgminError>((a, c)) && after == before,
            UpdateCase::Lower => r == Ok::<_, ArgminError>((c, b)) && after == before,
            UpdateCase::Bisect => self.bisected(before, a, c.0, r, after),
            UpdateCase::Undecided => r matches Err(e) && e is PotentialBug && after == before,
        }
    }

    /// What follows the first update of the double secant step. `first` is what the
    /// update of `[a, b]` with the probe at `c_x` came to. A failure is handed on. Where
    /// [`second_probe_spec`] names no second probe, the first bracket is the result.
    /// Else the probe there fails, or the result is what the update of the first bracket
    /// with the sample there comes to.
    pub open spec fn second_step<O>(
        self,
        before: Problem<O>,
        a: Triplet<F>,
        b: Triplet<F>,
        c_x: F,
        first: Result<(Triplet<F>, Triplet<F>), ArgminError>,
        r: Result<(Triplet<F>, Triplet<F>), ArgminError>,
        after: Problem<O>,
    ) -> bool where O: CostFunction<Param = P, Output = F> + Gradient<Param = P, Gradient = G> {
        match first {
            Err(e) => r == first && after == before,
            Ok((lower, upper)) => match second_probe_spec(a, b, c_x, lower, upper) {
                None => r == first && after == before,
                Some(x) => {
                    ||| r matches Err(e) && self.probe_of(before, x, Err(e), after)
                    ||| exists|c_bar: Triplet<F>|
                        {
                            &&& #[trigger] self.probe_of(before, x, Ok(c_bar), sampled_once(before))
                            &&& self.updated(sampled_once(before), lower, upper, c_bar, r, after)
                        }
                },
            },
        }
    }

    /// What the double secant step on the bracket `[a, b]` comes to, and what it does
    /// to the problem: the probe at the secant point of `a` and `b` fails; or it gives
    /// a sample, and the result is what [`Self::second_step`] makes of the update of
    /// `[a, b]` with it.
    pub open spec fn double_secant<O>(
        self,
        before: Problem<O>,
        a: Triplet<F>,
        b: Triplet<F>,
        r: Result<(Triplet<F>, Triplet<F>), ArgminError>,
        after: Problem<O>,
    ) -> bool where O: CostFunction<Param = P, Output = F> + Gradient<Param = P, Gradient = G> {
        ||| r matches Err(e) && self.probe_of(
            before,
            secant_spec(a.0, a.2, b.0, b.2),
            Err(e),
            after,
        )
        ||| exists|
            c: Triplet<F>,
            first: Result<(Triplet<F>, Triplet<F>), ArgminError>,
            between: Problem<O>,
        |
            {
                &&& self.probe_of(
                    before,
                    secant_spec(a.0, a.2, b.0, b.2),
                    Ok(c),
                    sampled_once(before),
                )
                &&& #[trigger] self.updated(sampled_once(before), a, b, c, first, between)
                &&& self.second_step(between, a, b, c.0, first, r, after)
            }
    }

    /// What follows the double secant step of an iteration. `mid` is the bracket that
    /// the double secant step on the bracket of the line search came to. Where it is
    /// wider than gamma times the old bracket, the probe at its middle fails, or the
    /// result is what the update of `mid` with the sample there comes to; else the
    /// result is `mid`.
    pub open spec fn narrowed<O>(
        self,
        before: Problem<O>,
        mid: (Triplet<F>, Triplet<F>),
        r: Result<(Triplet<F>, Triplet<F>), ArgminError>,
        after: Problem<O>,
    ) -> bool where O: CostFunction<Param = P, Output = F> + Gradient<Param = P, Gradient = G> {
        if shrunk_too_little(self.gamma, self.a.0, self.b.0, mid.0.0, mid.1.0) {
            ||| r matches Err(e) && self.probe_of(
                before,
                midpoint_spec(mid.0.0, mid.1.0),
                Err(e),
                after,
            )
            ||| exists|c: Triplet<F>|
                {
                    &&& #[trigger] self.probe_of(
                        before,
                        midpoint_spec(mid.0.0, mid.1.0),
                        Ok(c),
                        sampled_once(before),
                    )
                    &&& self.updated(sampled_once(before), mid.0, mid.1, c, r, after)
                }
        } else {
            r == Ok::<_, ArgminError>(mid) && after == before
        }
    }

    /// What the work of one iteration on the bracket of the line search comes to, and
    /// what it does to the problem: the double secant step fails; or it gives a
    /// bracket, and the result is what [`Self::narrowed`] makes of it.
    pub open spec fn iterated<O>(
        self,
        before: Problem<O>,
        r: Result<(Triplet<F>, Triplet<F>), ArgminError>,
        after: Problem<O>,
    ) -> bool where O: CostFunction<Param = P, Output = F> + Gradient<Param = P, Gradient = G> {
        ||| r matches Err(e) && self.double_secant(before, self.a, self.b, Err(e), after)
        ||| exists|mid: (Triplet<F>, Triplet<F>), between: Problem<O>|
            {
                &&& #[trigger] self.double_secant(before, self.a, self.b, Ok(mid), between)
                &&& self.narrowed(between, mid, r, after)
            }
    }
}

impl<P, G, F> HagerZhangLineSearch<P, G, F> where
    P: ArgminScaledAdd<P, F, P> + ArgminDot<G, F>,
    F: ArgminFloat,
 {
    /// The cost of the objective at the step length `alpha`. One cost evaluation is
    /// counted.
    fn calc<O>(&self, problem: &mut Problem<O>, alpha: F) -> (r: Result<F, ArgminError>) where
        O: CostFunction<Param = P, Output = F> + Gradient<Param = P, Gradient = G>,

        requires
            self@.ready(),
        ensures
            *final(problem) == (Problem {
                cost_count: counted(old(problem).cost_count),
                ..*old(problem)
            }),
            old(problem).problem.cost_spec(&self@.point_at(alpha), r),
    {
        let tmp = self.init_param.as_ref().unwrap().scaled_add(
            &alpha,
            self.search_direction.as_ref().unwrap(),
        );
        problem.cost(&tmp)
    }

    /// The slope of the line function at the step length `alpha`: the dot product of
    /// the search direction and the gradient of the objective there. One gradient
    /// evaluation is counted.
    fn calc_grad<O>(&self, problem: &mut Problem<O>, alpha: F) -> (r: Result<F, ArgminError>) where
        O: CostFunction<Param = P, Output = F> + Gradient<Param = P, Gradient = G>,

        requires
            self@.ready(),
        ensures
            *final(problem) == (Problem {
                gradient_count: counted(old(problem).gradient_count),
                ..*old(problem)
            }),
            match r {
                Ok(g) => exists|grad: G| #[trigger]
                    old(problem).problem.gradient_spec(&self@.point_at(alpha), Ok(grad)) && g
                        == self@.slope_of(grad),
                Err(e) => old(problem).problem.gradient_spec(&self@.point_at(alpha), Err(e)),
            },
    {
        let tmp = self.init_param.as_ref().unwrap().scaled_add(
            &alpha,
            self.search_direction.as_ref().unwrap(),
        );
        match problem.gradient(&tmp) {
            Ok(grad) => {
                let g = self.search_direction.as_ref().unwrap().dot(&grad);
                assert(old(problem).problem.gradient_spec(&self@.point_at(alpha), Ok(grad)) && g
                    == self@.slope_of(grad));
                Ok(g)
            },
            Err(e) => Err(e),
        }
    }

    /// The cost and the slope at the step length `alpha`, the cost evaluated first.
    fn probe<O>(&self, problem: &mut Problem<O>, alpha: F) -> (r: Result<
        Triplet<F>,
        ArgminError,
    >) where O: CostFunction<Param = P, Output = F> + Gradient<Param = P, Gradient = G>
        requires
            self@.ready(),
        ensures
            probed(*old(problem), *final(problem)),
            self@.probe_of(*old(problem), alpha, r, *final(problem)),
    {
        let f = match self.calc(problem, alpha) {
            Ok(f) => f,
            Err(e) => {
                return Err(e);
            },
        };
        assert(old(problem).problem.cost_spec(&self@.point_at(alpha), Ok(f)));
        let g = match self.calc_grad(problem, alpha) {
            Ok(g) => g,
            Err(e) => {
                return Err(e);
            },
        };
        Ok((alpha, f, g))
    }

    /// Looks between `a` and the step length `c_x` for a point at which the line
    /// function does not fall, by evaluating `(1 - theta) * lower + theta * upper`
    /// again and again. Gives up with a `PotentialBug` after [`MAX_BISECTIONS`] points.
    fn bisect<O>(&self, problem: &mut Problem<O>, a: Triplet<F>, c_x: F) -> (r: Result<
        (Triplet<F>, Triplet<F>),
        ArgminError,
    >) where O: CostFunction<Param = P, Output = F> + Gradient<Param = P, Gradient = G>
        requires
            self@.ready(),
        ensures
            self@.bisected(*old(problem), a, c_x, r, *final(problem)),
    {
        let limit = self.finit.add(&self.epsilon_k);
        let mut lower = a;
        let mut upper_x = c_x;
        let mut rounds: u32 = 0;
        let ghost begun = *old(problem);
        let ghost mut left: nat = MAX_BISECTIONS as nat;
        while rounds < MAX_BISECTIONS
            invariant
                rounds <= MAX_BISECTIONS,
                left == MAX_BISECTIONS - rounds,
                begun == *old(problem),
                self@.ready(),
                limit == self@.cost_limit(),
                probed(begun, *problem),
                rounds > 0 ==> probed(sampled_once(begun), *problem),
                lower == a || (falls(lower) && within(lower, limit) && self@.sampled(
                    begun.problem,
                    lower,
                )),
                forall|r: Result<(Triplet<F>, Triplet<F>), ArgminError>, after: Problem<O>|
                    #[trigger] self@.bisection(*problem, lower, upper_x, left, r, after)
                        ==> self@.bisection(begun, a, c_x, MAX_BISECTIONS as nat, r, after),
            decreases MAX_BISECTIONS - rounds,
        {
            let ghost now = *problem;
            let d_x = bisection_point(self.theta, lower.0, upper_x);
            let d = match self.probe(problem, d_x) {
                Ok(d) => d,
                Err(e) => {
                    assert(self@.bisection(now, lower, upper_x, left, Err(e), *problem));
                    return Err(e);
                },
            };
            assert(self@.probe_of(
                now,
                bisection_point_spec(self@.theta, lower.0, upper_x),
                Ok(d),
                sampled_once(now),
            ));
            match bisect_step(lower, upper_x, d, limit) {
                Bisection::Found(found_lower, found_upper) => {
                    assert(self@.bisection(
                        now,
                        lower,
                        upper_x,
                        left,
                        Ok((found_lower, found_upper)),
                        *problem,
                    ));
                    return Ok((found_lower, found_upper));
                },
                Bisection::Narrowed { lower: next_lower, upper_x: next_upper_x } => {
                    let ghost fewer = (left - 1) as nat;
                    assert forall|r: Result<(Triplet<F>, Triplet<F>), ArgminError>, after: Problem<O>|
                        #[trigger] self@.bisection(
                            *problem,
                            next_lower,
                            next_upper_x,
                            fewer,
                            r,
                            after,
                        ) implies self@.bisection(
                        begun,
                        a,
                        c_x,
                        MAX_BISECTIONS as nat,
                        r,
                        after,
                    ) by {
                        assert(self@.bisection(now, lower, upper_x, left, r, after));
                    }
                    lower = next_lower;
                    upper_x = next_upper_x;
                    proof {
                        left = fewer;
                    }
                },
            }
            rounds = rounds + 1;
        }
        let e = ArgminError::potential_bug(
            "HagerZhangLineSearch: the bisection in `update` did not come to an end.",
        );
        assert(self@.bisection(*problem, lower, upper_x, left, Err(e), *problem));
        Err(e)
    }

    /// Updates the bracket `[a, b]` with the probe `c`. Only the bisection evaluates
    /// the objective.
    fn update<O>(
        &self,
        problem: &mut Problem<O>,
        a: Triplet<F>,
        b: Triplet<F>,
        c: Triplet<F>,
    ) -> (r: Result<(Triplet<F>, Triplet<F>), ArgminError>) where
        O: CostFunction<Param = P, Output = F> + Gradient<Param = P, Gradient = G>,

        requires
            self@.ready(),
        ensures
            probed(*old(problem), *final(problem)),
            self@.updated(*old(problem), a, b, c, r, *final(problem)),
            r matches Ok((lower, upper)) ==> bracket_kept(a, b, lower, upper, self@.cost_limit()),
    {
        let limit = self.finit.add(&self.epsilon_k);
        match classify(a, b, c, limit) {
            UpdateCase::Unchanged => Ok((a, b)),
            UpdateCase::Upper => Ok((a, c)),
            UpdateCase::Lower => Ok((c, b)),
            UpdateCase::Bisect => self.bisect(problem, a, c.0),
            UpdateCase::Undecided => Err(
                ArgminError::potential_bug(
                    "HagerZhangLineSearch: Reached unreachable point in `update` method.",
                ),
            ),
        }
    }

    /// secant step
    fn secant(&self, a_x: F, a_g: F, b_x: F, b_g: F) -> (r: F)
        ensures
            r == secant_spec(a_x, a_g, b_x, b_g),
    {
        secant_point(a_x, a_g, b_x, b_g)
    }

    /// double secant step
    fn secant2<O>(&self, problem: &mut Problem<O>, a: Triplet<F>, b: Triplet<F>) -> (r: Result<
        (Triplet<F>, Triplet<F>),
        ArgminError,
    >) where O: CostFunction<Param = P, Output = F> + Gradient<Param = P, Gradient = G>
        requires
            self@.ready(),
        ensures
            probed(*old(problem), *final(problem)),
            self@.double_secant(*old(problem), a, b, r, *final(problem)),
            r matches Ok((lower, upper)) ==> {
                &&& bracket_kept(a, b, lower, upper, self@.cost_limit())
                &&& self@.known(old(problem).problem, a, b, lower)
                &&& self@.known(old(problem).problem, a, b, upper)
                &&& probed(sampled_once(*old(problem)), *final(problem))
            },
    {
        let c_x = self.secant(a.0, a.2, b.0, b.2);
        let c = match self.probe(problem, c_x) {
            Ok(c) => c,
            Err(e) => {
                return Err(e);
            },
        };
        let ghost sampled = *problem;
        let first = self.update(problem, a, b, c);
        let ghost between = *problem;
        assert(self@.updated(sampled, a, b, c, first, between));
        let (lower, upper) = match first {
            Ok(bracket) => bracket,
            Err(e) => {
                assert(self@.second_step(between, a, b, c_x, Err(e), Err(e), between));
                return Err(e);
            },
        };
        let ghost first = Ok::<(Triplet<F>, Triplet<F>), ArgminError>((lower, upper));
        match second_probe(a, b, c_x, lower, upper) {
            Some(c_bar_x) => {
                let c_bar = match self.probe(problem, c_bar_x) {
                    Ok(c_bar) => c_bar,
                    Err(e) => {
                        assert(self@.second_step(between, a, b, c_x, first, Err(e), *problem));
                        return Err(e);
                    },
                };
                let r = self.update(problem, lower, upper, c_bar);
                assert(self@.probe_of(between, c_bar_x, Ok(c_bar), sampled_once(between)));
                assert(self@.second_step(between, a, b, c_x, first, r, *problem));
                r
            },
            None => {
                assert(self@.second_step(between, a, b, c_x, first, first, between));
                Ok((lower, upper))
            },
        }
    }

    /// Makes the best of `a`, `b` and `c` the best step.
    fn set_best(&mut self)
        ensures
            final(self)@ == (HagerZhangView {
                best: select_best_spec(old(self)@.a, old(self)@.b, old(self)@.c, old(self)@.best),
                ..old(self)@
            }),
    {
        let best = select_best(
            (self.a_x, self.a_f, self.a_g),
            (self.b_x, self.b_f, self.b_g),
            (self.c_x, self.c_f, self.c_g),
            (self.best_x, self.best_f, self.best_g),
        );
        self.best_x = best.0;
        self.best_f = best.1;
        self.best_g = best.2;
    }
}

impl<P, G, F> HagerZhangView<P, G, F> where
    F: ArgminFloat,
    P: Clone + ArgminScaledAdd<P, F, P> + ArgminDot<G, F>,
    G: ArgminDot<P, F>,
 {
    /// `post` is the line search `self` after `init` has bound it to `state`: it starts
    /// at a clone of the state's parameter vector, with the state's cost, or where that
    /// is infinite a cost that the objective gave there, and with the state's gradient,
    /// or where there is none a gradient that the objective gave there. The three
    /// probes were sampled at the ends of the first bracket and at the first probe.
    pub open spec fn initialized<O>(
        self,
        objective: O,
        state: IterStateView<P, G, (), (), F>,
        post: Self,
    ) -> bool where O: CostFunction<Param = P, Output = F> + Gradient<Param = P, Gradient = G> {
        &&& post == (HagerZhangView {
            init_param: post.init_param,
            finit: post.finit,
            init_grad: post.init_grad,
            a: post.a,
            b: post.b,
            c: post.c,
            epsilon_k: post.epsilon_k,
            dginit: post.dginit,
            best: post.best,
            ..self
        })
        &&& state.param is Some && post.init_param is Some && cloned(
            state.param->0,
            post.init_param->0,
        )
        &&& post.start_cost_known(objective, state)
        &&& post.start_gradient_known(objective, state)
        &&& post.a.0 == self.alpha_min && post.sampled(objective, post.a)
        &&& post.b.0 == self.alpha_max && post.sampled(objective, post.b)
        &&& post.c.0 == self.init_alpha && post.sampled(objective, post.c)
        &&& post.epsilon_k == self.epsilon.mul_spec(&post.finit.abs_spec())
        &&& post.dginit == post.init_grad->0.dot_spec(&post.search_direction->0)
        &&& post.best == select_best_spec(post.a, post.b, post.c, self.best)
    }

    /// The problem after the start of the line search was evaluated: the cost was
    /// evaluated once where the state's cost is infinite, and the gradient once where
    /// the state brings none.
    pub open spec fn started<O>(before: Problem<O>, state: IterStateView<P, G, (), (), F>) -> Problem<
        O,
    > {
        Problem {
            cost_count: if state.cost.is_infinite_spec() {
                counted(before.cost_count)
            } else {
                before.cost_count
            },
            gradient_count: if state.grad is None {
                counted(before.gradient_count)
            } else {
                before.gradient_count
            },
            ..before
        }
    }

    /// The line search `self` holds the cost at its start: the cost of `state`, or where
    /// that is infinite a cost that the objective gave there.
    pub open spec fn start_cost_known<O>(
        self,
        objective: O,
        state: IterStateView<P, G, (), (), F>,
    ) -> bool where O: CostFunction<Param = P, Output = F> + Gradient<Param = P, Gradient = G> {
        if state.cost.is_infinite_spec() {
            objective.cost_spec(&self.init_param->0, Ok(self.finit))
        } else {
            self.finit == state.cost
        }
    }

    /// The line search `self` holds the gradient at its start: the gradient of `state`,
    /// or where there is none a gradient that the objective gave there.
    pub open spec fn start_gradient_known<O>(
        self,
        objective: O,
        state: IterStateView<P, G, (), (), F>,
    ) -> bool where O: CostFunction<Param = P, Output = F> + Gradient<Param = P, Gradient = G> {
        match state.grad {
            Some(g) => self.init_grad == Some(g),
            None => self.init_grad is Some && objective.gradient_spec(
                &self.init_param->0,
                Ok(self.init_grad->0),
            ),
        }
    }

    /// How `init` fails on an objective's failure `e`, and what is counted then. `self`
    /// is the line search as `init` leaves it, which knows its start. The failure is
    /// one of: the cost at the start, where the state's cost is infinite, with that one
    /// evaluation counted; the gradient at the start, where the state brings none,
    /// after the cost there; the probe at the lower end of the first bracket, after the
    /// start; the probe at its upper end, after a sample at the lower end; the first
    /// probe, after samples at both ends.
    pub open spec fn init_failed<O>(
        self,
        before: Problem<O>,
        state: IterStateView<P, G, (), (), F>,
        e: ArgminError,
        after: Problem<O>,
    ) -> bool where O: CostFunction<Param = P, Output = F> + Gradient<Param = P, Gradient = G> {
        let begun = Self::started(before, state);
        let objective = before.problem;
        ||| {
            &&& state.cost.is_infinite_spec()
            &&& objective.cost_spec(&self.init_param->0, Err(e))
            &&& after == (Problem { cost_count: counted(before.cost_count), ..before })
        }
        ||| {
            &&& self.start_cost_known(objective, state)
            &&& state.grad is None
            &&& objective.gradient_spec(&self.init_param->0, Err(e))
            &&& after == begun
        }
        ||| {
            &&& self.start_cost_known(objective, state)
            &&& self.start_gradient_known(objective, state)
            &&& {
                ||| self.probe_of(begun, self.alpha_min, Err(e), after)
                ||| {
                    &&& exists|a: Triplet<F>| #[trigger]
                        self.probe_of(begun, self.alpha_min, Ok(a), sampled_once(begun))
                    &&& self.probe_of(sampled_once(begun), self.alpha_max, Err(e), after)
                }
                ||| {
                    &&& exists|a: Triplet<F>| #[trigger]
                        self.probe_of(begun, self.alpha_min, Ok(a), sampled_once(begun))
                    &&& exists|b: Triplet<F>| #[trigger]
                        self.probe_of(
                            sampled_once(begun),
                            self.alpha_max,
                            Ok(b),
                            sampled_once(sampled_once(begun)),
                        )
                    &&& self.probe_of(
                        sampled_once(sampled_once(begun)),
                        self.init_alpha,
                        Err(e),
                        after,
                    )
                }
            }
        }
    }

    /// `post` is the line search `self` after one iteration, which took the problem
    /// from `before` to `after`: its bracket is what [`Self::iterated`] says, so that it
    /// has what the old one had and its ends are taken from the old bracket or sampled;
    /// at least one sample was taken; and its best step is the best of the new ends and
    /// the first probe.
    pub open spec fn stepped<O>(self, before: Problem<O>, post: Self, after: Problem<O>) -> bool where
        O: CostFunction<Param = P, Output = F> + Gradient<Param = P, Gradient = G>,
     {
        &&& post == (HagerZhangView { a: post.a, b: post.b, best: post.best, ..self })
        &&& self.iterated(before, Ok((post.a, post.b)), after)
        &&& probed(sampled_once(before), after)
        &&& bracket_kept(self.a, self.b, post.a, post.b, self.cost_limit())
        &&& self.known(before.problem, self.a, self.b, post.a)
        &&& self.known(before.problem, self.a, self.b, post.b)
        &&& post.best == select_best_spec(post.a, post.b, self.c, self.best)
    }
}

/// An update keeps the bracket: where the line function falls at `a` and does not fall
/// at `b`, it falls at the lower end and does not fall at the upper end of the bracket
/// that the update of `[a, b]` with any probe `c` returns; and where the cost at `a` is
/// within the limit, so is the cost at the new lower end.
pub proof fn lemma_update_keeps_bracket<P, G, F, O>(
    search: HagerZhangView<P, G, F>,
    before: Problem<O>,
    a: Triplet<F>,
    b: Triplet<F>,
    c: Triplet<F>,
    lower: Triplet<F>,
    upper: Triplet<F>,
    after: Problem<O>,
) where
    F: ArgminFloat,
    P: ArgminScaledAdd<P, F, P> + ArgminDot<G, F>,
    O: CostFunction<Param = P, Output = F> + Gradient<Param = P, Gradient = G>,

    requires
        search.updated(before, a, b, c, Ok((lower, upper)), after),
    ensures
        bracket_kept(a, b, lower, upper, search.cost_limit()),
        opposite_slope(a, b) ==> falls(lower) && rises(upper),
{
}

/// The double secant step keeps the bracket: where the line function falls at `a` and
/// does not fall at `b`, it falls at the lower end and does not fall at the upper end
/// of the bracket that the double secant step on `[a, b]` returns; and where the cost
/// at `a` is within the limit, so is the cost at the new lower end.
pub proof fn lemma_double_secant_keeps_bracket<P, G, F, O>(
    search: HagerZhangView<P, G, F>,
    before: Problem<O>,
    a: Triplet<F>,
    b: Triplet<F>,
    lower: Triplet<F>,
    upper: Triplet<F>,
    after: Problem<O>,
) where
    F: ArgminFloat,
    P: ArgminScaledAdd<P, F, P> + ArgminDot<G, F>,
    O: CostFunction<Param = P, Output = F> + Gradient<Param = P, Gradient = G>,

    requires
        search.double_secant(before, a, b, Ok((lower, upper)), after),
    ensures
        bracket_kept(a, b, lower, upper, search.cost_limit()),
        opposite_slope(a, b) ==> falls(lower) && rises(upper),
{
    let (c, first, between) = choose|
        c: Triplet<F>,
        first: Result<(Triplet<F>, Triplet<F>), ArgminError>,
        between: Problem<O>,
    |
        {
            &&& search.probe_of(before, secant_spec(a.0, a.2, b.0, b.2), Ok(c), sampled_once(before))
            &&& #[trigger] search.updated(sampled_once(before), a, b, c, first, between)
            &&& search.second_step(between, a, b, c.0, first, Ok((lower, upper)), after)
        };
    let mid = first->Ok_0;
    lemma_update_keeps_bracket(search, sampled_once(before), a, b, c, mid.0, mid.1, between);
    if second_probe_spec(a, b, c.0, mid.0, mid.1) is Some {
        let x = second_probe_spec(a, b, c.0, mid.0, mid.1)->0;
        let c_bar = choose|c_bar: Triplet<F>|
            {
                &&& #[trigger] search.probe_of(between, x, Ok(c_bar), sampled_once(between))
                &&& search.updated(
                    sampled_once(between),
                    mid.0,
                    mid.1,
                    c_bar,
                    Ok((lower, upper)),
                    after,
                )
            };
        lemma_update_keeps_bracket(
            search,
            sampled_once(between),
            mid.0,
            mid.1,
            c_bar,
            lower,
            upper,
            after,
        );
    }
}

/// The work of an iteration keeps the bracket: the bracket that the double secant step
/// and the cut at the middle come to has what the bracket of the line search had.
pub proof fn lemma_iterated_keeps_bracket<P, G, F, O>(
    search: HagerZhangView<P, G, F>,
    before: Problem<O>,
    lower: Triplet<F>,
    upper: Triplet<F>,
    after: Problem<O>,
) where
    F: ArgminFloat,
    P: ArgminScaledAdd<P, F, P> + ArgminDot<G, F>,
    O: CostFunction<Param = P, Output = F> + Gradient<Param = P, Gradient = G>,

    requires
        search.iterated(before, Ok((lower, upper)), after),
    ensures
        bracket_kept(search.a, search.b, lower, upper, search.cost_limit()),
        opposite_slope(search.a, search.b) ==> falls(lower) && rises(upper),
{
    let (mid, between) = choose|mid: (Triplet<F>, Triplet<F>), between: Problem<O>|
        {
            &&& #[trigger] search.double_secant(before, search.a, search.b, Ok(mid), between)
            &&& search.narrowed(between, mid, Ok((lower, upper)), after)
        };
    lemma_double_secant_keeps_bracket(search, before, search.a, search.b, mid.0, mid.1, between);
    if shrunk_too_little(search.gamma, search.a.0, search.b.0, mid.0.0, mid.1.0) {
        let c = choose|c: Triplet<F>|
            {
                &&& #[trigger] search.probe_of(
                    between,
                    midpoint_spec(mid.0.0, mid.1.0),
                    Ok(c),
                    sampled_once(between),
                )
                &&& search.updated(
                    sampled_once(between),
                    mid.0,
                    mid.1,
                    c,
                    Ok((lower, upper)),
                    after,
                )
            };
        lemma_update_keeps_bracket(
            search,
            sampled_once(between),
            mid.0,
            mid.1,
            c,
            lower,
            upper,
            after,
        );
    }
}

/// An iteration keeps the bracket: where the line function falls at the lower end and
/// does not fall at the upper end before an iteration, so it does after it; and where
/// the cost at the lower end is within the limit before, so it is after.
pub proof fn lemma_iteration_keeps_bracket<P, G, F, O>(
    search: HagerZhangView<P, G, F>,
    before: Problem<O>,
    next: HagerZhangView<P, G, F>,
    after: Problem<O>,
) where
    F: ArgminFloat,
    P: Clone + ArgminScaledAdd<P, F, P> + ArgminDot<G, F>,
    G: ArgminDot<P, F>,
    O: CostFunction<Param = P, Output = F> + Gradient<Param = P, Gradient = G>,

    requires
        search.stepped(before, next, after),
    ensures
        opposite_slope(search.a, search.b) ==> falls(next.a) && rises(next.b),
        within(search.a, search.cost_limit()) ==> within(next.a, next.cost_limit()),
        brackets(search.a, search.b, search.cost_limit()) ==> brackets(
            next.a,
            next.b,
            next.cost_limit(),
        ),
{
}

/// The state that a step of the line search hands back has a best cost that is the
/// best cost of the state it was given, or lies below it.
pub proof fn lemma_step_never_raises_best_cost<P, G, F>(
    search: HagerZhangView<P, G, F>,
    state: IterStateView<P, G, (), (), F>,
    next: IterStateView<P, G, (), (), F>,
) where F: ArgminFloat, P: Clone + ArgminScaledAdd<P, F, P> + ArgminDot<G, F>
    requires
        search.reported(state, next),
    ensures
        next.best_cost == state.best_cost || next.best_cost.lt_spec(state.best_cost),
{
}

/// The verdict of a line search does not change as long as the line search does not:
/// it is a function of what the line search holds.
pub proof fn lemma_verdict_is_stable<P, G, F>(
    search: HagerZhangView<P, G, F>,
    other: HagerZhangView<P, G, F>,
) where F: ArgminFloat, P: ArgminScaledAdd<P, F, P> + ArgminDot<G, F>
    requires
        other.delta == search.delta,
        other.sigma == search.sigma,
        other.finit == search.finit,
        other.dginit == search.dginit,
        other.epsilon_k == search.epsilon_k,
        other.best == search.best,
    ensures
        other.verdict() == search.verdict(),
        search.verdict() == TerminationReason::LineSearchConditionMet || search.verdict()
            == TerminationReason::NotTerminated,
{
}

/// A line search that was put together from the parts of another steps as the other
/// does: what `init`, `next_iter` and `terminate` may do depends on the parts of a line
/// search alone.
pub proof fn lemma_same_parts_step_alike<P, G, O, F>(
    saved: HagerZhangLineSearch<P, G, F>,
    reloaded: HagerZhangLineSearch<P, G, F>,
    problem: Problem<O>,
    state: IterState<P, G, (), (), F>,
    out: Result<(IterState<P, G, (), (), F>, Option<KV>), ArgminError>,
    next: HagerZhangLineSearch<P, G, F>,
    after: Problem<O>,
) where
    O: CostFunction<Param = P, Output = F> + Gradient<Param = P, Gradient = G>,
    P: Clone + ArgminDot<G, F> + ArgminScaledAdd<P, F, P>,
    G: ArgminDot<P, F>,
    F: ArgminFloat,

    requires
        reloaded@ == saved@,
    ensures
        reloaded.init_spec(&problem, &state, &out, &next, &after) == saved.init_spec(
            &problem,
            &state,
            &out,
            &next,
            &after,
        ),
        reloaded.next_iter_spec(&problem, &state, &out, &next, &after) == saved.next_iter_spec(
            &problem,
            &state,
            &out,
            &next,
            &after,
        ),
        Solver::<O, IterState<P, G, (), (), F>>::verdict(&reloaded, &state) == Solver::<
            O,
            IterState<P, G, (), (), F>,
        >::verdict(&saved, &state),
{
}

impl<P, G, F> LineSearch<P, F> for HagerZhangLineSearch<P, G, F> {
    /// Set search direction
    fn set_search_direction(&mut self, direction: P)
        ensures
            final(self)@ == (HagerZhangView { search_direction: Some(direction), ..old(self)@ }),
    {
        self.search_direction = Some(direction);
    }

    /// Set initial alpha value: the step length of the first probe
    fn set_init_alpha(&mut self, step_length: F) -> (r: Result<(), ArgminError>)
        ensures
            r is Ok,
            final(self)@ == (HagerZhangView { init_alpha: step_length, ..old(self)@ }),
    {
        self.c_x_init = step_length;
        Ok(())
    }
}

impl<P, G, O, F> Solver<O, IterState<P, G, (), (), F>> for HagerZhangLineSearch<P, G, F> where
    O: CostFunction<Param = P, Output = F> + Gradient<Param = P, Gradient = G>,
    P: Clone + ArgminDot<G, F> + ArgminScaledAdd<P, F, P>,
    G: ArgminDot<P, F>,
    F: ArgminFloat,
 {
    const NAME: &'static str = "Hager-Zhang Line search";

    open spec fn verdict(&self, state: &IterState<P, G, (), (), F>) -> TerminationReason {
        self@.verdict()
    }

    /// What `init` does, on every input: the failures and what is evaluated for each,
    /// and the line search and the state that it hands back.
    open spec fn init_spec(
        &self,
        problem: &Problem<O>,
        state: &IterState<P, G, (), (), F>,
        out: &Result<(IterState<P, G, (), (), F>, Option<KV>), ArgminError>,
        next: &Self,
        after: &Problem<O>,
    ) -> bool {
        &&& probed(*problem, *after)
        &&& match *out {
            Ok((s, kv)) => {
                &&& kv is None
                &&& !self@.sigma.lt_spec(self@.delta)
                &&& self@.search_direction is Some
                &&& self@.initialized(problem.problem, state@, next@)
                &&& *after == (Problem {
                    cost_count: counted(
                        counted(
                            counted(
                                if state@.cost.is_infinite_spec() {
                                    counted(problem.cost_count)
                                } else {
                                    problem.cost_count
                                },
                            ),
                        ),
                    ),
                    gradient_count: counted(
                        counted(
                            counted(
                                if state@.grad is None {
                                    counted(problem.gradient_count)
                                } else {
                                    problem.gradient_count
                                },
                            ),
                        ),
                    ),
                    ..*problem
                })
                &&& next@.reported(state@.grad_taken().0, s@)
            },
            Err(e) => if self@.sigma.lt_spec(self@.delta) {
                e is InvalidParameter && next@ == self@ && *after == *problem
            } else if self@.search_direction is None || state@.param is None {
                e is NotInitialized && next@ == self@ && *after == *problem
            } else {
                &&& next@ == (HagerZhangView {
                    init_param: next@.init_param,
                    finit: next@.finit,
                    init_grad: next@.init_grad,
                    ..self@
                })
                &&& next@.init_param is Some && cloned(state@.param->0, next@.init_param->0)
                &&& next@.init_failed(*problem, state@, e, *after)
            },
        }
    }

    /// Binds the line search to the parameter vector, the cost and the gradient of
    /// `state` and samples the ends of the first bracket and the first probe: three
    /// evaluations of the cost and of the gradient, and one more of each that the state
    /// does not bring.
    ///
    /// Fails with `InvalidParameter` where sigma lies below delta, and with
    /// `NotInitialized` where the search direction or the parameter vector is missing;
    /// the line search is then as it was. Any other failure is one of the objective.
    fn init(&mut self, problem: &mut Problem<O>, state: IterState<P, G, (), (), F>) -> (r: Result<
        (IterState<P, G, (), (), F>, Option<KV>),
        ArgminError,
    >)
        ensures
            old(self).init_spec(old(problem), &state, &r, final(self), final(problem)),
    {
        if self.sigma.lt(self.delta) {
            return Err(
                ArgminError::invalid_parameter("HagerZhangLineSearch: sigma must be >= delta."),
            );
        }
        if self.search_direction.is_none() {
            return Err(
                ArgminError::not_initialized(
                    "HagerZhangLineSearch: Search direction not initialized. Call `set_search_direction`.",
                ),
            );
        }
        if state.get_param().is_none() {
            return Err(
                ArgminError::not_initialized(
                    "HagerZhangLineSearch: Parameter vector not initialized. Set it in the state.",
                ),
            );
        }
        let mut state = state;
        let ghost given = state@;
        self.init_param = state.get_param().cloned();

        let cost = state.get_cost();
        self.finit = if cost.is_infinite() {
            match problem.cost(self.init_param.as_ref().unwrap()) {
                Ok(finit) => finit,
                Err(e) => {
                    return Err(e);
                },
            }
        } else {
            cost
        };

        self.init_grad = Some(
            match state.take_grad() {
                Some(grad) => grad,
                None => match problem.gradient(self.init_param.as_ref().unwrap()) {
                    Ok(grad) => grad,
                    Err(e) => {
                        return Err(e);
                    },
                },
            },
        );

        let ghost search = self@;
        let a = match self.probe(problem, self.a_x_init) {
            Ok(a) => a,
            Err(e) => {
                return Err(e);
            },
        };
        let b = match self.probe(problem, self.b_x_init) {
            Ok(b) => b,
            Err(e) => {
                return Err(e);
            },
        };
        let c = match self.probe(problem, self.c_x_init) {
            Ok(c) => c,
            Err(e) => {
                return Err(e);
            },
        };
        self.a_x = a.0;
        self.a_f = a.1;
        self.a_g = a.2;
        self.b_x = b.0;
        self.b_f = b.1;
        self.b_g = b.2;
        self.c_x = c.0;
        self.c_f = c.1;
        self.c_g = c.2;

        self.epsilon_k = self.epsilon.mul(&self.finit.abs());

        self.dginit = self.init_grad.as_ref().unwrap().dot(self.search_direction.as_ref().unwrap());

        self.set_best();
        let new_param = self.init_param.as_ref().unwrap().scaled_add(
            &self.best_x,
            self.search_direction.as_ref().unwrap(),
        );
        let best_f = self.best_f;
        proof {
            let objective = old(problem).problem;
            assert(self@.a == a && self@.b == b && self@.c == c);
            assert(self@.point_at(a.0) == search.point_at(a.0));
            assert(self@.point_at(b.0) == search.point_at(b.0));
            assert(self@.point_at(c.0) == search.point_at(c.0));
            assert(self@.sampled(objective, a));
            assert(self@.sampled(objective, b));
            assert(self@.sampled(objective, c));
        }
        Ok((state.param(new_param).cost(best_f), None))
    }

    /// What `next_iter` does, on every input: the failures and what is evaluated for
    /// each, and the line search and the state that it hands back.
    open spec fn next_iter_spec(
        &self,
        problem: &Problem<O>,
        state: &IterState<P, G, (), (), F>,
        out: &Result<(IterState<P, G, (), (), F>, Option<KV>), ArgminError>,
        next: &Self,
        after: &Problem<O>,
    ) -> bool {
        &&& probed(*problem, *after)
        &&& match *out {
            Ok((s, kv)) => {
                &&& kv is None
                &&& self@.ready()
                &&& self@.stepped(*problem, next@, *after)
                &&& next@.reported(state@, s@)
            },
            Err(e) => {
                &&& next@ == self@
                &&& if self@.ready() {
                    self@.iterated(*problem, Err(e), *after)
                } else {
                    e is NotInitialized && *after == *problem
                }
            },
        }
    }

    /// One iteration: a double secant step on the bracket, a bisection at the middle
    /// where the bracket did not shrink enough, and the choice of the best step.
    ///
    /// Fails with `NotInitialized` where the line search does not know where it starts
    /// or in which direction it looks. Any other failure is one of the objective, or a
    /// `PotentialBug` of the bracket update. The line search is as it was after any
    /// failure.
    fn next_iter(&mut self, problem: &mut Problem<O>, state: IterState<P, G, (), (), F>) -> (r:
        Result<(IterState<P, G, (), (), F>, Option<KV>), ArgminError>)
        ensures
            old(self).next_iter_spec(old(problem), &state, &r, final(self), final(problem)),
    {
        if self.init_param.is_none() || self.search_direction.is_none() {
            return Err(
                ArgminError::not_initialized(
                    "HagerZhangLineSearch: `next_iter` called before `init`.",
                ),
            );
        }
        // L1
        let a = (self.a_x, self.a_f, self.a_g);
        let b = (self.b_x, self.b_f, self.b_g);
        let ghost search = self@;
        let ghost begun = *old(problem);
        let (mut lower, mut upper) = match self.secant2(problem, a, b) {
            Ok(bracket) => bracket,
            Err(e) => {
                return Err(e);
            },
        };
        let ghost mid = (lower, upper);
        let ghost between = *problem;
        assert(search.double_secant(begun, a, b, Ok(mid), between));

        // L2
        if needs_bisection(self.gamma, a.0, b.0, lower.0, upper.0) {
            let c = match self.probe(problem, midpoint(lower.0, upper.0)) {
                Ok(c) => c,
                Err(e) => {
                    assert(search.narrowed(between, mid, Err(e), *problem));
                    return Err(e);
                },
            };
            let narrower = self.update(problem, lower, upper, c);
            assert(search.probe_of(
                between,
                midpoint_spec(mid.0.0, mid.1.0),
                Ok(c),
                sampled_once(between),
            ));
            assert(search.narrowed(between, mid, narrower, *problem));
            let (next_lower, next_upper) = match narrower {
                Ok(bracket) => bracket,
                Err(e) => {
                    return Err(e);
                },
            };
            lower = next_lower;
            upper = next_upper;
        }
        assert(search.narrowed(between, mid, Ok((lower, upper)), *problem));

        // L3
        self.a_x = lower.0;
        self.a_f = lower.1;
        self.a_g = lower.2;
        self.b_x = upper.0;
        self.b_f = upper.1;
        self.b_g = upper.2;

        self.set_best();
        let new_param = self.init_param.as_ref().unwrap().scaled_add(
            &self.best_x,
            self.search_direction.as_ref().unwrap(),
        );
        Ok((state.param(new_param).cost(self.best_f), None))
    }

    /// The line search is done once the best step meets the strong Wolfe conditions or
    /// their approximate form.
    fn terminate(&self, state: &IterState<P, G, (), (), F>) -> (r: TerminationReason) {
        let best = (self.best_x, self.best_f, self.best_g);
        if meets_wolfe(self.delta, self.sigma, self.finit, self.dginit, best) {
            return TerminationReason::LineSearchConditionMet;
        }
        if meets_approximate_wolfe(
            self.delta,
            self.sigma,
            self.finit,
            self.dginit,
            self.epsilon_k,
            best,
        ) {
            return TerminationReason::LineSearchConditionMet;
        }
        TerminationReason::NotTerminated
    }
}

impl<P: Clone, G: Clone, F: ArgminFloat> HagerZhangView<P, G, F> {
    /// `copy` is a copy of this line search: the settings, the bracket, the probe and
    /// the best step are the same, and the start, its gradient and the search direction
    /// are clones of those of this line search.
    pub open spec fn copied(self, copy: Self) -> bool {
        &&& copy == (HagerZhangView {
            init_param: copy.init_param,
            init_grad: copy.init_grad,
            search_direction: copy.search_direction,
            ..self
        })
        &&& slot_cloned(self.init_param, copy.init_param)
        &&& slot_cloned(self.init_grad, copy.init_grad)
        &&& slot_cloned(self.search_direction, copy.search_direction)
    }
}

impl<P: Clone, G: Clone, F: ArgminFloat> Clone for HagerZhangLineSearch<P, G, F> {
    /// A copy of the line search, as a checkpoint keeps one.
    fn clone(&self) -> (r: Self)
        ensures
            self@.copied(r@),
    {
        HagerZhangLineSearch {
            delta: self.delta,
            sigma: self.sigma,
            epsilon: self.epsilon,
            epsilon_k: self.epsilon_k,
            theta: self.theta,
            gamma: self.gamma,
            eta: self.eta,
            a_x_init: self.a_x_init,
            a_x: self.a_x,
            a_f: self.a_f,
            a_g: self.a_g,
            b_x_init: self.b_x_init,
            b_x: self.b_x,
            b_f: self.b_f,
            b_g: self.b_g,
            c_x_init: self.c_x_init,
            c_x: self.c_x,
            c_f: self.c_f,
            c_g: self.c_g,
            best_x: self.best_x,
            best_f: self.best_f,
            best_g: self.best_g,
            init_param: self.init_param.clone(),
            finit: self.finit,
            init_grad: self.init_grad.clone(),
            search_direction: self.search_direction.clone(),
            dginit: self.dginit,
        }
    }
}

impl<P, G, F> Default for HagerZhangLineSearch<P, G, F> where F: ArgminFloat {
    fn default() -> (r: Self)
        ensures
            r@ == HagerZhangView::<P, G, F>::initial(),
    {
        HagerZhangLineSearch::new()
    }
}

} // verus!
