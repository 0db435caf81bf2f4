use argmin::framework::{
    ArgminError, ArgminFloat, CostFunction, Gradient, IterState, Problem, Solver,
    TerminationReason,
};
use argmin::math::{ArgminAdd, ArgminDiv, ArgminDot, ArgminMul, ArgminScaledAdd, ArgminSub};
use argmin::solver::linesearch::hagerzhang::{
    bisect_step, bisection_point, classify, coincides, meets_approximate_wolfe, meets_wolfe,
    midpoint, needs_bisection, secant_point, second_probe, select_best, Bisection, UpdateCase,
    MAX_BISECTIONS,
};
use argmin::solver::linesearch::{HagerZhangLineSearch, LineSearch};

/// A double as the scalar of the framework, and as a vector of one entry.
#[derive(Clone, Copy, Debug, PartialEq)]
struct R(f64);

impl ArgminAdd<R, R> for R {
    fn add_spec(&self, other: &R) -> R {
        R(self.0 + other.0)
    }

    fn add(&self, other: &R) -> R {
        R(self.0 + other.0)
    }
}

impl ArgminSub<R, R> for R {
    fn sub_spec(&self, other: &R) -> R {
        R(self.0 - other.0)
    }

    fn sub(&self, other: &R) -> R {
        R(self.0 - other.0)
    }
}

impl ArgminMul<R, R> for R {
    fn mul_spec(&self, other: &R) -> R {
        R(self.0 * other.0)
    }

    fn mul(&self, other: &R) -> R {
        R(self.0 * other.0)
    }
}

impl ArgminDiv<R, R> for R {
    fn div_spec(&self, other: &R) -> R {
        R(self.0 / other.0)
    }

    fn div(&self, other: &R) -> R {
        R(self.0 / other.0)
    }
}

impl ArgminFloat for R {
    fn lt_spec(self, other: R) -> bool {
        self.0 < other.0
    }

    fn le_spec(self, other: R) -> bool {
        self.0 <= other.0
    }

    fn abs_spec(self) -> R {
        R(self.0.abs())
    }

    fn is_infinite_spec(self) -> bool {
        self.0.is_infinite()
    }

    fn from_ratio_spec(num: i64, den: i64) -> R {
        R(num as f64 / den as f64)
    }

    fn epsilon_spec() -> R {
        R(f64::EPSILON)
    }

    fn nan_spec() -> R {
        R(f64::NAN)
    }

    fn infinity_spec() -> R {
        R(f64::INFINITY)
    }

    fn neg_infinity_spec() -> R {
        R(f64::NEG_INFINITY)
    }

    fn lt(self, other: R) -> bool {
        self.0 < other.0
    }

    fn le(self, other: R) -> bool {
        self.0 <= other.0
    }

    fn abs(self) -> R {
        R(self.0.abs())
    }

    fn is_infinite(self) -> bool {
        self.0.is_infinite()
    }

    fn from_ratio(num: i64, den: i64) -> R {
        R(num as f64 / den as f64)
    }

    fn epsilon() -> R {
        R(f64::EPSILON)
    }

    fn nan() -> R {
        R(f64::NAN)
    }

    fn infinity() -> R {
        R(f64::INFINITY)
    }

    fn neg_infinity() -> R {
        R(f64::NEG_INFINITY)
    }
}

impl ArgminScaledAdd<R, R, R> for R {
    fn scaled_add_spec(&self, factor: &R, vec: &R) -> R {
        R(self.0 + factor.0 * vec.0)
    }

    fn scaled_add(&self, factor: &R, vec: &R) -> R {
        R(self.0 + factor.0 * vec.0)
    }
}

impl ArgminDot<R, R> for R {
    fn dot_spec(&self, other: &R) -> R {
        R(self.0 * other.0)
    }

    fn dot(&self, other: &R) -> R {
        R(self.0 * other.0)
    }
}

type Hz = HagerZhangLineSearch<R, R, R>;
type State = IterState<R, R, (), (), R>;

/// The parabola `x * x` on the line.
struct Parabola;

impl CostFunction for Parabola {
    type Param = R;
    type Output = R;

    fn cost(&self, param: &R) -> Result<R, ArgminError> {
        Ok(R(param.0 * param.0))
    }
}

impl Gradient for Parabola {
    type Param = R;
    type Gradient = R;

    fn gradient(&self, param: &R) -> Result<R, ArgminError> {
        Ok(R(2.0 * param.0))
    }
}

/// An objective whose cost fails from the given call on, and whose gradient never fails.
struct Failing {
    calls: std::cell::Cell<u32>,
    fails_from: u32,
}

impl CostFunction for Failing {
    type Param = R;
    type Output = R;

    fn cost(&self, param: &R) -> Result<R, ArgminError> {
        self.calls.set(self.calls.get() + 1);
        if self.calls.get() >= self.fails_from {
            Err(ArgminError::ObjectiveError { text: format!("no cost at {}", param.0) })
        } else {
            Ok(R(param.0 * param.0))
        }
    }
}

impl Gradient for Failing {
    type Param = R;
    type Gradient = R;

    fn gradient(&self, param: &R) -> Result<R, ArgminError> {
        Ok(R(2.0 * param.0))
    }
}

/// An objective that falls everywhere with a cost that is not a number beyond one.
struct NeverRises;

impl CostFunction for NeverRises {
    type Param = R;
    type Output = R;

    fn cost(&self, param: &R) -> Result<R, ArgminError> {
        Ok(R(-param.0))
    }
}

impl Gradient for NeverRises {
    type Param = R;
    type Gradient = R;

    fn gradient(&self, _param: &R) -> Result<R, ArgminError> {
        Ok(R(f64::NAN))
    }
}

fn t(x: f64, f: f64, g: f64) -> (R, R, R) {
    (R(x), R(f), R(g))
}

// ---- the cases of the bracket update ----

#[test]
fn a_probe_outside_of_the_bracket_changes_nothing() {
    let a = t(1.0, 5.0, -1.0);
    let b = t(2.0, 6.0, 1.0);
    assert_eq!(classify(a, b, t(0.5, 0.0, 1.0), R(10.0)), UpdateCase::Unchanged);
    assert_eq!(classify(a, b, t(1.0, 0.0, 1.0), R(10.0)), UpdateCase::Unchanged);
    assert_eq!(classify(a, b, t(2.0, 0.0, -1.0), R(10.0)), UpdateCase::Unchanged);
    assert_eq!(classify(a, b, t(3.0, 0.0, -1.0), R(10.0)), UpdateCase::Unchanged);
}

#[test]
fn a_probe_that_does_not_fall_becomes_the_upper_end() {
    let a = t(1.0, 5.0, -1.0);
    let b = t(2.0, 6.0, 1.0);
    assert_eq!(classify(a, b, t(1.5, 0.0, 0.0), R(10.0)), UpdateCase::Upper);
    assert_eq!(classify(a, b, t(1.5, 100.0, 3.0), R(10.0)), UpdateCase::Upper);
}

#[test]
fn a_probe_that_falls_within_the_limit_becomes_the_lower_end() {
    let a = t(1.0, 5.0, -1.0);
    let b = t(2.0, 6.0, 1.0);
    assert_eq!(classify(a, b, t(1.5, 10.0, -0.5), R(10.0)), UpdateCase::Lower);
    assert_eq!(classify(a, b, t(1.5, -3.0, -0.5), R(10.0)), UpdateCase::Lower);
}

#[test]
fn a_probe_that_falls_beyond_the_limit_asks_for_a_bisection() {
    let a = t(1.0, 5.0, -1.0);
    let b = t(2.0, 6.0, 1.0);
    assert_eq!(classify(a, b, t(1.5, 10.5, -0.5), R(10.0)), UpdateCase::Bisect);
}

#[test]
fn a_probe_that_compares_with_nothing_is_undecided() {
    let a = t(1.0, 5.0, -1.0);
    let b = t(2.0, 6.0, 1.0);
    assert_eq!(classify(a, b, t(1.5, 0.0, f64::NAN), R(10.0)), UpdateCase::Undecided);
    assert_eq!(classify(a, b, t(1.5, f64::NAN, -1.0), R(10.0)), UpdateCase::Undecided);
}

#[test]
fn a_bisection_ends_where_the_line_function_does_not_fall() {
    let lower = t(1.0, 5.0, -1.0);
    match bisect_step(lower, R(2.0), t(1.5, 7.0, 0.25), R(6.0)) {
        Bisection::Found(found_lower, found_upper) => {
            assert_eq!(found_lower, lower);
            assert_eq!(found_upper, t(1.5, 7.0, 0.25));
        }
        Bisection::Narrowed { .. } => panic!("the bisection went on"),
    }
}

#[test]
fn a_bisection_moves_the_lower_end_to_a_point_within_the_limit() {
    let lower = t(1.0, 5.0, -1.0);
    match bisect_step(lower, R(2.0), t(1.5, 5.5, -0.25), R(6.0)) {
        Bisection::Narrowed { lower: next, upper_x } => {
            assert_eq!(next, t(1.5, 5.5, -0.25));
            assert_eq!(upper_x, R(2.0));
        }
        Bisection::Found(..) => panic!("the bisection ended"),
    }
}

#[test]
fn a_bisection_moves_the_upper_end_to_a_point_beyond_the_limit() {
    let lower = t(1.0, 5.0, -1.0);
    match bisect_step(lower, R(2.0), t(1.5, 6.5, -0.25), R(6.0)) {
        Bisection::Narrowed { lower: next, upper_x } => {
            assert_eq!(next, lower);
            assert_eq!(upper_x, R(1.5));
        }
        Bisection::Found(..) => panic!("the bisection ended"),
    }
}

#[test]
fn a_bisection_stays_where_the_point_compares_with_nothing() {
    let lower = t(1.0, 5.0, -1.0);
    match bisect_step(lower, R(2.0), t(1.5, 6.5, f64::NAN), R(6.0)) {
        Bisection::Narrowed { lower: next, upper_x } => {
            assert_eq!(next, lower);
            assert_eq!(upper_x, R(2.0));
        }
        Bisection::Found(..) => panic!("the bisection ended"),
    }
}

// ---- the formulas ----

#[test]
fn the_bisection_point_weighs_the_ends_by_theta() {
    assert_eq!(bisection_point(R(0.5), R(1.0), R(3.0)), R(2.0));
    assert_eq!(bisection_point(R(0.25), R(0.0), R(8.0)), R(2.0));
    assert_eq!(bisection_point(R(0.75), R(4.0), R(8.0)), R(7.0));
}

#[test]
fn the_middle_of_two_step_lengths() {
    assert_eq!(midpoint(R(1.0), R(4.0)), R(2.5));
    assert_eq!(midpoint(R(0.0), R(0.0)), R(0.0));
}

#[test]
fn step_lengths_coincide_within_the_machine_epsilon() {
    assert!(coincides(R(1.0), R(1.0)));
    assert!(coincides(R(1.0), R(1.0 + f64::EPSILON / 2.0)));
    assert!(!coincides(R(1.0), R(1.0 + 4.0 * f64::EPSILON)));
    assert!(!coincides(R(1.0), R(2.0)));
    assert!(!coincides(R(f64::NAN), R(f64::NAN)));
}

#[test]
fn a_bracket_that_did_not_shrink_below_gamma_needs_a_bisection() {
    // old width 10, gamma 0.66: a new width above 6.6 is too wide
    assert!(needs_bisection(R(0.66), R(0.0), R(10.0), R(1.0), R(8.0)));
    assert!(!needs_bisection(R(0.66), R(0.0), R(10.0), R(1.0), R(7.0)));
    assert!(!needs_bisection(R(0.5), R(0.0), R(10.0), R(0.0), R(5.0)));
}

#[test]
fn the_best_of_three_is_the_one_of_lowest_cost() {
    let current = t(9.0, 9.0, 9.0);
    assert_eq!(select_best(t(1.0, 1.0, 0.0), t(2.0, 2.0, 0.0), t(3.0, 3.0, 0.0), current).0, R(1.0));
    assert_eq!(select_best(t(1.0, 2.0, 0.0), t(2.0, 1.0, 0.0), t(3.0, 3.0, 0.0), current).0, R(2.0));
    assert_eq!(select_best(t(1.0, 3.0, 0.0), t(2.0, 2.0, 0.0), t(3.0, 1.0, 0.0), current).0, R(3.0));
}

#[test]
fn on_equal_cost_the_first_of_the_three_is_the_best() {
    let current = t(9.0, 9.0, 9.0);
    // a and b tie: a
    assert_eq!(select_best(t(1.0, 1.0, 0.0), t(2.0, 1.0, 0.0), t(3.0, 3.0, 0.0), current).0, R(1.0));
    // b and c tie: b
    assert_eq!(select_best(t(1.0, 3.0, 0.0), t(2.0, 1.0, 0.0), t(3.0, 1.0, 0.0), current).0, R(2.0));
    // a and c tie: a
    assert_eq!(select_best(t(1.0, 1.0, 0.0), t(2.0, 5.0, 0.0), t(3.0, 1.0, 0.0), current).0, R(1.0));
    // all tie: a
    assert_eq!(select_best(t(1.0, 1.0, 0.0), t(2.0, 1.0, 0.0), t(3.0, 1.0, 0.0), current).0, R(1.0));
}

#[test]
fn where_no_cost_compares_the_best_so_far_stays() {
    let current = t(9.0, 9.0, 9.0);
    let nan = f64::NAN;
    assert_eq!(select_best(t(1.0, nan, 0.0), t(2.0, nan, 0.0), t(3.0, nan, 0.0), current), current);
}

#[test]
fn the_wolfe_conditions_on_given_values() {
    // delta 0.1, sigma 0.9, finit 1, dginit -4
    // decrease: f - 1 <= 0.1 * x * (-4); curvature: g >= -3.6
    assert!(meets_wolfe(R(0.1), R(0.9), R(1.0), R(-4.0), t(0.5, 0.0, 0.0)));
    assert!(meets_wolfe(R(0.1), R(0.9), R(1.0), R(-4.0), t(0.5, 0.75, -3.6)));
    // the cost has not decreased enough
    assert!(!meets_wolfe(R(0.1), R(0.9), R(1.0), R(-4.0), t(0.5, 0.9, 0.0)));
    // the slope is still too steep
    assert!(!meets_wolfe(R(0.1), R(0.9), R(1.0), R(-4.0), t(0.5, 0.0, -3.7)));
}

#[test]
fn the_approximate_wolfe_conditions_on_given_values() {
    // delta 0.1, sigma 0.9, finit 1, dginit -4, epsilon_k 0.5
    // (2 * 0.1 - 1) * (-4) = 3.2 >= g >= -3.6 and f <= 1.5
    assert!(meets_approximate_wolfe(R(0.1), R(0.9), R(1.0), R(-4.0), R(0.5), t(0.5, 1.5, 3.0)));
    assert!(meets_approximate_wolfe(R(0.1), R(0.9), R(1.0), R(-4.0), R(0.5), t(0.5, 1.0, -3.6)));
    assert!(!meets_approximate_wolfe(R(0.1), R(0.9), R(1.0), R(-4.0), R(0.5), t(0.5, 1.0, 3.3)));
    assert!(!meets_approximate_wolfe(R(0.1), R(0.9), R(1.0), R(-4.0), R(0.5), t(0.5, 1.0, -3.7)));
    assert!(!meets_approximate_wolfe(R(0.1), R(0.9), R(1.0), R(-4.0), R(0.5), t(0.5, 1.6, 0.0)));
}

// ---- the line search as a solver ----

fn verdict(search: &Hz, state: &State) -> TerminationReason {
    <Hz as Solver<Parabola, State>>::terminate(search, state)
}

fn search_from(start: f64) -> (Hz, Problem<Parabola>, State) {
    let mut search = Hz::new();
    // the direction of steepest descent at the start
    search.set_search_direction(R(-2.0 * start));
    (search, Problem::new(Parabola), State::new().param(R(start)))
}

#[test]
fn the_line_search_on_a_parabola_meets_its_condition() {
    let start = 1.0;
    let (mut search, mut problem, state) = search_from(start);
    let finit = start * start;

    let (mut state, kv) = search.init(&mut problem, state).unwrap();
    assert!(kv.is_none());
    let mut iterations = 0;
    while !verdict(&search, &state).terminated() {
        assert!(iterations < 10, "the line search did not come to an end");
        let (next, kv) = search.next_iter(&mut problem, state).unwrap();
        assert!(kv.is_none());
        state = next;
        iterations += 1;
    }
    assert_eq!(verdict(&search, &state), TerminationReason::LineSearchConditionMet);

    let param = state.get_param().unwrap().0;
    let best_x = (param - start) / (-2.0 * start);
    assert!(best_x > 0.0);
    assert!(state.get_cost().0 < finit);
    // the cost that is reported is the cost at the point that is reported
    assert_eq!(state.get_cost().0, param * param);
    // the minimum along the line lies at the step length one half
    assert!((best_x - 0.5).abs() < 1e-9);
}

#[test]
fn asking_for_the_verdict_again_gives_the_same_answer() {
    let (mut search, mut problem, state) = search_from(1.0);
    let (state, _) = search.init(&mut problem, state).unwrap();
    let first = verdict(&search, &state);
    assert_eq!(verdict(&search, &state), first);
    assert_eq!(verdict(&search, &state), first);
    let (state, _) = search.next_iter(&mut problem, state).unwrap();
    let second = verdict(&search, &state);
    assert_eq!(verdict(&search, &state), second);
}

#[test]
fn init_samples_the_ends_of_the_first_bracket_and_the_first_probe() {
    let (mut search, mut problem, state) = search_from(1.0);
    let (state, _) = search.init(&mut problem, state).unwrap();
    // the cost at the start, then three probes
    assert_eq!(problem.cost_count, 4);
    // the gradient at the start, then three probes
    assert_eq!(problem.gradient_count, 4);
    assert_eq!(problem.hessian_count, 0);
    // of the probes at epsilon, 100 and 1 the one at epsilon has the lowest cost
    let param = state.get_param().unwrap().0;
    assert_eq!(param, 1.0 + f64::EPSILON * -2.0);
    assert_eq!(state.get_cost().0, param * param);
    assert_eq!(state.get_best_cost().0, param * param);
}

#[test]
fn init_takes_the_cost_and_the_gradient_of_the_state() {
    let mut search = Hz::new();
    search.set_search_direction(R(-2.0));
    let mut problem = Problem::new(Parabola);
    let state = State::new().param(R(1.0)).cost(R(1.0)).gradient(R(2.0));
    let (mut state, _) = search.init(&mut problem, state).unwrap();
    // only the three probes were evaluated
    assert_eq!(problem.cost_count, 3);
    assert_eq!(problem.gradient_count, 3);
    // the gradient has left the state
    assert!(state.take_grad().is_none());
}

#[test]
fn init_rejects_a_sigma_below_delta() {
    // sigma is 0.9 at first; a delta above it is accepted by the setter
    let mut search = Hz::new().delta(R(0.95)).unwrap();
    search.set_search_direction(R(-2.0));
    let mut problem = Problem::new(Parabola);
    let err = search.init(&mut problem, State::new().param(R(1.0))).err().unwrap();
    assert!(matches!(err, ArgminError::InvalidParameter { .. }));
    assert_eq!(err.text(), "HagerZhangLineSearch: sigma must be >= delta.");
    assert_eq!(problem.cost_count, 0);
}

#[test]
fn init_asks_for_a_search_direction() {
    let mut search = Hz::new();
    let mut problem = Problem::new(Parabola);
    let err = search.init(&mut problem, State::new().param(R(1.0))).err().unwrap();
    assert!(matches!(err, ArgminError::NotInitialized { .. }));
    assert_eq!(
        err.text(),
        "HagerZhangLineSearch: Search direction not initialized. Call `set_search_direction`."
    );
    assert_eq!(problem.cost_count, 0);
}

#[test]
fn init_asks_for_a_parameter_vector() {
    let mut search = Hz::new();
    search.set_search_direction(R(-2.0));
    let mut problem = Problem::new(Parabola);
    let err = search.init(&mut problem, State::new()).err().unwrap();
    assert!(matches!(err, ArgminError::NotInitialized { .. }));
    assert_eq!(problem.cost_count, 0);
}

#[test]
fn next_iter_before_init_is_refused() {
    let mut search = Hz::new();
    search.set_search_direction(R(-2.0));
    let mut problem = Problem::new(Parabola);
    let err = search.next_iter(&mut problem, State::new().param(R(1.0))).err().unwrap();
    assert!(matches!(err, ArgminError::NotInitialized { .. }));
    assert_eq!(problem.cost_count, 0);
    assert_eq!(problem.gradient_count, 0);
}

#[test]
fn a_failure_of_the_objective_in_init_comes_back_as_it_is() {
    let mut search = Hz::new();
    search.set_search_direction(R(-2.0));
    let mut problem = Problem::new(Failing { calls: std::cell::Cell::new(0), fails_from: 1 });
    let err = search.init(&mut problem, State::new().param(R(1.0))).err().unwrap();
    assert!(matches!(err, ArgminError::ObjectiveError { .. }));
    assert_eq!(err.text(), "no cost at 1");
    assert_eq!(problem.cost_count, 1);
    assert_eq!(problem.gradient_count, 0);
}

#[test]
fn a_failure_of_the_objective_in_an_iteration_comes_back_as_it_is() {
    let mut search = Hz::new();
    search.set_search_direction(R(-2.0));
    // the start and the three probes of init succeed, the first probe of the iteration fails
    let mut problem = Problem::new(Failing { calls: std::cell::Cell::new(0), fails_from: 5 });
    let (state, _) = search.init(&mut problem, State::new().param(R(1.0))).unwrap();
    let err = search.next_iter(&mut problem, state).err().unwrap();
    assert!(matches!(err, ArgminError::ObjectiveError { .. }));
    assert_eq!(problem.cost_count, 5);
}

#[test]
fn a_slope_that_is_not_a_number_ends_in_a_potential_bug() {
    let mut search = Hz::new();
    search.set_search_direction(R(1.0));
    let mut problem = Problem::new(NeverRises);
    let (state, _) = search.init(&mut problem, State::new().param(R(0.0))).unwrap();
    let err = search.next_iter(&mut problem, state).err().unwrap();
    assert!(matches!(err, ArgminError::PotentialBug { .. }));
    assert!(problem.cost_count <= 4 + 2 * (MAX_BISECTIONS as u64 + 2));
}

#[test]
fn the_first_step_length_can_be_set() {
    let mut search = Hz::new();
    search.set_search_direction(R(-2.0));
    assert!(search.set_init_alpha(R(0.5)).is_ok());
    let mut problem = Problem::new(Parabola);
    let (state, _) = search.init(&mut problem, State::new().param(R(1.0))).unwrap();
    // the probe at one half hits the minimum at once
    assert_eq!(state.get_param().unwrap().0, 0.0);
    assert_eq!(state.get_cost().0, 0.0);
    assert_eq!(verdict(&search, &state), TerminationReason::LineSearchConditionMet);
}

#[test]
fn the_best_cost_of_the_state_never_rises_over_the_iterations() {
    let (mut search, mut problem, state) = search_from(3.0);
    let (mut state, _) = search.init(&mut problem, state).unwrap();
    let mut best = state.get_best_cost().0;
    for _ in 0..5 {
        state = match search.next_iter(&mut problem, state) {
            Ok((next, _)) => next,
            Err(_) => return,
        };
        assert!(state.get_best_cost().0 <= best);
        assert!(state.get_best_cost().0 <= state.get_cost().0);
        best = state.get_best_cost().0;
    }
}

#[test]
fn a_line_search_that_is_taken_apart_and_put_together_goes_on_as_before() {
    let (mut search, mut problem, state) = search_from(1.0);
    let (state, _) = search.init(&mut problem, state).unwrap();
    let mut twin = search.clone();
    let mut twin_problem = Problem::new(Parabola);
    let twin_state = state.clone();

    let parts = search.into_parts();
    assert_eq!(parts.delta, R(0.1));
    assert_eq!(parts.sigma, R(0.9));
    assert_eq!(parts.theta, R(0.5));
    assert_eq!(parts.gamma, R(0.66));
    assert_eq!(parts.eta, R(0.01));
    assert_eq!(parts.epsilon, R(1e-6));
    assert_eq!(parts.alpha_min, R(f64::EPSILON));
    assert_eq!(parts.alpha_max, R(100.0));
    assert_eq!(parts.init_alpha, R(1.0));
    assert_eq!(parts.init_param, Some(R(1.0)));
    assert_eq!(parts.search_direction, Some(R(-2.0)));
    assert_eq!(parts.init_grad, Some(R(2.0)));
    assert_eq!(parts.finit, R(1.0));
    assert_eq!(parts.dginit, R(-4.0));
    assert_eq!(parts.epsilon_k, R(1e-6));
    assert_eq!(parts.a.0, R(f64::EPSILON));
    assert_eq!(parts.b, (R(100.0), R(39601.0), R(796.0)));
    assert_eq!(parts.c, (R(1.0), R(1.0), R(4.0)));
    assert_eq!(parts.best, parts.a);

    let mut search = Hz::from_parts(parts);
    let (next, _) = search.next_iter(&mut problem, state).unwrap();
    let (twin_next, _) = twin.next_iter(&mut twin_problem, twin_state).unwrap();
    assert_eq!(next.get_param(), twin_next.get_param());
    assert_eq!(next.get_cost(), twin_next.get_cost());
    assert_eq!(verdict(&search, &next), verdict(&twin, &twin_next));
}

#[test]
fn a_new_line_search_has_its_defaults() {
    let parts = Hz::new().into_parts();
    assert_eq!(parts.delta, R(0.1));
    assert_eq!(parts.sigma, R(0.9));
    assert_eq!(parts.epsilon, R(1e-6));
    assert_eq!(parts.theta, R(0.5));
    assert_eq!(parts.gamma, R(0.66));
    assert_eq!(parts.eta, R(0.01));
    assert_eq!(parts.alpha_min, R(f64::EPSILON));
    assert_eq!(parts.alpha_max, R(100.0));
    assert_eq!(parts.init_alpha, R(1.0));
    assert_eq!(parts.best.0, R(0.0));
    assert_eq!(parts.best.1, R(f64::INFINITY));
    assert!(parts.best.2 .0.is_nan());
    assert!(parts.a.0 .0.is_nan() && parts.b.1 .0.is_nan() && parts.c.2 .0.is_nan());
    assert!(parts.epsilon_k.0.is_nan());
    assert!(parts.dginit.0.is_nan());
    assert_eq!(parts.finit, R(f64::INFINITY));
    assert!(parts.init_param.is_none());
    assert!(parts.init_grad.is_none());
    assert!(parts.search_direction.is_none());
}

#[test]
fn a_setter_changes_its_setting_and_nothing_else() {
    let parts = Hz::new()
        .delta(R(0.2))
        .and_then(|s| s.sigma(R(0.8)))
        .and_then(|s| s.epsilon(R(1e-4)))
        .and_then(|s| s.theta(R(0.4)))
        .and_then(|s| s.gamma(R(0.5)))
        .and_then(|s| s.eta(R(0.1)))
        .and_then(|s| s.alpha(R(0.25), R(10.0)))
        .unwrap()
        .into_parts();
    assert_eq!(parts.delta, R(0.2));
    assert_eq!(parts.sigma, R(0.8));
    assert_eq!(parts.epsilon, R(1e-4));
    assert_eq!(parts.theta, R(0.4));
    assert_eq!(parts.gamma, R(0.5));
    assert_eq!(parts.eta, R(0.1));
    assert_eq!(parts.alpha_min, R(0.25));
    assert_eq!(parts.alpha_max, R(10.0));
    assert_eq!(parts.init_alpha, R(1.0));
    assert_eq!(parts.finit, R(f64::INFINITY));
    assert!(parts.search_direction.is_none());
}

// ---- runs on polynomials, step by step ----

/// An objective on the line given by its cost and its derivative.
struct OnTheLine {
    cost: fn(f64) -> f64,
    slope: fn(f64) -> f64,
}

impl CostFunction for OnTheLine {
    type Param = R;
    type Output = R;

    fn cost(&self, param: &R) -> Result<R, ArgminError> {
        Ok(R((self.cost)(param.0)))
    }
}

impl Gradient for OnTheLine {
    type Param = R;
    type Gradient = R;

    fn gradient(&self, param: &R) -> Result<R, ArgminError> {
        Ok(R((self.slope)(param.0)))
    }
}

/// The steps of a line search from `start` along `direction`: the parameter and the
/// cost that each step reports and the verdict after it, the step of `init` first; and
/// the state and the counts of evaluations at the end.
fn steps(
    search: Hz,
    objective: OnTheLine,
    start: f64,
    direction: f64,
) -> (Vec<(f64, f64, bool)>, State, u64, u64) {
    let mut search = search;
    search.set_search_direction(R(direction));
    let mut problem = Problem::new(objective);
    let (mut state, _) = search.init(&mut problem, State::new().param(R(start))).unwrap();
    let done = |search: &Hz, state: &State| {
        <Hz as Solver<OnTheLine, State>>::terminate(search, state).terminated()
    };
    let mut trace =
        vec![(state.get_param().unwrap().0, state.get_cost().0, done(&search, &state))];
    while !done(&search, &state) {
        assert!(trace.len() < 20, "the line search did not come to an end");
        state = search.next_iter(&mut problem, state).unwrap().0;
        trace.push((state.get_param().unwrap().0, state.get_cost().0, done(&search, &state)));
    }
    (trace, state, problem.cost_count, problem.gradient_count)
}

fn quartic(x: f64) -> f64 {
    ((x - 4.0) * x + 3.5) * x * x - x
}

fn quartic_slope(x: f64) -> f64 {
    ((4.0 * x - 12.0) * x + 7.0) * x - 1.0
}

fn cubic(x: f64) -> f64 {
    (x * x - 1.0) * x
}

fn cubic_slope(x: f64) -> f64 {
    3.0 * x * x - 1.0
}

// the derivative is (x - 0.25)(x - 1.5)(x - 4): the cost falls, rises over a hump and
// falls again
fn hump(x: f64) -> f64 {
    1.0 * ((((x / 4.0 - 5.75 / 3.0) * x + 7.375 / 2.0) * x - 1.5) * x)
}

fn hump_slope(x: f64) -> f64 {
    1.0 * (((x - 5.75) * x + 7.375) * x - 1.5)
}

#[test]
fn a_quartic_takes_two_iterations() {
    let search = Hz::new().alpha(R(f64::EPSILON), R(4.0)).unwrap();
    let (trace, state, costs, gradients) =
        steps(search, OnTheLine { cost: quartic, slope: quartic_slope }, 0.0, 1.0);
    assert_eq!(
        trace,
        vec![
            (1.0, -0.5, false),
            (2.077091227047508, -4.208605030390796, false),
            (2.326630047846934, -4.45571386338751, true),
        ]
    );
    assert_eq!((costs, gradients), (9, 9));
    assert_eq!(state.get_best_cost().0, -4.45571386338751);
    assert_eq!(state.get_best_param().unwrap().0, 2.326630047846934);
}

#[test]
fn a_first_probe_at_the_right_place_ends_the_search_in_init() {
    let mut search = Hz::new().alpha(R(f64::EPSILON), R(4.0)).unwrap();
    search.set_init_alpha(R(0.5)).unwrap();
    let (trace, _, costs, gradients) =
        steps(search, OnTheLine { cost: quartic, slope: quartic_slope }, 0.0, 1.0);
    assert_eq!(trace, vec![(0.5, -0.0625, true)]);
    assert_eq!((costs, gradients), (4, 4));
}

#[test]
fn a_bracket_that_shrinks_too_little_is_cut_at_its_middle() {
    let mut search = Hz::new().alpha(R(f64::EPSILON), R(3.0)).unwrap();
    search.set_init_alpha(R(2.0)).unwrap();
    let (trace, _, costs, gradients) =
        steps(search, OnTheLine { cost: quartic, slope: quartic_slope }, 0.0, 1.0);
    assert_eq!(
        trace,
        vec![(2.0, -4.0, false), (2.0, -4.0, false), (2.4169974216702754, -4.322110182725375, true)]
    );
    assert_eq!((costs, gradients), (10, 10));
}

#[test]
fn a_cubic_takes_two_iterations() {
    let search = Hz::new().alpha(R(f64::EPSILON), R(2.0)).unwrap();
    let (trace, _, costs, gradients) =
        steps(search, OnTheLine { cost: cubic, slope: cubic_slope }, 0.0, 1.0);
    assert_eq!(
        trace,
        vec![
            (2.220446049250313e-16, -2.220446049250313e-16, false),
            (0.16666666666666688, -0.16203703703703723, false),
            (0.6955128205128198, -0.35906678166987005, true),
        ]
    );
    assert_eq!((costs, gradients), (9, 9));
}

#[test]
fn a_search_from_elsewhere_along_a_longer_direction() {
    let search = Hz::new().alpha(R(f64::EPSILON), R(3.0)).unwrap();
    let (trace, _, costs, gradients) =
        steps(search, OnTheLine { cost: cubic, slope: cubic_slope }, -0.5, 2.0);
    assert_eq!(
        trace,
        vec![
            (-0.49999999999999956, 0.3749999999999999, false),
            (-0.4833333333333328, 0.37042129629629617, false),
            (1.0371227709190678, 0.078431001095349, true),
        ]
    );
    assert_eq!((costs, gradients), (10, 10));
}

#[test]
fn a_probe_beyond_a_hump_is_bisected_towards_the_lower_end() {
    let search = Hz::new().alpha(R(f64::EPSILON), R(3.5)).unwrap();
    let (trace, state, costs, gradients) =
        steps(search, OnTheLine { cost: hump, slope: hump_slope }, 0.0, 1.0);
    assert_eq!(
        trace,
        vec![
            (3.5, -4.739583333333335, false),
            (2.220446049250313e-16, -3.3306690738754676e-16, false),
            (0.4824120603015075, -0.06709771311219764, true),
        ]
    );
    assert_eq!((costs, gradients), (9, 9));
    // the line search has left the far end, but the state keeps it as the best pair
    assert_eq!(state.get_best_cost().0, -4.739583333333335);
    assert_eq!(state.get_best_param().unwrap().0, 3.5);
    assert_eq!(state.get_cost().0, -0.06709771311219764);
}

#[test]
fn a_bisection_that_lands_on_the_first_probe() {
    let mut search = Hz::new().alpha(R(f64::EPSILON), R(3.5)).unwrap();
    search.set_init_alpha(R(0.125)).unwrap();
    let (trace, _, costs, gradients) =
        steps(search, OnTheLine { cost: hump, slope: hump_slope }, 0.0, 1.0);
    assert_eq!(
        trace,
        vec![(3.5, -4.739583333333335, false), (0.125, -0.13356526692708334, true)]
    );
    assert_eq!((costs, gradients), (7, 7));
}

fn rising(x: f64) -> f64 {
    x
}

fn falling_slope(_x: f64) -> f64 {
    -1.0
}

#[test]
fn a_bisection_that_finds_no_end_gives_up_after_its_bound() {
    // the cost rises along the line while the slope claims that it falls: every point
    // of the bisection has a cost beyond the limit, and none ends it
    let mut search = Hz::new();
    search.set_search_direction(R(1.0));
    let mut problem = Problem::new(OnTheLine { cost: rising, slope: falling_slope });
    let (state, _) = search.init(&mut problem, State::new().param(R(0.0))).unwrap();
    assert_eq!((problem.cost_count, problem.gradient_count), (4, 4));
    let err = search.next_iter(&mut problem, state).err().unwrap();
    assert!(matches!(err, ArgminError::PotentialBug { .. }));
    assert_eq!(
        err.text(),
        "HagerZhangLineSearch: the bisection in `update` did not come to an end."
    );
    // the probe of the secant step, the probe at the middle, and the points of the bisection
    let evaluations = 4 + 1 + 1 + MAX_BISECTIONS as u64;
    assert_eq!((problem.cost_count, problem.gradient_count), (evaluations, evaluations));
    // the line search is as it was: the next iteration fails in the same way
    let err = search.next_iter(&mut problem, State::new().param(R(0.0))).err().unwrap();
    assert!(matches!(err, ArgminError::PotentialBug { .. }));
    assert_eq!(problem.cost_count, evaluations + 2 + MAX_BISECTIONS as u64);
}

#[test]
fn a_probe_that_compares_with_nothing_ends_in_a_potential_bug_without_a_bisection() {
    let mut search = Hz::new();
    search.set_search_direction(R(1.0));
    let mut problem = Problem::new(NeverRises);
    let (state, _) = search.init(&mut problem, State::new().param(R(0.0))).unwrap();
    let err = search.next_iter(&mut problem, state).err().unwrap();
    assert_eq!(
        err.text(),
        "HagerZhangLineSearch: Reached unreachable point in `update` method."
    );
}

// ---- the probes of the double secant step ----

#[test]
fn the_secant_point_of_two_slopes() {
    // (1 * 3 - 4 * -1) / (3 - -1)
    assert_eq!(secant_point(R(1.0), R(-1.0), R(4.0), R(3.0)), R(1.75));
    // the root of the slope 2 * x - 1, from its values at 0 and 2
    assert_eq!(secant_point(R(0.0), R(-1.0), R(2.0), R(3.0)), R(0.5));
}

#[test]
fn the_second_probe_looks_at_the_upper_end_first() {
    // the first probe is as close to the upper end of the new bracket as to its lower end
    let a = t(0.0, 1.0, -4.0);
    let b = t(3.0, 1.0, 4.0);
    let lower = t(1.0, 0.5, -1.0);
    let upper = t(1.0, 0.5, 2.0);
    // through b and the upper end: (3 * 2 - 1 * 4) / (2 - 4); through a and the lower
    // end it would be (0 * -1 - 1 * -4) / (-1 - -4)
    assert_eq!(second_probe(a, b, R(1.0), lower, upper), Some(R(-1.0)));
}

#[test]
fn a_first_probe_that_became_the_upper_end_is_followed_by_the_secant_through_b() {
    let a = t(0.0, 1.0, -4.0);
    let b = t(3.0, 1.0, 4.0);
    let c = t(1.0, 0.5, 2.0);
    assert_eq!(second_probe(a, b, c.0, a, c), Some(R(-1.0)));
    assert_eq!(second_probe(a, b, c.0, a, c), Some(secant_point(b.0, b.2, c.0, c.2)));
}

#[test]
fn a_first_probe_that_became_the_lower_end_is_followed_by_the_secant_through_a() {
    let a = t(0.0, 1.0, -4.0);
    let b = t(3.0, 1.0, 4.0);
    let c = t(1.0, 0.5, -2.0);
    // (0 * -2 - 1 * -4) / (-2 - -4)
    assert_eq!(second_probe(a, b, c.0, c, b), Some(R(2.0)));
}

#[test]
fn a_first_probe_that_became_no_end_is_followed_by_no_second_probe() {
    let a = t(0.0, 1.0, -4.0);
    let b = t(3.0, 1.0, 4.0);
    assert_eq!(second_probe(a, b, R(5.0), a, b), None);
    // a distance of the machine epsilon is no coincidence
    let upper = t(1.0 + f64::EPSILON, 0.5, 2.0);
    assert_eq!(second_probe(a, b, R(1.0), a, upper), None);
}

// ---- what is evaluated when the objective fails ----

/// An objective whose gradient fails from the given call on, and whose cost never fails.
struct NoSlope {
    calls: std::cell::Cell<u32>,
    fails_from: u32,
}

impl CostFunction for NoSlope {
    type Param = R;
    type Output = R;

    fn cost(&self, param: &R) -> Result<R, ArgminError> {
        Ok(R(param.0 * param.0))
    }
}

impl Gradient for NoSlope {
    type Param = R;
    type Gradient = R;

    fn gradient(&self, param: &R) -> Result<R, ArgminError> {
        self.calls.set(self.calls.get() + 1);
        if self.calls.get() >= self.fails_from {
            Err(ArgminError::ObjectiveError { text: format!("no gradient at {}", param.0) })
        } else {
            Ok(R(2.0 * param.0))
        }
    }
}

fn failing(fails_from: u32) -> Problem<Failing> {
    Problem::new(Failing { calls: std::cell::Cell::new(0), fails_from })
}

fn no_slope(fails_from: u32) -> Problem<NoSlope> {
    Problem::new(NoSlope { calls: std::cell::Cell::new(0), fails_from })
}

fn towards_the_minimum() -> Hz {
    let mut search = Hz::new();
    search.set_search_direction(R(-2.0));
    search
}

/// A state that brings the cost and the gradient at the start.
fn evaluated() -> State {
    State::new().param(R(1.0)).cost(R(1.0)).gradient(R(2.0))
}

#[test]
fn a_cost_that_fails_at_the_lower_end_is_the_only_evaluation_of_init() {
    let mut search = towards_the_minimum();
    let mut problem = failing(1);
    let err = search.init(&mut problem, evaluated()).err().unwrap();
    assert!(matches!(err, ArgminError::ObjectiveError { .. }));
    assert_eq!(problem.cost_count, 1);
    assert_eq!(problem.gradient_count, 0);
}

#[test]
fn a_cost_that_fails_at_the_upper_end_comes_after_one_sample() {
    let mut search = towards_the_minimum();
    let mut problem = failing(2);
    let err = search.init(&mut problem, evaluated()).err().unwrap();
    assert_eq!(err.text(), "no cost at -199");
    assert_eq!(problem.cost_count, 2);
    assert_eq!(problem.gradient_count, 1);
}

#[test]
fn a_cost_that_fails_at_the_first_probe_comes_after_two_samples() {
    let mut search = towards_the_minimum();
    let mut problem = failing(3);
    let err = search.init(&mut problem, evaluated()).err().unwrap();
    assert_eq!(err.text(), "no cost at -1");
    assert_eq!(problem.cost_count, 3);
    assert_eq!(problem.gradient_count, 2);
}

#[test]
fn a_gradient_that_fails_at_the_start_comes_after_the_cost_there() {
    let mut search = towards_the_minimum();
    let mut problem = no_slope(1);
    let err = search.init(&mut problem, State::new().param(R(1.0))).err().unwrap();
    assert_eq!(err.text(), "no gradient at 1");
    assert_eq!(problem.cost_count, 1);
    assert_eq!(problem.gradient_count, 1);
}

#[test]
fn a_gradient_that_fails_in_a_probe_comes_after_the_cost_of_that_probe() {
    let mut search = towards_the_minimum();
    let mut problem = no_slope(1);
    let err = search.init(&mut problem, evaluated()).err().unwrap();
    assert!(matches!(err, ArgminError::ObjectiveError { .. }));
    assert_eq!(problem.cost_count, 1);
    assert_eq!(problem.gradient_count, 1);

    let mut search = towards_the_minimum();
    let mut problem = no_slope(3);
    let err = search.init(&mut problem, evaluated()).err().unwrap();
    assert_eq!(err.text(), "no gradient at -1");
    assert_eq!(problem.cost_count, 3);
    assert_eq!(problem.gradient_count, 3);
}

#[test]
fn a_state_without_a_cost_and_a_gradient_has_both_evaluated_once_more() {
    let mut search = towards_the_minimum();
    // the cost at the start succeeds, the cost at the lower end fails
    let mut problem = failing(2);
    let err = search.init(&mut problem, State::new().param(R(1.0))).err().unwrap();
    assert!(matches!(err, ArgminError::ObjectiveError { .. }));
    assert_eq!(problem.cost_count, 2);
    assert_eq!(problem.gradient_count, 1);
}

#[test]
fn a_failure_at_the_first_probe_of_an_iteration_counts_the_cost_alone() {
    let mut search = towards_the_minimum();
    let mut problem = failing(4);
    let (state, _) = search.init(&mut problem, evaluated()).unwrap();
    assert_eq!((problem.cost_count, problem.gradient_count), (3, 3));
    let kept = search.clone().into_parts();
    let err = search.next_iter(&mut problem, state).err().unwrap();
    // the secant point of the first bracket on the parabola is the step length one half
    assert_eq!(err.text(), "no cost at 0");
    assert_eq!((problem.cost_count, problem.gradient_count), (4, 3));
    // the line search is as it was
    let left = search.into_parts();
    assert_eq!((left.a, left.b, left.best), (kept.a, kept.b, kept.best));
}

#[test]
fn a_failure_at_the_second_probe_of_an_iteration_comes_after_one_sample() {
    let mut search = towards_the_minimum();
    let mut problem = failing(5);
    let (state, _) = search.init(&mut problem, evaluated()).unwrap();
    let err = search.next_iter(&mut problem, state).err().unwrap();
    assert!(matches!(err, ArgminError::ObjectiveError { .. }));
    assert_eq!((problem.cost_count, problem.gradient_count), (5, 4));

    let mut search = towards_the_minimum();
    let mut problem = no_slope(5);
    let (state, _) = search.init(&mut problem, evaluated()).unwrap();
    let err = search.next_iter(&mut problem, state).err().unwrap();
    assert!(matches!(err, ArgminError::ObjectiveError { .. }));
    assert_eq!((problem.cost_count, problem.gradient_count), (5, 5));
}

#[test]
fn an_iteration_on_a_parabola_takes_two_samples() {
    let (mut search, mut problem, state) = search_from(1.0);
    let (state, _) = search.init(&mut problem, state).unwrap();
    assert_eq!((problem.cost_count, problem.gradient_count), (4, 4));
    // the first probe becomes the upper end, the second lies outside of the bracket
    search.next_iter(&mut problem, state).unwrap();
    assert_eq!((problem.cost_count, problem.gradient_count), (6, 6));
    assert_eq!(problem.hessian_count, 0);
    assert_eq!(problem.jacobian_count, 0);
    assert_eq!(problem.operator_count, 0);
}

#[test]
fn an_iteration_that_bisects_takes_at_least_one_sample_for_it() {
    let mut search = Hz::new().alpha(R(f64::EPSILON), R(3.5)).unwrap();
    search.set_search_direction(R(1.0));
    let mut problem = Problem::new(OnTheLine { cost: hump, slope: hump_slope });
    let (state, _) = search.init(&mut problem, State::new().param(R(0.0))).unwrap();
    assert_eq!((problem.cost_count, problem.gradient_count), (4, 4));
    search.next_iter(&mut problem, state).unwrap();
    // the first probe, the middle of the bracket, and one point of the bisection
    assert_eq!((problem.cost_count, problem.gradient_count), (7, 7));
}

// ---- the first iteration from a bracket that begins at zero ----

fn offset(x: f64) -> f64 {
    (x - 3.0) * (x - 3.0)
}

fn offset_slope(x: f64) -> f64 {
    2.0 * (x - 3.0)
}

#[test]
fn the_first_iteration_on_a_parabola_finds_its_minimum() {
    let mut search = Hz::new().alpha(R(0.0), R(100.0)).unwrap();
    search.set_search_direction(R(-2.0));
    let mut problem = Problem::new(Parabola);
    let (state, _) = search.init(&mut problem, State::new().param(R(1.0))).unwrap();
    assert_eq!((problem.cost_count, problem.gradient_count), (4, 4));

    let (state, kv) = search.next_iter(&mut problem, state).unwrap();
    assert!(kv.is_none());
    assert_eq!(state.get_param(), Some(&R(0.0)));
    assert_eq!(state.get_cost(), R(0.0));
    // the secant point, and the second one at the same place, which changes nothing
    assert_eq!((problem.cost_count, problem.gradient_count), (6, 6));
    assert_eq!(verdict(&search, &state), TerminationReason::LineSearchConditionMet);

    let parts = search.into_parts();
    assert_eq!(parts.finit, R(1.0));
    assert_eq!(parts.dginit, R(-4.0));
    assert_eq!(parts.a, t(0.0, 1.0, -4.0));
    assert_eq!(parts.b, t(0.5, 0.0, 0.0));
    assert_eq!(parts.best, t(0.5, 0.0, 0.0));
}

#[test]
fn the_first_iteration_on_a_parabola_around_three_finds_its_minimum() {
    let mut search = Hz::new().alpha(R(0.0), R(100.0)).unwrap();
    search.set_search_direction(R(6.0));
    let mut problem = Problem::new(OnTheLine { cost: offset, slope: offset_slope });
    let (state, _) = search.init(&mut problem, State::new().param(R(0.0))).unwrap();

    let (state, _) = search.next_iter(&mut problem, state).unwrap();
    assert_eq!(state.get_param(), Some(&R(3.0)));
    assert_eq!(state.get_cost(), R(0.0));
    assert_eq!((problem.cost_count, problem.gradient_count), (6, 6));

    let parts = search.into_parts();
    assert_eq!(parts.finit, R(9.0));
    assert_eq!(parts.dginit, R(-36.0));
    assert_eq!(parts.a, t(0.0, 9.0, -36.0));
    assert_eq!(parts.b, t(0.5, 0.0, 0.0));
    assert_eq!(parts.best, t(0.5, 0.0, 0.0));
}
