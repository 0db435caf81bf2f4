//! A framework for iterative numerical optimization, with a Hager-Zhang line search.
//!
//! [`framework`] holds the execution engine: the problem wrapper that counts evaluations,
//! the iteration state, the solver lifecycle and the executor that drives a solver to a
//! terminal verdict. [`math`] holds the arithmetic capabilities that parameter, gradient
//! and scalar types have to offer. [`solver`] holds the solvers.
//!
//! The scalar type is a parameter of everything here. Contracts speak of its arithmetic
//! and its order only through the specification functions of
//! [`framework::ArgminFloat`] and of the traits in [`math`]: no law of real arithmetic is
//! assumed, so what is proved holds under rounding, infinities and values that are not
//! numbers.
pub mod framework;
pub mod math;
pub mod solver;
