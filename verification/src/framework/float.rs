//! What the framework asks of a scalar type.
use vstd::prelude::*;
use crate::math::{ArgminAdd, ArgminDiv, ArgminMul, ArgminSub};

verus! {

/// A scalar type in which costs, step lengths and slopes are measured.
///
/// The type brings its four operations through the traits of [`crate::math`], and here
/// its order, its absolute value and the constants that solvers need. Each operation
/// returns what the specification function beside it says, so that its result depends
/// on its operands alone. The order is whatever the type decides: it need not be total,
/// and a value may be below, equal to or beyond nothing at all, as a value that is not
/// a number is.
///
/// An implementation that is not verified gives each specification function the body
/// of the operation itself.
pub trait ArgminFloat: Copy + ArgminAdd<Self, Self> + ArgminSub<Self, Self> + ArgminMul<
    Self,
    Self,
> + ArgminDiv<Self, Self> {
    /// `self < other` as the type decides it.
    spec fn lt_spec(self, other: Self) -> bool;

    /// `self <= other` as the type decides it.
    spec fn le_spec(self, other: Self) -> bool;

    /// The absolute value.
    spec fn abs_spec(self) -> Self;

    /// Whether the value is one of the two infinities.
    spec fn is_infinite_spec(self) -> bool;

    /// The scalar that stands for the fraction `num / den`.
    spec fn from_ratio_spec(num: i64, den: i64) -> Self;

    /// The distance from one to the next larger scalar.
    spec fn epsilon_spec() -> Self;

    /// The value that is not a number.
    spec fn nan_spec() -> Self;

    /// Positive infinity.
    spec fn infinity_spec() -> Self;

    /// Negative infinity.
    spec fn neg_infinity_spec() -> Self;

    /// `self < other`
    fn lt(self, other: Self) -> (r: bool)
        ensures
            r == self.lt_spec(other),
    ;

    /// `self <= other`
    fn le(self, other: Self) -> (r: bool)
        ensures
            r == self.le_spec(other),
    ;

    /// The absolute value.
    fn abs(self) -> (r: Self)
        ensures
            r == self.abs_spec(),
    ;

    /// Whether the value is one of the two infinities.
    fn is_infinite(self) -> (r: bool)
        ensures
            r == self.is_infinite_spec(),
    ;

    /// The scalar that stands for the fraction `num / den`.
    fn from_ratio(num: i64, den: i64) -> (r: Self)
        ensures
            r == Self::from_ratio_spec(num, den),
    ;

    /// The distance from one to the next larger scalar.
    fn epsilon() -> (r: Self)
        ensures
            r == Self::epsilon_spec(),
    ;

    /// The value that is not a number.
    fn nan() -> (r: Self)
        ensures
            r == Self::nan_spec(),
    ;

    /// Positive infinity.
    fn infinity() -> (r: Self)
        ensures
            r == Self::infinity_spec(),
    ;

    /// Negative infinity.
    fn neg_infinity() -> (r: Self)
        ensures
            r == Self::neg_infinity_spec(),
    ;
}

/// The scalar zero.
pub open spec fn zero<F: ArgminFloat>() -> F {
    F::from_ratio_spec(0, 1)
}

/// The scalar one.
pub open spec fn one<F: ArgminFloat>() -> F {
    F::from_ratio_spec(1, 1)
}

/// The scalar two.
pub open spec fn two<F: ArgminFloat>() -> F {
    F::from_ratio_spec(2, 1)
}

} // verus!
