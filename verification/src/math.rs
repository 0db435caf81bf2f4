//! The arithmetic that parameter, gradient, Hessian and scalar types have to offer.
//!
//! Each capability is one trait. A type takes part in a solver by implementing the
//! traits that the solver asks for. Every operation but the random one has a
//! specification function beside it, and the operation returns what that function
//! says: an implementation thereby promises that the result depends on the operands
//! alone. Nothing else is asked of an implementation, so none of the usual laws of
//! arithmetic may be taken for granted by the code that uses these traits.
//!
//! An implementation that is not verified gives the specification function the body
//! of the operation itself.
use vstd::prelude::*;
use crate::framework::ArgminError;

verus! {

/// Dot/scalar product of `T` and `self`
pub trait ArgminDot<T, U> {
    /// The dot product as the contracts name it.
    spec fn dot_spec(&self, other: &T) -> U;

    /// Dot/scalar product of `T` and `self`
    fn dot(&self, other: &T) -> (r: U)
        ensures
            r == self.dot_spec(other),
    ;
}

/// Dot/scalar product of `T` and `self` weighted by W (p^TWv)
pub trait ArgminWeightedDot<T, U, V> {
    /// The weighted dot product as the contracts name it.
    spec fn weighted_dot_spec(&self, w: &V, vec: &T) -> U;

    /// Dot/scalar product of `T` and `self`, weighted by `w`
    fn weighted_dot(&self, w: &V, vec: &T) -> (r: U)
        ensures
            r == self.weighted_dot_spec(w, vec),
    ;
}

/// Return param vector of all zeros
pub trait ArgminZero: Sized {
    /// The zero as the contracts name it.
    spec fn zero_spec() -> Self;

    /// Return zero(s)
    fn zero() -> (r: Self)
        ensures
            r == Self::zero_spec(),
    ;
}

/// Return the conjugate
pub trait ArgminConj: Sized {
    /// The conjugate as the contracts name it.
    spec fn conj_spec(&self) -> Self;

    /// Return conjugate
    #[must_use]
    fn conj(&self) -> (r: Self)
        ensures
            r == self.conj_spec(),
    ;
}

/// Zero for dynamically sized objects
pub trait ArgminZeroLike: Sized {
    /// The zero of the shape of `self` as the contracts name it.
    spec fn zero_like_spec(&self) -> Self;

    /// Return zero(s)
    #[must_use]
    fn zero_like(&self) -> (r: Self)
        ensures
            r == self.zero_like_spec(),
    ;
}

/// Identity matrix
pub trait ArgminEye: Sized {
    /// The identity of size `n` as the contracts name it.
    spec fn eye_spec(n: usize) -> Self;

    /// The identity of the shape of `self` as the contracts name it.
    spec fn eye_like_spec(&self) -> Self;

    /// Identity matrix of size `n`
    fn eye(n: usize) -> (r: Self)
        ensures
            r == Self::eye_spec(n),
    ;

    /// Identity matrix of same size as `self`
    #[must_use]
    fn eye_like(&self) -> (r: Self)
        ensures
            r == self.eye_like_spec(),
    ;
}

/// Add a `T` to `self`
pub trait ArgminAdd<T, U> {
    /// The sum as the contracts name it.
    spec fn add_spec(&self, other: &T) -> U;

    /// Add a `T` to `self`
    fn add(&self, other: &T) -> (r: U)
        ensures
            r == self.add_spec(other),
    ;
}

/// Subtract a `T` from `self`
pub trait ArgminSub<T, U> {
    /// The difference as the contracts name it.
    spec fn sub_spec(&self, other: &T) -> U;

    /// Subtract a `T` from `self`
    fn sub(&self, other: &T) -> (r: U)
        ensures
            r == self.sub_spec(other),
    ;
}

/// (Pointwise) Multiply a `T` with `self`
pub trait ArgminMul<T, U> {
    /// The product as the contracts name it.
    spec fn mul_spec(&self, other: &T) -> U;

    /// (Pointwise) Multiply a `T` with `self`
    fn mul(&self, other: &T) -> (r: U)
        ensures
            r == self.mul_spec(other),
    ;
}

/// (Pointwise) Divide `self` by a `T`
pub trait ArgminDiv<T, U> {
    /// The quotient as the contracts name it.
    spec fn div_spec(&self, other: &T) -> U;

    /// (Pointwise) Divide `self` by a `T`
    fn div(&self, other: &T) -> (r: U)
        ensures
            r == self.div_spec(other),
    ;
}

/// Add a `T` scaled by an `U` to `self`
pub trait ArgminScaledAdd<T, U, V> {
    /// `self + factor * vec` as the contracts name it.
    spec fn scaled_add_spec(&self, factor: &U, vec: &T) -> V;

    /// Add a `T` scaled by an `U` to `self`
    fn scaled_add(&self, factor: &U, vec: &T) -> (r: V)
        ensures
            r == self.scaled_add_spec(factor, vec),
    ;
}

/// Subtract a `T` scaled by an `U` from `self`
pub trait ArgminScaledSub<T, U, V> {
    /// `self - factor * vec` as the contracts name it.
    spec fn scaled_sub_spec(&self, factor: &U, vec: &T) -> V;

    /// Subtract a `T` scaled by an `U` from `self`
    fn scaled_sub(&self, factor: &U, vec: &T) -> (r: V)
        ensures
            r == self.scaled_sub_spec(factor, vec),
    ;
}

/// Compute the l2-norm (`U`) of `self`
pub trait ArgminNorm<U> {
    /// The norm as the contracts name it.
    spec fn norm_spec(&self) -> U;

    /// Compute the l2-norm (`U`) of `self`
    fn norm(&self) -> (r: U)
        ensures
            r == self.norm_spec(),
    ;
}

/// Return the transpose (`U`) of `self`
pub trait ArgminTranspose<U>: Sized {
    /// The transpose as the contracts name it.
    spec fn t_spec(self) -> U;

    /// Transpose
    fn t(self) -> (r: U)
        ensures
            r == self.t_spec(),
    ;
}

/// Compute the inverse (`T`) of `self`
pub trait ArgminInv<T> {
    /// The inverse, or the failure to invert, as the contracts name it.
    spec fn inv_spec(&self) -> Result<T, ArgminError>;

    /// Compute the inverse
    fn inv(&self) -> (r: Result<T, ArgminError>)
        ensures
            r == self.inv_spec(),
    ;
}

/// Create a random number
pub trait ArgminRandom: Sized {
    /// Get a random element between min and max. The result is drawn by chance: no
    /// contract speaks of it.
    fn rand_from_range(min: &Self, max: &Self) -> Self;
}

/// Minimum and Maximum of type `T`
pub trait ArgminMinMax: Sized {
    /// The pointwise minimum as the contracts name it.
    spec fn min_spec(x: &Self, y: &Self) -> Self;

    /// The pointwise maximum as the contracts name it.
    spec fn max_spec(x: &Self, y: &Self) -> Self;

    /// Select piecewise minimum
    fn min(x: &Self, y: &Self) -> (r: Self)
        ensures
            r == Self::min_spec(x, y),
    ;

    /// Select piecewise maximum
    fn max(x: &Self, y: &Self) -> (r: Self)
        ensures
            r == Self::max_spec(x, y),
    ;
}

} // verus!
