//! The abstract sample scalar.

use vstd::prelude::*;

verus! {

/// Operations an indicator needs from its sample scalar.
///
/// The library fixes the temporal behaviour of every indicator — which
/// samples enter, replace or leave a window, and when a smoother blends —
/// and proves it; the numeric reductions themselves are performed through
/// this trait, so the caller picks the representation (typically a wrapper
/// around a machine float).  No contract constrains these operations: the
/// verified guarantees of the library hold for every implementation.
pub trait Scalar: Sized + Copy {
    /// The scalar with the given whole-number value.
    fn from_u64(n: u64) -> Self;

    fn add(self, other: Self) -> Self;

    fn sub(self, other: Self) -> Self;

    fn mul(self, other: Self) -> Self;

    fn div(self, other: Self) -> Self;

    /// The square root, as used by the standard-deviation reducer.
    fn sqrt(self) -> Self;

    /// `self` raised to the given (possibly fractional) exponent, as used by
    /// the time-weighted smoother to compound a per-period decay constant.
    fn powf(self, exponent: Self) -> Self;

    /// Strict order test: `self < other`.
    fn less_than(self, other: Self) -> bool;

    /// Non-strict order test: `self <= other`.
    fn less_eq(self, other: Self) -> bool;

    /// Whether `self` is the scalar zero.
    fn is_zero(self) -> bool;

    /// A human-readable rendering, used by indicator descriptors.
    fn to_text(&self) -> String;
}

} // verus!
