//! The single error kind raised by indicator constructors.

use vstd::prelude::*;

verus! {

/// Raised synchronously at construction time when a supplied duration or
/// period count is zero.  All per-sample operations on a validly constructed
/// indicator are infallible.
#[derive(Debug, Clone, Copy, PartialEq, Eq, Structural)]
pub enum TaError {
    InvalidParameter,
}

} // verus!
