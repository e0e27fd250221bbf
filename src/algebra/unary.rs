//! Sets with a unary operation.
use vstd::prelude::*;
use crate::algebra::ops::{Unary, Identity};

verus! {

/// A set with a unary operation defined on it.
///
/// Note: the operation is not necessarily closed on `Self`.
pub trait UnarySet<Op: Unary> {
    type Output;

    fn op(&self) -> Self::Output;
}

/// A [`UnarySet`] where the unary operation is closed.
///
/// (essentially an alias for [`UnarySet<Op, Output = Self>`])
pub trait UnaryClosedSet<Op: Unary>: UnarySet<Op, Output = Self> {}

impl<Op: Unary, S: UnarySet<Op, Output = S>> UnaryClosedSet<Op> for S {}

/// A [`UnarySet`] where the unary operation accepts an inverse.
pub trait UnaryInvSet<Op: Unary>: UnarySet<Op> where Op::Inv: Unary, Self::Output: UnarySet<Op::Inv, Output = Self> {}

impl<Op: Unary, S: UnarySet<Op>> UnaryInvSet<Op> for S where Op::Inv: Unary, S::Output: UnarySet<Op::Inv, Output = S> {}

impl<T: Clone> UnarySet<Identity> for T {
    type Output = T;

    fn op(&self) -> T {
        self.clone()
    }
}

} // verus!
