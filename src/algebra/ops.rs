//! Operations
use vstd::prelude::*;
use std::marker::PhantomData;
use crate::utils::{Bool, True, False};

verus! {

/// A unary operation
pub trait Unary {
    /// The inverse operation (`Infallible` where there is none)
    type Inv;
}

/// Helper for creating an inverse for ordinary unary operations.
pub struct UnaryInverse<Op: Unary>(pub PhantomData<Op>);

impl<Op: Unary> Unary for UnaryInverse<Op> {
    type Inv = Op;
}

/// The unary operation that does not exist
impl Unary for std::convert::Infallible {
    type Inv = std::convert::Infallible;
}

/// The identity unary operation
pub struct Identity;

impl Unary for Identity {
    type Inv = Identity;
}

/// The unary operation that makes everything zero.
///
/// (mostly just an example of defining an unary operator with no inverse).
pub struct Nullify;

impl Unary for Nullify {
    type Inv = std::convert::Infallible;
}

/// A binary operation
pub trait Binary {
    type Assoc: Bool;
    type Commut: Bool;
}

/// The binary operation that does not exist
impl Binary for std::convert::Infallible {
    type Assoc = False;
    type Commut = False;
}

/// Addition: associative and commutative.
pub struct Add;

impl Binary for Add {
    type Assoc = True;
    type Commut = True;
}

/// Multiplication: associative and commutative.
pub struct Mul;

impl Binary for Mul {
    type Assoc = True;
    type Commut = True;
}

} // verus!
