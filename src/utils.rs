//! Compile-time booleans and small helper traits.
use vstd::prelude::*;

verus! {

/// Seals the compile-time boolean traits: only [`True`] and [`False`] implement them.
pub trait Sealed {}

/// Compile-time booleans
pub trait Bool: Sealed {
    /// The boolean that this type stands for.
    spec fn value() -> bool;

    fn val() -> (r: bool)
        ensures
            r == Self::value(),
    ;
}

/// Compile-time booleans
pub trait IsTrue: Sealed {}

/// Compile-time booleans
pub trait IsFalse: Sealed {}

/// Compile-time `True` value
pub struct True;

/// Compile-time `False` value
pub struct False;

impl Sealed for True {}

impl Sealed for False {}

impl IsTrue for True {}

impl IsFalse for False {}

impl Bool for True {
    open spec fn value() -> bool {
        true
    }

    fn val() -> (r: bool) {
        true
    }
}

impl Bool for False {
    open spec fn value() -> bool {
        false
    }

    fn val() -> (r: bool) {
        false
    }
}

/// Addition, negation and subtraction through references.
pub trait AddSubNegRef: Sized {
    fn add(&self, other: &Self) -> Self;

    fn neg(&self) -> Self;

    fn sub(&self, other: &Self) -> Self {
        self.add(&other.neg())
    }
}

} // verus!
