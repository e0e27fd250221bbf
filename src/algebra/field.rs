//! Fields
use vstd::prelude::*;
use crate::algebra::ops::{Binary, Add, Mul};
use crate::utils::True;
use std::marker::PhantomData;

verus! {

/// A field
pub trait Field<A: Binary<Assoc = True, Commut = True>, M: Binary<Assoc = True, Commut = True>>: Sized {
    spec fn add_spec(a: Self, b: Self) -> Self;

    spec fn neg_spec(a: Self) -> Self;

    spec fn mul_spec(a: Self, b: Self) -> Self;

    /// The multiplicative inverse of an element other than zero.
    spec fn inv_spec(a: Self) -> Self;

    spec fn zero_spec() -> Self;

    spec fn one_spec() -> Self;

    /// The addition operation
    fn add(&self, rhs: &Self) -> (r: Self)
        ensures
            r == Self::add_spec(*self, *rhs),
    ;

    /// The additive inverse
    fn neg(&self) -> (r: Self)
        ensures
            r == Self::neg_spec(*self),
    ;

    /// The multiplication operation
    fn mul(&self, rhs: &Self) -> (r: Self)
        ensures
            r == Self::mul_spec(*self, *rhs),
    ;

    /// The multiplicative inverse (`None` for zero, which has none)
    fn checked_inv(&self) -> (r: Option<Self>)
        ensures
            r is None <==> *self == Self::zero_spec(),
            r matches Some(x) ==> x == Self::inv_spec(*self),
    ;

    /// The multiplicative inverse of an element other than zero
    fn inv(&self) -> (r: Self)
        requires
            *self != Self::zero_spec(),
        ensures
            r == Self::inv_spec(*self),
    {
        match self.checked_inv() {
            Some(x) => x,
            None => Self::zero(),
        }
    }

    /// The neutral element wrt/ addition
    fn zero() -> (r: Self)
        ensures
            r == Self::zero_spec(),
    ;

    /// The neutral element wrt/ multiplication
    fn one() -> (r: Self)
        ensures
            r == Self::one_spec(),
    ;

    /// Addition and multiplication are associative and commutative, and
    /// multiplication distributes over addition.
    proof fn lemma_ring(a: Self, b: Self, c: Self)
        ensures
            Self::add_spec(Self::add_spec(a, b), c) == Self::add_spec(a, Self::add_spec(b, c)),
            Self::add_spec(a, b) == Self::add_spec(b, a),
            Self::mul_spec(Self::mul_spec(a, b), c) == Self::mul_spec(a, Self::mul_spec(b, c)),
            Self::mul_spec(a, b) == Self::mul_spec(b, a),
            Self::mul_spec(a, Self::add_spec(b, c)) == Self::add_spec(Self::mul_spec(a, b), Self::mul_spec(a, c)),
    ;

    /// Zero and one are neutral, and every element has its inverses.
    proof fn lemma_inverses(a: Self)
        ensures
            Self::add_spec(a, Self::zero_spec()) == a,
            Self::mul_spec(a, Self::one_spec()) == a,
            Self::add_spec(a, Self::neg_spec(a)) == Self::zero_spec(),
            a != Self::zero_spec() ==> Self::mul_spec(a, Self::inv_spec(a)) == Self::one_spec(),
            Self::zero_spec() != Self::one_spec(),
    ;
}

/// Helper for operating with a field in additive and multiplicative notation.
pub struct AsAddMul<
    A: Binary<Assoc = True, Commut = True>,
    M: Binary<Assoc = True, Commut = True>,
    F: Field<A, M>,
>(pub F, pub PhantomData<A>, pub PhantomData<M>);

impl<
    A: Binary<Assoc = True, Commut = True>,
    M: Binary<Assoc = True, Commut = True>,
    F: Field<A, M>,
> AsAddMul<A, M, F> {
    pub fn wrap(elem: F) -> (r: Self)
        ensures
            r.0 == elem,
    {
        AsAddMul(elem, PhantomData, PhantomData)
    }

    pub fn unwrap(self) -> (r: F)
        ensures
            r == self.0,
    {
        self.0
    }

    pub fn unwrap_ref(&self) -> (r: &F)
        ensures
            *r == self.0,
    {
        &self.0
    }

    /// The neutral element wrt/ addition
    pub fn zero() -> (r: Self)
        ensures
            r.0 == F::zero_spec(),
    {
        Self::wrap(F::zero())
    }

    /// The neutral element wrt/ multiplication
    pub fn one() -> (r: Self)
        ensures
            r.0 == F::one_spec(),
    {
        Self::wrap(F::one())
    }
}

/// The two-element field: exclusive or as addition, conjunction as multiplication.
impl Field<Add, Mul> for bool {
    open spec fn add_spec(a: bool, b: bool) -> bool {
        a != b
    }

    open spec fn neg_spec(a: bool) -> bool {
        a
    }

    open spec fn mul_spec(a: bool, b: bool) -> bool {
        a && b
    }

    open spec fn inv_spec(a: bool) -> bool {
        a
    }

    open spec fn zero_spec() -> bool {
        false
    }

    open spec fn one_spec() -> bool {
        true
    }

    fn add(&self, rhs: &Self) -> (r: Self) {
        *self != *rhs
    }

    fn neg(&self) -> (r: Self) {
        *self
    }

    fn mul(&self, rhs: &Self) -> (r: Self) {
        *self && *rhs
    }

    fn checked_inv(&self) -> (r: Option<Self>) {
        if *self {
            Some(true)
        } else {
            None
        }
    }

    fn zero() -> (r: Self) {
        false
    }

    fn one() -> (r: Self) {
        true
    }

    proof fn lemma_ring(a: bool, b: bool, c: bool) {
    }

    proof fn lemma_inverses(a: bool) {
    }
}

} // verus!
