//! Group-like structures
use vstd::prelude::*;
use crate::algebra::ops::{Binary, Add};
use crate::utils::True;
use std::marker::PhantomData;

verus! {

/// A set equipped with an operation that:
///  * is associative
///  * has a neutral element
///  * has an inverse (unary operation)
pub trait Group<Op: Binary<Assoc = True>>: Sized {
    spec fn op_spec(a: Self, b: Self) -> Self;

    spec fn id_spec() -> Self;

    spec fn inv_spec(a: Self) -> Self;

    fn op(&self, rhs: &Self) -> (r: Self)
        ensures
            r == Self::op_spec(*self, *rhs),
    ;

    /// The neutral element / identity (both right and left)
    fn id() -> (r: Self)
        ensures
            r == Self::id_spec(),
    ;

    /// The inverse (both right and left)
    fn inv(&self) -> (r: Self)
        ensures
            r == Self::inv_spec(*self),
    ;

    /// The operation is associative.
    proof fn lemma_assoc(a: Self, b: Self, c: Self)
        ensures
            Self::op_spec(Self::op_spec(a, b), c) == Self::op_spec(a, Self::op_spec(b, c)),
    ;

    /// The identity is neutral on both sides.
    proof fn lemma_id(a: Self)
        ensures
            Self::op_spec(a, Self::id_spec()) == a,
            Self::op_spec(Self::id_spec(), a) == a,
    ;

    /// The inverse cancels on both sides.
    proof fn lemma_inv(a: Self)
        ensures
            Self::op_spec(a, Self::inv_spec(a)) == Self::id_spec(),
            Self::op_spec(Self::inv_spec(a), a) == Self::id_spec(),
    ;
}

/// `a` combined with itself `n` times (the identity for `n == 0`).
pub open spec fn group_pow_nat<Op: Binary<Assoc = True>, G: Group<Op>>(a: G, n: nat) -> G
    decreases n,
{
    if n == 0 {
        G::id_spec()
    } else {
        G::op_spec(group_pow_nat::<Op, G>(a, (n - 1) as nat), a)
    }
}

/// The `n`-th power of `a`; a negative power is a power of the inverse.
pub open spec fn group_pow<Op: Binary<Assoc = True>, G: Group<Op>>(a: G, n: int) -> G {
    if n >= 0 {
        group_pow_nat::<Op, G>(a, n as nat)
    } else {
        group_pow_nat::<Op, G>(G::inv_spec(a), (-n) as nat)
    }
}

/// Powers add: `a^(m + k) == a^m * a^k`.
pub proof fn lemma_pow_add<Op: Binary<Assoc = True>, G: Group<Op>>(a: G, m: nat, k: nat)
    ensures
        group_pow_nat::<Op, G>(a, m + k) == G::op_spec(group_pow_nat::<Op, G>(a, m), group_pow_nat::<Op, G>(a, k)),
    decreases k,
{
    if k == 0 {
        G::lemma_id(group_pow_nat::<Op, G>(a, m));
    } else {
        lemma_pow_add::<Op, G>(a, m, (k - 1) as nat);
        assert(group_pow_nat::<Op, G>(a, m + k) == G::op_spec(group_pow_nat::<Op, G>(a, (m + k - 1) as nat), a));
        G::lemma_assoc(group_pow_nat::<Op, G>(a, m), group_pow_nat::<Op, G>(a, (k - 1) as nat), a);
    }
}

/// `x` to a positive power, by repeated squaring.
fn pow_pos<Op: Binary<Assoc = True>, G: Group<Op>>(x: &G, n: usize) -> (r: G)
    requires
        n >= 1,
    ensures
        r == group_pow_nat::<Op, G>(*x, n as nat),
    decreases n,
{
    if n == 1 {
        assert(group_pow_nat::<Op, G>(*x, 0) == G::id_spec());
        G::id().op(x)
    } else if n % 2 == 0 {
        assert(n >> 1 == n / 2) by (bit_vector);
        let y = pow_pos::<Op, G>(x, n >> 1);
        proof {
            lemma_pow_add::<Op, G>(*x, (n / 2) as nat, (n / 2) as nat);
        }
        y.op(&y)
    } else {
        assert(n >> 1 == n / 2) by (bit_vector);
        let y = pow_pos::<Op, G>(x, n >> 1);
        proof {
            lemma_pow_add::<Op, G>(*x, (n / 2) as nat, (n / 2) as nat);
        }
        y.op(&y).op(x)
    }
}

/// The `n`-th power
///
/// NOTE: This uses a recursive algorithm with O(log n) time complexity.
/// A negative power is the power of the inverse.
pub fn pow<Op: Binary<Assoc = True>, G: Group<Op>>(x: &G, n: isize) -> (r: G)
    ensures
        r == group_pow::<Op, G>(*x, n as int),
{
    if n > 0 {
        pow_pos::<Op, G>(x, n as usize)
    } else if n == 0 {
        G::id()
    } else {
        let m: usize = if n == isize::MIN { (isize::MAX as usize) + 1 } else { (-n) as usize };
        pow_pos::<Op, G>(&x.inv(), m)
    }
}

/// Helper for operating with a group in additive notation.
pub struct AsAdd<Op: Binary<Assoc = True>, G: Group<Op>>(pub G, pub PhantomData<Op>);

impl<Op: Binary<Assoc = True>, G: Group<Op>> AsAdd<Op, G> {
    pub fn wrap(elem: G) -> (r: Self)
        ensures
            r.0 == elem,
    {
        AsAdd(elem, PhantomData)
    }

    pub fn unwrap(self) -> (r: G)
        ensures
            r == self.0,
    {
        self.0
    }

    pub fn unwrap_ref(&self) -> (r: &G)
        ensures
            *r == self.0,
    {
        &self.0
    }

    /// The neutral element
    pub fn zero() -> (r: Self)
        ensures
            r.0 == G::id_spec(),
    {
        Self::wrap(G::id())
    }

    /// The inverse (you can also spell it `-self`)
    pub fn inv(&self) -> (r: Self)
        ensures
            r.0 == G::inv_spec(self.0),
    {
        Self::wrap(self.unwrap_ref().inv())
    }

    /// `self + rhs`
    pub fn add(&self, rhs: &Self) -> (r: Self)
        ensures
            r.0 == G::op_spec(self.0, rhs.0),
    {
        Self::wrap(self.0.op(rhs.unwrap_ref()))
    }

    /// `-self`
    pub fn neg(&self) -> (r: Self)
        ensures
            r.0 == G::inv_spec(self.0),
    {
        self.inv()
    }

    /// `self - rhs`
    pub fn sub(&self, rhs: &Self) -> (r: Self)
        ensures
            r.0 == G::op_spec(self.0, G::inv_spec(rhs.0)),
    {
        self.add(&rhs.neg())
    }

    /// `self * n`: `self` added to itself `n` times.
    pub fn mul(&self, n: isize) -> (r: Self)
        ensures
            r.0 == group_pow::<Op, G>(self.0, n as int),
    {
        Self::wrap(pow::<Op, G>(self.unwrap_ref(), n))
    }
}

/// Helper for operating with a group in multiplicative notation.
pub struct AsMul<Op: Binary<Assoc = True>, G: Group<Op>>(pub G, pub PhantomData<Op>);

impl<Op: Binary<Assoc = True>, G: Group<Op>> AsMul<Op, G> {
    pub fn wrap(elem: G) -> (r: Self)
        ensures
            r.0 == elem,
    {
        AsMul(elem, PhantomData)
    }

    pub fn unwrap(self) -> (r: G)
        ensures
            r == self.0,
    {
        self.0
    }

    pub fn unwrap_ref(&self) -> (r: &G)
        ensures
            *r == self.0,
    {
        &self.0
    }

    /// The neutral element
    pub fn one() -> (r: Self)
        ensures
            r.0 == G::id_spec(),
    {
        Self::wrap(G::id())
    }

    /// The inverse
    pub fn inv(&self) -> (r: Self)
        ensures
            r.0 == G::inv_spec(self.0),
    {
        Self::wrap(self.unwrap_ref().inv())
    }

    /// The `n`-th power
    ///
    /// NOTE: This uses a recursive algorithm with O(log n) time complexity.
    pub fn pow(&self, n: isize) -> (r: Self)
        ensures
            r.0 == group_pow::<Op, G>(self.0, n as int),
    {
        Self::wrap(pow::<Op, G>(&self.0, n))
    }

    /// `self * rhs`
    pub fn mul(&self, rhs: &Self) -> (r: Self)
        ensures
            r.0 == G::op_spec(self.0, rhs.0),
    {
        Self::wrap(self.0.op(rhs.unwrap_ref()))
    }
}

/// The two-element group: `bool` under exclusive or (addition modulo 2).
impl Group<Add> for bool {
    open spec fn op_spec(a: bool, b: bool) -> bool {
        a != b
    }

    open spec fn id_spec() -> bool {
        false
    }

    open spec fn inv_spec(a: bool) -> bool {
        a
    }

    fn op(&self, rhs: &Self) -> (r: Self) {
        *self != *rhs
    }

    fn id() -> (r: Self) {
        false
    }

    fn inv(&self) -> (r: Self) {
        *self
    }

    proof fn lemma_assoc(a: bool, b: bool, c: bool) {
    }

    proof fn lemma_id(a: bool) {
    }

    proof fn lemma_inv(a: bool) {
    }
}

} // verus!
