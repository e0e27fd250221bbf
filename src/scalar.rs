//! The built-in scalar types as members of the tensor hierarchy: their shape is `()`.
use vstd::prelude::*;
use crate::shape::ShapeModel;
use crate::tensor_traits::{Shaped, TensorLike, Num};

verus! {

/// Whether an integer fits in an `i64`.
pub open spec fn fits_i64(x: int) -> bool {
    i64::MIN <= x <= i64::MAX
}

/// `a` to the power `n`.
pub open spec fn power(a: int, n: nat) -> int
    decreases n,
{
    if n == 0 {
        1
    } else {
        power(a, (n - 1) as nat) * a
    }
}

/// The integer reciprocal `1 / a`, rounded toward zero.
pub open spec fn int_reciprocal(a: int) -> int {
    if a == 1 {
        1
    } else if a == -1 {
        -1
    } else {
        0
    }
}

impl Shaped for bool {
    type Shape = ();
    type Model = bool;

    open spec fn model(&self) -> bool {
        *self
    }

    open spec fn valid(m: bool) -> bool {
        true
    }

    open spec fn shape_of(m: bool) -> ShapeModel {
        ShapeModel::Unit
    }

    fn shape(&self) -> (r: &Self::Shape) {
        &()
    }

    open spec fn shape_ok(s: ShapeModel) -> bool {
        s == ShapeModel::Unit
    }

    fn duplicate(&self) -> (r: Self) {
        *self
    }

    proof fn lemma_shape_ok(a: Self::Model) {
    }
}

impl TensorLike for bool {
    type Bool = bool;

    open spec fn eq_spec(a: bool, b: bool) -> bool {
        a == b
    }

    fn eq(&self, rhs: &Self) -> (r: Self::Bool) {
        *self == *rhs
    }

    proof fn lemma_bool_shape_ok(s: ShapeModel) {
    }
}

impl Shaped for isize {
    type Shape = ();
    type Model = int;

    open spec fn model(&self) -> int {
        *self as int
    }

    open spec fn valid(m: int) -> bool {
        isize::MIN <= m <= isize::MAX
    }

    open spec fn shape_of(m: int) -> ShapeModel {
        ShapeModel::Unit
    }

    fn shape(&self) -> (r: &Self::Shape) {
        &()
    }

    open spec fn shape_ok(s: ShapeModel) -> bool {
        s == ShapeModel::Unit
    }

    fn duplicate(&self) -> (r: Self) {
        *self
    }

    proof fn lemma_shape_ok(a: Self::Model) {
    }
}

impl TensorLike for isize {
    type Bool = bool;

    open spec fn eq_spec(a: int, b: int) -> bool {
        a == b
    }

    fn eq(&self, rhs: &Self) -> (r: Self::Bool) {
        *self == *rhs
    }

    proof fn lemma_bool_shape_ok(s: ShapeModel) {
    }
}

impl Shaped for i64 {
    type Shape = ();
    type Model = int;

    open spec fn model(&self) -> int {
        *self as int
    }

    open spec fn valid(m: int) -> bool {
        fits_i64(m)
    }

    open spec fn shape_of(m: int) -> ShapeModel {
        ShapeModel::Unit
    }

    fn shape(&self) -> (r: &Self::Shape) {
        &()
    }

    open spec fn shape_ok(s: ShapeModel) -> bool {
        s == ShapeModel::Unit
    }

    fn duplicate(&self) -> (r: Self) {
        *self
    }

    proof fn lemma_shape_ok(a: Self::Model) {
    }
}

impl TensorLike for i64 {
    type Bool = bool;

    open spec fn eq_spec(a: int, b: int) -> bool {
        a == b
    }

    fn eq(&self, rhs: &Self) -> (r: Self::Bool) {
        *self == *rhs
    }

    proof fn lemma_bool_shape_ok(s: ShapeModel) {
    }
}

impl Num for i64 {
    type Int = isize;

    open spec fn neg_spec(a: int) -> int {
        -a
    }

    open spec fn add_spec(a: int, b: int) -> int {
        a + b
    }

    open spec fn mul_spec(a: int, b: int) -> int {
        a * b
    }

    open spec fn inv_spec(a: int) -> int {
        int_reciprocal(a)
    }

    open spec fn ipow_spec(a: int, n: int) -> int {
        power(a, n as nat)
    }

    open spec fn zero_spec(s: ShapeModel) -> int {
        0
    }

    open spec fn one_spec(s: ShapeModel) -> int {
        1
    }

    open spec fn neg_ok(a: int) -> bool {
        fits_i64(-a)
    }

    open spec fn add_ok(a: int, b: int) -> bool {
        fits_i64(a + b)
    }

    open spec fn mul_ok(a: int, b: int) -> bool {
        fits_i64(a * b)
    }

    open spec fn inv_ok(a: int) -> bool {
        a != 0
    }

    /// Defined for a non-negative exponent where no partial power overflows.
    open spec fn ipow_ok(a: int, n: int) -> bool {
        &&& n >= 0
        &&& forall|k: nat| k <= n ==> fits_i64(#[trigger] power(a, k))
    }

    fn neg(&self) -> (r: Self) {
        -*self
    }

    fn add(&self, rhs: &Self) -> (r: Self) {
        *self + *rhs
    }

    fn inv(&self) -> (r: Self) {
        if *self == 1 {
            1
        } else if *self == -1 {
            -1
        } else {
            0
        }
    }

    fn mul(&self, rhs: &Self) -> (r: Self) {
        *self * *rhs
    }

    fn ipow(&self, n: &isize) -> (r: Self) {
        let mut acc: i64 = 1;
        let mut k: isize = 0;
        assert(power(*self as int, 0) == 1);
        while k < *n
            invariant
                0 <= k <= *n,
                acc as int == power(*self as int, k as nat),
                Self::ipow_ok(*self as int, *n as int),
            decreases *n - k,
        {
            assert(fits_i64(power(*self as int, (k + 1) as nat)));
            acc = acc * *self;
            k = k + 1;
        }
        acc
    }

    fn zero(shape: &()) -> (r: Self) {
        0
    }

    fn one(shape: &()) -> (r: Self) {
        1
    }

    fn is_zero(&self) -> (r: bool) {
        *self == 0
    }

    proof fn lemma_add_zero(a: int) {
    }

    proof fn lemma_mul_one(a: int) {
    }

    proof fn lemma_nonzero_invertible(a: int) {
    }
}

} // verus!
