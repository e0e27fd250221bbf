//! Tensor traits: one algebraic vocabulary for scalars and shaped containers.
//!
//! Every value has a mathematical model (`model`), a validity predicate on models
//! (`valid`) and a shape (`shape_of`). Each operation is specified over models,
//! together with the domain on which it is defined (`*_ok`); for a machine integer
//! that domain excludes overflow, for a container it asks for the same of every element.
use vstd::prelude::*;
use crate::shape::{ShapeModel, Shape, ScalarShape, inner_of};

verus! {

/// Anything with a shape and a mathematical model.
pub trait Shaped: Sized + Send + Sync {
    /// My shape (should be `()` for scalars).
    type Shape: Shape;
    /// The mathematical value of a value of this type.
    type Model;

    spec fn model(&self) -> Self::Model;

    /// Whether a model is the model of a well-formed value.
    spec fn valid(m: Self::Model) -> bool;

    /// The shape of a model.
    spec fn shape_of(m: Self::Model) -> ShapeModel;

    /// Get shape information
    fn shape(&self) -> (r: &Self::Shape)
        ensures
            r.model() == Self::shape_of(self.model()),
    ;

    /// The shapes for which values of this type can be built.
    spec fn shape_ok(s: ShapeModel) -> bool;

    /// A copy of this value.
    fn duplicate(&self) -> (r: Self)
        ensures
            r.model() == self.model(),
    ;

    /// The shape of a valid value can be built again.
    proof fn lemma_shape_ok(a: Self::Model)
        requires
            Self::valid(a),
        ensures
            Self::shape_ok(Self::shape_of(a)),
    ;
}

/// Anything with scalar operations, a shape and an element type
pub trait TensorLike: Shaped {
    /// The result of element-wise boolean operations
    type Bool: Shaped<Shape = Self::Shape>;

    /// The element-wise equality of two models.
    spec fn eq_spec(a: Self::Model, b: Self::Model) -> <Self::Bool as Shaped>::Model;

    /// Compute `self == rhs` (element-wise).
    fn eq(&self, rhs: &Self) -> (r: Self::Bool)
        requires
            Self::valid(self.model()),
            Self::valid(rhs.model()),
            Self::shape_of(self.model()) == Self::shape_of(rhs.model()),
        ensures
            r.model() == Self::eq_spec(self.model(), rhs.model()),
            <Self::Bool as Shaped>::valid(r.model()),
            <Self::Bool as Shaped>::shape_of(r.model()) == Self::shape_of(self.model()),
    ;

    /// A shape that values of this type can take, boolean results can take too.
    proof fn lemma_bool_shape_ok(s: ShapeModel)
        requires
            Self::shape_ok(s),
        ensures
            <Self::Bool as Shaped>::shape_ok(s),
    ;
}

/// [`TensorLike`] with numeric operations
pub trait Num: TensorLike {
    /// The result / argument of integer operations (typically `isize`)
    type Int: Shaped<Shape = Self::Shape>;

    spec fn neg_spec(a: Self::Model) -> Self::Model;

    spec fn add_spec(a: Self::Model, b: Self::Model) -> Self::Model;

    spec fn mul_spec(a: Self::Model, b: Self::Model) -> Self::Model;

    spec fn inv_spec(a: Self::Model) -> Self::Model;

    spec fn ipow_spec(a: Self::Model, n: <Self::Int as Shaped>::Model) -> Self::Model;

    spec fn zero_spec(s: ShapeModel) -> Self::Model;

    spec fn one_spec(s: ShapeModel) -> Self::Model;

    /// Where `neg` is defined.
    spec fn neg_ok(a: Self::Model) -> bool;

    /// Where `add` is defined, for operands of one shape.
    spec fn add_ok(a: Self::Model, b: Self::Model) -> bool;

    /// Where `mul` is defined, for operands of one shape.
    spec fn mul_ok(a: Self::Model, b: Self::Model) -> bool;

    /// Where `inv` is defined.
    spec fn inv_ok(a: Self::Model) -> bool;

    /// Where `ipow` is defined.
    spec fn ipow_ok(a: Self::Model, n: <Self::Int as Shaped>::Model) -> bool;

    /// `-self`
    fn neg(&self) -> (r: Self)
        requires
            Self::valid(self.model()),
            Self::neg_ok(self.model()),
        ensures
            r.model() == Self::neg_spec(self.model()),
            Self::valid(r.model()),
            Self::shape_of(r.model()) == Self::shape_of(self.model()),
    ;

    /// `self + rhs`
    fn add(&self, rhs: &Self) -> (r: Self)
        requires
            Self::valid(self.model()),
            Self::valid(rhs.model()),
            Self::shape_of(self.model()) == Self::shape_of(rhs.model()),
            Self::add_ok(self.model(), rhs.model()),
        ensures
            r.model() == Self::add_spec(self.model(), rhs.model()),
            Self::valid(r.model()),
            Self::shape_of(r.model()) == Self::shape_of(self.model()),
    ;

    /// `self - rhs`
    fn sub(&self, rhs: &Self) -> (r: Self)
        requires
            Self::valid(self.model()),
            Self::valid(rhs.model()),
            Self::shape_of(self.model()) == Self::shape_of(rhs.model()),
            Self::neg_ok(rhs.model()),
            Self::add_ok(self.model(), Self::neg_spec(rhs.model())),
        ensures
            r.model() == Self::add_spec(self.model(), Self::neg_spec(rhs.model())),
            Self::valid(r.model()),
            Self::shape_of(r.model()) == Self::shape_of(self.model()),
    {
        self.add(&rhs.neg())
    }

    /// `1/self`
    fn inv(&self) -> (r: Self)
        requires
            Self::valid(self.model()),
            Self::inv_ok(self.model()),
        ensures
            r.model() == Self::inv_spec(self.model()),
            Self::valid(r.model()),
            Self::shape_of(r.model()) == Self::shape_of(self.model()),
    ;

    /// `self * rhs`
    fn mul(&self, rhs: &Self) -> (r: Self)
        requires
            Self::valid(self.model()),
            Self::valid(rhs.model()),
            Self::shape_of(self.model()) == Self::shape_of(rhs.model()),
            Self::mul_ok(self.model(), rhs.model()),
        ensures
            r.model() == Self::mul_spec(self.model(), rhs.model()),
            Self::valid(r.model()),
            Self::shape_of(r.model()) == Self::shape_of(self.model()),
    ;

    /// `self / rhs`
    fn div(&self, rhs: &Self) -> (r: Self)
        requires
            Self::valid(self.model()),
            Self::valid(rhs.model()),
            Self::shape_of(self.model()) == Self::shape_of(rhs.model()),
            Self::inv_ok(rhs.model()),
            Self::mul_ok(self.model(), Self::inv_spec(rhs.model())),
        ensures
            r.model() == Self::mul_spec(self.model(), Self::inv_spec(rhs.model())),
            Self::valid(r.model()),
            Self::shape_of(r.model()) == Self::shape_of(self.model()),
    {
        self.mul(&rhs.inv())
    }

    /// `self ** n`
    fn ipow(&self, n: &Self::Int) -> (r: Self)
        requires
            Self::valid(self.model()),
            <Self::Int as Shaped>::valid(n.model()),
            Self::shape_of(self.model()) == <Self::Int as Shaped>::shape_of(n.model()),
            Self::ipow_ok(self.model(), n.model()),
        ensures
            r.model() == Self::ipow_spec(self.model(), n.model()),
            Self::valid(r.model()),
            Self::shape_of(r.model()) == Self::shape_of(self.model()),
    ;

    /// 0
    fn zero(shape: &Self::Shape) -> (r: Self)
        requires
            Self::shape_ok(shape.model()),
        ensures
            r.model() == Self::zero_spec(shape.model()),
            Self::valid(r.model()),
            Self::shape_of(r.model()) == shape.model(),
    ;

    /// 1
    fn one(shape: &Self::Shape) -> (r: Self)
        requires
            Self::shape_ok(shape.model()),
        ensures
            r.model() == Self::one_spec(shape.model()),
            Self::valid(r.model()),
            Self::shape_of(r.model()) == shape.model(),
    ;

    /// 2
    fn two(shape: &Self::Shape) -> (r: Self)
        requires
            Self::shape_ok(shape.model()),
            Self::add_ok(Self::one_spec(shape.model()), Self::one_spec(shape.model())),
        ensures
            r.model() == Self::add_spec(Self::one_spec(shape.model()), Self::one_spec(shape.model())),
            Self::valid(r.model()),
            Self::shape_of(r.model()) == shape.model(),
    {
        Self::one(shape).add(&Self::one(shape))
    }

    /// Whether every element of `self` is zero.
    fn is_zero(&self) -> (r: bool)
        requires
            Self::valid(self.model()),
        ensures
            r == (self.model() == Self::zero_spec(Self::shape_of(self.model()))),
    ;

    /// Zero is an additive identity.
    proof fn lemma_add_zero(a: Self::Model)
        requires
            Self::valid(a),
        ensures
            Self::add_ok(a, Self::zero_spec(Self::shape_of(a))),
            Self::add_spec(a, Self::zero_spec(Self::shape_of(a))) == a,
    ;

    /// One is a multiplicative identity.
    proof fn lemma_mul_one(a: Self::Model)
        requires
            Self::valid(a),
        ensures
            Self::mul_ok(a, Self::one_spec(Self::shape_of(a))),
            Self::mul_spec(a, Self::one_spec(Self::shape_of(a))) == a,
    ;

    /// A scalar other than zero has an inverse.
    proof fn lemma_nonzero_invertible(a: Self::Model)
        requires
            Self::valid(a),
            Self::shape_of(a) == ShapeModel::Unit,
            a != Self::zero_spec(ShapeModel::Unit),
        ensures
            Self::inv_ok(a),
    ;
}

/// Real [`Num`]bers
///
/// Domain errors (the logarithm of a non-positive number, say) are not reported:
/// they follow the underlying arithmetic (NaN or an infinity for floats).
pub trait Real: Num {
    spec fn exp_spec(a: Self::Model) -> Self::Model;

    spec fn ln_spec(a: Self::Model) -> Self::Model;

    spec fn sin_spec(a: Self::Model) -> Self::Model;

    spec fn cos_spec(a: Self::Model) -> Self::Model;

    spec fn sinh_spec(a: Self::Model) -> Self::Model;

    spec fn cosh_spec(a: Self::Model) -> Self::Model;

    spec fn asin_spec(a: Self::Model) -> Self::Model;

    spec fn acos_spec(a: Self::Model) -> Self::Model;

    spec fn atan_spec(a: Self::Model) -> Self::Model;

    spec fn atan2_spec(a: Self::Model, b: Self::Model) -> Self::Model;

    spec fn e_spec(s: ShapeModel) -> Self::Model;

    spec fn pi_spec(s: ShapeModel) -> Self::Model;

    /// Natural exponential
    fn exp(&self) -> (r: Self)
        requires
            Self::valid(self.model()),
        ensures
            r.model() == Self::exp_spec(self.model()),
            Self::valid(r.model()),
            Self::shape_of(r.model()) == Self::shape_of(self.model()),
    ;

    /// Natural logarithm
    fn ln(&self) -> (r: Self)
        requires
            Self::valid(self.model()),
        ensures
            r.model() == Self::ln_spec(self.model()),
            Self::valid(r.model()),
            Self::shape_of(r.model()) == Self::shape_of(self.model()),
    ;

    /// Sine
    fn sin(&self) -> (r: Self)
        requires
            Self::valid(self.model()),
        ensures
            r.model() == Self::sin_spec(self.model()),
            Self::valid(r.model()),
            Self::shape_of(r.model()) == Self::shape_of(self.model()),
    ;

    /// Cosine
    fn cos(&self) -> (r: Self)
        requires
            Self::valid(self.model()),
        ensures
            r.model() == Self::cos_spec(self.model()),
            Self::valid(r.model()),
            Self::shape_of(r.model()) == Self::shape_of(self.model()),
    ;

    /// Hyperbolic sine
    fn sinh(&self) -> (r: Self)
        requires
            Self::valid(self.model()),
        ensures
            r.model() == Self::sinh_spec(self.model()),
            Self::valid(r.model()),
            Self::shape_of(r.model()) == Self::shape_of(self.model()),
    ;

    /// Hyperbolic cosine
    fn cosh(&self) -> (r: Self)
        requires
            Self::valid(self.model()),
        ensures
            r.model() == Self::cosh_spec(self.model()),
            Self::valid(r.model()),
            Self::shape_of(r.model()) == Self::shape_of(self.model()),
    ;

    /// Inverse sine
    fn asin(&self) -> (r: Self)
        requires
            Self::valid(self.model()),
        ensures
            r.model() == Self::asin_spec(self.model()),
            Self::valid(r.model()),
            Self::shape_of(r.model()) == Self::shape_of(self.model()),
    ;

    /// Inverse cosine
    fn acos(&self) -> (r: Self)
        requires
            Self::valid(self.model()),
        ensures
            r.model() == Self::acos_spec(self.model()),
            Self::valid(r.model()),
            Self::shape_of(r.model()) == Self::shape_of(self.model()),
    ;

    /// Inverse tangent
    fn atan(&self) -> (r: Self)
        requires
            Self::valid(self.model()),
        ensures
            r.model() == Self::atan_spec(self.model()),
            Self::valid(r.model()),
            Self::shape_of(r.model()) == Self::shape_of(self.model()),
    ;

    /// Any power: `exp(ln(self) * rhs)`
    fn pow(&self, rhs: &Self) -> (r: Self)
        requires
            Self::valid(self.model()),
            Self::valid(rhs.model()),
            Self::shape_of(self.model()) == Self::shape_of(rhs.model()),
            Self::mul_ok(Self::ln_spec(self.model()), rhs.model()),
        ensures
            r.model() == Self::exp_spec(Self::mul_spec(Self::ln_spec(self.model()), rhs.model())),
            Self::valid(r.model()),
            Self::shape_of(r.model()) == Self::shape_of(self.model()),
    {
        (self.ln().mul(rhs)).exp()
    }

    /// Tangent: `sin(self) / cos(self)`
    fn tan(&self) -> (r: Self)
        requires
            Self::valid(self.model()),
            Self::inv_ok(Self::cos_spec(self.model())),
            Self::mul_ok(Self::sin_spec(self.model()), Self::inv_spec(Self::cos_spec(self.model()))),
        ensures
            r.model() == Self::mul_spec(Self::sin_spec(self.model()), Self::inv_spec(Self::cos_spec(self.model()))),
            Self::valid(r.model()),
            Self::shape_of(r.model()) == Self::shape_of(self.model()),
    {
        self.sin().div(&self.cos())
    }

    /// Hyperbolic tangent: `sinh(self) / cosh(self)`
    fn tanh(&self) -> (r: Self)
        requires
            Self::valid(self.model()),
            Self::inv_ok(Self::cosh_spec(self.model())),
            Self::mul_ok(Self::sinh_spec(self.model()), Self::inv_spec(Self::cosh_spec(self.model()))),
        ensures
            r.model() == Self::mul_spec(Self::sinh_spec(self.model()), Self::inv_spec(Self::cosh_spec(self.model()))),
            Self::valid(r.model()),
            Self::shape_of(r.model()) == Self::shape_of(self.model()),
    {
        self.sinh().div(&self.cosh())
    }

    /// `atan2(x, y)`
    fn atan2(&self, rhs: &Self) -> (r: Self)
        requires
            Self::valid(self.model()),
            Self::valid(rhs.model()),
            Self::shape_of(self.model()) == Self::shape_of(rhs.model()),
        ensures
            r.model() == Self::atan2_spec(self.model(), rhs.model()),
            Self::valid(r.model()),
            Self::shape_of(r.model()) == Self::shape_of(self.model()),
    ;

    /// Euler's number
    fn e(shape: &Self::Shape) -> (r: Self)
        requires
            Self::shape_ok(shape.model()),
        ensures
            r.model() == Self::e_spec(shape.model()),
            Self::valid(r.model()),
            Self::shape_of(r.model()) == shape.model(),
    ;

    /// The ratio of a circle's circumference to its diameter
    fn pi(shape: &Self::Shape) -> (r: Self)
        requires
            Self::shape_ok(shape.model()),
        ensures
            r.model() == Self::pi_spec(shape.model()),
            Self::valid(r.model()),
            Self::shape_of(r.model()) == shape.model(),
    ;
}

/// Anything with scalar or tensor (i.e. distributed scalar) operations
pub trait Tensor<X: TensorLike>: TensorLike {
    /// The model of a tensor of the outer shape `s` whose elements all equal `x`.
    spec fn fill_spec(x: X::Model, s: ShapeModel) -> Self::Model;

    /// The outer shapes for which such a tensor can be built.
    spec fn fill_ok(s: ShapeModel) -> bool;

    /// The element-wise comparison of a tensor with one element.
    spec fn eq_0_spec(a: Self::Model, x: X::Model) -> <Self::Bool as Shaped>::Model;

    /// Construct a tensor with the specified shape, where all elements are `x`
    fn ones_like(x: X, shape: &<Self::Shape as Shape>::TensorShape) -> (r: Self)
        requires
            X::valid(x.model()),
            Self::fill_ok(shape.model()),
        ensures
            r.model() == Self::fill_spec(x.model(), shape.model()),
            Self::valid(r.model()),
    ;

    /// Compute `x == rhs` for all elements `x`.
    fn eq_0(&self, rhs: &X) -> (r: Self::Bool)
        requires
            Self::valid(self.model()),
            X::valid(rhs.model()),
            inner_of(Self::shape_of(self.model())) == X::shape_of(rhs.model()),
        ensures
            r.model() == Self::eq_0_spec(self.model(), rhs.model()),
            <Self::Bool as Shaped>::valid(r.model()),
            <Self::Bool as Shaped>::shape_of(r.model()) == Self::shape_of(self.model()),
    ;
}

/// [`Tensor`]s with numeric operations against a single element
pub trait NumTensor<X: Num>: Tensor<X> + Num {
    spec fn add_0_spec(a: Self::Model, x: X::Model) -> Self::Model;

    spec fn mul_0_spec(a: Self::Model, x: X::Model) -> Self::Model;

    spec fn ipow_0_spec(a: Self::Model, n: <X::Int as Shaped>::Model) -> Self::Model;

    /// Where `add_0` is defined.
    spec fn add_0_ok(a: Self::Model, x: X::Model) -> bool;

    /// Where `mul_0` is defined.
    spec fn mul_0_ok(a: Self::Model, x: X::Model) -> bool;

    /// Where `ipow_0` is defined.
    spec fn ipow_0_ok(a: Self::Model, n: <X::Int as Shaped>::Model) -> bool;

    /// `x + rhs` for all `x`s
    fn add_0(&self, rhs: &X) -> (r: Self)
        requires
            Self::valid(self.model()),
            X::valid(rhs.model()),
            inner_of(Self::shape_of(self.model())) == X::shape_of(rhs.model()),
            Self::add_0_ok(self.model(), rhs.model()),
        ensures
            r.model() == Self::add_0_spec(self.model(), rhs.model()),
            Self::valid(r.model()),
            Self::shape_of(r.model()) == Self::shape_of(self.model()),
    ;

    /// `x - rhs` for all `x`s
    fn sub_0(&self, rhs: &X) -> (r: Self)
        requires
            Self::valid(self.model()),
            X::valid(rhs.model()),
            inner_of(Self::shape_of(self.model())) == X::shape_of(rhs.model()),
            X::neg_ok(rhs.model()),
            Self::add_0_ok(self.model(), X::neg_spec(rhs.model())),
        ensures
            r.model() == Self::add_0_spec(self.model(), X::neg_spec(rhs.model())),
            Self::valid(r.model()),
            Self::shape_of(r.model()) == Self::shape_of(self.model()),
    {
        self.add_0(&rhs.neg())
    }

    /// `rhs - x` for all `x`s
    fn rsub_0(&self, rhs: &X) -> (r: Self)
        requires
            Self::valid(self.model()),
            X::valid(rhs.model()),
            inner_of(Self::shape_of(self.model())) == X::shape_of(rhs.model()),
            Self::neg_ok(self.model()),
            Self::add_0_ok(Self::neg_spec(self.model()), rhs.model()),
        ensures
            r.model() == Self::add_0_spec(Self::neg_spec(self.model()), rhs.model()),
            Self::valid(r.model()),
            Self::shape_of(r.model()) == Self::shape_of(self.model()),
    {
        self.neg().add_0(rhs)
    }

    /// `x * rhs` for all `x`s
    fn mul_0(&self, rhs: &X) -> (r: Self)
        requires
            Self::valid(self.model()),
            X::valid(rhs.model()),
            inner_of(Self::shape_of(self.model())) == X::shape_of(rhs.model()),
            Self::mul_0_ok(self.model(), rhs.model()),
        ensures
            r.model() == Self::mul_0_spec(self.model(), rhs.model()),
            Self::valid(r.model()),
            Self::shape_of(r.model()) == Self::shape_of(self.model()),
    ;

    /// `x / rhs` for all `x`s
    fn div_0(&self, rhs: &X) -> (r: Self)
        requires
            Self::valid(self.model()),
            X::valid(rhs.model()),
            inner_of(Self::shape_of(self.model())) == X::shape_of(rhs.model()),
            X::inv_ok(rhs.model()),
            Self::mul_0_ok(self.model(), X::inv_spec(rhs.model())),
        ensures
            r.model() == Self::mul_0_spec(self.model(), X::inv_spec(rhs.model())),
            Self::valid(r.model()),
            Self::shape_of(r.model()) == Self::shape_of(self.model()),
    {
        self.mul_0(&rhs.inv())
    }

    /// `rhs / x` for all `x`s
    fn rdiv_0(&self, rhs: &X) -> (r: Self)
        requires
            Self::valid(self.model()),
            X::valid(rhs.model()),
            inner_of(Self::shape_of(self.model())) == X::shape_of(rhs.model()),
            Self::inv_ok(self.model()),
            Self::mul_0_ok(Self::inv_spec(self.model()), rhs.model()),
        ensures
            r.model() == Self::mul_0_spec(Self::inv_spec(self.model()), rhs.model()),
            Self::valid(r.model()),
            Self::shape_of(r.model()) == Self::shape_of(self.model()),
    {
        self.inv().mul_0(rhs)
    }

    /// `x ** n` for all `x`s
    fn ipow_0(&self, n: &X::Int) -> (r: Self)
        requires
            Self::valid(self.model()),
            <X::Int as Shaped>::valid(n.model()),
            inner_of(Self::shape_of(self.model())) == <X::Int as Shaped>::shape_of(n.model()),
            Self::ipow_0_ok(self.model(), n.model()),
        ensures
            r.model() == Self::ipow_0_spec(self.model(), n.model()),
            Self::valid(r.model()),
            Self::shape_of(r.model()) == Self::shape_of(self.model()),
    ;
}

/// Real [`Tensor`]s
pub trait RealTensor<X: Real>: NumTensor<X> + Real {
    spec fn atan2_0_spec(a: Self::Model, x: X::Model) -> Self::Model;

    /// Any power: `exp(ln(x) * rhs)` for all `x`s
    fn pow_0(&self, rhs: &X) -> (r: Self)
        requires
            Self::valid(self.model()),
            X::valid(rhs.model()),
            inner_of(Self::shape_of(self.model())) == X::shape_of(rhs.model()),
            Self::mul_0_ok(Self::ln_spec(self.model()), rhs.model()),
        ensures
            r.model() == Self::exp_spec(Self::mul_0_spec(Self::ln_spec(self.model()), rhs.model())),
            Self::valid(r.model()),
            Self::shape_of(r.model()) == Self::shape_of(self.model()),
    {
        (self.ln().mul_0(rhs)).exp()
    }

    /// `atan2(x, rhs)` for all `x`s
    fn atan2_0(&self, rhs: &X) -> (r: Self)
        requires
            Self::valid(self.model()),
            X::valid(rhs.model()),
            inner_of(Self::shape_of(self.model())) == X::shape_of(rhs.model()),
        ensures
            r.model() == Self::atan2_0_spec(self.model(), rhs.model()),
            Self::valid(r.model()),
            Self::shape_of(r.model()) == Self::shape_of(self.model()),
    ;
}

/// Vector
pub trait Vector<X: TensorLike>: Tensor<X> {}

/// Numeric vector
pub trait NumVector<X: Num>: Vector<X> + Num {
    /// Dot product between two vectors
    fn dot(&self, rhs: &X) -> Self::Int;
}

/// Matrix
pub trait Matrix<X: TensorLike>: Tensor<X> {}

/// Numeric matrix
pub trait NumMatrix<X: Num>: Matrix<X> + Num {
    /// Matrix product: `self (Matrix) @ rhs (Matrix)`
    fn matmat(&self, rhs: &Self) -> Self;

    /// Matrix product: `self (Matrix) @ rhs (Vector)`
    fn matvec(&self, rhs: &Self) -> Self;

    /// Matrix product: `lhs (Vector) @ self (Matrix)`
    fn rvecmat(&self, lhs: &Self) -> Self;
}

} // verus!