//! Algebraic laws of the tensor container, proved from the laws of its elements.
use vstd::prelude::*;
use crate::shape::{ShapeModel, product};
use crate::tensor_traits::{Shaped, TensorLike, Num, Tensor as TensorTrait};
use crate::tensor2::Tensor;

verus! {

/// For every container `a`, `zero(shape(a))` can be built and is an additive
/// identity: `a + zero(shape(a)) == a`, element by element.
pub proof fn law_zero_is_additive_identity<T: Num>(a: <Tensor<T> as Shaped>::Model)
    requires
        Tensor::<T>::valid(a),
    ensures
        Tensor::<T>::shape_ok(a.0),
        Tensor::<T>::add_ok(a, Tensor::<T>::zero_spec(a.0)),
        Tensor::<T>::add_spec(a, Tensor::<T>::zero_spec(a.0)) == a,
{
    Tensor::<T>::lemma_shape_ok(a);
    Tensor::<T>::lemma_add_zero(a);
}

/// For every container `a`, `one(shape(a))` can be built and is a multiplicative
/// identity: `a * one(shape(a)) == a`, element by element.
pub proof fn law_one_is_multiplicative_identity<T: Num>(a: <Tensor<T> as Shaped>::Model)
    requires
        Tensor::<T>::valid(a),
    ensures
        Tensor::<T>::shape_ok(a.0),
        Tensor::<T>::mul_ok(a, Tensor::<T>::one_spec(a.0)),
        Tensor::<T>::mul_spec(a, Tensor::<T>::one_spec(a.0)) == a,
{
    Tensor::<T>::lemma_shape_ok(a);
    Tensor::<T>::lemma_mul_one(a);
}

/// `ones_like(x, shape)` holds exactly as many elements as the dimensions of
/// `shape` describe, and every one of them equals `x`.
pub proof fn law_ones_like_fills<T: TensorLike>(x: T::Model, dims: Seq<usize>)
    ensures
        Tensor::<T>::fill_spec(x, ShapeModel::Dims(dims)).1.len() == product(dims),
        forall|i: int|
            0 <= i < product(dims) ==> #[trigger] Tensor::<T>::fill_spec(x, ShapeModel::Dims(dims)).1[i] == x,
{
}

} // verus!
