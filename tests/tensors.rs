use phylab::tensor2::{dims_product, Tensor};
use phylab::tensor_traits::{Num, NumTensor, Shaped, Tensor as TensorOps, TensorLike};

fn tensor(dims: Vec<usize>, data: Vec<i64>) -> Tensor<i64> {
    Tensor::from_raw((dims, ()), data)
}

#[test]
fn ones_like_fills_the_product_of_dimensions() {
    let t: Tensor<i64> = Tensor::ones_like(7, &vec![2, 3, 4]);
    assert_eq!(t.raw_data().len(), 24);
    assert!(t.raw_data().iter().all(|x| *x == 7));
    assert_eq!(t.shape().0, vec![2, 3, 4]);
}

#[test]
fn ones_like_with_a_zero_dimension_is_empty() {
    let t: Tensor<i64> = Tensor::ones_like(7, &vec![3, 0, 5]);
    assert!(t.raw_data().is_empty());
    let s: Tensor<i64> = Tensor::ones_like(7, &vec![]);
    assert_eq!(s.raw_data(), &[7i64]);
}

#[test]
fn dims_product_multiplies() {
    assert_eq!(dims_product(&vec![2, 3, 4]), 24);
    assert_eq!(dims_product(&vec![]), 1);
    assert_eq!(dims_product(&vec![usize::MAX, 0]), 0);
}

#[test]
fn zero_is_an_additive_identity() {
    let a = tensor(vec![2, 2], vec![5, -3, 0, 9]);
    let z = Tensor::<i64>::zero(a.shape());
    assert_eq!(z.raw_data(), &[0i64, 0, 0, 0]);
    assert_eq!(a.add(&z).raw_data(), a.raw_data());
}

#[test]
fn one_is_a_multiplicative_identity() {
    let a = tensor(vec![3], vec![5, -3, 11]);
    let o = Tensor::<i64>::one(a.shape());
    assert_eq!(o.raw_data(), &[1i64, 1, 1]);
    assert_eq!(a.mul(&o).raw_data(), a.raw_data());
    assert_eq!(Tensor::<i64>::two(a.shape()).raw_data(), &[2i64, 2, 2]);
}

#[test]
fn sub_is_add_of_the_negation() {
    let a = tensor(vec![3], vec![5, -3, 11]);
    let b = tensor(vec![3], vec![2, 8, -4]);
    assert_eq!(a.sub(&b).raw_data(), &[3i64, -11, 15]);
    assert_eq!(a.sub(&b).raw_data(), a.add(&b.neg()).raw_data());
}

#[test]
fn div_is_mul_of_the_inverse() {
    let a = tensor(vec![4], vec![5, -3, 11, 8]);
    let b = tensor(vec![4], vec![1, -1, 2, -7]);
    assert_eq!(a.div(&b).raw_data(), &[5i64, 3, 0, 0]);
    assert_eq!(a.div(&b).raw_data(), a.mul(&b.inv()).raw_data());
}

#[test]
fn elementwise_equality() {
    let a = tensor(vec![3], vec![1, 2, 3]);
    let b = tensor(vec![3], vec![1, 0, 3]);
    let e = a.eq(&b);
    assert_eq!(e.raw_data(), &[true, false, true]);
    assert_eq!(e.shape().0, vec![3]);
    assert_eq!(a.eq_0(&2).raw_data(), &[false, true, false]);
}

#[test]
fn integer_powers() {
    let a = tensor(vec![3], vec![2, -3, 10]);
    let n: Tensor<isize> = Tensor::from_raw((vec![3], ()), vec![3, 2, 0]);
    assert_eq!(a.ipow(&n).raw_data(), &[8i64, 9, 1]);
    assert_eq!(a.ipow_0(&2).raw_data(), &[4i64, 9, 100]);
    assert_eq!(Num::ipow(&3i64, &4), 81);
}

#[test]
fn scalar_broadcast_operations() {
    let a = tensor(vec![3], vec![1, 2, -3]);
    assert_eq!(a.add_0(&10).raw_data(), &[11i64, 12, 7]);
    assert_eq!(a.sub_0(&1).raw_data(), &[0i64, 1, -4]);
    assert_eq!(a.rsub_0(&1).raw_data(), &[0i64, -1, 4]);
    assert_eq!(a.mul_0(&-2).raw_data(), &[-2i64, -4, 6]);
    assert_eq!(a.div_0(&-1).raw_data(), &[-1i64, -2, 3]);
    let b = tensor(vec![2], vec![1, -1]);
    assert_eq!(b.rdiv_0(&6).raw_data(), &[6i64, -6]);
}

#[test]
fn zero_test() {
    assert!(tensor(vec![2], vec![0, 0]).is_zero());
    assert!(!tensor(vec![2], vec![0, 1]).is_zero());
    assert!(Num::is_zero(&0i64));
}

#[test]
fn tensors_of_tensors() {
    let inner = tensor(vec![2], vec![1, 2]);
    let outer: Tensor<Tensor<i64>> = Tensor::ones_like(inner, &vec![3]);
    assert_eq!(outer.raw_data().len(), 3);
    let doubled = outer.add(&outer);
    for x in doubled.raw_data() {
        assert_eq!(x.raw_data(), &[2i64, 4]);
    }
    let z = Tensor::<Tensor<i64>>::zero(outer.shape());
    assert_eq!(z.raw_data().len(), 3);
    assert_eq!(z.raw_data()[2].raw_data(), &[0i64, 0]);
    let e = outer.eq(&doubled);
    assert_eq!(e.raw_data()[0].raw_data(), &[false, false]);
    let copy = outer.duplicate();
    assert_eq!(copy.raw_data()[1].raw_data(), &[1i64, 2]);
}

#[test]
fn scalar_integer_operations() {
    assert_eq!(Num::neg(&5i64), -5);
    assert_eq!(Num::add(&5i64, &-7), -2);
    assert_eq!(Num::sub(&5i64, &7), -2);
    assert_eq!(Num::mul(&5i64, &-7), -35);
    assert_eq!(Num::inv(&1i64), 1);
    assert_eq!(Num::inv(&-1i64), -1);
    assert_eq!(Num::inv(&4i64), 0);
    assert_eq!(Num::div(&9i64, &-1), -9);
    assert!(TensorLike::eq(&3i64, &3));
    assert!(!TensorLike::eq(&true, &false));
}
