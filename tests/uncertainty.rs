use phylab::dual::{Delta, Scalar, Vector};
use phylab::shape::ShapeModel;
use phylab::tensor::{Shape, Simd, SimdError};
use phylab::tensor_traits::{Num, Shaped, TensorLike};

/// A double-precision float as a scalar of the tensor hierarchy.
#[derive(Debug, Clone, Copy, PartialEq)]
struct F(f64);

impl Shaped for F {
    type Shape = ();
    type Model = f64;
    fn model(&self) -> f64 {
        self.0
    }
    fn valid(_m: f64) -> bool {
        true
    }
    fn shape_of(_m: f64) -> ShapeModel {
        ShapeModel::Unit
    }
    fn shape_ok(s: ShapeModel) -> bool {
        matches!(s, ShapeModel::Unit)
    }
    fn shape(&self) -> &() {
        &()
    }
    fn duplicate(&self) -> F {
        *self
    }
    fn lemma_shape_ok(_a: f64) {}
}

impl TensorLike for F {
    type Bool = bool;
    fn eq_spec(a: f64, b: f64) -> bool {
        a == b
    }
    fn eq(&self, rhs: &F) -> bool {
        self.0 == rhs.0
    }
    fn lemma_bool_shape_ok(_s: ShapeModel) {}
}

impl Num for F {
    type Int = isize;
    fn neg_spec(a: f64) -> f64 {
        -a
    }
    fn add_spec(a: f64, b: f64) -> f64 {
        a + b
    }
    fn mul_spec(a: f64, b: f64) -> f64 {
        a * b
    }
    fn inv_spec(a: f64) -> f64 {
        1.0 / a
    }
    fn ipow_spec(_a: f64, _n: <isize as Shaped>::Model) -> f64 {
        unreachable!("integer models only exist in proofs")
    }
    fn zero_spec(_s: ShapeModel) -> f64 {
        0.0
    }
    fn one_spec(_s: ShapeModel) -> f64 {
        1.0
    }
    fn neg_ok(_a: f64) -> bool {
        true
    }
    fn add_ok(_a: f64, _b: f64) -> bool {
        true
    }
    fn mul_ok(_a: f64, _b: f64) -> bool {
        true
    }
    fn inv_ok(_a: f64) -> bool {
        true
    }
    fn ipow_ok(_a: f64, _n: <isize as Shaped>::Model) -> bool {
        unreachable!("integer models only exist in proofs")
    }
    fn neg(&self) -> F {
        F(-self.0)
    }
    fn add(&self, rhs: &F) -> F {
        F(self.0 + rhs.0)
    }
    fn inv(&self) -> F {
        F(1.0 / self.0)
    }
    fn mul(&self, rhs: &F) -> F {
        F(self.0 * rhs.0)
    }
    fn ipow(&self, n: &isize) -> F {
        F(self.0.powi(*n as i32))
    }
    fn zero(_shape: &()) -> F {
        F(0.0)
    }
    fn one(_shape: &()) -> F {
        F(1.0)
    }
    fn is_zero(&self) -> bool {
        self.0 == 0.0
    }
    fn lemma_add_zero(_a: f64) {}
    fn lemma_mul_one(_a: f64) {}
    fn lemma_nonzero_invertible(_a: f64) {}
}

fn floats(xs: &[f64]) -> Simd<F> {
    Simd::from_raw(Shape(vec![xs.len()]), xs.iter().map(|x| F(*x)).collect())
}

fn ints(xs: &[i64]) -> Simd<i64> {
    Simd::from_raw(Shape(vec![xs.len()]), xs.to_vec())
}

#[test]
fn scalar_from_delta_rel_float() {
    let s = Scalar::from_delta_rel(F(10.0), F(0.1));
    assert_eq!(s.best, F(10.0));
    assert_eq!(s.delta, F(1.0));
}

#[test]
fn scalar_delta_rel_of_zero_best_float_is_none() {
    assert!(Scalar::from_best(F(0.0)).delta_rel().is_none());
    assert!(Scalar::from_delta(F(0.0), F(0.5)).delta_rel().is_none());
}

#[test]
fn scalar_delta_rel_float() {
    let r = Scalar::from_delta(F(4.0), F(0.5)).delta_rel().unwrap();
    assert_eq!(r, F(0.125));
}

#[test]
fn vector_from_deltas_rel_float() {
    let v = Vector::from_deltas_rel(floats(&[2.0, 4.0]), floats(&[0.5, 0.25])).unwrap();
    match &v.delta {
        Delta::Each(d) => assert_eq!(d.raw_data(), &[F(1.0), F(1.0)]),
        Delta::Shared(_) => panic!("per-element errors expected"),
    }
    let rel = v.deltas_rel().unwrap();
    let got = rel.raw_data();
    assert!((got[0].0 - 0.5).abs() < 1e-12);
    assert!((got[1].0 - 0.25).abs() < 1e-12);
}

#[test]
fn scalar_integer_constructors() {
    let s = Scalar::from_best(9i64);
    assert_eq!((s.best, s.delta), (9, 0));
    let s = Scalar::from_delta(9i64, 2);
    assert_eq!((s.best, s.delta), (9, 2));
    let s = Scalar::from_delta_rel(9i64, 2);
    assert_eq!((s.best, s.delta), (9, 18));
}

#[test]
fn scalar_delta_rel_integer() {
    assert_eq!(Scalar::from_best(0i64).delta_rel(), None);
    assert_eq!(Scalar::from_delta(-1i64, 6).delta_rel(), Some(-6));
    assert_eq!(Scalar::from_delta(5i64, 6).delta_rel(), Some(0));
}

#[test]
fn vector_shared_delta() {
    let v = Vector::from_delta(ints(&[1, -1, 1]), 4i64);
    assert_eq!(v.best.raw_data(), &[1i64, -1, 1]);
    match &v.delta {
        Delta::Shared(d) => assert_eq!(*d, 4),
        Delta::Each(_) => panic!("a shared error expected"),
    }
    assert_eq!(v.deltas_rel().unwrap().raw_data(), &[4i64, -4, 4]);
}

#[test]
fn vector_from_delta_rel_materializes_per_element_errors() {
    let v = Vector::from_delta_rel(ints(&[1, -1, 3]), 5i64);
    match &v.delta {
        Delta::Each(d) => assert_eq!(d.raw_data(), &[5i64, -5, 15]),
        Delta::Shared(_) => panic!("per-element errors expected"),
    }
}

#[test]
fn vector_from_deltas_keeps_the_array() {
    let v = Vector::from_deltas(ints(&[1, -1]), ints(&[3, 7])).unwrap();
    match &v.delta {
        Delta::Each(d) => assert_eq!(d.raw_data(), &[3i64, 7]),
        Delta::Shared(_) => panic!("per-element errors expected"),
    }
    assert_eq!(v.deltas_rel().unwrap().raw_data(), &[3i64, -7]);
}

#[test]
fn vector_from_deltas_rel_integer() {
    let v = Vector::from_deltas_rel(ints(&[1, -1]), ints(&[3, 7])).unwrap();
    match &v.delta {
        Delta::Each(d) => assert_eq!(d.raw_data(), &[3i64, -7]),
        Delta::Shared(_) => panic!("per-element errors expected"),
    }
    assert_eq!(v.deltas_rel().unwrap().raw_data(), &[3i64, 7]);
}

#[test]
fn vector_constructors_check_shapes() {
    match Vector::from_deltas(ints(&[1, 2]), ints(&[1, 2, 3])) {
        Err(SimdError::BadShape { lhs, rhs }) => {
            assert_eq!(lhs.0, vec![2]);
            assert_eq!(rhs.0, vec![3]);
        }
        Ok(_) => panic!("mismatched shapes must fail"),
    }
    assert!(Vector::from_deltas_rel(ints(&[1, 2]), ints(&[1])).is_err());
}

#[test]
fn vector_deltas_rel_with_a_zero_best_is_none() {
    let v = Vector::from_delta(ints(&[1, 0, 2]), 1i64);
    assert!(v.deltas_rel().is_none());
    let w = Vector::from_delta(floats(&[1.0, 0.0]), F(1.0));
    assert!(w.deltas_rel().is_none());
}
