use phylab::shape::ScalarShape;
use phylab::tensor::{Shape, Simd, SimdError};

fn simd(dims: Vec<usize>, data: Vec<i64>) -> Simd<i64> {
    Simd::from_raw(Shape(dims), data)
}

fn expect_bad_shape<T>(r: Result<T, SimdError>, lhs: Vec<usize>, rhs: Vec<usize>) {
    match r {
        Err(SimdError::BadShape { lhs: l, rhs: r }) => {
            assert_eq!(l.0, lhs);
            assert_eq!(r.0, rhs);
        }
        Ok(_) => panic!("operands of differing shapes must fail"),
    }
}

#[test]
fn raw_data_and_shape_round_trip() {
    let a = simd(vec![2, 2], vec![1, 2, 3, 4]);
    assert_eq!(a.raw_data(), &[1i64, 2, 3, 4]);
    assert_eq!(a.shape().0, vec![2, 2]);
}

#[test]
fn add_same_shape_succeeds() {
    let a = simd(vec![3], vec![1, 2, 3]);
    let b = simd(vec![3], vec![10, 20, 30]);
    let c = a.add(&b).unwrap();
    assert_eq!(c.raw_data(), &[11i64, 22, 33]);
    assert_eq!(c.shape().0, vec![3]);
}

#[test]
fn add_length_three_and_five_fails() {
    let a = simd(vec![3], vec![1, 2, 3]);
    let b = simd(vec![5], vec![1, 2, 3, 4, 5]);
    expect_bad_shape(a.add(&b), vec![3], vec![5]);
}

#[test]
fn every_binary_op_checks_shapes() {
    let a = simd(vec![2, 3], vec![1, 2, 3, 4, 5, 6]);
    let b = simd(vec![3, 2], vec![1, 2, 3, 4, 5, 6]);
    expect_bad_shape(a.add(&b), vec![2, 3], vec![3, 2]);
    expect_bad_shape(a.sub(&b), vec![2, 3], vec![3, 2]);
    expect_bad_shape(a.mul(&b), vec![2, 3], vec![3, 2]);
    expect_bad_shape(a.div(&b), vec![2, 3], vec![3, 2]);
}

#[test]
fn ensure_shape_matches_reports_both_shapes() {
    let a = simd(vec![3], vec![1, 2, 3]);
    let b = simd(vec![3], vec![4, 5, 6]);
    assert!(a.ensure_shape_matches(&b).is_ok());
    let c = simd(vec![1, 3], vec![4, 5, 6]);
    expect_bad_shape(a.ensure_shape_matches(&c).map(|_| 0), vec![3], vec![1, 3]);
}

#[test]
fn bad_shape_message_names_both_shapes() {
    let a = simd(vec![3], vec![1, 2, 3]);
    let b = simd(vec![5], vec![1, 2, 3, 4, 5]);
    let e = a.add(&b).err().unwrap();
    assert_eq!(e.message(), "Mismatched shapes in binary operation: lhs is (3), rhs is (5)");
}

#[test]
fn sub_mul_div_elementwise() {
    let a = simd(vec![4], vec![7, -8, 9, 10]);
    let b = simd(vec![4], vec![1, 2, -1, 1]);
    assert_eq!(a.sub(&b).unwrap().raw_data(), &[6i64, -10, 10, 9]);
    assert_eq!(a.mul(&b).unwrap().raw_data(), &[7i64, -16, -9, 10]);
    // Division multiplies by the integer reciprocal (1 / 2 == 0).
    assert_eq!(a.div(&b).unwrap().raw_data(), &[7i64, 0, -9, 10]);
}

#[test]
fn neg_and_inv_elementwise() {
    let a = simd(vec![3], vec![1, -1, 5]);
    assert_eq!(a.neg().raw_data(), &[-1i64, 1, -5]);
    assert_eq!(a.inv().raw_data(), &[1i64, -1, 0]);
}

#[test]
fn scalar_broadcasts() {
    let a = simd(vec![2, 2], vec![1, 2, 3, 4]);
    assert_eq!(a.add_scalar(&10).raw_data(), &[11i64, 12, 13, 14]);
    assert_eq!(a.sub_scalar(&1).raw_data(), &[0i64, 1, 2, 3]);
    assert_eq!(a.mul_scalar(&-3).raw_data(), &[-3i64, -6, -9, -12]);
    assert_eq!(a.div_scalar(&-1).raw_data(), &[-1i64, -2, -3, -4]);
    assert_eq!(a.add_scalar(&0).shape().0, vec![2, 2]);
}

#[test]
fn parallel_results_match_a_sequential_loop() {
    let n: usize = 1000;
    let xs: Vec<i64> = (0..n as i64).map(|i| i * 7 - 3000).collect();
    let ys: Vec<i64> = (0..n as i64).map(|i| 500 - i * 3).collect();
    let a = simd(vec![10, 100], xs.clone());
    let b = simd(vec![10, 100], ys.clone());
    let sum = a.add(&b).unwrap();
    let prod = a.mul(&b).unwrap();
    let neg = a.neg();
    for i in 0..n {
        assert_eq!(sum.raw_data()[i], xs[i] + ys[i]);
        assert_eq!(prod.raw_data()[i], xs[i] * ys[i]);
        assert_eq!(neg.raw_data()[i], -xs[i]);
    }
}

#[test]
fn find_zero_locates_the_first_zero() {
    assert_eq!(simd(vec![4], vec![3, 0, 1, 0]).find_zero(), Some(1));
    assert_eq!(simd(vec![2], vec![3, 1]).find_zero(), None);
    assert_eq!(simd(vec![0], vec![]).find_zero(), None);
}

#[test]
fn empty_containers_combine() {
    let a = simd(vec![0, 4], vec![]);
    let b = simd(vec![0, 4], vec![]);
    let c = a.add(&b).unwrap();
    assert!(c.raw_data().is_empty());
    assert_eq!(c.shape().display(), "(0, 4)");
}
