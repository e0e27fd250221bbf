use phylab::shape::{push_decimal, ScalarShape, Shape as _};
use phylab::tensor::Shape;

#[test]
fn flat_shape_display() {
    assert_eq!(vec![2usize, 3, 10].display(), "(2, 3, 10)");
    assert_eq!(vec![7usize].display(), "(7)");
    assert_eq!(Vec::<usize>::new().display(), "()");
    assert_eq!(Shape(vec![0, 1234567]).display(), "(0, 1234567)");
}

#[test]
fn unit_and_composite_shape_display() {
    assert_eq!(().display(), "()");
    assert_eq!((vec![2usize, 3], ()).display(), "<(2, 3) of ()>");
    assert_eq!((vec![4usize], (vec![2usize], ())).display(), "<(4) of <(2) of ()>>");
}

#[test]
fn shape_equality_is_structural() {
    assert!(ScalarShape::eq(&vec![2usize, 3], &vec![2usize, 3]));
    assert!(!ScalarShape::eq(&vec![2usize, 3], &vec![3usize, 2]));
    assert!(!ScalarShape::eq(&vec![2usize, 3], &vec![2usize, 3, 1]));
    assert!(ScalarShape::eq(&(vec![2usize], ()), &(vec![2usize], ())));
    assert!(!ScalarShape::eq(&(vec![2usize], (vec![1usize], ())), &(vec![2usize], (vec![2usize], ()))));
    assert!(ScalarShape::eq(&Shape(vec![5]), &Shape(vec![5])));
}

#[test]
fn composite_shape_components() {
    let s = (vec![4usize, 5], (vec![2usize], ()));
    assert_eq!(s.tensor(), &vec![4usize, 5]);
    assert_eq!(s.element().0, vec![2usize]);
    let d = s.duplicate();
    assert_eq!(d.0, vec![4usize, 5]);
}

#[test]
fn decimal_digits() {
    let mut s = String::from("n=");
    push_decimal(&mut s, 0);
    push_decimal(&mut s, 905);
    assert_eq!(s, "n=0905");
    let mut m = String::new();
    push_decimal(&mut m, usize::MAX);
    assert_eq!(m, usize::MAX.to_string());
}

#[test]
fn flat_shapes_compare_with_eq_operator() {
    assert_eq!(Shape(vec![2, 3]), Shape(vec![2, 3]));
    assert_ne!(Shape(vec![2, 3]), Shape(vec![3, 2]));
    assert_ne!(Shape(vec![]), Shape(vec![1]));
}
