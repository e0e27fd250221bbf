use phylab::algebra::field::{AsAddMul, Field};
use phylab::algebra::group::{pow, AsAdd, AsMul, Group};
use phylab::algebra::ops::{Add, Mul};
use phylab::utils::{Bool, False, True};

#[test]
fn xor_group_powers() {
    assert_eq!(pow::<Add, bool>(&true, 0), false);
    assert_eq!(pow::<Add, bool>(&true, 1), true);
    assert_eq!(pow::<Add, bool>(&true, 6), false);
    assert_eq!(pow::<Add, bool>(&true, 7), true);
    assert_eq!(pow::<Add, bool>(&true, -3), true);
    assert_eq!(pow::<Add, bool>(&true, isize::MIN), false);
    assert_eq!(pow::<Add, bool>(&false, 5), false);
}

#[test]
fn additive_notation() {
    let a: AsAdd<Add, bool> = AsAdd::wrap(true);
    let b: AsAdd<Add, bool> = AsAdd::wrap(true);
    assert_eq!(a.add(&b).unwrap(), false);
    assert_eq!(a.sub(&b).unwrap(), false);
    assert_eq!(a.neg().unwrap(), true);
    assert_eq!(a.inv().unwrap(), true);
    assert_eq!(*a.unwrap_ref(), true);
    assert_eq!(AsAdd::<Add, bool>::zero().unwrap(), false);
    assert_eq!(a.mul(3).unwrap(), true);
    assert_eq!(a.mul(4).unwrap(), false);
}

#[test]
fn multiplicative_notation() {
    let a: AsMul<Add, bool> = AsMul::wrap(true);
    assert_eq!(a.mul(&AsMul::wrap(false)).unwrap(), true);
    assert_eq!(a.pow(5).unwrap(), true);
    assert_eq!(a.pow(2).unwrap(), false);
    assert_eq!(AsMul::<Add, bool>::one().unwrap(), false);
    assert_eq!(a.inv().unwrap(), true);
    assert_eq!(*a.unwrap_ref(), true);
}

#[test]
fn group_operations() {
    assert_eq!(Group::<Add>::op(&true, &false), true);
    assert_eq!(<bool as Group<Add>>::id(), false);
    assert_eq!(Group::<Add>::inv(&true), true);
}

#[test]
fn two_element_field() {
    assert_eq!(Field::<Add, Mul>::add(&true, &true), false);
    assert_eq!(Field::<Add, Mul>::mul(&true, &false), false);
    assert_eq!(Field::<Add, Mul>::neg(&true), true);
    assert_eq!(Field::<Add, Mul>::checked_inv(&false), None);
    assert_eq!(Field::<Add, Mul>::checked_inv(&true), Some(true));
    assert_eq!(Field::<Add, Mul>::inv(&true), true);
    assert_eq!(<bool as Field<Add, Mul>>::zero(), false);
    assert_eq!(<bool as Field<Add, Mul>>::one(), true);
    let z: AsAddMul<Add, Mul, bool> = AsAddMul::zero();
    let o: AsAddMul<Add, Mul, bool> = AsAddMul::one();
    assert_eq!(z.unwrap(), false);
    assert_eq!(*o.unwrap_ref(), true);
    assert_eq!(AsAddMul::<Add, Mul, bool>::wrap(true).unwrap(), true);
}

#[test]
fn compile_time_booleans() {
    assert!(True::val());
    assert!(!False::val());
}
