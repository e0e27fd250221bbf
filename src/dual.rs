//! Values with measurement uncertainty: a best estimate and its absolute error.
//!
//! The relative error is `delta / best`, computed as `delta * (1 / best)`; it is
//! undefined where the best estimate is zero, and is then reported as `None`.
use vstd::prelude::*;
use crate::shape::ShapeModel;
use crate::tensor_traits::{Shaped, Num};
use crate::tensor::{Simd, SimdError, is_bad_shape, mul_all, repeat_like, mul_ok_all};

verus! {

/// A best estimate with an absolute uncertainty.
#[derive(Debug, Clone)]
pub struct Scalar<T> {
    pub best: T,
    pub delta: T,
}

/// Where a value is a valid scalar (of the unit shape).
pub open spec fn scalar_ok<T: Num>(x: T::Model) -> bool {
    T::valid(x) && T::shape_of(x) == ShapeModel::Unit
}

impl<T: Num> Scalar<T> {
    /// An exact value: zero error.
    pub fn from_best(best: T) -> (r: Self)
        requires
            scalar_ok::<T>(best.model()),
        ensures
            r.best.model() == best.model(),
            r.delta.model() == T::zero_spec(ShapeModel::Unit),
    {
        proof {
            T::lemma_shape_ok(best.model());
        }
        let delta = T::zero(best.shape());
        Scalar { best, delta }
    }

    /// A value with an explicit absolute error.
    pub fn from_delta(best: T, delta: T) -> (r: Self)
        ensures
            r.best.model() == best.model(),
            r.delta.model() == delta.model(),
    {
        Scalar { best, delta }
    }

    /// A value whose absolute error is `best * delta_rel`.
    pub fn from_delta_rel(best: T, delta_rel: T) -> (r: Self)
        requires
            scalar_ok::<T>(best.model()),
            scalar_ok::<T>(delta_rel.model()),
            T::mul_ok(best.model(), delta_rel.model()),
        ensures
            r.best.model() == best.model(),
            r.delta.model() == T::mul_spec(best.model(), delta_rel.model()),
    {
        let delta = best.mul(&delta_rel);
        Scalar { best, delta }
    }

    /// The relative error `delta / best`; `None` when `best` is zero.
    pub fn delta_rel(&self) -> (r: Option<T>)
        requires
            scalar_ok::<T>(self.best.model()),
            scalar_ok::<T>(self.delta.model()),
            self.best.model() != T::zero_spec(ShapeModel::Unit) ==> T::mul_ok(
                self.delta.model(),
                T::inv_spec(self.best.model()),
            ),
        ensures
            r is None <==> self.best.model() == T::zero_spec(ShapeModel::Unit),
            r matches Some(x) ==> x.model() == T::mul_spec(self.delta.model(), T::inv_spec(self.best.model())),
    {
        if self.best.is_zero() {
            None
        } else {
            proof {
                T::lemma_nonzero_invertible(self.best.model());
            }
            Some(self.delta.div(&self.best))
        }
    }
}

/// The absolute error of a [`Vector`]: one value for every element, or one per element.
#[derive(Debug, Clone)]
pub enum Delta<T> {
    Shared(T),
    Each(Simd<T>),
}

/// Best estimates with absolute uncertainties.
#[derive(Debug, Clone)]
pub struct Vector<T> {
    pub best: Simd<T>,
    pub delta: Delta<T>,
}

/// The per-element relative errors `delta_i * (1 / best_i)`.
pub open spec fn rel_each<T: Num>(best: Seq<T::Model>, delta: Seq<T::Model>) -> Seq<T::Model> {
    Seq::new(best.len(), |i: int| T::mul_spec(delta[i], T::inv_spec(best[i])))
}

/// The relative errors `(1 / best_i) * delta` for one shared error.
pub open spec fn rel_shared<T: Num>(best: Seq<T::Model>, delta: T::Model) -> Seq<T::Model> {
    Seq::new(best.len(), |i: int| T::mul_spec(T::inv_spec(best[i]), delta))
}

impl<T: Num> Vector<T> {
    /// Best estimates that share one absolute error.
    pub fn from_delta(best: Simd<T>, delta: T) -> (r: Self)
        ensures
            r.best.model() == best.model(),
            r.delta matches Delta::Shared(d) && d.model() == delta.model(),
    {
        Vector { best, delta: Delta::Shared(delta) }
    }

    /// Best estimates with one absolute error each; fails when the shapes differ.
    pub fn from_deltas(best: Simd<T>, deltas: Simd<T>) -> (r: Result<Self, SimdError>)
        ensures
            r is Ok <==> best.model().0 == deltas.model().0,
            r matches Err(e) ==> is_bad_shape::<T>(e, best.model(), deltas.model()),
            r matches Ok(v) ==> v.best.model() == best.model() && (v.delta matches Delta::Each(d) && d.model()
                == deltas.model()),
    {
        match best.ensure_shape_matches(&deltas) {
            Err(e) => Err(e),
            Ok(()) => Ok(Vector { best, delta: Delta::Each(deltas) }),
        }
    }

    /// Best estimates whose absolute errors are `best_i * delta_rel`.
    pub fn from_delta_rel(best: Simd<T>, delta_rel: T) -> (r: Self)
        requires
            best.wf(),
            scalar_ok::<T>(delta_rel.model()),
            mul_ok_all::<T>(best.model().1, repeat_like::<T>(best.model().1, delta_rel.model())),
        ensures
            r.best.model() == best.model(),
            r.delta matches Delta::Each(d) && d.wf() && d.model() == (
                best.model().0,
                mul_all::<T>(best.model().1, repeat_like::<T>(best.model().1, delta_rel.model())),
            ),
    {
        let delta = best.mul_scalar(&delta_rel);
        Vector { best, delta: Delta::Each(delta) }
    }

    /// Best estimates whose absolute errors are `best_i * delta_rel_i`; fails when
    /// the shapes differ.
    pub fn from_deltas_rel(best: Simd<T>, delta_rel: Simd<T>) -> (r: Result<Self, SimdError>)
        requires
            best.wf(),
            delta_rel.wf(),
            best.model().0 == delta_rel.model().0 ==> mul_ok_all::<T>(best.model().1, delta_rel.model().1),
        ensures
            r is Ok <==> best.model().0 == delta_rel.model().0,
            r matches Err(e) ==> is_bad_shape::<T>(e, best.model(), delta_rel.model()),
            r matches Ok(v) ==> v.best.model() == best.model() && (v.delta matches Delta::Each(d) && d.wf()
                && d.model() == (best.model().0, mul_all::<T>(best.model().1, delta_rel.model().1))),
    {
        match best.mul(&delta_rel) {
            Err(e) => Err(e),
            Ok(delta) => Ok(Vector { best, delta: Delta::Each(delta) }),
        }
    }

    /// The relative error of every element, as a full array; `None` when some best
    /// estimate is zero.
    pub fn deltas_rel(&self) -> (r: Option<Simd<T>>)
        requires
            self.best.wf(),
            match self.delta {
                Delta::Shared(d) => scalar_ok::<T>(d.model()) && (forall|i: int|
                    0 <= i < self.best.model().1.len() && self.best.model().1[i] != T::zero_spec(ShapeModel::Unit)
                    ==> T::mul_ok(T::inv_spec(#[trigger] self.best.model().1[i]), d.model())),
                Delta::Each(d) => d.wf() && d.model().0 == self.best.model().0 && (forall|i: int|
                    0 <= i < self.best.model().1.len() && self.best.model().1[i] != T::zero_spec(ShapeModel::Unit)
                    ==> T::mul_ok(d.model().1[i], T::inv_spec(#[trigger] self.best.model().1[i]))),
            },
        ensures
            r is None <==> exists|i: int|
                0 <= i < self.best.model().1.len() && #[trigger] self.best.model().1[i] == T::zero_spec(ShapeModel::Unit),
            r matches Some(s) ==> s.wf() && s.model().0 == self.best.model().0 && s.model().1 == match self.delta {
                Delta::Shared(d) => rel_shared::<T>(self.best.model().1, d.model()),
                Delta::Each(d) => rel_each::<T>(self.best.model().1, d.model().1),
            },
    {
        if let Some(k) = self.best.find_zero() {
            assert(self.best.model().1[k as int] == T::zero_spec(ShapeModel::Unit));
            return None;
        }
        proof {
            assert forall|i: int| 0 <= i < self.best.model().1.len() implies T::inv_ok(#[trigger] self.best.model().1[i]) by {
                T::lemma_nonzero_invertible(self.best.model().1[i]);
            }
        }
        let inv = self.best.inv();
        match &self.delta {
            Delta::Shared(d) => {
                let r = inv.mul_scalar(d);
                assert(r.model().1 =~= rel_shared::<T>(self.best.model().1, d.model()));
                Some(r)
            },
            Delta::Each(d) => {
                match d.mul(&inv) {
                    Ok(r) => {
                        assert(r.model().1 =~= rel_each::<T>(self.best.model().1, d.model().1));
                        Some(r)
                    },
                    Err(_) => None,
                }
            },
        }
    }
}

} // verus!
