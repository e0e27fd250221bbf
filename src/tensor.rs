//! The flat container: one shape and one row-major buffer of scalars, with
//! element-wise operations fanned out in parallel and shapes checked before
//! any binary operation.
use vstd::prelude::*;
use crate::shape::{ShapeModel, ScalarShape, dims_text, product};
use crate::tensor_traits::{Shaped, Num};
use crate::tensor2::models_of;
use crate::parallel::{par_map, par_zip_map};

verus! {

/// The dimension sizes of a flat container.
#[derive(Debug, Clone)]
pub struct Shape(pub Vec<usize>);

impl ScalarShape for Shape {
    open spec fn model(&self) -> ShapeModel {
        ShapeModel::Dims(self.0@)
    }

    open spec fn text(&self) -> Seq<char> {
        dims_text(self.0@)
    }

    fn eq(&self, rhs: &Self) -> (r: bool) {
        ScalarShape::eq(&self.0, &rhs.0)
    }

    fn display(&self) -> (r: String) {
        self.0.display()
    }

    fn duplicate(&self) -> (r: Self) {
        Shape(self.0.duplicate())
    }
}

impl PartialEq for Shape {
    fn eq(&self, rhs: &Shape) -> (r: bool) {
        ScalarShape::eq(&self.0, &rhs.0)
    }
}

impl vstd::std_specs::cmp::PartialEqSpecImpl for Shape {
    open spec fn obeys_eq_spec() -> bool {
        true
    }

    open spec fn eq_spec(&self, rhs: &Shape) -> bool {
        self.0@ == rhs.0@
    }
}

impl Eq for Shape {}

/// The errors of binary operations on flat containers.
#[derive(Debug, Clone)]
pub enum SimdError {
    /// The operands' shapes differ.
    BadShape { lhs: Shape, rhs: Shape },
}

/// The diagnostic for operands of shapes `lhs` and `rhs`.
pub open spec fn bad_shape_text(lhs: Seq<char>, rhs: Seq<char>) -> Seq<char> {
    "Mismatched shapes in binary operation: lhs is "@ + lhs + ", rhs is "@ + rhs
}

impl SimdError {
    /// A human-readable message that names both shapes.
    pub fn message(&self) -> (r: String)
        ensures
            match self {
                SimdError::BadShape { lhs, rhs } => r@ == bad_shape_text(lhs.text(), rhs.text()),
            },
    {
        match self {
            SimdError::BadShape { lhs, rhs } => {
                proof {
                    reveal_strlit("Mismatched shapes in binary operation: lhs is ");
                    reveal_strlit(", rhs is ");
                }
                let l = lhs.display();
                let r = rhs.display();
                let mut s = String::from_str("Mismatched shapes in binary operation: lhs is ");
                s.append(l.as_str());
                s.append(", rhs is ");
                s.append(r.as_str());
                assert(s@ =~= bad_shape_text(lhs.text(), rhs.text()));
                s
            },
        }
    }
}

/// A well-formed flat container: as many valid scalars as the dimensions describe.
pub open spec fn simd_valid<T: Shaped>(m: (Seq<usize>, Seq<T::Model>)) -> bool {
    &&& m.1.len() == product(m.0)
    &&& forall|i: int|
        0 <= i < m.1.len() ==> T::valid(#[trigger] m.1[i]) && T::shape_of(m.1[i]) == ShapeModel::Unit
}

/// Whether an operation on two flat containers fails on their shapes, with this error.
pub open spec fn is_bad_shape<T: Shaped>(e: SimdError, a: (Seq<usize>, Seq<T::Model>), b: (Seq<usize>, Seq<T::Model>)) -> bool {
    &&& a.0 != b.0
    &&& e matches SimdError::BadShape { lhs, rhs } && lhs.0@ == a.0 && rhs.0@ == b.0
}

/// The element-wise combination of two models.
pub open spec fn zip_models<A, B>(a: Seq<A>, b: Seq<A>, f: spec_fn(A, A) -> B) -> Seq<B> {
    Seq::new(a.len(), |i: int| f(a[i], b[i]))
}

/// Where element-wise addition is defined.
pub open spec fn add_ok_all<T: Num>(a: Seq<T::Model>, b: Seq<T::Model>) -> bool {
    forall|i: int| 0 <= i < a.len() ==> T::add_ok(#[trigger] a[i], b[i])
}

/// Where element-wise subtraction is defined.
pub open spec fn sub_ok_all<T: Num>(a: Seq<T::Model>, b: Seq<T::Model>) -> bool {
    forall|i: int| 0 <= i < a.len() ==> T::neg_ok(#[trigger] b[i]) && T::add_ok(a[i], T::neg_spec(b[i]))
}

/// Where element-wise multiplication is defined.
pub open spec fn mul_ok_all<T: Num>(a: Seq<T::Model>, b: Seq<T::Model>) -> bool {
    forall|i: int| 0 <= i < a.len() ==> T::mul_ok(#[trigger] a[i], b[i])
}

/// Where element-wise division is defined.
pub open spec fn div_ok_all<T: Num>(a: Seq<T::Model>, b: Seq<T::Model>) -> bool {
    forall|i: int| 0 <= i < a.len() ==> T::inv_ok(#[trigger] b[i]) && T::mul_ok(a[i], T::inv_spec(b[i]))
}

/// Element-wise addition.
pub open spec fn add_all<T: Num>(a: Seq<T::Model>, b: Seq<T::Model>) -> Seq<T::Model> {
    Seq::new(a.len(), |i: int| T::add_spec(a[i], b[i]))
}

/// Element-wise subtraction: the sum with the negation.
pub open spec fn sub_all<T: Num>(a: Seq<T::Model>, b: Seq<T::Model>) -> Seq<T::Model> {
    Seq::new(a.len(), |i: int| T::add_spec(a[i], T::neg_spec(b[i])))
}

/// Element-wise multiplication.
pub open spec fn mul_all<T: Num>(a: Seq<T::Model>, b: Seq<T::Model>) -> Seq<T::Model> {
    Seq::new(a.len(), |i: int| T::mul_spec(a[i], b[i]))
}

/// Element-wise division: the product with the inverse.
pub open spec fn div_all<T: Num>(a: Seq<T::Model>, b: Seq<T::Model>) -> Seq<T::Model> {
    Seq::new(a.len(), |i: int| T::mul_spec(a[i], T::inv_spec(b[i])))
}

/// The same scalar, as many times as `a` has elements.
pub open spec fn repeat_like<T: Num>(a: Seq<T::Model>, x: T::Model) -> Seq<T::Model> {
    Seq::new(a.len(), |i: int| x)
}

/// N-dimensional vector (dynamically-sized) where all operations happen element-wise
///
/// Not actually SIMD, but at least [`rayon`]-parallelized.
#[derive(Debug, Clone)]
pub struct Simd<T> {
    shape: Shape,
    data: Vec<T>,
}

impl<T: Num> Simd<T> {
    /// The dimensions and the element models of this container.
    pub closed spec fn model(&self) -> (Seq<usize>, Seq<T::Model>) {
        (self.shape.0@, models_of(self.data@))
    }

    /// Whether this container is well formed.
    pub open spec fn wf(&self) -> bool {
        simd_valid::<T>(self.model())
    }

    pub fn from_raw(shape: Shape, data: Vec<T>) -> (r: Self)
        requires
            simd_valid::<T>((shape.0@, models_of(data@))),
        ensures
            r.model() == (shape.0@, models_of(data@)),
            r.wf(),
    {
        Simd { shape, data }
    }

    pub fn raw_data(&self) -> (r: &[T])
        ensures
            models_of(r@) == self.model().1,
    {
        self.data.as_slice()
    }

    pub fn shape(&self) -> (r: &Shape)
        ensures
            r.0@ == self.model().0,
    {
        &self.shape
    }

    pub fn ensure_shape_matches(&self, rhs: &Self) -> (r: Result<(), SimdError>)
        ensures
            r is Ok <==> self.model().0 == rhs.model().0,
            r matches Err(e) ==> is_bad_shape::<T>(e, self.model(), rhs.model()),
    {
        if self.shape != rhs.shape {
            Err(SimdError::BadShape { lhs: self.shape.duplicate(), rhs: rhs.shape.duplicate() })
        } else {
            Ok(())
        }
    }

    proof fn lemma_elements(&self)
        requires
            self.wf(),
        ensures
            self.data.len() == product(self.model().0),
            forall|i: int|
                0 <= i < self.data.len() ==> T::valid(#[trigger] self.data@[i].model()) && T::shape_of(
                    self.data@[i].model(),
                ) == ShapeModel::Unit && self.model().1[i] == self.data@[i].model(),
    {
        assert forall|i: int| 0 <= i < self.data.len() implies T::valid(#[trigger] self.data@[i].model())
            && T::shape_of(self.data@[i].model()) == ShapeModel::Unit && self.model().1[i]
            == self.data@[i].model() by {
            assert(models_of(self.data@)[i] == self.data@[i].model());
        }
    }

    /// Element-wise `.zip(rhs).map(...)` after the shape check.
    fn zip_checked<F: Fn(&T, &T) -> T + Sync + Send>(&self, rhs: &Self, f: F) -> (r: Result<Self, SimdError>)
        requires
            self.wf(),
            rhs.wf(),
            self.model().0 == rhs.model().0 ==> forall|i: int|
                0 <= i < self.data.len() ==> f.requires((&self.data[i], &rhs.data[i])),
        ensures
            r is Ok <==> self.model().0 == rhs.model().0,
            r matches Err(e) ==> is_bad_shape::<T>(e, self.model(), rhs.model()),
            r matches Ok(s) ==> s.shape.0@ == self.shape.0@ && s.data.len() == self.data.len() && forall|i: int|
                0 <= i < self.data.len() ==> f.ensures((&self.data[i], &rhs.data[i]), #[trigger] s.data[i]),
    {
        match self.ensure_shape_matches(rhs) {
            Err(e) => Err(e),
            Ok(()) => {
                proof {
                    self.lemma_elements();
                    rhs.lemma_elements();
                }
                let data = par_zip_map(&self.data, &rhs.data, f);
                Ok(Simd { shape: self.shape.duplicate(), data })
            },
        }
    }

    /// Element-wise `.map(...)`.
    fn map_each<F: Fn(&T) -> T + Sync + Send>(&self, f: F) -> (r: Self)
        requires
            forall|i: int| 0 <= i < self.data.len() ==> f.requires((&self.data[i],)),
        ensures
            r.shape.0@ == self.shape.0@,
            r.data.len() == self.data.len(),
            forall|i: int| 0 <= i < self.data.len() ==> f.ensures((&self.data[i],), #[trigger] r.data[i]),
    {
        let data = par_map(&self.data, f);
        Simd { shape: self.shape.duplicate(), data }
    }

    /// `-self`, element-wise.
    pub fn neg(&self) -> (r: Self)
        requires
            self.wf(),
            forall|i: int| 0 <= i < self.model().1.len() ==> T::neg_ok(#[trigger] self.model().1[i]),
        ensures
            r.wf(),
            r.model() == (self.model().0, Seq::new(self.model().1.len(), |i: int| T::neg_spec(self.model().1[i]))),
    {
        proof {
            self.lemma_elements();
        }
        let r = self.map_each(
            |x: &T| -> (y: T)
                requires
                    T::valid(x.model()),
                    T::neg_ok(x.model()),
                ensures
                    T::valid(y.model()),
                    T::shape_of(y.model()) == T::shape_of(x.model()),
                    y.model() == T::neg_spec(x.model())
                { x.neg() },
        );
        proof {
            assert(models_of(r.data@) =~= Seq::new(self.model().1.len(), |i: int| T::neg_spec(self.model().1[i])));
        }
        r
    }

    /// `self + rhs`, element-wise; fails when the shapes differ.
    pub fn add(&self, rhs: &Self) -> (r: Result<Self, SimdError>)
        requires
            self.wf(),
            rhs.wf(),
            self.model().0 == rhs.model().0 ==> add_ok_all::<T>(self.model().1, rhs.model().1),
        ensures
            r is Ok <==> self.model().0 == rhs.model().0,
            r matches Err(e) ==> is_bad_shape::<T>(e, self.model(), rhs.model()),
            r matches Ok(s) ==> s.wf() && s.model() == (self.model().0, add_all::<T>(self.model().1, rhs.model().1)),
    {
        proof {
            self.lemma_elements();
            rhs.lemma_elements();
        }
        let r = self.zip_checked(
            rhs,
            |x: &T, y: &T| -> (z: T)
                requires
                    T::valid(x.model()),
                    T::valid(y.model()),
                    T::shape_of(x.model()) == T::shape_of(y.model()),
                    T::add_ok(x.model(), y.model()),
                ensures
                    T::valid(z.model()),
                    T::shape_of(z.model()) == T::shape_of(x.model()),
                    z.model() == T::add_spec(x.model(), y.model())
                { x.add(y) },
        );
        proof {
            if r is Ok {
                let s = r->Ok_0;
                assert(models_of(s.data@) =~= add_all::<T>(self.model().1, rhs.model().1));
            }
        }
        r
    }

    /// `self - rhs`, element-wise; fails when the shapes differ.
    pub fn sub(&self, rhs: &Self) -> (r: Result<Self, SimdError>)
        requires
            self.wf(),
            rhs.wf(),
            self.model().0 == rhs.model().0 ==> sub_ok_all::<T>(self.model().1, rhs.model().1),
        ensures
            r is Ok <==> self.model().0 == rhs.model().0,
            r matches Err(e) ==> is_bad_shape::<T>(e, self.model(), rhs.model()),
            r matches Ok(s) ==> s.wf() && s.model() == (self.model().0, sub_all::<T>(self.model().1, rhs.model().1)),
    {
        proof {
            self.lemma_elements();
            rhs.lemma_elements();
        }
        let r = self.zip_checked(
            rhs,
            |x: &T, y: &T| -> (z: T)
                requires
                    T::valid(x.model()),
                    T::valid(y.model()),
                    T::shape_of(x.model()) == T::shape_of(y.model()),
                    T::neg_ok(y.model()),
                    T::add_ok(x.model(), T::neg_spec(y.model())),
                ensures
                    T::valid(z.model()),
                    T::shape_of(z.model()) == T::shape_of(x.model()),
                    z.model() == T::add_spec(x.model(), T::neg_spec(y.model()))
                { x.sub(y) },
        );
        proof {
            if r is Ok {
                let s = r->Ok_0;
                assert(models_of(s.data@) =~= sub_all::<T>(self.model().1, rhs.model().1));
            }
        }
        r
    }

    /// `self * rhs`, element-wise; fails when the shapes differ.
    pub fn mul(&self, rhs: &Self) -> (r: Result<Self, SimdError>)
        requires
            self.wf(),
            rhs.wf(),
            self.model().0 == rhs.model().0 ==> mul_ok_all::<T>(self.model().1, rhs.model().1),
        ensures
            r is Ok <==> self.model().0 == rhs.model().0,
            r matches Err(e) ==> is_bad_shape::<T>(e, self.model(), rhs.model()),
            r matches Ok(s) ==> s.wf() && s.model() == (self.model().0, mul_all::<T>(self.model().1, rhs.model().1)),
    {
        proof {
            self.lemma_elements();
            rhs.lemma_elements();
        }
        let r = self.zip_checked(
            rhs,
            |x: &T, y: &T| -> (z: T)
                requires
                    T::valid(x.model()),
                    T::valid(y.model()),
                    T::shape_of(x.model()) == T::shape_of(y.model()),
                    T::mul_ok(x.model(), y.model()),
                ensures
                    T::valid(z.model()),
                    T::shape_of(z.model()) == T::shape_of(x.model()),
                    z.model() == T::mul_spec(x.model(), y.model())
                { x.mul(y) },
        );
        proof {
            if r is Ok {
                let s = r->Ok_0;
                assert(models_of(s.data@) =~= mul_all::<T>(self.model().1, rhs.model().1));
            }
        }
        r
    }

    /// `self / rhs`, element-wise; fails when the shapes differ.
    pub fn div(&self, rhs: &Self) -> (r: Result<Self, SimdError>)
        requires
            self.wf(),
            rhs.wf(),
            self.model().0 == rhs.model().0 ==> div_ok_all::<T>(self.model().1, rhs.model().1),
        ensures
            r is Ok <==> self.model().0 == rhs.model().0,
            r matches Err(e) ==> is_bad_shape::<T>(e, self.model(), rhs.model()),
            r matches Ok(s) ==> s.wf() && s.model() == (self.model().0, div_all::<T>(self.model().1, rhs.model().1)),
    {
        proof {
            self.lemma_elements();
            rhs.lemma_elements();
        }
        let r = self.zip_checked(
            rhs,
            |x: &T, y: &T| -> (z: T)
                requires
                    T::valid(x.model()),
                    T::valid(y.model()),
                    T::shape_of(x.model()) == T::shape_of(y.model()),
                    T::inv_ok(y.model()),
                    T::mul_ok(x.model(), T::inv_spec(y.model())),
                ensures
                    T::valid(z.model()),
                    T::shape_of(z.model()) == T::shape_of(x.model()),
                    z.model() == T::mul_spec(x.model(), T::inv_spec(y.model()))
                { x.div(y) },
        );
        proof {
            if r is Ok {
                let s = r->Ok_0;
                assert(models_of(s.data@) =~= div_all::<T>(self.model().1, rhs.model().1));
            }
        }
        r
    }

    /// `x + rhs` for every element `x`.
    pub fn add_scalar(&self, rhs: &T) -> (r: Self)
        requires
            self.wf(),
            T::valid(rhs.model()),
            T::shape_of(rhs.model()) == ShapeModel::Unit,
            add_ok_all::<T>(self.model().1, repeat_like::<T>(self.model().1, rhs.model())),
        ensures
            r.wf(),
            r.model() == (self.model().0, add_all::<T>(self.model().1, repeat_like::<T>(self.model().1, rhs.model()))),
    {
        proof {
            self.lemma_elements();
            assert forall|i: int| 0 <= i < self.data.len() implies T::add_ok(#[trigger] self.data@[i].model(), rhs.model()) by {
                assert(repeat_like::<T>(self.model().1, rhs.model())[i] == rhs.model());
            }
        }
        let r = self.map_each(
            |x: &T| -> (y: T)
                requires
                    T::valid(x.model()),
                    T::shape_of(x.model()) == T::shape_of(rhs.model()),
                    T::add_ok(x.model(), rhs.model()),
                ensures
                    T::valid(y.model()),
                    T::shape_of(y.model()) == T::shape_of(x.model()),
                    y.model() == T::add_spec(x.model(), rhs.model())
                { x.add(rhs) },
        );
        proof {
            assert(models_of(r.data@) =~= add_all::<T>(self.model().1, repeat_like::<T>(self.model().1, rhs.model())));
        }
        r
    }

    /// `x * rhs` for every element `x`.
    pub fn mul_scalar(&self, rhs: &T) -> (r: Self)
        requires
            self.wf(),
            T::valid(rhs.model()),
            T::shape_of(rhs.model()) == ShapeModel::Unit,
            mul_ok_all::<T>(self.model().1, repeat_like::<T>(self.model().1, rhs.model())),
        ensures
            r.wf(),
            r.model() == (self.model().0, mul_all::<T>(self.model().1, repeat_like::<T>(self.model().1, rhs.model()))),
    {
        proof {
            self.lemma_elements();
            assert forall|i: int| 0 <= i < self.data.len() implies T::mul_ok(#[trigger] self.data@[i].model(), rhs.model()) by {
                assert(repeat_like::<T>(self.model().1, rhs.model())[i] == rhs.model());
            }
        }
        let r = self.map_each(
            |x: &T| -> (y: T)
                requires
                    T::valid(x.model()),
                    T::shape_of(x.model()) == T::shape_of(rhs.model()),
                    T::mul_ok(x.model(), rhs.model()),
                ensures
                    T::valid(y.model()),
                    T::shape_of(y.model()) == T::shape_of(x.model()),
                    y.model() == T::mul_spec(x.model(), rhs.model())
                { x.mul(rhs) },
        );
        proof {
            assert(models_of(r.data@) =~= mul_all::<T>(self.model().1, repeat_like::<T>(self.model().1, rhs.model())));
        }
        r
    }
    /// `x - rhs` for every element `x`: each element plus the negation of `rhs`.
    pub fn sub_scalar(&self, rhs: &T) -> (r: Self)
        requires
            self.wf(),
            T::valid(rhs.model()),
            T::shape_of(rhs.model()) == ShapeModel::Unit,
            T::neg_ok(rhs.model()),
            add_ok_all::<T>(self.model().1, repeat_like::<T>(self.model().1, T::neg_spec(rhs.model()))),
        ensures
            r.wf(),
            r.model() == (self.model().0, add_all::<T>(self.model().1, repeat_like::<T>(self.model().1, T::neg_spec(rhs.model())))),
    {
        proof {
            self.lemma_elements();
            assert forall|i: int| 0 <= i < self.data.len() implies T::add_ok(#[trigger] self.data@[i].model(), T::neg_spec(rhs.model())) by {
                assert(repeat_like::<T>(self.model().1, T::neg_spec(rhs.model()))[i] == T::neg_spec(rhs.model()));
            }
        }
        let r = self.map_each(
            |x: &T| -> (y: T)
                requires
                    T::valid(x.model()),
                    T::shape_of(x.model()) == T::shape_of(rhs.model()),
                    T::add_ok(x.model(), T::neg_spec(rhs.model())),
                ensures
                    T::valid(y.model()),
                    T::shape_of(y.model()) == T::shape_of(x.model()),
                    y.model() == T::add_spec(x.model(), T::neg_spec(rhs.model()))
                { x.sub(rhs) },
        );
        proof {
            assert(models_of(r.data@) =~= add_all::<T>(self.model().1, repeat_like::<T>(self.model().1, T::neg_spec(rhs.model()))));
        }
        r
    }

    /// `x / rhs` for every element `x`: each element times the inverse of `rhs`.
    pub fn div_scalar(&self, rhs: &T) -> (r: Self)
        requires
            self.wf(),
            T::valid(rhs.model()),
            T::shape_of(rhs.model()) == ShapeModel::Unit,
            T::inv_ok(rhs.model()),
            mul_ok_all::<T>(self.model().1, repeat_like::<T>(self.model().1, T::inv_spec(rhs.model()))),
        ensures
            r.wf(),
            r.model() == (self.model().0, mul_all::<T>(self.model().1, repeat_like::<T>(self.model().1, T::inv_spec(rhs.model())))),
    {
        proof {
            self.lemma_elements();
            assert forall|i: int| 0 <= i < self.data.len() implies T::mul_ok(#[trigger] self.data@[i].model(), T::inv_spec(rhs.model())) by {
                assert(repeat_like::<T>(self.model().1, T::inv_spec(rhs.model()))[i] == T::inv_spec(rhs.model()));
            }
        }
        let r = self.map_each(
            |x: &T| -> (y: T)
                requires
                    T::valid(x.model()),
                    T::shape_of(x.model()) == T::shape_of(rhs.model()),
                    T::inv_ok(rhs.model()),
                    T::mul_ok(x.model(), T::inv_spec(rhs.model())),
                ensures
                    T::valid(y.model()),
                    T::shape_of(y.model()) == T::shape_of(x.model()),
                    y.model() == T::mul_spec(x.model(), T::inv_spec(rhs.model()))
                { x.div(rhs) },
        );
        proof {
            assert(models_of(r.data@) =~= mul_all::<T>(self.model().1, repeat_like::<T>(self.model().1, T::inv_spec(rhs.model()))));
        }
        r
    }

    /// `1 / x` for every element `x`.
    pub fn inv(&self) -> (r: Self)
        requires
            self.wf(),
            forall|i: int| 0 <= i < self.model().1.len() ==> T::inv_ok(#[trigger] self.model().1[i]),
        ensures
            r.wf(),
            r.model() == (self.model().0, Seq::new(self.model().1.len(), |i: int| T::inv_spec(self.model().1[i]))),
    {
        proof {
            self.lemma_elements();
        }
        let r = self.map_each(
            |x: &T| -> (y: T)
                requires
                    T::valid(x.model()),
                    T::inv_ok(x.model()),
                ensures
                    T::valid(y.model()),
                    T::shape_of(y.model()) == T::shape_of(x.model()),
                    y.model() == T::inv_spec(x.model())
                { x.inv() },
        );
        proof {
            assert(models_of(r.data@) =~= Seq::new(self.model().1.len(), |i: int| T::inv_spec(self.model().1[i])));
        }
        r
    }

    /// The index of the first element that is zero, if any.
    pub fn find_zero(&self) -> (r: Option<usize>)
        requires
            self.wf(),
        ensures
            r is None <==> forall|i: int|
                0 <= i < self.model().1.len() ==> #[trigger] self.model().1[i] != T::zero_spec(ShapeModel::Unit),
            r matches Some(k) ==> k < self.model().1.len() && self.model().1[k as int] == T::zero_spec(ShapeModel::Unit),
    {
        proof {
            self.lemma_elements();
        }
        let mut i: usize = 0;
        while i < self.data.len()
            invariant
                0 <= i <= self.data.len(),
                self.wf(),
                forall|j: int|
                    0 <= j < self.data.len() ==> T::valid(#[trigger] self.data@[j].model()) && T::shape_of(
                        self.data@[j].model(),
                    ) == ShapeModel::Unit && self.model().1[j] == self.data@[j].model(),
                forall|j: int| 0 <= j < i ==> #[trigger] self.model().1[j] != T::zero_spec(ShapeModel::Unit),
            decreases self.data.len() - i,
        {
            if self.data[i].is_zero() {
                return Some(i);
            }
            i = i + 1;
        }
        None
    }
}

} // verus!