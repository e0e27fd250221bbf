//! Tensors: shaped containers that forward every operation to their elements.
use vstd::prelude::*;
use crate::shape::{ShapeModel, ScalarShape, Shape, outer_of, inner_of, dims_of, product};
use crate::tensor_traits::{Shaped, TensorLike, Num, Real, NumTensor, RealTensor, Tensor as TensorTrait};
use crate::parallel::{par_map, par_zip_map, par_tabulate};

verus! {

/// The models of a sequence of values.
pub open spec fn models_of<T: Shaped>(s: Seq<T>) -> Seq<T::Model> {
    s.map_values(|x: T| x.model())
}

/// A well-formed tensor model: a composite shape whose outer dimensions count
/// the elements, and valid elements that all have the element shape.
pub open spec fn tensor_valid<T: Shaped>(m: (ShapeModel, Seq<T::Model>)) -> bool {
    &&& m.0 is Pair
    &&& m.1.len() == product(dims_of(outer_of(m.0)))
    &&& product(dims_of(outer_of(m.0))) <= usize::MAX
    &&& T::shape_ok(inner_of(m.0))
    &&& forall|i: int|
        0 <= i < m.1.len() ==> T::valid(#[trigger] m.1[i]) && T::shape_of(m.1[i]) == inner_of(m.0)
}

/// Every element of a dimension list is at least one.
pub open spec fn all_positive(d: Seq<usize>) -> bool {
    forall|i: int| 0 <= i < d.len() ==> d[i] >= 1
}

proof fn lemma_product_prefix(d: Seq<usize>, i: int)
    requires
        all_positive(d),
        0 <= i <= d.len(),
    ensures
        product(d.take(i)) <= product(d),
    decreases d.len(),
{
    if i < d.len() {
        assert(d.take(i) =~= d.drop_last().take(i));
        lemma_product_prefix(d.drop_last(), i);
        let p = product(d.drop_last());
        let l = d.last() as nat;
        assert(p <= p * l) by (nonlinear_arith)
            requires
                l >= 1,
        ;
    } else {
        assert(d.take(i) =~= d);
    }
}

proof fn lemma_product_zero(d: Seq<usize>, i: int)
    requires
        0 <= i < d.len(),
        d[i] == 0,
    ensures
        product(d) == 0,
    decreases d.len(),
{
    let p = product(d.drop_last());
    let l = d.last() as nat;
    if i < d.len() - 1 {
        assert(d.drop_last()[i] == d[i]);
        lemma_product_zero(d.drop_last(), i);
        assert(p * l == 0) by (nonlinear_arith)
            requires
                p == 0,
        ;
    } else {
        assert(p * l == 0) by (nonlinear_arith)
            requires
                l == 0,
        ;
    }
}

/// The number of elements that the dimensions `d` describe.
pub fn dims_product(d: &Vec<usize>) -> (r: usize)
    requires
        product(d@) <= usize::MAX,
    ensures
        r == product(d@),
{
    let mut j: usize = 0;
    while j < d.len()
        invariant
            0 <= j <= d.len(),
            forall|k: int| 0 <= k < j ==> d@[k] >= 1,
        decreases d.len() - j,
    {
        if d[j] == 0 {
            proof {
                lemma_product_zero(d@, j as int);
            }
            return 0;
        }
        j = j + 1;
    }
    let mut acc: usize = 1;
    let mut i: usize = 0;
    assert(d@.take(0) =~= Seq::<usize>::empty());
    while i < d.len()
        invariant
            0 <= i <= d.len(),
            all_positive(d@),
            product(d@) <= usize::MAX,
            acc == product(d@.take(i as int)),
        decreases d.len() - i,
    {
        proof {
            assert(d@.take(i as int + 1).drop_last() =~= d@.take(i as int));
            lemma_product_prefix(d@, i as int + 1);
        }
        acc = acc * d[i];
        i = i + 1;
    }
    assert(d@.take(d.len() as int) =~= d@);
    acc
}

/// A n-dimensional vector that forwards all operations to its elements.
pub struct Tensor<T: Shaped> {
    data: Vec<T>,
    shape: (Vec<usize>, T::Shape),
}

impl<T: Shaped> Tensor<T> {
    /// Builds a tensor from its shape and its elements in row-major order.
    pub fn from_raw(shape: (Vec<usize>, T::Shape), data: Vec<T>) -> (r: Self)
        requires
            tensor_valid::<T>((shape.model(), models_of(data@))),
        ensures
            r.model() == (shape.model(), models_of(data@)),
    {
        Tensor { data, shape }
    }

    /// The elements, in row-major order.
    pub fn raw_data(&self) -> (r: &[T])
        ensures
            models_of(r@) == self.model().1,
    {
        self.data.as_slice()
    }

    proof fn lemma_elements(&self)
        requires
            tensor_valid::<T>(self.model()),
        ensures
            self.data.len() == product(dims_of(outer_of(self.shape.model()))),
            forall|i: int|
                0 <= i < self.data.len() ==> T::valid(#[trigger] self.data@[i].model()) && T::shape_of(
                    self.data@[i].model(),
                ) == inner_of(self.shape.model()),
            forall|i: int| 0 <= i < self.data.len() ==> self.model().1[i] == #[trigger] self.data@[i].model(),
    {
        assert forall|i: int| 0 <= i < self.data.len() implies T::valid(#[trigger] self.data@[i].model())
            && T::shape_of(self.data@[i].model()) == inner_of(self.shape.model())
            && self.model().1[i] == self.data@[i].model() by {
            assert(models_of(self.data@)[i] == self.data@[i].model());
        }
    }

    /// Element-wise, shape-preserving `.map(...)` operation
    fn map<U: Shaped<Shape = T::Shape>, F: Fn(&T) -> U + Sync + Send>(&self, f: F) -> (r: Tensor<U>)
        requires
            forall|i: int| 0 <= i < self.data.len() ==> f.requires((&self.data[i],)),
        ensures
            r.shape.model() == self.shape.model(),
            r.data.len() == self.data.len(),
            forall|i: int| 0 <= i < self.data.len() ==> f.ensures((&self.data[i],), #[trigger] r.data[i]),
    {
        let data = par_map(&self.data, f);
        let shape = self.shape.duplicate();
        Tensor { data, shape }
    }

    /// Element-wise `.zip(rhs).map(...)` operation
    fn map2<U: Shaped<Shape = T::Shape>, V: Shaped<Shape = T::Shape>, F: Fn(&T, &U) -> V + Sync + Send>(
        &self,
        rhs: &Tensor<U>,
        f: F,
    ) -> (r: Tensor<V>)
        requires
            self.data.len() == rhs.data.len(),
            forall|i: int| 0 <= i < self.data.len() ==> f.requires((&self.data[i], &rhs.data[i])),
        ensures
            r.shape.model() == self.shape.model(),
            r.data.len() == self.data.len(),
            forall|i: int|
                0 <= i < self.data.len() ==> f.ensures((&self.data[i], &rhs.data[i]), #[trigger] r.data[i]),
    {
        let data = par_zip_map(&self.data, &rhs.data, f);
        let shape = self.shape.duplicate();
        Tensor { data, shape }
    }
}

impl<T: Shaped> Shaped for Tensor<T> {
    type Shape = (Vec<usize>, T::Shape);
    type Model = (ShapeModel, Seq<T::Model>);

    closed spec fn model(&self) -> (ShapeModel, Seq<T::Model>) {
        (self.shape.model(), models_of(self.data@))
    }

    open spec fn valid(m: (ShapeModel, Seq<T::Model>)) -> bool {
        tensor_valid::<T>(m)
    }

    open spec fn shape_of(m: (ShapeModel, Seq<T::Model>)) -> ShapeModel {
        m.0
    }

    open spec fn shape_ok(s: ShapeModel) -> bool {
        &&& s is Pair
        &&& product(dims_of(outer_of(s))) <= usize::MAX
        &&& T::shape_ok(inner_of(s))
    }

    fn shape(&self) -> (r: &Self::Shape) {
        &self.shape
    }

    fn duplicate(&self) -> (r: Self) {
        let r = self.map(|x: &T| -> (y: T) ensures y.model() == x.model() { x.duplicate() });
        assert(models_of(r.data@) =~= models_of(self.data@));
        r
    }

    proof fn lemma_shape_ok(a: Self::Model) {
    }
}

impl<T: TensorLike> TensorLike for Tensor<T> {
    type Bool = Tensor<T::Bool>;

    open spec fn eq_spec(a: Self::Model, b: Self::Model) -> (ShapeModel, Seq<<T::Bool as Shaped>::Model>) {
        (a.0, Seq::new(a.1.len(), |i: int| T::eq_spec(a.1[i], b.1[i])))
    }

    fn eq(&self, rhs: &Self) -> (r: Self::Bool) {
        proof {
            self.lemma_elements();
            rhs.lemma_elements();
        }
        let r = self.map2(
            rhs,
            |x: &T, y: &T| -> (z: T::Bool)
                requires
                    T::valid(x.model()),
                    T::valid(y.model()),
                    T::shape_of(x.model()) == T::shape_of(y.model()),
                ensures
                    <T::Bool as Shaped>::valid(z.model()),
                    <T::Bool as Shaped>::shape_of(z.model()) == T::shape_of(x.model()),
                    z.model() == T::eq_spec(x.model(), y.model())
                { x.eq(y) },
        );
        proof {
            T::lemma_bool_shape_ok(inner_of(self.shape.model()));
            assert(models_of(r.data@) =~= Self::eq_spec(self.model(), rhs.model()).1);
        }
        r
    }

    proof fn lemma_bool_shape_ok(s: ShapeModel) {
        T::lemma_bool_shape_ok(inner_of(s));
    }
}

impl<T: TensorLike> TensorTrait<T> for Tensor<T> {
    open spec fn fill_spec(x: T::Model, s: ShapeModel) -> Self::Model {
        (
            ShapeModel::Pair(Box::new(s), Box::new(T::shape_of(x))),
            Seq::new(product(dims_of(s)), |i: int| x),
        )
    }

    open spec fn fill_ok(s: ShapeModel) -> bool {
        product(dims_of(s)) <= usize::MAX
    }

    open spec fn eq_0_spec(a: Self::Model, x: T::Model) -> (ShapeModel, Seq<<T::Bool as Shaped>::Model>) {
        (a.0, Seq::new(a.1.len(), |i: int| T::eq_spec(a.1[i], x)))
    }

    fn ones_like(x: T, shape: &Vec<usize>) -> (r: Self) {
        assert(shape.model() == ShapeModel::Dims(shape@));
        assert(Self::fill_ok(shape.model()));
        let n = dims_product(shape);
        let elt_shape = x.shape().duplicate();
        let data = par_tabulate(n, |i: usize| -> (y: T) ensures y.model() == x.model() { x.duplicate() });
        let r = Tensor { data, shape: (shape.duplicate(), elt_shape) };
        proof {
            T::lemma_shape_ok(x.model());
            assert(models_of(r.data@) =~= Self::fill_spec(x.model(), shape.model()).1);
        }
        r
    }

    fn eq_0(&self, rhs: &T) -> (r: Self::Bool) {
        proof {
            self.lemma_elements();
        }
        let r = self.map(
            |x: &T| -> (z: T::Bool)
                requires
                    T::valid(x.model()),
                    T::shape_of(x.model()) == T::shape_of(rhs.model()),
                ensures
                    <T::Bool as Shaped>::valid(z.model()),
                    <T::Bool as Shaped>::shape_of(z.model()) == T::shape_of(x.model()),
                    z.model() == T::eq_spec(x.model(), rhs.model())
                { x.eq(rhs) },
        );
        proof {
            T::lemma_bool_shape_ok(inner_of(self.shape.model()));
            assert(models_of(r.data@) =~= Self::eq_0_spec(self.model(), rhs.model()).1);
        }
        r
    }
}

impl<T: Num> Num for Tensor<T> {
    type Int = Tensor<T::Int>;

    open spec fn neg_spec(a: Self::Model) -> Self::Model {
        (a.0, Seq::new(a.1.len(), |i: int| T::neg_spec(a.1[i])))
    }

    open spec fn add_spec(a: Self::Model, b: Self::Model) -> Self::Model {
        (a.0, Seq::new(a.1.len(), |i: int| T::add_spec(a.1[i], b.1[i])))
    }

    open spec fn mul_spec(a: Self::Model, b: Self::Model) -> Self::Model {
        (a.0, Seq::new(a.1.len(), |i: int| T::mul_spec(a.1[i], b.1[i])))
    }

    open spec fn inv_spec(a: Self::Model) -> Self::Model {
        (a.0, Seq::new(a.1.len(), |i: int| T::inv_spec(a.1[i])))
    }

    open spec fn ipow_spec(a: Self::Model, n: (ShapeModel, Seq<<T::Int as Shaped>::Model>)) -> Self::Model {
        (a.0, Seq::new(a.1.len(), |i: int| T::ipow_spec(a.1[i], n.1[i])))
    }

    open spec fn zero_spec(s: ShapeModel) -> Self::Model {
        (s, Seq::new(product(dims_of(outer_of(s))), |i: int| T::zero_spec(inner_of(s))))
    }

    open spec fn one_spec(s: ShapeModel) -> Self::Model {
        (s, Seq::new(product(dims_of(outer_of(s))), |i: int| T::one_spec(inner_of(s))))
    }

    open spec fn neg_ok(a: Self::Model) -> bool {
        forall|i: int| 0 <= i < a.1.len() ==> T::neg_ok(#[trigger] a.1[i])
    }

    open spec fn add_ok(a: Self::Model, b: Self::Model) -> bool {
        forall|i: int| 0 <= i < a.1.len() ==> T::add_ok(#[trigger] a.1[i], b.1[i])
    }

    open spec fn mul_ok(a: Self::Model, b: Self::Model) -> bool {
        forall|i: int| 0 <= i < a.1.len() ==> T::mul_ok(#[trigger] a.1[i], b.1[i])
    }

    open spec fn inv_ok(a: Self::Model) -> bool {
        forall|i: int| 0 <= i < a.1.len() ==> T::inv_ok(#[trigger] a.1[i])
    }

    open spec fn ipow_ok(a: Self::Model, n: (ShapeModel, Seq<<T::Int as Shaped>::Model>)) -> bool {
        &&& n.1.len() == a.1.len()
        &&& forall|i: int| 0 <= i < a.1.len() ==> T::ipow_ok(#[trigger] a.1[i], n.1[i])
    }

    fn neg(&self) -> (r: Self) {
        proof {
            self.lemma_elements();
        }
        let r = self.map(
            |x: &T| -> (y: T)
                requires
                    T::valid(x.model()),
                    T::neg_ok(x.model()),
                ensures
                    T::valid(y.model()),
                    T::shape_of(y.model()) == T::shape_of(x.model()),
                    y.model() == T::neg_spec(x.model())
                { x.neg() },
        );
        proof {
            assert(models_of(r.data@) =~= Self::neg_spec(self.model()).1);
        }
        r
    }

    fn add(&self, rhs: &Self) -> (r: Self) {
        proof {
            self.lemma_elements();
            rhs.lemma_elements();
        }
        let r = self.map2(
            rhs,
            |x: &T, y: &T| -> (z: T)
                requires
                    T::valid(x.model()),
                    T::valid(y.model()),
                    T::shape_of(x.model()) == T::shape_of(y.model()),
                    T::add_ok(x.model(), y.model()),
                ensures
                    T::valid(z.model()),
                    T::shape_of(z.model()) == T::shape_of(x.model()),
                    z.model() == T::add_spec(x.model(), y.model())
                { x.add(y) },
        );
        proof {
            assert(models_of(r.data@) =~= Self::add_spec(self.model(), rhs.model()).1);
        }
        r
    }

    fn inv(&self) -> (r: Self) {
        proof {
            self.lemma_elements();
        }
        let r = self.map(
            |x: &T| -> (y: T)
                requires
                    T::valid(x.model()),
                    T::inv_ok(x.model()),
                ensures
                    T::valid(y.model()),
                    T::shape_of(y.model()) == T::shape_of(x.model()),
                    y.model() == T::inv_spec(x.model())
                { x.inv() },
        );
        proof {
            assert(models_of(r.data@) =~= Self::inv_spec(self.model()).1);
        }
        r
    }

    fn mul(&self, rhs: &Self) -> (r: Self) {
        proof {
            self.lemma_elements();
            rhs.lemma_elements();
        }
        let r = self.map2(
            rhs,
            |x: &T, y: &T| -> (z: T)
                requires
                    T::valid(x.model()),
                    T::valid(y.model()),
                    T::shape_of(x.model()) == T::shape_of(y.model()),
                    T::mul_ok(x.model(), y.model()),
                ensures
                    T::valid(z.model()),
                    T::shape_of(z.model()) == T::shape_of(x.model()),
                    z.model() == T::mul_spec(x.model(), y.model())
                { x.mul(y) },
        );
        proof {
            assert(models_of(r.data@) =~= Self::mul_spec(self.model(), rhs.model()).1);
        }
        r
    }

    fn ipow(&self, n: &Self::Int) -> (r: Self) {
        proof {
            self.lemma_elements();
            n.lemma_elements();
        }
        let r = self.map2(
            n,
            |x: &T, k: &T::Int| -> (z: T)
                requires
                    T::valid(x.model()),
                    <T::Int as Shaped>::valid(k.model()),
                    T::shape_of(x.model()) == <T::Int as Shaped>::shape_of(k.model()),
                    T::ipow_ok(x.model(), k.model()),
                ensures
                    T::valid(z.model()),
                    T::shape_of(z.model()) == T::shape_of(x.model()),
                    z.model() == T::ipow_spec(x.model(), k.model())
                { x.ipow(k) },
        );
        proof {
            assert(models_of(r.data@) =~= Self::ipow_spec(self.model(), n.model()).1);
        }
        r
    }

    fn zero(shape: &Self::Shape) -> (r: Self) {
        let z = T::zero(shape.element());
        let r = Self::ones_like(z, shape.tensor());
        proof {
            assert(r.model().1 =~= Self::zero_spec(shape.model()).1);
        }
        r
    }

    fn one(shape: &Self::Shape) -> (r: Self) {
        let o = T::one(shape.element());
        let r = Self::ones_like(o, shape.tensor());
        proof {
            assert(r.model().1 =~= Self::one_spec(shape.model()).1);
        }
        r
    }

    fn is_zero(&self) -> (r: bool) {
        proof {
            self.lemma_elements();
        }
        let ghost z = Self::zero_spec(self.shape.model());
        let mut i: usize = 0;
        while i < self.data.len()
            invariant
                0 <= i <= self.data.len(),
                z == Self::zero_spec(self.shape.model()),
                tensor_valid::<T>(self.model()),
                self.data.len() == product(dims_of(outer_of(self.shape.model()))),
                forall|j: int|
                    0 <= j < self.data.len() ==> T::valid(#[trigger] self.data@[j].model()) && T::shape_of(
                        self.data@[j].model(),
                    ) == inner_of(self.shape.model()),
                forall|j: int|
                    0 <= j < i ==> #[trigger] self.data@[j].model() == T::zero_spec(inner_of(self.shape.model())),
                forall|j: int| 0 <= j < self.data.len() ==> self.model().1[j] == #[trigger] self.data@[j].model(),
            decreases self.data.len() - i,
        {
            if !self.data[i].is_zero() {
                assert(self.model().1[i as int] != z.1[i as int]);
                return false;
            }
            i = i + 1;
        }
        assert(self.model().1 =~= z.1);
        true
    }

    proof fn lemma_add_zero(a: Self::Model) {
        let z = Self::zero_spec(a.0);
        assert forall|i: int| 0 <= i < a.1.len() implies T::add_ok(#[trigger] a.1[i], z.1[i])
            && T::add_spec(a.1[i], z.1[i]) == a.1[i] by {
            T::lemma_add_zero(a.1[i]);
        }
        assert(Self::add_spec(a, z).1 =~= a.1);
    }

    proof fn lemma_mul_one(a: Self::Model) {
        let o = Self::one_spec(a.0);
        assert forall|i: int| 0 <= i < a.1.len() implies T::mul_ok(#[trigger] a.1[i], o.1[i])
            && T::mul_spec(a.1[i], o.1[i]) == a.1[i] by {
            T::lemma_mul_one(a.1[i]);
        }
        assert(Self::mul_spec(a, o).1 =~= a.1);
    }

    proof fn lemma_nonzero_invertible(a: Self::Model) {
    }
}

impl<T: Real> Real for Tensor<T> {
    open spec fn exp_spec(a: Self::Model) -> Self::Model {
        (a.0, Seq::new(a.1.len(), |i: int| T::exp_spec(a.1[i])))
    }

    open spec fn ln_spec(a: Self::Model) -> Self::Model {
        (a.0, Seq::new(a.1.len(), |i: int| T::ln_spec(a.1[i])))
    }

    open spec fn sin_spec(a: Self::Model) -> Self::Model {
        (a.0, Seq::new(a.1.len(), |i: int| T::sin_spec(a.1[i])))
    }

    open spec fn cos_spec(a: Self::Model) -> Self::Model {
        (a.0, Seq::new(a.1.len(), |i: int| T::cos_spec(a.1[i])))
    }

    open spec fn sinh_spec(a: Self::Model) -> Self::Model {
        (a.0, Seq::new(a.1.len(), |i: int| T::sinh_spec(a.1[i])))
    }

    open spec fn cosh_spec(a: Self::Model) -> Self::Model {
        (a.0, Seq::new(a.1.len(), |i: int| T::cosh_spec(a.1[i])))
    }

    open spec fn asin_spec(a: Self::Model) -> Self::Model {
        (a.0, Seq::new(a.1.len(), |i: int| T::asin_spec(a.1[i])))
    }

    open spec fn acos_spec(a: Self::Model) -> Self::Model {
        (a.0, Seq::new(a.1.len(), |i: int| T::acos_spec(a.1[i])))
    }

    open spec fn atan_spec(a: Self::Model) -> Self::Model {
        (a.0, Seq::new(a.1.len(), |i: int| T::atan_spec(a.1[i])))
    }

    open spec fn atan2_spec(a: Self::Model, b: Self::Model) -> Self::Model {
        (a.0, Seq::new(a.1.len(), |i: int| T::atan2_spec(a.1[i], b.1[i])))
    }

    open spec fn e_spec(s: ShapeModel) -> Self::Model {
        (s, Seq::new(product(dims_of(outer_of(s))), |i: int| T::e_spec(inner_of(s))))
    }

    open spec fn pi_spec(s: ShapeModel) -> Self::Model {
        (s, Seq::new(product(dims_of(outer_of(s))), |i: int| T::pi_spec(inner_of(s))))
    }

    fn exp(&self) -> (r: Self) {
        proof {
            self.lemma_elements();
        }
        let r = self.map(
            |x: &T| -> (y: T)
                requires
                    T::valid(x.model()),
                ensures
                    T::valid(y.model()),
                    T::shape_of(y.model()) == T::shape_of(x.model()),
                    y.model() == T::exp_spec(x.model())
                { x.exp() },
        );
        proof {
            assert(models_of(r.data@) =~= Self::exp_spec(self.model()).1);
        }
        r
    }

    fn ln(&self) -> (r: Self) {
        proof {
            self.lemma_elements();
        }
        let r = self.map(
            |x: &T| -> (y: T)
                requires
                    T::valid(x.model()),
                ensures
                    T::valid(y.model()),
                    T::shape_of(y.model()) == T::shape_of(x.model()),
                    y.model() == T::ln_spec(x.model())
                { x.ln() },
        );
        proof {
            assert(models_of(r.data@) =~= Self::ln_spec(self.model()).1);
        }
        r
    }

    fn sin(&self) -> (r: Self) {
        proof {
            self.lemma_elements();
        }
        let r = self.map(
            |x: &T| -> (y: T)
                requires
                    T::valid(x.model()),
                ensures
                    T::valid(y.model()),
                    T::shape_of(y.model()) == T::shape_of(x.model()),
                    y.model() == T::sin_spec(x.model())
                { x.sin() },
        );
        proof {
            assert(models_of(r.data@) =~= Self::sin_spec(self.model()).1);
        }
        r
    }

    fn cos(&self) -> (r: Self) {
        proof {
            self.lemma_elements();
        }
        let r = self.map(
            |x: &T| -> (y: T)
                requires
                    T::valid(x.model()),
                ensures
                    T::valid(y.model()),
                    T::shape_of(y.model()) == T::shape_of(x.model()),
                    y.model() == T::cos_spec(x.model())
                { x.cos() },
        );
        proof {
            assert(models_of(r.data@) =~= Self::cos_spec(self.model()).1);
        }
        r
    }

    fn sinh(&self) -> (r: Self) {
        proof {
            self.lemma_elements();
        }
        let r = self.map(
            |x: &T| -> (y: T)
                requires
                    T::valid(x.model()),
                ensures
                    T::valid(y.model()),
                    T::shape_of(y.model()) == T::shape_of(x.model()),
                    y.model() == T::sinh_spec(x.model())
                { x.sinh() },
        );
        proof {
            assert(models_of(r.data@) =~= Self::sinh_spec(self.model()).1);
        }
        r
    }

    fn cosh(&self) -> (r: Self) {
        proof {
            self.lemma_elements();
        }
        let r = self.map(
            |x: &T| -> (y: T)
                requires
                    T::valid(x.model()),
                ensures
                    T::valid(y.model()),
                    T::shape_of(y.model()) == T::shape_of(x.model()),
                    y.model() == T::cosh_spec(x.model())
                { x.cosh() },
        );
        proof {
            assert(models_of(r.data@) =~= Self::cosh_spec(self.model()).1);
        }
        r
    }

    fn asin(&self) -> (r: Self) {
        proof {
            self.lemma_elements();
        }
        let r = self.map(
            |x: &T| -> (y: T)
                requires
                    T::valid(x.model()),
                ensures
                    T::valid(y.model()),
                    T::shape_of(y.model()) == T::shape_of(x.model()),
                    y.model() == T::asin_spec(x.model())
                { x.asin() },
        );
        proof {
            assert(models_of(r.data@) =~= Self::asin_spec(self.model()).1);
        }
        r
    }

    fn acos(&self) -> (r: Self) {
        proof {
            self.lemma_elements();
        }
        let r = self.map(
            |x: &T| -> (y: T)
                requires
                    T::valid(x.model()),
                ensures
                    T::valid(y.model()),
                    T::shape_of(y.model()) == T::shape_of(x.model()),
                    y.model() == T::acos_spec(x.model())
                { x.acos() },
        );
        proof {
            assert(models_of(r.data@) =~= Self::acos_spec(self.model()).1);
        }
        r
    }

    fn atan(&self) -> (r: Self) {
        proof {
            self.lemma_elements();
        }
        let r = self.map(
            |x: &T| -> (y: T)
                requires
                    T::valid(x.model()),
                ensures
                    T::valid(y.model()),
                    T::shape_of(y.model()) == T::shape_of(x.model()),
                    y.model() == T::atan_spec(x.model())
                { x.atan() },
        );
        proof {
            assert(models_of(r.data@) =~= Self::atan_spec(self.model()).1);
        }
        r
    }

    fn tan(&self) -> (r: Self) {
        proof {
            self.lemma_elements();
            let a = self.model();
            assert forall|i: int| 0 <= i < self.data.len() implies T::inv_ok(T::cos_spec(#[trigger] self.data@[i].model()))
                && T::mul_ok(T::sin_spec(self.data@[i].model()), T::inv_spec(T::cos_spec(self.data@[i].model()))) by {
                assert(Self::cos_spec(a).1[i] == T::cos_spec(a.1[i]));
                assert(Self::sin_spec(a).1[i] == T::sin_spec(a.1[i]));
                assert(Self::inv_spec(Self::cos_spec(a)).1[i] == T::inv_spec(T::cos_spec(a.1[i])));
            }
        }
        let r = self.map(
            |x: &T| -> (y: T)
                requires
                    T::valid(x.model()),
                    T::inv_ok(T::cos_spec(x.model())),
                    T::mul_ok(T::sin_spec(x.model()), T::inv_spec(T::cos_spec(x.model()))),
                ensures
                    T::valid(y.model()),
                    T::shape_of(y.model()) == T::shape_of(x.model()),
                    y.model() == T::mul_spec(T::sin_spec(x.model()), T::inv_spec(T::cos_spec(x.model())))
                { x.tan() },
        );
        proof {
            assert(models_of(r.data@) =~= Self::mul_spec(Self::sin_spec(self.model()), Self::inv_spec(Self::cos_spec(self.model()))).1);
        }
        r
    }

    fn tanh(&self) -> (r: Self) {
        proof {
            self.lemma_elements();
            let a = self.model();
            assert forall|i: int| 0 <= i < self.data.len() implies T::inv_ok(T::cosh_spec(#[trigger] self.data@[i].model()))
                && T::mul_ok(T::sinh_spec(self.data@[i].model()), T::inv_spec(T::cosh_spec(self.data@[i].model()))) by {
                assert(Self::cosh_spec(a).1[i] == T::cosh_spec(a.1[i]));
                assert(Self::sinh_spec(a).1[i] == T::sinh_spec(a.1[i]));
                assert(Self::inv_spec(Self::cosh_spec(a)).1[i] == T::inv_spec(T::cosh_spec(a.1[i])));
            }
        }
        let r = self.map(
            |x: &T| -> (y: T)
                requires
                    T::valid(x.model()),
                    T::inv_ok(T::cosh_spec(x.model())),
                    T::mul_ok(T::sinh_spec(x.model()), T::inv_spec(T::cosh_spec(x.model()))),
                ensures
                    T::valid(y.model()),
                    T::shape_of(y.model()) == T::shape_of(x.model()),
                    y.model() == T::mul_spec(T::sinh_spec(x.model()), T::inv_spec(T::cosh_spec(x.model())))
                { x.tanh() },
        );
        proof {
            assert(models_of(r.data@) =~= Self::mul_spec(Self::sinh_spec(self.model()), Self::inv_spec(Self::cosh_spec(self.model()))).1);
        }
        r
    }

    fn atan2(&self, rhs: &Self) -> (r: Self) {
        proof {
            self.lemma_elements();
            rhs.lemma_elements();
        }
        let r = self.map2(
            rhs,
            |x: &T, y: &T| -> (z: T)
                requires
                    T::valid(x.model()),
                    T::valid(y.model()),
                    T::shape_of(x.model()) == T::shape_of(y.model()),
                ensures
                    T::valid(z.model()),
                    T::shape_of(z.model()) == T::shape_of(x.model()),
                    z.model() == T::atan2_spec(x.model(), y.model())
                { x.atan2(y) },
        );
        proof {
            assert(models_of(r.data@) =~= Self::atan2_spec(self.model(), rhs.model()).1);
        }
        r
    }

    fn e(shape: &Self::Shape) -> (r: Self) {
        let x = T::e(shape.element());
        let r = Self::ones_like(x, shape.tensor());
        proof {
            assert(r.model().1 =~= Self::e_spec(shape.model()).1);
        }
        r
    }

    fn pi(shape: &Self::Shape) -> (r: Self) {
        let x = T::pi(shape.element());
        let r = Self::ones_like(x, shape.tensor());
        proof {
            assert(r.model().1 =~= Self::pi_spec(shape.model()).1);
        }
        r
    }
}

impl<T: Num> NumTensor<T> for Tensor<T> {
    open spec fn add_0_spec(a: Self::Model, x: T::Model) -> Self::Model {
        (a.0, Seq::new(a.1.len(), |i: int| T::add_spec(a.1[i], x)))
    }

    open spec fn mul_0_spec(a: Self::Model, x: T::Model) -> Self::Model {
        (a.0, Seq::new(a.1.len(), |i: int| T::mul_spec(a.1[i], x)))
    }

    open spec fn ipow_0_spec(a: Self::Model, n: <T::Int as Shaped>::Model) -> Self::Model {
        (a.0, Seq::new(a.1.len(), |i: int| T::ipow_spec(a.1[i], n)))
    }

    open spec fn add_0_ok(a: Self::Model, x: T::Model) -> bool {
        forall|i: int| 0 <= i < a.1.len() ==> T::add_ok(#[trigger] a.1[i], x)
    }

    open spec fn mul_0_ok(a: Self::Model, x: T::Model) -> bool {
        forall|i: int| 0 <= i < a.1.len() ==> T::mul_ok(#[trigger] a.1[i], x)
    }

    open spec fn ipow_0_ok(a: Self::Model, n: <T::Int as Shaped>::Model) -> bool {
        forall|i: int| 0 <= i < a.1.len() ==> T::ipow_ok(#[trigger] a.1[i], n)
    }

    fn add_0(&self, rhs: &T) -> (r: Self) {
        proof {
            self.lemma_elements();
        }
        let r = self.map(
            |x: &T| -> (y: T)
                requires
                    T::valid(x.model()),
                    T::shape_of(x.model()) == T::shape_of(rhs.model()),
                    T::add_ok(x.model(), rhs.model()),
                ensures
                    T::valid(y.model()),
                    T::shape_of(y.model()) == T::shape_of(x.model()),
                    y.model() == T::add_spec(x.model(), rhs.model())
                { x.add(rhs) },
        );
        proof {
            assert(models_of(r.data@) =~= Self::add_0_spec(self.model(), rhs.model()).1);
        }
        r
    }

    fn mul_0(&self, rhs: &T) -> (r: Self) {
        proof {
            self.lemma_elements();
        }
        let r = self.map(
            |x: &T| -> (y: T)
                requires
                    T::valid(x.model()),
                    T::shape_of(x.model()) == T::shape_of(rhs.model()),
                    T::mul_ok(x.model(), rhs.model()),
                ensures
                    T::valid(y.model()),
                    T::shape_of(y.model()) == T::shape_of(x.model()),
                    y.model() == T::mul_spec(x.model(), rhs.model())
                { x.mul(rhs) },
        );
        proof {
            assert(models_of(r.data@) =~= Self::mul_0_spec(self.model(), rhs.model()).1);
        }
        r
    }

    fn ipow_0(&self, n: &T::Int) -> (r: Self) {
        proof {
            self.lemma_elements();
        }
        let r = self.map(
            |x: &T| -> (y: T)
                requires
                    T::valid(x.model()),
                    <T::Int as Shaped>::valid(n.model()),
                    T::shape_of(x.model()) == <T::Int as Shaped>::shape_of(n.model()),
                    T::ipow_ok(x.model(), n.model()),
                ensures
                    T::valid(y.model()),
                    T::shape_of(y.model()) == T::shape_of(x.model()),
                    y.model() == T::ipow_spec(x.model(), n.model())
                { x.ipow(n) },
        );
        proof {
            assert(models_of(r.data@) =~= Self::ipow_0_spec(self.model(), n.model()).1);
        }
        r
    }
}

impl<T: Real> RealTensor<T> for Tensor<T> {
    open spec fn atan2_0_spec(a: Self::Model, x: T::Model) -> Self::Model {
        (a.0, Seq::new(a.1.len(), |i: int| T::atan2_spec(a.1[i], x)))
    }

    fn atan2_0(&self, rhs: &T) -> (r: Self) {
        proof {
            self.lemma_elements();
        }
        let r = self.map(
            |x: &T| -> (y: T)
                requires
                    T::valid(x.model()),
                    T::shape_of(x.model()) == T::shape_of(rhs.model()),
                ensures
                    T::valid(y.model()),
                    T::shape_of(y.model()) == T::shape_of(x.model()),
                    y.model() == T::atan2_spec(x.model(), rhs.model())
                { x.atan2(rhs) },
        );
        proof {
            assert(models_of(r.data@) =~= Self::atan2_0_spec(self.model(), rhs.model()).1);
        }
        r
    }
}

} // verus!