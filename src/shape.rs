//! Shapes: runtime descriptors of the dimensions of a value.
use vstd::prelude::*;

verus! {

/// The mathematical value of a shape.
pub enum ShapeModel {
    /// The shape of a plain scalar.
    Unit,
    /// A flat list of dimension sizes.
    Dims(Seq<usize>),
    /// The shape of a tensor of elements: an outer shape and the elements' shape.
    Pair(Box<ShapeModel>, Box<ShapeModel>),
}

/// The outer component of a composite shape (the unit shape for any other shape).
pub open spec fn outer_of(s: ShapeModel) -> ShapeModel {
    match s {
        ShapeModel::Pair(t, _) => *t,
        _ => ShapeModel::Unit,
    }
}

/// The element component of a composite shape (the unit shape for any other shape).
pub open spec fn inner_of(s: ShapeModel) -> ShapeModel {
    match s {
        ShapeModel::Pair(_, e) => *e,
        _ => ShapeModel::Unit,
    }
}

/// The dimension sizes of a flat shape (empty for any other shape).
pub open spec fn dims_of(s: ShapeModel) -> Seq<usize> {
    match s {
        ShapeModel::Dims(d) => d,
        _ => Seq::empty(),
    }
}

/// The product of a list of dimension sizes: the number of elements they describe.
pub open spec fn product(d: Seq<usize>) -> nat
    decreases d.len(),
{
    if d.len() == 0 {
        1
    } else {
        product(d.drop_last()) * (d.last() as nat)
    }
}

/// The character of a decimal digit.
pub open spec fn digit_char(d: nat) -> char {
    if d == 0 { '0' }
    else if d == 1 { '1' }
    else if d == 2 { '2' }
    else if d == 3 { '3' }
    else if d == 4 { '4' }
    else if d == 5 { '5' }
    else if d == 6 { '6' }
    else if d == 7 { '7' }
    else if d == 8 { '8' }
    else { '9' }
}

/// The decimal notation of a natural number, without leading zeros.
pub open spec fn decimal(n: nat) -> Seq<char>
    decreases n,
{
    if n < 10 {
        seq![digit_char(n)]
    } else {
        decimal(n / 10) + seq![digit_char(n % 10)]
    }
}

/// The dimension sizes in decimal, separated by `", "`.
pub open spec fn dims_items(d: Seq<usize>) -> Seq<char>
    decreases d.len(),
{
    if d.len() == 0 {
        Seq::empty()
    } else if d.len() == 1 {
        decimal(d[0] as nat)
    } else {
        dims_items(d.drop_last()) + ", "@ + decimal(d.last() as nat)
    }
}

/// The text of a flat shape: `"(d1, d2, ...)"`.
pub open spec fn dims_text(d: Seq<usize>) -> Seq<char> {
    "("@ + dims_items(d) + ")"@
}

/// The text of a composite shape: `"<outer of element>"`.
pub open spec fn pair_text(t: Seq<char>, e: Seq<char>) -> Seq<char> {
    "<"@ + t + " of "@ + e + ">"@
}

/// A scalar shape
pub trait ScalarShape: Sized + Send + Sync {
    /// The mathematical value of this shape.
    spec fn model(&self) -> ShapeModel;

    /// The text that `display` produces.
    spec fn text(&self) -> Seq<char>;

    /// Compare two shapes: are they equal?
    fn eq(&self, rhs: &Self) -> (r: bool)
        ensures
            r == (self.model() == rhs.model()),
    ;

    /// Present this shape in a nice format for error messages
    fn display(&self) -> (r: String)
        ensures
            r@ == self.text(),
    ;

    /// A copy of this shape.
    fn duplicate(&self) -> (r: Self)
        ensures
            r.model() == self.model(),
            r.text() == self.text(),
    ;
}

/// A tensor shape
pub trait Shape: ScalarShape {
    type TensorShape: ScalarShape;
    type ElementShape: ScalarShape;

    fn tensor(&self) -> (r: &Self::TensorShape)
        ensures
            r.model() == outer_of(self.model()),
    ;

    fn element(&self) -> (r: &Self::ElementShape)
        ensures
            r.model() == inner_of(self.model()),
    ;
}

fn digit_str(d: usize) -> (r: &'static str)
    requires
        d < 10,
    ensures
        r@ == seq![digit_char(d as nat)],
{
    proof {
        reveal_strlit("0");
        reveal_strlit("1");
        reveal_strlit("2");
        reveal_strlit("3");
        reveal_strlit("4");
        reveal_strlit("5");
        reveal_strlit("6");
        reveal_strlit("7");
        reveal_strlit("8");
        reveal_strlit("9");
    }
    if d == 0 { "0" }
    else if d == 1 { "1" }
    else if d == 2 { "2" }
    else if d == 3 { "3" }
    else if d == 4 { "4" }
    else if d == 5 { "5" }
    else if d == 6 { "6" }
    else if d == 7 { "7" }
    else if d == 8 { "8" }
    else { "9" }
}

/// Appends the decimal notation of `n` to `s`.
pub fn push_decimal(s: &mut String, n: usize)
    ensures
        final(s)@ == old(s)@ + decimal(n as nat),
    decreases n,
{
    if n >= 10 {
        push_decimal(s, n / 10);
    }
    s.append(digit_str(n % 10));
    proof {
        assert(old(s)@ + decimal(n as nat) =~= final(s)@) by {
            if n >= 10 {
                assert(decimal(n as nat) == decimal((n / 10) as nat) + seq![digit_char((n % 10) as nat)]);
            }
        }
    }
}

impl ScalarShape for Vec<usize> {
    open spec fn model(&self) -> ShapeModel {
        ShapeModel::Dims(self@)
    }

    open spec fn text(&self) -> Seq<char> {
        dims_text(self@)
    }

    fn eq(&self, rhs: &Self) -> (r: bool) {
        if self.len() != rhs.len() {
            return false;
        }
        let mut i: usize = 0;
        while i < self.len()
            invariant
                self.len() == rhs.len(),
                0 <= i <= self.len(),
                forall|j: int| 0 <= j < i ==> self@[j] == rhs@[j],
            decreases self.len() - i,
        {
            if self[i] != rhs[i] {
                return false;
            }
            i = i + 1;
        }
        assert(self@ =~= rhs@);
        true
    }

    fn display(&self) -> (r: String) {
        proof {
            reveal_strlit("(");
            reveal_strlit(")");
            reveal_strlit(", ");
        }
        let mut s = String::from_str("(");
        let mut i: usize = 0;
        while i < self.len()
            invariant
                0 <= i <= self.len(),
                s@ == "("@ + dims_items(self@.take(i as int)),
            decreases self.len() - i,
        {
            if i > 0 {
                s.append(", ");
            }
            push_decimal(&mut s, self[i]);
            proof {
                let d = self@.take(i as int + 1);
                assert(d.drop_last() =~= self@.take(i as int));
                if i == 0 {
                    assert(dims_items(self@.take(0)) =~= Seq::empty());
                }
            }
            i = i + 1;
        }
        assert(self@.take(self.len() as int) =~= self@);
        s.append(")");
        s
    }

    fn duplicate(&self) -> (r: Self) {
        let mut r: Vec<usize> = Vec::new();
        let mut i: usize = 0;
        while i < self.len()
            invariant
                0 <= i <= self.len(),
                r@ == self@.take(i as int),
            decreases self.len() - i,
        {
            r.push(self[i]);
            assert(r@ =~= self@.take(i as int + 1));
            i = i + 1;
        }
        assert(r@ =~= self@);
        r
    }
}

impl ScalarShape for () {
    open spec fn model(&self) -> ShapeModel {
        ShapeModel::Unit
    }

    open spec fn text(&self) -> Seq<char> {
        "()"@
    }

    fn eq(&self, rhs: &Self) -> (r: bool) {
        true
    }

    fn display(&self) -> (r: String) {
        String::from_str("()")
    }

    fn duplicate(&self) -> (r: Self) {
        ()
    }
}

impl Shape for () {
    type TensorShape = ();
    type ElementShape = ();

    fn tensor(&self) -> (r: &Self::TensorShape) {
        &()
    }

    fn element(&self) -> (r: &Self::ElementShape) {
        &()
    }
}

impl<T: ScalarShape, E: ScalarShape> ScalarShape for (T, E) {
    open spec fn model(&self) -> ShapeModel {
        ShapeModel::Pair(Box::new(self.0.model()), Box::new(self.1.model()))
    }

    open spec fn text(&self) -> Seq<char> {
        pair_text(self.0.text(), self.1.text())
    }

    fn eq(&self, rhs: &Self) -> (r: bool) {
        self.0.eq(&rhs.0) && self.1.eq(&rhs.1)
    }

    fn display(&self) -> (r: String) {
        proof {
            reveal_strlit("<");
            reveal_strlit(" of ");
            reveal_strlit(">");
        }
        let t = self.0.display();
        let e = self.1.display();
        let mut s = String::from_str("<");
        s.append(t.as_str());
        s.append(" of ");
        s.append(e.as_str());
        s.append(">");
        assert(s@ =~= self.text());
        s
    }

    fn duplicate(&self) -> (r: Self) {
        (self.0.duplicate(), self.1.duplicate())
    }
}

impl<T: ScalarShape, E: ScalarShape> Shape for (T, E) {
    type TensorShape = T;
    type ElementShape = E;

    fn tensor(&self) -> (r: &Self::TensorShape) {
        &self.0
    }

    fn element(&self) -> (r: &Self::ElementShape) {
        &self.1
    }
}

} // verus!
