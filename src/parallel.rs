//! Data-parallel fan-out of element-wise work, on rayon's work-stealing pool.
//!
//! Each call blocks until every element is computed; element `i` of the result
//! always comes from element `i` of the input(s).
use vstd::prelude::*;
use rayon::iter::{IntoParallelIterator, IntoParallelRefIterator, IndexedParallelIterator, ParallelIterator};

verus! {

/// Relies on rayon's `par_iter().map(f).collect::<Vec<_>>()`: `f` is applied to
/// every element, and collecting an indexed parallel iterator into a `Vec` keeps
/// the order of the input.
#[verifier::external_body]
pub(crate) fn par_map<T: Sync, U: Send, F: Fn(&T) -> U + Sync + Send>(v: &Vec<T>, f: F) -> (r: Vec<U>)
    requires
        forall|i: int| 0 <= i < v.len() ==> f.requires((&v[i],)),
    ensures
        r.len() == v.len(),
        forall|i: int| 0 <= i < v.len() ==> f.ensures((&v[i],), #[trigger] r[i]),
{
    v.par_iter().map(f).collect()
}

/// Relies on rayon's `par_iter().zip(..).map(..).collect::<Vec<_>>()`: on inputs of
/// one length, `zip` pairs elements by position, and the collected `Vec` keeps
/// that order.
#[verifier::external_body]
pub(crate) fn par_zip_map<T: Sync, U: Sync, V: Send, F: Fn(&T, &U) -> V + Sync + Send>(
    a: &Vec<T>,
    b: &Vec<U>,
    f: F,
) -> (r: Vec<V>)
    requires
        a.len() == b.len(),
        forall|i: int| 0 <= i < a.len() ==> f.requires((&a[i], &b[i])),
    ensures
        r.len() == a.len(),
        forall|i: int| 0 <= i < a.len() ==> f.ensures((&a[i], &b[i]), #[trigger] r[i]),
{
    a.par_iter().zip(b).map(|(x, y)| f(x, y)).collect()
}

/// Relies on rayon's `(0..n).into_par_iter().map(f).collect::<Vec<_>>()`: the
/// range yields each index below `n` once, and the collected `Vec` is in index order.
#[verifier::external_body]
pub(crate) fn par_tabulate<U: Send, F: Fn(usize) -> U + Sync + Send>(n: usize, f: F) -> (r: Vec<U>)
    requires
        forall|i: usize| i < n ==> f.requires((i,)),
    ensures
        r.len() == n,
        forall|i: int| 0 <= i < n ==> f.ensures((i as usize,), #[trigger] r[i]),
{
    (0..n).into_par_iter().map(f).collect()
}

} // verus!
