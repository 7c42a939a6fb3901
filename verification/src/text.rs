//! Helpers for owned text values and their mathematical views.

use vstd::prelude::*;
use vstd::std_specs::cmp::PartialEqSpec;

verus! {

/// The view of an optional text: the characters it holds, if any.
pub open spec fn opt_text(o: Option<String>) -> Option<Seq<char>> {
    match o {
        Some(s) => Some(s@),
        None => None,
    }
}

/// Builds an owned text from a string slice.
pub fn text(s: &str) -> (r: String)
    ensures
        r@ == s@,
{
    s.to_string()
}

/// Copies an optional text.
pub fn copy_opt_text(o: &Option<String>) -> (r: Option<String>)
    ensures
        opt_text(r) == opt_text(*o),
{
    match o {
        Some(s) => Some(s.clone()),
        None => None,
    }
}

/// Tells whether two optional texts hold the same characters.
pub fn same_opt_text(a: &Option<String>, b: &Option<String>) -> (r: bool)
    ensures
        r == (opt_text(*a) == opt_text(*b)),
{
    match (a, b) {
        (Some(x), Some(y)) => *x == *y,
        (None, None) => true,
        _ => false,
    }
}

/// Copies a list of texts.
pub fn copy_texts(v: &Vec<String>) -> (r: Vec<String>)
    ensures
        r.deep_view() == v.deep_view(),
{
    let r = v.clone();
    assert(r.deep_view() =~= v.deep_view());
    r
}

/// Tells whether two lists hold the same texts in the same order.
pub fn same_texts(a: &Vec<String>, b: &Vec<String>) -> (r: bool)
    ensures
        r == (a.deep_view() == b.deep_view()),
{
    if a.len() != b.len() {
        assert(a.deep_view().len() != b.deep_view().len());
        return false;
    }
    let mut i: usize = 0;
    while i < a.len()
        invariant
            i <= a.len(),
            a.len() == b.len(),
            forall|j: int| 0 <= j < i ==> a[j]@ == b[j]@,
        decreases a.len() - i,
    {
        if a[i] != b[i] {
            assert(a.deep_view()[i as int] != b.deep_view()[i as int]);
            return false;
        }
        i += 1;
    }
    assert(a.deep_view() =~= b.deep_view());
    true
}

/// Copies a list of values whose copies keep their view.
pub fn copy_all<T: Clone + DeepView>(v: &Vec<T>) -> (r: Vec<T>)
    requires
        forall|a: T, b: T| call_ensures(T::clone, (&a,), b) ==> a.deep_view() == b.deep_view(),
    ensures
        r.deep_view() == v.deep_view(),
{
    let r = v.clone();
    assert(r.deep_view() =~= v.deep_view());
    r
}

/// Tells whether two lists hold values of equal view in the same order, for
/// values whose `==` compares views.
pub fn same_all<T: PartialEq + DeepView>(a: &Vec<T>, b: &Vec<T>) -> (r: bool)
    requires
        T::obeys_eq_spec(),
        forall|x: T, y: T| #[trigger] x.eq_spec(&y) <==> (x.deep_view() == y.deep_view()),
    ensures
        r == (a.deep_view() == b.deep_view()),
{
    let r = *a == *b;
    proof {
        if r {
            assert(a.deep_view() =~= b.deep_view());
        } else if a.len() == b.len() {
            let i = choose|i: int| 0 <= i < a.len() && !(#[trigger] a[i]).eq_spec(&b[i]);
            assert(a.deep_view()[i] != b.deep_view()[i]);
        } else {
            assert(a.deep_view().len() != b.deep_view().len());
        }
    }
    r
}

/// Pushing onto a vector pushes the element's view onto the vector's deep view.
pub proof fn lemma_deep_view_push<T: DeepView>(before: Vec<T>, after: Vec<T>, x: T)
    requires
        after@ == before@.push(x),
    ensures
        after.deep_view() == before.deep_view().push(x.deep_view()),
{
    assert(after.deep_view() =~= before.deep_view().push(x.deep_view()));
}

/// Overwriting a slot of a vector overwrites the same slot of its deep view.
pub proof fn lemma_deep_view_set<T: DeepView>(before: Vec<T>, after: Vec<T>, i: int, x: T)
    requires
        0 <= i < before.len(),
        after@ == before@.update(i, x),
    ensures
        after.deep_view() == before.deep_view().update(i, x.deep_view()),
{
    assert(after.deep_view() =~= before.deep_view().update(i, x.deep_view()));
}

} // verus!
