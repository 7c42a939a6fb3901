//! Lists whose items are found by name.
//!
//! The containers, volumes, mounts and ports of a pod are kept in lists, and the
//! desired state names the items it cares about. An item is brought to its
//! desired state where the list already holds one of that name, which keeps its
//! place, and is appended where it does not. Items of other names are left alone.

use crate::text::{lemma_deep_view_push, lemma_deep_view_set, text};
use vstd::prelude::*;

verus! {

/// Plain data that goes by a name.
pub trait Named: DeepView + Sized {
    /// Whether the item with view `v` goes by `name`.
    spec fn named(v: Self::V, name: Seq<char>) -> bool;

    /// The view of a new item that carries `name` and nothing else.
    spec fn fresh(name: Seq<char>) -> Self::V;

    /// A new item goes by the name it was made with.
    proof fn lemma_fresh_named(name: Seq<char>)
        ensures
            Self::named(Self::fresh(name), name),
    ;

    /// An item goes by one name at most.
    proof fn lemma_one_name(v: Self::V, a: Seq<char>, b: Seq<char>)
        requires
            Self::named(v, a),
            Self::named(v, b),
        ensures
            a == b,
    ;

    /// Tells whether the item goes by `name`.
    fn has_name(&self, name: &String) -> (r: bool)
        ensures
            r == Self::named(self.deep_view(), name@),
    ;

    /// A new item that carries `name` and nothing else.
    fn with_name(name: String) -> (r: Self)
        ensures
            r.deep_view() == Self::fresh(name@),
    ;

    /// A copy of the item.
    fn copy(&self) -> (r: Self)
        ensures
            r.deep_view() == self.deep_view(),
    ;
}

/// Whether some item of the list goes by `name`.
pub open spec fn holds<T: Named>(s: Seq<T::V>, name: Seq<char>) -> bool {
    exists|i: int| 0 <= i < s.len() && T::named(#[trigger] s[i], name)
}

/// Whether `i` is the place of the first item that goes by `name`.
pub open spec fn is_first<T: Named>(s: Seq<T::V>, name: Seq<char>, i: int) -> bool {
    &&& 0 <= i < s.len()
    &&& T::named(s[i], name)
    &&& forall|j: int| 0 <= j < i ==> !T::named(#[trigger] s[j], name)
}

/// The place of the first item that goes by `name`, where there is one.
pub open spec fn first<T: Named>(s: Seq<T::V>, name: Seq<char>) -> int {
    choose|i: int| is_first::<T>(s, name, i)
}

/// The first item that goes by `name`, or a new item of that name where the
/// list holds none.
pub open spec fn current<T: Named>(s: Seq<T::V>, name: Seq<char>) -> T::V {
    if holds::<T>(s, name) {
        s[first::<T>(s, name)]
    } else {
        T::fresh(name)
    }
}

/// The list with `item` in the place of the first item that goes by `name`, or
/// at the end where the list holds none.
pub open spec fn put<T: Named>(s: Seq<T::V>, name: Seq<char>, item: T::V) -> Seq<T::V> {
    if holds::<T>(s, name) {
        s.update(first::<T>(s, name), item)
    } else {
        s.push(item)
    }
}

/// Among the items up to `i` that go by `name`, one comes first.
proof fn lemma_least<T: Named>(s: Seq<T::V>, name: Seq<char>, i: int)
    requires
        0 <= i < s.len(),
        T::named(s[i], name),
    ensures
        exists|k: int| is_first::<T>(s, name, k),
    decreases i,
{
    if exists|j: int| 0 <= j < i && T::named(#[trigger] s[j], name) {
        let j = choose|j: int| 0 <= j < i && T::named(#[trigger] s[j], name);
        lemma_least::<T>(s, name, j);
    } else {
        assert(is_first::<T>(s, name, i));
    }
}

/// Where the list holds an item of the name, `first` is its place, and no other
/// place is the first.
pub proof fn lemma_first<T: Named>(s: Seq<T::V>, name: Seq<char>)
    requires
        holds::<T>(s, name),
    ensures
        is_first::<T>(s, name, first::<T>(s, name)),
        forall|i: int| is_first::<T>(s, name, i) ==> i == first::<T>(s, name),
{
    let i = choose|i: int| 0 <= i < s.len() && T::named(#[trigger] s[i], name);
    lemma_least::<T>(s, name, i);
    let f = first::<T>(s, name);
    assert forall|k: int| is_first::<T>(s, name, k) implies k == f by {
        if k < f {
            assert(!T::named(s[k], name));
        } else if f < k {
            assert(!T::named(s[f], name));
        }
    }
}

/// After an item of the name was put, the list holds it, finds it under that
/// name, and putting it once more changes nothing.
pub proof fn lemma_put_settles<T: Named>(s: Seq<T::V>, name: Seq<char>, item: T::V)
    requires
        T::named(item, name),
    ensures
        holds::<T>(put::<T>(s, name, item), name),
        current::<T>(put::<T>(s, name, item), name) == item,
        put::<T>(put::<T>(s, name, item), name, item) == put::<T>(s, name, item),
{
    let p = put::<T>(s, name, item);
    let at = if holds::<T>(s, name) {
        first::<T>(s, name)
    } else {
        s.len() as int
    };
    if holds::<T>(s, name) {
        lemma_first::<T>(s, name);
        assert forall|j: int| 0 <= j < at implies !T::named(#[trigger] p[j], name) by {
            assert(p[j] == s[j]);
        }
    } else {
        assert forall|j: int| 0 <= j < at implies !T::named(#[trigger] p[j], name) by {
            assert(p[j] == s[j]);
        }
    }
    assert(T::named(p[at], name));
    assert(is_first::<T>(p, name, at));
    lemma_first::<T>(p, name);
    assert(p.update(at, item) =~= p);
}

/// Putting the item that the list already finds under a name changes nothing.
pub proof fn lemma_put_same<T: Named>(s: Seq<T::V>, name: Seq<char>)
    requires
        holds::<T>(s, name),
    ensures
        put::<T>(s, name, current::<T>(s, name)) == s,
{
    lemma_first::<T>(s, name);
    assert(s.update(first::<T>(s, name), s[first::<T>(s, name)]) =~= s);
}

/// Putting an item of one name leaves what the list finds under another name
/// as it was.
pub proof fn lemma_put_other<T: Named>(
    s: Seq<T::V>,
    name: Seq<char>,
    item: T::V,
    other: Seq<char>,
)
    requires
        T::named(item, name),
        other != name,
    ensures
        holds::<T>(put::<T>(s, name, item), other) == holds::<T>(s, other),
        current::<T>(put::<T>(s, name, item), other) == current::<T>(s, other),
{
    let p = put::<T>(s, name, item);
    if T::named(item, other) {
        T::lemma_one_name(item, name, other);
    }
    if holds::<T>(s, name) {
        lemma_first::<T>(s, name);
        let at = first::<T>(s, name);
        if T::named(s[at], other) {
            T::lemma_one_name(s[at], name, other);
        }
        assert forall|j: int| 0 <= j < s.len() implies T::named(#[trigger] p[j], other)
            == T::named(s[j], other) by {}
    } else {
        assert forall|j: int| 0 <= j < s.len() implies T::named(#[trigger] p[j], other)
            == T::named(s[j], other) by {}
    }
    if holds::<T>(s, other) {
        lemma_first::<T>(s, other);
        let f = first::<T>(s, other);
        assert(T::named(p[f], other) == T::named(s[f], other));
        assert forall|j: int| 0 <= j < f implies !T::named(#[trigger] p[j], other) by {
            assert(T::named(p[j], other) == T::named(s[j], other));
        }
        assert(is_first::<T>(p, other, f));
        lemma_first::<T>(p, other);
        assert(p[f] == s[f]);
    } else {
        if holds::<T>(p, other) {
            let j = choose|j: int| 0 <= j < p.len() && T::named(#[trigger] p[j], other);
            if j < s.len() {
                assert(T::named(p[j], other) == T::named(s[j], other));
            }
        }
    }
}

/// The place of the first item that goes by `name`, if the list holds one.
fn position<T: Named>(items: &Vec<T>, name: &String) -> (r: Option<usize>)
    ensures
        match r {
            Some(i) => is_first::<T>(items.deep_view(), name@, i as int),
            None => !holds::<T>(items.deep_view(), name@),
        },
{
    let mut i: usize = 0;
    while i < items.len()
        invariant
            i <= items.len(),
            forall|j: int| 0 <= j < i ==> !T::named(#[trigger] items.deep_view()[j], name@),
        decreases items.len() - i,
    {
        if items[i].has_name(name) {
            return Some(i);
        }
        i += 1;
    }
    None
}

/// A copy of the first item that goes by `name`, or a new item of that name
/// where the list holds none.
pub fn current_item<T: Named>(items: &Vec<T>, name: &str) -> (r: T)
    ensures
        r.deep_view() == current::<T>(items.deep_view(), name@),
{
    let name = text(name);
    match position(items, &name) {
        Some(i) => {
            proof {
                lemma_first::<T>(items.deep_view(), name@);
            }
            items[i].copy()
        },
        None => T::with_name(name),
    }
}

/// Puts `item` in the place of the first item that goes by `name`, or at the
/// end where the list holds none.
pub fn put_item<T: Named>(items: &mut Vec<T>, name: &str, item: T)
    ensures
        final(items).deep_view() == put::<T>(old(items).deep_view(), name@, item.deep_view()),
{
    let name = text(name);
    let ghost before = *items;
    match position(items, &name) {
        Some(i) => {
            proof {
                lemma_first::<T>(items.deep_view(), name@);
            }
            items.set(i, item);
            proof {
                lemma_deep_view_set(before, *items, i as int, item);
            }
        },
        None => {
            items.push(item);
            proof {
                lemma_deep_view_push(before, *items, item);
            }
        },
    }
}

} // verus!
