//! A small association list from text to text.
//!
//! Labels, annotations, selectors and resource quantities are all finite maps
//! keyed by text. [`StringMap`] keeps such a map as a list of pairs; where a key
//! occurs more than once the last pair with that key is the one that counts.
//! Its view is the mathematical map, so two lists that hold the same bindings in
//! another order are equal.

use crate::text::{lemma_deep_view_push, lemma_deep_view_set, text};
use vstd::prelude::*;
use vstd::std_specs::cmp::PartialEqSpecImpl;

verus! {

/// The map that a list of pairs stands for: later pairs override earlier ones.
pub open spec fn pairs_map(s: Seq<(Seq<char>, Seq<char>)>) -> Map<Seq<char>, Seq<char>>
    decreases s.len(),
{
    if s.len() == 0 {
        Map::empty()
    } else {
        pairs_map(s.drop_last()).insert(s.last().0, s.last().1)
    }
}

/// A key is bound in the map exactly when some pair of the list carries it.
pub proof fn lemma_pairs_map_domain(s: Seq<(Seq<char>, Seq<char>)>, k: Seq<char>)
    ensures
        pairs_map(s).contains_key(k) <==> exists|i: int| 0 <= i < s.len() && (#[trigger] s[i]).0 == k,
    decreases s.len(),
{
    if s.len() > 0 {
        let t = s.drop_last();
        lemma_pairs_map_domain(t, k);
        if pairs_map(s).contains_key(k) {
            if s.last().0 == k {
                assert(s[s.len() - 1].0 == k);
            } else {
                let i = choose|i: int| 0 <= i < t.len() && (#[trigger] t[i]).0 == k;
                assert(s[i].0 == k);
            }
        }
        if exists|i: int| 0 <= i < s.len() && (#[trigger] s[i]).0 == k {
            let i = choose|i: int| 0 <= i < s.len() && (#[trigger] s[i]).0 == k;
            if i < t.len() {
                assert(t[i].0 == k);
            }
        }
    }
}

/// The pair at `i` decides the binding of its key when no later pair carries that key.
pub proof fn lemma_pairs_map_last(s: Seq<(Seq<char>, Seq<char>)>, i: int)
    requires
        0 <= i < s.len(),
        forall|j: int| i < j < s.len() ==> (#[trigger] s[j]).0 != s[i].0,
    ensures
        pairs_map(s).contains_key(s[i].0),
        pairs_map(s)[s[i].0] == s[i].1,
    decreases s.len(),
{
    if i < s.len() - 1 {
        let t = s.drop_last();
        assert(s[s.len() - 1].0 != s[i].0);
        assert forall|j: int| i < j < t.len() implies (#[trigger] t[j]).0 != t[i].0 by {
            assert(s[j].0 != s[i].0);
        }
        lemma_pairs_map_last(t, i);
    }
}

/// Replacing the value of the last pair that carries a key binds that key anew
/// and leaves every other binding alone.
pub proof fn lemma_pairs_map_update(s: Seq<(Seq<char>, Seq<char>)>, i: int, v: Seq<char>)
    requires
        0 <= i < s.len(),
        forall|j: int| i < j < s.len() ==> (#[trigger] s[j]).0 != s[i].0,
    ensures
        pairs_map(s.update(i, (s[i].0, v))) == pairs_map(s).insert(s[i].0, v),
    decreases s.len(),
{
    let k = s[i].0;
    let u = s.update(i, (k, v));
    if i == s.len() - 1 {
        assert(u.drop_last() == s.drop_last());
        assert(pairs_map(u) =~= pairs_map(s).insert(k, v));
    } else {
        let t = s.drop_last();
        assert(s[s.len() - 1].0 != s[i].0);
        assert forall|j: int| i < j < t.len() implies (#[trigger] t[j]).0 != t[i].0 by {
            assert(s[j].0 != s[i].0);
        }
        lemma_pairs_map_update(t, i, v);
        assert(u.drop_last() == t.update(i, (k, v)));
        assert(u.last() == s.last());
        assert(pairs_map(u) =~= pairs_map(s).insert(k, v));
    }
}

/// A finite map from text to text, kept as a list of pairs.
#[derive(Debug)]
pub struct StringMap {
    entries: Vec<(String, String)>,
}

impl View for StringMap {
    type V = Map<Seq<char>, Seq<char>>;

    closed spec fn view(&self) -> Map<Seq<char>, Seq<char>> {
        pairs_map(self.entries.deep_view())
    }
}

impl DeepView for StringMap {
    type V = Map<Seq<char>, Seq<char>>;

    open spec fn deep_view(&self) -> Map<Seq<char>, Seq<char>> {
        self@
    }
}

impl StringMap {
    /// The empty map.
    pub fn new() -> (r: StringMap)
        ensures
            r@ == Map::<Seq<char>, Seq<char>>::empty(),
    {
        let r = StringMap { entries: Vec::new() };
        assert(r.entries.deep_view() =~= Seq::empty());
        r
    }

    /// The map that `pairs` stands for, later pairs overriding earlier ones.
    pub fn from_pairs(pairs: Vec<(String, String)>) -> (r: StringMap)
        ensures
            r@ == pairs_map(pairs.deep_view()),
    {
        StringMap { entries: pairs }
    }

    /// A list of pairs that stands for this map.
    pub fn pairs(&self) -> (r: Vec<(String, String)>)
        ensures
            pairs_map(r.deep_view()) == self@,
    {
        let mut out: Vec<(String, String)> = Vec::new();
        let mut i: usize = 0;
        while i < self.entries.len()
            invariant
                i <= self.entries.len(),
                out.deep_view() == self.entries.deep_view().take(i as int),
            decreases self.entries.len() - i,
        {
            let k = self.entries[i].0.clone();
            let v = self.entries[i].1.clone();
            let ghost before = out;
            out.push((k, v));
            proof {
                lemma_deep_view_push(before, out, (k, v));
                assert(out.deep_view() =~= self.entries.deep_view().take(i + 1));
            }
            i += 1;
        }
        assert(self.entries.deep_view().take(i as int) =~= self.entries.deep_view());
        out
    }

    /// The index of the last pair that carries `key`, if any pair does.
    fn find(&self, key: &str) -> (r: Option<usize>)
        ensures
            match r {
                Some(i) => {
                    &&& i < self.entries.len()
                    &&& self.entries[i as int].0@ == key@
                    &&& forall|j: int|
                        i < j < self.entries.len() ==> (#[trigger] self.entries[j]).0@ != key@
                    &&& self@.contains_key(key@)
                    &&& self@[key@] == self.entries[i as int].1@
                },
                None => !self@.contains_key(key@),
            },
    {
        let ghost s = self.entries.deep_view();
        let wanted = text(key);
        let mut found: Option<usize> = None;
        let mut i: usize = 0;
        while i < self.entries.len()
            invariant
                i <= self.entries.len(),
                s == self.entries.deep_view(),
                wanted@ == key@,
                match found {
                    Some(f) => {
                        &&& f < i
                        &&& self.entries[f as int].0@ == key@
                        &&& forall|j: int| f < j < i ==> (#[trigger] self.entries[j]).0@ != key@
                    },
                    None => forall|j: int| 0 <= j < i ==> (#[trigger] self.entries[j]).0@ != key@,
                },
            decreases self.entries.len() - i,
        {
            if self.entries[i].0 == wanted {
                found = Some(i);
            }
            i += 1;
        }
        proof {
            match found {
                Some(f) => {
                    let fi = f as int;
                    assert forall|j: int| fi < j < s.len() implies (#[trigger] s[j]).0 != s[fi].0 by {
                        assert(self.entries[j].0@ != key@);
                    }
                    lemma_pairs_map_last(s, fi);
                },
                None => {
                    lemma_pairs_map_domain(s, key@);
                    if pairs_map(s).contains_key(key@) {
                        let j = choose|j: int| 0 <= j < s.len() && (#[trigger] s[j]).0 == key@;
                        assert(self.entries[j].0@ == key@);
                    }
                },
            }
        }
        found
    }

    /// The value bound to `key`, if there is one.
    pub fn get(&self, key: &str) -> (r: Option<String>)
        ensures
            r.deep_view() == (if self@.contains_key(key@) {
                Some(self@[key@])
            } else {
                None
            }),
    {
        match self.find(key) {
            Some(i) => Some(self.entries[i].1.clone()),
            None => None,
        }
    }

    /// Binds `key` to `value`, replacing an earlier binding of `key`.
    pub fn insert(&mut self, key: String, value: String)
        ensures
            final(self)@ == old(self)@.insert(key@, value@),
    {
        let ghost s = self.entries.deep_view();
        match self.find(key.as_str()) {
            Some(i) => {
                proof {
                    let ii = i as int;
                    assert forall|j: int| ii < j < s.len() implies (#[trigger] s[j]).0 != s[ii].0 by {
                        assert(self.entries[j].0@ != key@);
                    }
                    lemma_pairs_map_update(s, i as int, value@);
                }
                let ghost before = self.entries;
                self.entries.set(i, (key, value));
                proof {
                    lemma_deep_view_set(before, self.entries, i as int, (key, value));
                }
            },
            None => {
                let ghost before = self.entries;
                self.entries.push((key, value));
                proof {
                    lemma_deep_view_push(before, self.entries, (key, value));
                    assert(self.entries.deep_view().drop_last() =~= s);
                }
            },
        }
    }

    /// Removes the binding of `key`, if there is one.
    pub fn remove(&mut self, key: &str)
        ensures
            final(self)@ == old(self)@.remove(key@),
    {
        let ghost s = self.entries.deep_view();
        let unwanted = text(key);
        let mut kept: Vec<(String, String)> = Vec::new();
        let mut i: usize = 0;
        assert(s.take(0) =~= Seq::empty());
        assert(kept.deep_view() =~= Seq::empty());
        assert(pairs_map(kept.deep_view()) =~= pairs_map(s.take(0)).remove(key@));
        while i < self.entries.len()
            invariant
                i <= self.entries.len(),
                s == self.entries.deep_view(),
                unwanted@ == key@,
                pairs_map(kept.deep_view()) == pairs_map(s.take(i as int)).remove(key@),
            decreases self.entries.len() - i,
        {
            let ghost upto = s.take(i + 1);
            assert(upto.drop_last() =~= s.take(i as int));
            assert(upto.last() == s[i as int]);
            if self.entries[i].0 != unwanted {
                let k = self.entries[i].0.clone();
                let v = self.entries[i].1.clone();
                let ghost before = kept;
                kept.push((k, v));
                proof {
                    lemma_deep_view_push(before, kept, (k, v));
                    assert(kept.deep_view().drop_last() =~= before.deep_view());
                    assert(pairs_map(kept.deep_view()) =~= pairs_map(upto).remove(key@));
                }
            } else {
                assert(pairs_map(kept.deep_view()) =~= pairs_map(upto).remove(key@));
            }
            i += 1;
        }
        assert(s.take(i as int) =~= s);
        self.entries = kept;
    }

    /// Tells whether every binding of this map is also a binding of `other`.
    fn within(&self, other: &StringMap) -> (r: bool)
        ensures
            r == (forall|k: Seq<char>| #[trigger]
                self@.contains_key(k) ==> other@.contains_key(k) && other@[k] == self@[k]),
    {
        let ghost s = self.entries.deep_view();
        let mut i: usize = 0;
        while i < self.entries.len()
            invariant
                i <= self.entries.len(),
                s == self.entries.deep_view(),
                forall|j: int|
                    0 <= j < i ==> other@.contains_key((#[trigger] s[j]).0) && other@[s[j].0]
                        == self@[s[j].0],
            decreases self.entries.len() - i,
        {
            let key = self.entries[i].0.as_str();
            let mine = self.get(key);
            let theirs = other.get(key);
            proof {
                assert(s[i as int].0 == key@);
                lemma_pairs_map_domain(s, key@);
            }
            let agree = match (mine, theirs) {
                (Some(a), Some(b)) => a == b,
                _ => false,
            };
            if !agree {
                assert(self@.contains_key(key@));
                return false;
            }
            i += 1;
        }
        proof {
            assert forall|k: Seq<char>| #[trigger] self@.contains_key(k) implies other@.contains_key(
                k,
            ) && other@[k] == self@[k] by {
                lemma_pairs_map_domain(s, k);
                let j = choose|j: int| 0 <= j < s.len() && (#[trigger] s[j]).0 == k;
                assert(other@.contains_key(s[j].0));
            }
        }
        true
    }
}

impl Clone for StringMap {
    fn clone(&self) -> (r: StringMap)
        ensures
            r@ == self@,
    {
        StringMap { entries: self.pairs() }
    }
}

impl PartialEq for StringMap {
    fn eq(&self, other: &StringMap) -> (r: bool) {
        let r = self.within(other) && other.within(self);
        proof {
            if r {
                assert(self@ =~= other@);
            }
        }
        r
    }
}

impl PartialEqSpecImpl for StringMap {
    open spec fn obeys_eq_spec() -> bool {
        true
    }

    open spec fn eq_spec(&self, other: &StringMap) -> bool {
        self@ == other@
    }
}

} // verus!
