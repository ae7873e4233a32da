//! A small map from string keys to counts, used for per-website and
//! per-tenant event accounting. Keys are held as character vectors and each
//! key appears once.
use vstd::prelude::*;

use crate::text::{chars_eq, string_of, sub_chars};

verus! {

/// Map from string keys to counts.
pub struct CountMap {
    entries: Vec<(Vec<char>, usize)>,
    model: Ghost<Map<Seq<char>, usize>>,
}

impl View for CountMap {
    type V = Map<Seq<char>, usize>;

    closed spec fn view(&self) -> Map<Seq<char>, usize> {
        self.model@
    }
}

/// Key of a pair.
pub open spec fn pair_key(p: (Vec<char>, usize)) -> Seq<char> {
    p.0@
}

/// Key of an owned pair.
pub open spec fn string_pair_key(p: (String, usize)) -> Seq<char> {
    p.0@
}

/// A list of `(key, count)` pairs lists exactly the map `m`, each key once.
pub open spec fn lists_map(pairs: Seq<(String, usize)>, m: Map<Seq<char>, usize>) -> bool {
    &&& forall|i: int|
        0 <= i < pairs.len() ==> m.contains_key(#[trigger] string_pair_key(pairs[i])) && m[string_pair_key(
            pairs[i],
        )] == pairs[i].1
    &&& forall|k: Seq<char>|
        m.contains_key(k) ==> exists|i: int| 0 <= i < pairs.len() && #[trigger] string_pair_key(pairs[i]) == k
    &&& forall|i: int, j: int|
        0 <= i < j < pairs.len() ==> string_pair_key(#[trigger] pairs[i]) != string_pair_key(
            #[trigger] pairs[j],
        )
}

impl CountMap {
    /// Internal consistency of the entries with the abstract map.
    pub closed spec fn wf(&self) -> bool {
        let es = self.entries@;
        let m = self.model@;
        &&& forall|i: int|
            0 <= i < es.len() ==> m.contains_key(#[trigger] pair_key(es[i])) && m[pair_key(es[i])]
                == es[i].1
        &&& forall|k: Seq<char>|
            m.contains_key(k) ==> exists|i: int| 0 <= i < es.len() && #[trigger] pair_key(es[i]) == k
        &&& forall|i: int, j: int|
            0 <= i < j < es.len() ==> pair_key(#[trigger] es[i]) != pair_key(#[trigger] es[j])
        &&& m.dom().finite()
        &&& m.len() == es.len()
    }

    /// An empty map.
    pub fn new() -> (c: Self)
        ensures
            c.wf(),
            c@ == Map::<Seq<char>, usize>::empty(),
    {
        CountMap { entries: Vec::new(), model: Ghost(Map::empty()) }
    }

    /// Number of keys.
    pub fn len(&self) -> (n: usize)
        requires
            self.wf(),
        ensures
            n == self@.len(),
    {
        self.entries.len()
    }

    fn find(&self, key: &[char]) -> (r: Option<usize>)
        requires
            self.wf(),
        ensures
            match r {
                Some(i) => i < self.entries@.len() && pair_key(self.entries@[i as int]) == key@,
                None => !self@.contains_key(key@),
            },
    {
        let mut i: usize = 0;
        while i < self.entries.len()
            invariant
                self.wf(),
                i <= self.entries@.len(),
                forall|j: int| 0 <= j < i ==> pair_key(self.entries@[j]) != key@,
            decreases self.entries@.len() - i,
        {
            if chars_eq(self.entries[i].0.as_slice(), key) {
                return Some(i);
            }
            i = i + 1;
        }
        proof {
            if self@.contains_key(key@) {
                let j = choose|j: int|
                    0 <= j < self.entries@.len() && #[trigger] pair_key(self.entries@[j]) == key@;
            }
        }
        None
    }

    /// The count of `key`, if present.
    pub fn get(&self, key: &[char]) -> (r: Option<usize>)
        requires
            self.wf(),
        ensures
            r == (if self@.contains_key(key@) {
                Some(self@[key@])
            } else {
                None
            }),
    {
        match self.find(key) {
            Some(i) => Some(self.entries[i].1),
            None => None,
        }
    }

    /// Sets the count of `key`.
    pub fn insert(&mut self, key: &[char], v: usize)
        requires
            old(self).wf(),
        ensures
            final(self).wf(),
            final(self)@ == old(self)@.insert(key@, v),
    {
        let ghost old_entries = self.entries@;
        let ghost m = self.model@;
        let ghost k = key@;
        match self.find(key) {
            Some(i) => {
                let mut e: (Vec<char>, usize) = (Vec::new(), 0);
                self.entries.set_and_swap(i, &mut e);
                e.1 = v;
                self.entries.set(i, e);
                self.model = Ghost(m.insert(k, v));
                proof {
                    let es = self.entries@;
                    assert(m.dom().insert(k) =~= m.dom());
                    assert forall|j: int| 0 <= j < es.len() implies self.model@.contains_key(
                        #[trigger] pair_key(es[j]),
                    ) && self.model@[pair_key(es[j])] == es[j].1 by {
                        if j != i {
                            assert(es[j] == old_entries[j]);
                        }
                    }
                    assert forall|kk: Seq<char>| self.model@.contains_key(kk) implies exists|j: int|
                        0 <= j < es.len() && #[trigger] pair_key(es[j]) == kk by {
                        if kk == k {
                            assert(pair_key(es[i as int]) == kk);
                        } else {
                            let j = choose|j: int|
                                0 <= j < old_entries.len() && #[trigger] pair_key(old_entries[j])
                                    == kk;
                            assert(es[j] == old_entries[j]);
                        }
                    }
                    assert forall|a: int, b: int| 0 <= a < b < es.len() implies pair_key(
                        #[trigger] es[a],
                    ) != pair_key(#[trigger] es[b]) by {
                        assert(pair_key(es[a]) == pair_key(old_entries[a]));
                        assert(pair_key(es[b]) == pair_key(old_entries[b]));
                    }
                }
            },
            None => {
                let owned = sub_chars(key, 0, key.len());
                assert(key@.subrange(0, key@.len() as int) =~= key@);
                let e = (owned, v);
                self.entries.push(e);
                self.model = Ghost(m.insert(k, v));
                proof {
                    let es = self.entries@;
                    let n = old_entries.len() as int;
                    assert(es[n] == e);
                    assert forall|j: int| 0 <= j < es.len() implies self.model@.contains_key(
                        #[trigger] pair_key(es[j]),
                    ) && self.model@[pair_key(es[j])] == es[j].1 by {
                        if j < n {
                            assert(es[j] == old_entries[j]);
                        }
                    }
                    assert forall|kk: Seq<char>| self.model@.contains_key(kk) implies exists|j: int|
                        0 <= j < es.len() && #[trigger] pair_key(es[j]) == kk by {
                        if kk == k {
                            assert(pair_key(es[n]) == kk);
                        } else {
                            let j = choose|j: int|
                                0 <= j < old_entries.len() && #[trigger] pair_key(old_entries[j])
                                    == kk;
                            assert(es[j] == old_entries[j]);
                        }
                    }
                    assert forall|a: int, b: int| 0 <= a < b < es.len() implies pair_key(
                        #[trigger] es[a],
                    ) != pair_key(#[trigger] es[b]) by {
                        assert(es[a] == old_entries[a]);
                        if b < n {
                            assert(es[b] == old_entries[b]);
                        }
                    }
                }
            },
        }
    }

    /// Removes `key`.
    pub fn remove(&mut self, key: &[char])
        requires
            old(self).wf(),
        ensures
            final(self).wf(),
            final(self)@ == old(self)@.remove(key@),
    {
        let ghost old_entries = self.entries@;
        let ghost m = self.model@;
        let ghost k = key@;
        match self.find(key) {
            None => {
                assert(m.remove(k) =~= m);
            },
            Some(i) => {
                self.entries.remove(i);
                self.model = Ghost(m.remove(k));
                proof {
                    let es = self.entries@;
                    assert forall|j: int| 0 <= j < es.len() implies self.model@.contains_key(
                        #[trigger] pair_key(es[j]),
                    ) && self.model@[pair_key(es[j])] == es[j].1 by {
                        if j < i {
                            assert(es[j] == old_entries[j]);
                            assert(pair_key(old_entries[j]) != pair_key(old_entries[i as int]));
                        } else {
                            assert(es[j] == old_entries[j + 1]);
                            assert(pair_key(old_entries[i as int]) != pair_key(
                                old_entries[j + 1],
                            ));
                        }
                    }
                    assert forall|kk: Seq<char>| self.model@.contains_key(kk) implies exists|j: int|
                        0 <= j < es.len() && #[trigger] pair_key(es[j]) == kk by {
                        let j = choose|j: int|
                            0 <= j < old_entries.len() && #[trigger] pair_key(old_entries[j]) == kk;
                        assert(j != i);
                        if j < i {
                            assert(es[j] == old_entries[j]);
                        } else {
                            assert(es[j - 1] == old_entries[j]);
                        }
                    }
                    assert forall|a: int, b: int| 0 <= a < b < es.len() implies pair_key(
                        #[trigger] es[a],
                    ) != pair_key(#[trigger] es[b]) by {
                        let oa = if a < i {
                            a
                        } else {
                            a + 1
                        };
                        let ob = if b < i {
                            b
                        } else {
                            b + 1
                        };
                        assert(es[a] == old_entries[oa]);
                        assert(es[b] == old_entries[ob]);
                    }
                }
            },
        }
    }

    /// The `(key, count)` pairs of the map, each key once.
    pub fn to_pairs(&self) -> (r: Vec<(String, usize)>)
        requires
            self.wf(),
        ensures
            lists_map(r@, self@),
            r@.len() == self@.len(),
    {
        let mut r: Vec<(String, usize)> = Vec::new();
        let mut i: usize = 0;
        while i < self.entries.len()
            invariant
                self.wf(),
                i <= self.entries@.len(),
                r@.len() == i,
                forall|j: int|
                    0 <= j < i ==> string_pair_key(#[trigger] r@[j]) == pair_key(self.entries@[j])
                        && r@[j].1 == self.entries@[j].1,
            decreases self.entries@.len() - i,
        {
            let s = string_of(self.entries[i].0.as_slice());
            r.push((s, self.entries[i].1));
            i = i + 1;
        }
        proof {
            let m = self@;
            let es = self.entries@;
            assert forall|a: int| 0 <= a < r@.len() implies m.contains_key(
                #[trigger] string_pair_key(r@[a]),
            ) && m[string_pair_key(r@[a])] == r@[a].1 by {
                assert(string_pair_key(r@[a]) == pair_key(es[a]));
            }
            assert forall|k: Seq<char>| m.contains_key(k) implies exists|a: int|
                0 <= a < r@.len() && #[trigger] string_pair_key(r@[a]) == k by {
                let j = choose|j: int| 0 <= j < es.len() && #[trigger] pair_key(es[j]) == k;
                assert(string_pair_key(r@[j]) == pair_key(es[j]));
            }
            assert forall|a: int, b: int| 0 <= a < b < r@.len() implies string_pair_key(
                #[trigger] r@[a],
            ) != string_pair_key(#[trigger] r@[b]) by {
                assert(string_pair_key(r@[a]) == pair_key(es[a]));
                assert(string_pair_key(r@[b]) == pair_key(es[b]));
            }
        }
        r
    }
}

} // verus!
