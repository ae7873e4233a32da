//! Read-through caches with an expiry per entry (website metadata, bot
//! policies and overrides, campaign links, tracking pixels, exports): a hit
//! is an entry that has not expired, and a full cache drops expired entries
//! and then those that expire soonest.
use vstd::prelude::*;

use crate::text::{chars_eq, chars_of};

verus! {

/// One cached value and the instant (in nanoseconds) it expires at.
pub struct TtlEntry<V> {
    pub key: String,
    pub value: V,
    pub expires_at: u64,
}

/// Abstract entry: key, value, expiry.
pub open spec fn entry_of<V>(e: TtlEntry<V>) -> (Seq<char>, V, u64) {
    (e.key@, e.value, e.expires_at)
}

/// A cache, at most one entry per key.
pub struct TtlCache<V> {
    pub entries: Vec<TtlEntry<V>>,
}

impl<V> View for TtlCache<V> {
    type V = Seq<(Seq<char>, V, u64)>;

    open spec fn view(&self) -> Seq<(Seq<char>, V, u64)> {
        self.entries@.map_values(|e: TtlEntry<V>| entry_of(e))
    }
}

/// No key has two entries.
pub open spec fn unique_keys<V>(s: Seq<(Seq<char>, V, u64)>) -> bool {
    forall|i: int, j: int| 0 <= i < s.len() && 0 <= j < s.len() && i != j ==> #[trigger] s[i].0 != #[trigger] s[j].0
}

/// Some entry of `s` has the key.
pub open spec fn has_key<V>(s: Seq<(Seq<char>, V, u64)>, key: Seq<char>) -> bool {
    exists|i: int| 0 <= i < s.len() && #[trigger] s[i].0 == key
}

/// Number of entries of `s` still valid at `now`.
pub open spec fn fresh_count<V>(s: Seq<(Seq<char>, V, u64)>, now: u64) -> nat
    decreases s.len(),
{
    if s.len() == 0 {
        0
    } else {
        (if s[0].2 > now {
            1nat
        } else {
            0nat
        }) + fresh_count(s.skip(1), now)
    }
}

/// `e` is an entry of `s`.
pub open spec fn holds<V>(s: Seq<(Seq<char>, V, u64)>, e: (Seq<char>, V, u64)) -> bool {
    exists|j: int| 0 <= j < s.len() && #[trigger] s[j] == e
}

/// Models of a list of entries.
pub open spec fn views<V>(v: Seq<TtlEntry<V>>) -> Seq<(Seq<char>, V, u64)> {
    v.map_values(|e: TtlEntry<V>| entry_of(e))
}

/// The entries still valid at `now`, in any order.
fn keep_fresh<V>(entries: Vec<TtlEntry<V>>, now: u64) -> (kept: Vec<TtlEntry<V>>)
    requires
        unique_keys(views(entries@)),
    ensures
        views(kept@).len() == fresh_count(views(entries@), now),
        forall|k: int| 0 <= k < kept@.len() ==> holds(views(entries@), #[trigger] views(kept@)[k]) && views(kept@)[k].2 > now,
        unique_keys(views(kept@)),
        forall|j: int| 0 <= j < entries@.len() && #[trigger] views(entries@)[j].2 > now ==> holds(views(kept@), views(entries@)[j]),
{
    let ghost orig = views(entries@);
    let ghost n = orig.len();
    let mut rest = entries;
    let mut kept: Vec<TtlEntry<V>> = Vec::new();
    assert(orig.subrange(n as int, n as int) =~= Seq::<(Seq<char>, V, u64)>::empty());
    assert(views(kept@) =~= Seq::<(Seq<char>, V, u64)>::empty());
    while rest.len() > 0
        invariant
            rest@.len() <= n,
            n == orig.len(),
            unique_keys(orig),
            forall|j: int| 0 <= j < rest@.len() ==> entry_of(#[trigger] rest@[j]) == orig[j],
            views(kept@).len() == fresh_count(orig.subrange(rest@.len() as int, n as int), now),
            forall|k: int|
                0 <= k < kept@.len() ==> exists|j: int|
                    rest@.len() <= j < n && orig[j] == #[trigger] views(kept@)[k] && orig[j].2 > now,
            unique_keys(views(kept@)),
            forall|j: int| rest@.len() <= j < n && #[trigger] orig[j].2 > now ==> holds(views(kept@), orig[j]),
        decreases rest@.len(),
    {
        let ghost i = rest@.len() - 1;
        let ghost before = views(kept@);
        let e = rest.pop().unwrap();
        assert(entry_of(e) == orig[i]);
        assert(orig.subrange(i, n as int).skip(1) =~= orig.subrange(i + 1, n as int));
        assert(orig.subrange(i, n as int)[0] == orig[i]);
        if e.expires_at > now {
            proof {
                assert forall|k: int| 0 <= k < before.len() implies #[trigger] before[k].0 != orig[i].0 by {
                    let j = choose|j: int| i + 1 <= j < n && orig[j] == #[trigger] before[k] && orig[j].2 > now;
                    assert(orig[j].0 != orig[i].0);
                }
            }
            kept.push(e);
            assert(views(kept@) =~= before.push(orig[i]));
            proof {
                assert forall|k: int| 0 <= k < kept@.len() implies exists|j: int|
                    i <= j < n && orig[j] == #[trigger] views(kept@)[k] && orig[j].2 > now by {
                    if k < before.len() {
                        let j = choose|j: int| i + 1 <= j < n && orig[j] == #[trigger] before[k] && orig[j].2 > now;
                        assert(views(kept@)[k] == before[k]);
                    } else {
                        assert(views(kept@)[k] == orig[i]);
                    }
                }
                assert forall|a: int, b: int|
                    0 <= a < views(kept@).len() && 0 <= b < views(kept@).len() && a != b implies #[trigger] views(kept@)[a].0
                        != #[trigger] views(kept@)[b].0 by {
                    if a < before.len() && b < before.len() {
                        assert(views(kept@)[a] == before[a] && views(kept@)[b] == before[b]);
                    } else if a < before.len() {
                        assert(views(kept@)[a] == before[a]);
                    } else {
                        assert(views(kept@)[b] == before[b]);
                    }
                }
                assert forall|j: int| i <= j < n && #[trigger] orig[j].2 > now implies holds(views(kept@), orig[j]) by {
                    if j == i {
                        assert(views(kept@)[before.len() as int] == orig[i]);
                    } else {
                        let k = choose|k: int| 0 <= k < before.len() && #[trigger] before[k] == orig[j];
                        assert(views(kept@)[k] == before[k]);
                    }
                }
            }
        } else {
            assert(views(kept@) == before);
        }
    }
    assert(orig.subrange(0, n as int) =~= orig);
    kept
}

/// Position of the entry expiring soonest.
fn soonest<V>(kept: &Vec<TtlEntry<V>>) -> (m: usize)
    requires
        kept@.len() > 0,
    ensures
        m < kept@.len(),
        forall|x: int| 0 <= x < kept@.len() ==> kept@[m as int].expires_at <= #[trigger] kept@[x].expires_at,
{
    let mut m: usize = 0;
    let mut k: usize = 1;
    while k < kept.len()
        invariant
            1 <= kept@.len(),
            m < kept@.len(),
            1 <= k <= kept@.len(),
            forall|x: int| 0 <= x < k ==> kept@[m as int].expires_at <= #[trigger] kept@[x].expires_at,
        decreases kept@.len() - k,
    {
        if kept[k].expires_at < kept[m].expires_at {
            m = k;
        }
        k = k + 1;
    }
    m
}

/// Drops the entries expiring soonest until fewer than `max_entries` remain.
fn drop_soonest<V>(kept: &mut Vec<TtlEntry<V>>, max_entries: usize)
    requires
        max_entries > 0,
        unique_keys(views(old(kept)@)),
    ensures
        views(final(kept)@).len() == if old(kept)@.len() < max_entries {
            old(kept)@.len() as nat
        } else {
            (max_entries - 1) as nat
        },
        unique_keys(views(final(kept)@)),
        forall|k: int| 0 <= k < final(kept)@.len() ==> holds(views(old(kept)@), #[trigger] views(final(kept)@)[k]),
        forall|j: int|
            0 <= j < old(kept)@.len() && !has_key(views(final(kept)@), #[trigger] views(old(kept)@)[j].0) ==> forall|k: int|
                0 <= k < final(kept)@.len() ==> views(old(kept)@)[j].2 <= #[trigger] views(final(kept)@)[k].2,
{
    let ghost orig = views(kept@);
    while kept.len() >= max_entries
        invariant
            0 < max_entries,
            unique_keys(orig),
            orig.len() >= max_entries ==> kept@.len() >= max_entries - 1,
            orig.len() < max_entries ==> views(kept@) == orig,
            kept@.len() <= orig.len(),
            unique_keys(views(kept@)),
            forall|k: int| 0 <= k < kept@.len() ==> holds(orig, #[trigger] views(kept@)[k]),
            forall|j: int|
                0 <= j < orig.len() && !has_key(views(kept@), #[trigger] orig[j].0) ==> forall|k: int|
                    0 <= k < kept@.len() ==> orig[j].2 <= #[trigger] views(kept@)[k].2,
        decreases kept@.len(),
    {
        let m = soonest(kept);
        let ghost before = views(kept@);
        assert(forall|x: int| 0 <= x < before.len() ==> before[m as int].2 <= #[trigger] before[x].2) by {
            assert forall|x: int| 0 <= x < before.len() implies before[m as int].2 <= #[trigger] before[x].2 by {
                assert(before[x] == entry_of(kept@[x]));
                assert(before[m as int] == entry_of(kept@[m as int]));
            }
        }
        kept.remove(m);
        assert(views(kept@) =~= before.remove(m as int));
        proof {
            let now_v = views(kept@);
            assert forall|a: int, b: int|
                0 <= a < now_v.len() && 0 <= b < now_v.len() && a != b implies #[trigger] now_v[a].0 != #[trigger] now_v[b].0 by {
                let a2 = if a < m { a } else { a + 1 };
                let b2 = if b < m { b } else { b + 1 };
                assert(now_v[a] == before[a2] && now_v[b] == before[b2]);
            }
            assert forall|k: int| 0 <= k < now_v.len() implies holds(orig, #[trigger] now_v[k]) by {
                let k2 = if k < m { k } else { k + 1 };
                assert(now_v[k] == before[k2]);
                assert(holds(orig, before[k2]));
            }
            assert forall|j: int|
                0 <= j < orig.len() && !has_key(now_v, #[trigger] orig[j].0) implies forall|k: int|
                    0 <= k < now_v.len() ==> orig[j].2 <= #[trigger] now_v[k].2 by {
                if has_key(before, orig[j].0) {
                    let k0 = choose|k0: int| 0 <= k0 < before.len() && #[trigger] before[k0].0 == orig[j].0;
                    if k0 != m {
                        let kk = if k0 < m { k0 } else { k0 - 1 };
                        assert(now_v[kk] == before[k0]);
                        assert(has_key(now_v, orig[j].0));
                    }
                    let jj = choose|jj: int| 0 <= jj < orig.len() && #[trigger] orig[jj] == before[k0];
                    if jj != j {
                        assert(orig[jj].0 != orig[j].0);
                    }
                    assert forall|k: int| 0 <= k < now_v.len() implies orig[j].2 <= #[trigger] now_v[k].2 by {
                        let k2 = if k < m { k } else { k + 1 };
                        assert(now_v[k] == before[k2]);
                    }
                } else {
                    assert forall|k: int| 0 <= k < now_v.len() implies orig[j].2 <= #[trigger] now_v[k].2 by {
                        let k2 = if k < m { k } else { k + 1 };
                        assert(now_v[k] == before[k2]);
                    }
                }
            }
        }
    }
}

impl<V> TtlCache<V> {
    /// The cache is well formed.
    pub open spec fn wf(&self) -> bool {
        unique_keys(self@)
    }

    /// An empty cache.
    pub fn new() -> (c: Self)
        ensures
            c.wf(),
            c@ == Seq::<(Seq<char>, V, u64)>::empty(),
    {
        let c = TtlCache { entries: Vec::new() };
        assert(c@ =~= Seq::<(Seq<char>, V, u64)>::empty());
        c
    }

    fn position(&self, key: &str) -> (r: Option<usize>)
        requires
            self.wf(),
        ensures
            match r {
                Some(i) => i < self@.len() && self@[i as int].0 == key@,
                None => !has_key(self@, key@),
            },
    {
        let k = chars_of(key);
        let mut i: usize = 0;
        while i < self.entries.len()
            invariant
                i <= self.entries@.len(),
                k@ == key@,
                forall|j: int| 0 <= j < i ==> #[trigger] self@[j].0 != key@,
            decreases self.entries@.len() - i,
        {
            assert(self@[i as int] == entry_of(self.entries@[i as int]));
            let c = chars_of(self.entries[i].key.as_str());
            if chars_eq(c.as_slice(), k.as_slice()) {
                return Some(i);
            }
            i = i + 1;
        }
        None
    }

    /// The value cached under `key` when it is still valid at `now`; an
    /// expired entry is dropped.
    pub fn lookup(&mut self, key: &str, now: u64) -> (r: Option<&V>)
        requires
            old(self).wf(),
        ensures
            final(self).wf(),
            !has_key(old(self)@, key@) ==> r is None && final(self)@ == old(self)@,
            forall|i: int|
                0 <= i < old(self)@.len() && #[trigger] old(self)@[i].0 == key@ ==> if old(self)@[i].2 > now {
                    r == Some(&old(self)@[i].1) && final(self)@ == old(self)@
                } else {
                    r is None && final(self)@ == old(self)@.remove(i)
                },
    {
        let ghost before = self@;
        match self.position(key) {
            None => None,
            Some(i) => {
                proof {
                    assert forall|j: int| 0 <= j < before.len() && #[trigger] before[j].0 == key@ implies j == i by {
                        if j != i {
                            assert(before[j].0 != before[i as int].0);
                        }
                    }
                }
                assert(before[i as int] == entry_of(self.entries@[i as int]));
                if self.entries[i].expires_at > now {
                    Some(&self.entries[i].value)
                } else {
                    self.entries.remove(i);
                    assert(self@ =~= before.remove(i as int));
                    proof {
                        assert forall|a: int, b: int|
                            0 <= a < self@.len() && 0 <= b < self@.len() && a != b implies #[trigger] self@[a].0
                                != #[trigger] self@[b].0 by {
                            let a2 = if a < i { a } else { a + 1 };
                            let b2 = if b < i { b } else { b + 1 };
                            assert(self@[a] == before[a2] && self@[b] == before[b2]);
                        }
                    }
                    None
                }
            },
        }
    }

    /// Makes room before an insertion: with no room at all the cache is
    /// emptied; a cache with fewer than `max_entries` entries is left as it
    /// is; otherwise expired entries go, then those expiring soonest until
    /// fewer than `max_entries` remain.
    pub fn evict(&mut self, max_entries: usize, now: u64)
        requires
            old(self).wf(),
        ensures
            final(self).wf(),
            max_entries == 0 ==> final(self)@.len() == 0,
            0 < max_entries && old(self)@.len() < max_entries ==> final(self)@ == old(self)@,
            0 < max_entries && old(self)@.len() >= max_entries ==> {
                &&& final(self)@.len() == if fresh_count(old(self)@, now) < max_entries {
                    fresh_count(old(self)@, now)
                } else {
                    (max_entries - 1) as nat
                }
                &&& forall|k: int|
                    0 <= k < final(self)@.len() ==> holds(old(self)@, #[trigger] final(self)@[k])
                        && final(self)@[k].2 > now
                &&& forall|j: int|
                    0 <= j < old(self)@.len() && old(self)@[j].2 > now && !has_key(final(self)@, #[trigger] old(self)@[j].0)
                        ==> forall|k: int| 0 <= k < final(self)@.len() ==> old(self)@[j].2 <= #[trigger] final(self)@[k].2
            },
    {
        if max_entries == 0 {
            self.entries.clear();
            assert(self@ =~= Seq::<(Seq<char>, V, u64)>::empty());
            return;
        }
        if self.entries.len() < max_entries {
            return;
        }
        let ghost orig = self@;
        let mut rest: Vec<TtlEntry<V>> = Vec::new();
        std::mem::swap(&mut rest, &mut self.entries);
        let mut kept = keep_fresh(rest, now);
        let ghost kv = views(kept@);
        drop_soonest(&mut kept, max_entries);
        self.entries = kept;
        proof {
            assert(self@ == views(self.entries@));
            assert forall|k: int| 0 <= k < self@.len() implies holds(orig, #[trigger] self@[k]) && self@[k].2 > now by {
                let k0 = choose|k0: int| 0 <= k0 < kv.len() && #[trigger] kv[k0] == self@[k];
                assert(holds(orig, kv[k0]));
            }
            assert forall|j: int|
                0 <= j < orig.len() && orig[j].2 > now && !has_key(self@, #[trigger] orig[j].0) implies forall|k: int|
                    0 <= k < self@.len() ==> orig[j].2 <= #[trigger] self@[k].2 by {
                assert(holds(kv, orig[j]));
                let k0 = choose|k0: int| 0 <= k0 < kv.len() && #[trigger] kv[k0] == orig[j];
                assert(kv[k0].0 == orig[j].0);
            }
        }
    }

    /// Caches `value` under `key` until `expires_at`, replacing an entry
    /// with the same key.
    pub fn insert(&mut self, key: &str, value: V, expires_at: u64)
        requires
            old(self).wf(),
        ensures
            final(self).wf(),
            has_key(old(self)@, key@) ==> exists|i: int|
                0 <= i < old(self)@.len() && #[trigger] old(self)@[i].0 == key@ && final(self)@ == old(self)@.update(
                    i,
                    (key@, value, expires_at),
                ),
            !has_key(old(self)@, key@) ==> final(self)@ == old(self)@.push((key@, value, expires_at)),
    {
        let ghost before = self@;
        let entry = TtlEntry { key: key.to_owned(), value, expires_at };
        assert(entry_of(entry) == (key@, value, expires_at));
        match self.position(key) {
            Some(i) => {
                self.entries.set(i, entry);
                assert(self@ =~= before.update(i as int, (key@, value, expires_at)));
                proof {
                    assert forall|a: int, b: int|
                        0 <= a < self@.len() && 0 <= b < self@.len() && a != b implies #[trigger] self@[a].0
                            != #[trigger] self@[b].0 by {
                        assert(self@[a].0 == before[a].0 && self@[b].0 == before[b].0);
                    }
                }
            },
            None => {
                self.entries.push(entry);
                assert(self@ =~= before.push((key@, value, expires_at)));
                proof {
                    assert forall|a: int, b: int|
                        0 <= a < self@.len() && 0 <= b < self@.len() && a != b implies #[trigger] self@[a].0
                            != #[trigger] self@[b].0 by {
                        if a < before.len() && b < before.len() {
                            assert(self@[a] == before[a] && self@[b] == before[b]);
                        } else if a < before.len() {
                            assert(self@[a] == before[a]);
                            assert(before[a].0 != key@);
                        } else {
                            assert(self@[b] == before[b]);
                            assert(before[b].0 != key@);
                        }
                    }
                }
            },
        }
    }

    /// Stores a value fetched at `now` for `ttl` nanoseconds: room is made
    /// first, then the value is inserted, so the cache never holds more than
    /// `max_entries` entries after a store.
    pub fn store(&mut self, key: &str, value: V, now: u64, ttl: u64, max_entries: usize)
        requires
            old(self).wf(),
            now + ttl <= u64::MAX,
        ensures
            final(self).wf(),
            exists|i: int| 0 <= i < final(self)@.len() && #[trigger] final(self)@[i] == (key@, value, (now + ttl) as u64),
            max_entries > 0 ==> final(self)@.len() <= max_entries,
    {
        self.evict(max_entries, now);
        let ghost mid = self@;
        self.insert(key, value, now + ttl);
        proof {
            if has_key(mid, key@) {
                let i = choose|i: int| 0 <= i < mid.len() && #[trigger] mid[i].0 == key@ && self@ == mid.update(i, (key@, value, (now + ttl) as u64));
                assert(self@[i] == (key@, value, (now + ttl) as u64));
            } else {
                assert(self@[mid.len() as int] == (key@, value, (now + ttl) as u64));
            }
        }
    }
}

} // verus!
