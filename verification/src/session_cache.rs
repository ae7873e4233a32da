//! The cache of open sessions, keyed by website and visitor: a session
//! stays open while its visitor comes back within thirty minutes.
use vstd::prelude::*;

use crate::text::{chars_eq, chars_of};

verus! {

/// Seconds of inactivity after which a cached session is over.
pub const SESSION_CACHE_TTL_SECONDS: i64 = 1800;

/// Microseconds in a second.
pub const MICROS_PER_SECOND: i64 = 1_000_000;

/// Whole seconds in a span of microseconds, rounded toward zero (as
/// `TimeDelta::num_seconds` counts them).
pub open spec fn whole_seconds(span_us: int) -> int {
    if span_us >= 0 {
        span_us / MICROS_PER_SECOND as int
    } else {
        -((-span_us) / MICROS_PER_SECOND as int)
    }
}

/// A session last seen at `last_us` is over at `at_us`.
pub open spec fn expired(last_us: i64, at_us: i64) -> bool {
    whole_seconds(at_us - last_us) > SESSION_CACHE_TTL_SECONDS
}

fn is_expired(last_us: i64, at_us: i64) -> (b: bool)
    ensures
        b == expired(last_us, at_us),
{
    let span: i128 = (at_us as i128) - (last_us as i128);
    let limit: i128 = 1_801_000_000;
    proof {
        let sp = at_us - last_us;
        if sp >= 0 {
            assert(sp / 1_000_000 > 1800 <==> sp >= 1_801_000_000) by (nonlinear_arith)
                requires
                    sp >= 0;
        } else {
            assert(-((-sp) / 1_000_000) <= 0) by (nonlinear_arith)
                requires
                    sp < 0;
        }
    }
    span >= limit
}

/// One cached session.
pub struct CachedSession {
    pub website_id: String,
    pub visitor_id: String,
    pub session_id: String,
    pub last_seen_at_us: i64,
}

/// Abstract entry: website, visitor, session, last activity.
pub type SessionEntry = (Seq<char>, Seq<char>, Seq<char>, i64);

/// The model of one cached session.
pub open spec fn entry_view(c: CachedSession) -> SessionEntry {
    (c.website_id@, c.visitor_id@, c.session_id@, c.last_seen_at_us)
}

/// Cached sessions, at most one per website and visitor, and the number
/// of entries above which room is made for a new visitor.
pub struct SessionCache {
    pub entries: Vec<CachedSession>,
    pub max_entries: usize,
}

impl View for SessionCache {
    type V = Seq<SessionEntry>;

    open spec fn view(&self) -> Seq<SessionEntry> {
        self.entries@.map_values(|c: CachedSession| entry_view(c))
    }
}

/// Entry `i` belongs to the website and visitor.
pub open spec fn keyed(s: Seq<SessionEntry>, i: int, website: Seq<char>, visitor: Seq<char>) -> bool {
    0 <= i < s.len() && s[i].0 == website && s[i].1 == visitor
}

/// `e` is an entry of `old` whose session is still open at `at_us`.
pub open spec fn kept_from(old: Seq<SessionEntry>, e: SessionEntry, at_us: i64) -> bool {
    exists|j: int| 0 <= j < old.len() && old[j] == e && !expired(old[j].3, at_us)
}

/// No website and visitor has two entries.
pub open spec fn distinct_keys(s: Seq<SessionEntry>) -> bool {
    forall|i: int, j: int|
        0 <= i < s.len() && 0 <= j < s.len() && i != j ==> !(#[trigger] s[i].0 == #[trigger] s[j].0 && s[i].1
            == s[j].1)
}

fn copy_string(s: &String) -> (r: String)
    ensures
        r@ == s@,
{
    s.clone()
}

impl SessionCache {
    /// The cache is well formed.
    pub open spec fn wf(&self) -> bool {
        distinct_keys(self@)
    }

    /// An empty cache.
    pub fn new(max_entries: usize) -> (c: Self)
        ensures
            c.wf(),
            c@ == Seq::<SessionEntry>::empty(),
            c.max_entries == max_entries,
    {
        let c = SessionCache { entries: Vec::new(), max_entries };
        assert(c@ =~= Seq::<SessionEntry>::empty());
        c
    }

    fn position(&self, website_id: &str, visitor_id: &str) -> (r: Option<usize>)
        ensures
            match r {
                Some(i) => keyed(self@, i as int, website_id@, visitor_id@),
                None => forall|j: int| !keyed(self@, j, website_id@, visitor_id@),
            },
    {
        let w = chars_of(website_id);
        let v = chars_of(visitor_id);
        let mut i: usize = 0;
        while i < self.entries.len()
            invariant
                i <= self.entries@.len(),
                w@ == website_id@,
                v@ == visitor_id@,
                forall|j: int| 0 <= j < i ==> !keyed(self@, j, website_id@, visitor_id@),
            decreases self.entries@.len() - i,
        {
            let e = &self.entries[i];
            assert(self@[i as int] == entry_view(self.entries@[i as int]));
            let ew = chars_of(e.website_id.as_str());
            let ev = chars_of(e.visitor_id.as_str());
            if chars_eq(ew.as_slice(), w.as_slice()) && chars_eq(ev.as_slice(), v.as_slice()) {
                return Some(i);
            }
            i = i + 1;
        }
        None
    }

    /// The open session of a visitor at `at_us`: none when there is no
    /// entry; an entry whose session is over is dropped; otherwise its
    /// last activity moves up to `at_us` when that is later.
    pub fn get(&mut self, website_id: &str, visitor_id: &str, at_us: i64) -> (r: Option<String>)
        requires
            old(self).wf(),
        ensures
            final(self).wf(),
            final(self).max_entries == old(self).max_entries,
            (forall|j: int| !keyed(old(self)@, j, website_id@, visitor_id@)) ==> r is None && final(self)@
                == old(self)@,
            forall|j: int|
                keyed(old(self)@, j, website_id@, visitor_id@) ==> if expired(old(self)@[j].3, at_us) {
                    r is None && final(self)@ == old(self)@.remove(j)
                } else {
                    &&& r matches Some(sid) && sid@ == old(self)@[j].2
                    &&& final(self)@ == old(self)@.update(
                        j,
                        (
                            old(self)@[j].0,
                            old(self)@[j].1,
                            old(self)@[j].2,
                            if at_us > old(self)@[j].3 {
                                at_us
                            } else {
                                old(self)@[j].3
                            },
                        ),
                    )
                },
    {
        let ghost before = self@;
        let i = match self.position(website_id, visitor_id) {
            None => {
                return None;
            },
            Some(i) => i,
        };
        proof {
            assert forall|j: int| keyed(before, j, website_id@, visitor_id@) implies j == i by {
                if j != i {
                    assert(!(before[j].0 == before[i as int].0 && before[j].1 == before[i as int].1));
                }
            }
        }
        let mut e = self.entries.remove(i);
        assert(entry_view(e) == before[i as int]);
        if is_expired(e.last_seen_at_us, at_us) {
            assert(self@ =~= before.remove(i as int));
            proof {
                assert forall|a: int, b: int|
                    0 <= a < self@.len() && 0 <= b < self@.len() && a != b implies !(#[trigger] self@[a].0
                        == #[trigger] self@[b].0 && self@[a].1 == self@[b].1) by {
                    let a2 = if a < i { a } else { a + 1 };
                    let b2 = if b < i { b } else { b + 1 };
                    assert(self@[a] == before[a2] && self@[b] == before[b2]);
                }
            }
            return None;
        }
        if at_us > e.last_seen_at_us {
            e.last_seen_at_us = at_us;
        }
        let sid = copy_string(&e.session_id);
        self.entries.insert(i, e);
        let ghost upd = before.update(
            i as int,
            (
                before[i as int].0,
                before[i as int].1,
                before[i as int].2,
                if at_us > before[i as int].3 {
                    at_us
                } else {
                    before[i as int].3
                },
            ),
        );
        assert(self@ =~= upd);
        proof {
            assert forall|a: int, b: int|
                0 <= a < self@.len() && 0 <= b < self@.len() && a != b implies !(#[trigger] self@[a].0
                    == #[trigger] self@[b].0 && self@[a].1 == self@[b].1) by {
                assert(self@[a].0 == before[a].0 && self@[a].1 == before[a].1);
                assert(self@[b].0 == before[b].0 && self@[b].1 == before[b].1);
            }
        }
        Some(sid)
    }

    /// Caches a visitor's session. A visitor already cached has its entry
    /// replaced. For a new visitor, when the cache is full, sessions over at
    /// `last_seen_at_us` are dropped and then further entries until there is
    /// room; the new entry is added last.
    pub fn put(&mut self, website_id: &str, visitor_id: &str, session_id: &str, last_seen_at_us: i64)
        requires
            old(self).wf(),
        ensures
            final(self).wf(),
            final(self).max_entries == old(self).max_entries,
            forall|j: int|
                keyed(old(self)@, j, website_id@, visitor_id@) ==> final(self)@ == old(self)@.update(
                    j,
                    (website_id@, visitor_id@, session_id@, last_seen_at_us),
                ),
            (forall|j: int| !keyed(old(self)@, j, website_id@, visitor_id@)) ==> final(self)@.len() > 0
                && final(self)@.last() == (website_id@, visitor_id@, session_id@, last_seen_at_us),
            (forall|j: int| !keyed(old(self)@, j, website_id@, visitor_id@)) && old(self)@.len() < old(self).max_entries
                ==> final(self)@ == old(self)@.push((website_id@, visitor_id@, session_id@, last_seen_at_us)),
            (forall|j: int| !keyed(old(self)@, j, website_id@, visitor_id@)) && old(self)@.len() >= old(self).max_entries
                ==> final(self)@.len() <= if old(self).max_entries > 0 {
                    old(self).max_entries as int
                } else {
                    1
                },
            (forall|j: int| !keyed(old(self)@, j, website_id@, visitor_id@)) && old(self)@.len() >= old(self).max_entries
                ==> forall|k: int|
                    0 <= k < final(self)@.len() - 1 ==> kept_from(old(self)@, #[trigger] final(self)@[k], last_seen_at_us),
    {
        let ghost before = self@;
        let ghost max_before = self.max_entries;
        let new_entry = CachedSession {
            website_id: website_id.to_owned(),
            visitor_id: visitor_id.to_owned(),
            session_id: session_id.to_owned(),
            last_seen_at_us,
        };
        let ghost nv = (website_id@, visitor_id@, session_id@, last_seen_at_us);
        assert(entry_view(new_entry) == nv);
        match self.position(website_id, visitor_id) {
            Some(i) => {
                proof {
                    assert forall|j: int| keyed(before, j, website_id@, visitor_id@) implies j == i by {
                        if j != i {
                            assert(!(before[j].0 == before[i as int].0 && before[j].1 == before[i as int].1));
                        }
                    }
                }
                self.entries.set(i, new_entry);
                assert(self@ =~= before.update(i as int, nv));
                proof {
                    assert forall|a: int, b: int|
                        0 <= a < self@.len() && 0 <= b < self@.len() && a != b implies !(#[trigger] self@[a].0
                            == #[trigger] self@[b].0 && self@[a].1 == self@[b].1) by {
                        assert(self@[a].0 == before[a].0 && self@[a].1 == before[a].1);
                        assert(self@[b].0 == before[b].0 && self@[b].1 == before[b].1);
                    }
                }
                return;
            },
            None => {},
        }
        if self.entries.len() >= self.max_entries {
            // Keep the sessions still open at the new entry's time.
            let mut kept: Vec<CachedSession> = Vec::new();
            let mut old_entries: Vec<CachedSession> = Vec::new();
            std::mem::swap(&mut old_entries, &mut self.entries);
            let ghost ov = before;
            let ghost max = self.max_entries;
            let mut i: usize = 0;
            while i < old_entries.len()
                invariant
                    i <= old_entries@.len(),
                    self.max_entries == max,
                    ov == old_entries@.map_values(|c: CachedSession| entry_view(c)),
                    distinct_keys(ov),
                    forall|j: int| !keyed(ov, j, website_id@, visitor_id@),
                    forall|k: int|
                        0 <= k < kept@.len() ==> exists|j: int|
                            0 <= j < i && ov[j] == #[trigger] entry_view(kept@[k]) && !expired(ov[j].3, last_seen_at_us),
                    forall|a: int, b: int|
                        0 <= a < kept@.len() && 0 <= b < kept@.len() && a != b ==> !(entry_view(
                            #[trigger] kept@[a],
                        ).0 == entry_view(#[trigger] kept@[b]).0 && entry_view(kept@[a]).1 == entry_view(
                            kept@[b],
                        ).1),
                    forall|k: int|
                        0 <= k < kept@.len() ==> !(entry_view(#[trigger] kept@[k]).0 == website_id@ && entry_view(
                            kept@[k],
                        ).1 == visitor_id@),
                    forall|k: int|
                        0 <= k < kept@.len() ==> exists|j: int|
                            0 <= j < i && #[trigger] entry_view(kept@[k]).0 == ov[j].0 && entry_view(kept@[k]).1
                                == ov[j].1 && ov[j] == entry_view(kept@[k]),
                decreases old_entries@.len() - i,
            {
                let c = &old_entries[i];
                assert(ov[i as int] == entry_view(old_entries@[i as int]));
                assert(!keyed(ov, i as int, website_id@, visitor_id@));
                if !is_expired(c.last_seen_at_us, last_seen_at_us) {
                    let copy = CachedSession {
                        website_id: copy_string(&c.website_id),
                        visitor_id: copy_string(&c.visitor_id),
                        session_id: copy_string(&c.session_id),
                        last_seen_at_us: c.last_seen_at_us,
                    };
                    proof {
                        assert forall|k: int| 0 <= k < kept@.len() implies !(entry_view(kept@[k]).0 == ov[i as int].0
                            && entry_view(kept@[k]).1 == ov[i as int].1) by {
                            let j = choose|j: int|
                                0 <= j < i && #[trigger] entry_view(kept@[k]).0 == ov[j].0 && entry_view(kept@[k]).1
                                    == ov[j].1 && ov[j] == entry_view(kept@[k]);
                            assert(!(ov[j].0 == ov[i as int].0 && ov[j].1 == ov[i as int].1));
                        }
                    }
                    kept.push(copy);
                    proof {
                        assert(entry_view(kept@[kept@.len() - 1]) == ov[i as int]);
                    }
                }
                i = i + 1;
            }
            // Then make room by dropping entries from the end.
            self.entries = kept;
            let ghost kv = self@;
            assert(kv =~= kept@.map_values(|c: CachedSession| entry_view(c)));
            while self.entries.len() > 0 && self.entries.len() >= self.max_entries
                invariant
                    self.max_entries == max,
                    self@.len() <= kv.len(),
                    self@ == kv.take(self@.len() as int),
                decreases self@.len(),
            {
                self.entries.pop();
                assert(self@ =~= kv.take(self@.len() as int));
            }
            proof {
                assert forall|a: int, b: int|
                    0 <= a < self@.len() && 0 <= b < self@.len() && a != b implies !(#[trigger] self@[a].0
                        == #[trigger] self@[b].0 && self@[a].1 == self@[b].1) by {
                    assert(self@[a] == entry_view(kept@[a]) && self@[b] == entry_view(kept@[b]));
                }
                assert forall|k: int| 0 <= k < self@.len() implies !keyed(self@, k, website_id@, visitor_id@) by {
                    assert(self@[k] == entry_view(kept@[k]));
                }
                assert forall|k: int| 0 <= k < self@.len() implies kept_from(before, #[trigger] self@[k], last_seen_at_us) by {
                    assert(self@[k] == entry_view(kept@[k]));
                    let j = choose|j: int|
                        0 <= j < i && ov[j] == #[trigger] entry_view(kept@[k]) && !expired(ov[j].3, last_seen_at_us);
                    assert(0 <= j < before.len() && before[j] == self@[k] && !expired(before[j].3, last_seen_at_us));
                }
            }
        }
        let ghost mid = self@;
        assert(before.len() >= max_before ==> (mid.len() == 0 || mid.len() < max_before));
        assert(before.len() < max_before ==> mid == before);
        assert(self.max_entries == max_before);
        self.entries.push(new_entry);
        assert(self@ =~= mid.push(nv));
        proof {
            if before.len() >= max_before {
                assert forall|k: int| 0 <= k < self@.len() - 1 implies kept_from(before, #[trigger] self@[k], last_seen_at_us) by {
                    assert(self@[k] == mid[k]);
                    assert(kept_from(before, mid[k], last_seen_at_us));
                }
            }
            assert forall|a: int, b: int|
                0 <= a < self@.len() && 0 <= b < self@.len() && a != b implies !(#[trigger] self@[a].0
                    == #[trigger] self@[b].0 && self@[a].1 == self@[b].1) by {
                if a < mid.len() && b < mid.len() {
                    assert(self@[a] == mid[a] && self@[b] == mid[b]);
                } else if a < mid.len() {
                    assert(!keyed(mid, a, website_id@, visitor_id@));
                } else {
                    assert(!keyed(mid, b, website_id@, visitor_id@));
                }
            }
        }
    }
}

} // verus!
