//! Sliding-window rate limiting over a 60-second window, keyed by client
//! (requests) or by ingest key (event counts). Time is a monotonic clock
//! reading in nanoseconds supplied by the caller.
use vstd::prelude::*;

use crate::text::chars_eq;

verus! {

/// Width of the rate-limit window, in nanoseconds (60 s).
pub const RATE_WINDOW_NS: u64 = 60_000_000_000;

/// One admission recorded in a window: when, and how many units.
pub type Admission = (u64, usize);

/// Oldest instant still inside the window at `now` (saturating at zero).
pub open spec fn window_cutoff(now: u64) -> u64 {
    if now >= RATE_WINDOW_NS {
        (now - RATE_WINDOW_NS) as u64
    } else {
        0
    }
}

/// The window with its admissions older than `cutoff` removed from the front.
pub open spec fn prune(w: Seq<Admission>, cutoff: u64) -> Seq<Admission>
    decreases w.len(),
{
    if w.len() > 0 && w[0].0 < cutoff {
        prune(w.drop_first(), cutoff)
    } else {
        w
    }
}

/// Units admitted in a window.
pub open spec fn total(w: Seq<Admission>) -> nat
    decreases w.len(),
{
    if w.len() == 0 {
        0
    } else {
        w[0].1 as nat + total(w.drop_first())
    }
}

/// Every key with its window pruned, keys whose window empties dropped.
pub open spec fn prune_all(m: Map<Seq<char>, Seq<Admission>>, cutoff: u64) -> Map<
    Seq<char>,
    Seq<Admission>,
> {
    Map::new(
        |k: Seq<char>| m.contains_key(k) && prune(m[k], cutoff).len() > 0,
        |k: Seq<char>| prune(m[k], cutoff),
    )
}

/// The map after the key's own window is pruned (and dropped when empty),
/// and, when a new key would not fit, after every window is pruned.
pub open spec fn prepare(m: Map<Seq<char>, Seq<Admission>>, max_keys: usize, key: Seq<char>, now: u64) -> Map<
    Seq<char>,
    Seq<Admission>,
> {
    let c = window_cutoff(now);
    let m1 = if m.contains_key(key) {
        let w = prune(m[key], c);
        if w.len() == 0 {
            m.remove(key)
        } else {
            m.insert(key, w)
        }
    } else {
        m
    };
    if !m1.contains_key(key) && m1.len() >= max_keys {
        prune_all(m1, c)
    } else {
        m1
    }
}

/// The current window of `key` in `m`, empty when absent.
pub open spec fn window_of(m: Map<Seq<char>, Seq<Admission>>, key: Seq<char>) -> Seq<Admission> {
    if m.contains_key(key) {
        m[key]
    } else {
        Seq::empty()
    }
}

/// Next state and verdict of one request under a per-minute limit of
/// `max_per_min` requests for `key`.
pub open spec fn request_step(
    m: Map<Seq<char>, Seq<Admission>>,
    max_keys: usize,
    key: Seq<char>,
    max_per_min: usize,
    now: u64,
) -> (Map<Seq<char>, Seq<Admission>>, bool) {
    let m2 = prepare(m, max_keys, key, now);
    if !m2.contains_key(key) && m2.len() >= max_keys {
        (m2, false)
    } else {
        let w = window_of(m2, key);
        if w.len() >= max_per_min {
            (m2.insert(key, w), false)
        } else {
            (m2.insert(key, w.push((now, 1usize))), true)
        }
    }
}

/// Next state and admitted count of a batch of `requested` events under a
/// per-minute limit of `max_per_min` events for `key`.
pub open spec fn events_step(
    m: Map<Seq<char>, Seq<Admission>>,
    max_keys: usize,
    key: Seq<char>,
    requested: usize,
    max_per_min: usize,
    now: u64,
) -> (Map<Seq<char>, Seq<Admission>>, usize) {
    if requested == 0 || max_per_min == 0 {
        (m, 0)
    } else {
        let m2 = prepare(m, max_keys, key, now);
        if !m2.contains_key(key) && m2.len() >= max_keys {
            (m2, 0)
        } else {
            let w = window_of(m2, key);
            let current = total(w);
            if current >= max_per_min {
                (m2.insert(key, w), 0)
            } else {
                let admitted = if requested < max_per_min - current {
                    requested
                } else {
                    (max_per_min - current) as usize
                };
                (m2.insert(key, w.push((now, admitted))), admitted)
            }
        }
    }
}

proof fn lemma_total_push(w: Seq<Admission>, x: Admission)
    ensures
        total(w.push(x)) == total(w) + x.1,
    decreases w.len(),
{
    if w.len() > 0 {
        assert(w.push(x).drop_first() =~= w.drop_first().push(x));
        assert(w.push(x)[0] == w[0]);
        lemma_total_push(w.drop_first(), x);
    } else {
        assert(w.push(x).drop_first() =~= Seq::<Admission>::empty());
        assert(w.push(x)[0] == x);
        assert(total(Seq::<Admission>::empty()) == 0);
        assert(total(w) == 0);
    }
}

proof fn lemma_total_prune(w: Seq<Admission>, c: u64)
    ensures
        total(prune(w, c)) <= total(w),
        prune(w, c).len() <= w.len(),
    decreases w.len(),
{
    if w.len() > 0 && w[0].0 < c {
        lemma_total_prune(w.drop_first(), c);
    }
}

/// One key and its window.
pub struct RateEntry {
    pub key: Vec<char>,
    pub window: Vec<Admission>,
}

/// Sliding-window limiter state over at most `max_keys` keys.
pub struct SlidingWindowLimiter {
    entries: Vec<RateEntry>,
    max_keys: usize,
    model: Ghost<Map<Seq<char>, Seq<Admission>>>,
}

impl View for SlidingWindowLimiter {
    type V = Map<Seq<char>, Seq<Admission>>;

    closed spec fn view(&self) -> Map<Seq<char>, Seq<Admission>> {
        self.model@
    }
}

fn cutoff_exec(now: u64) -> (c: u64)
    ensures
        c == window_cutoff(now),
{
    if now >= RATE_WINDOW_NS {
        now - RATE_WINDOW_NS
    } else {
        0
    }
}

fn copy_window(w: &Vec<Admission>) -> (r: Vec<Admission>)
    ensures
        r@ == w@,
{
    let mut r: Vec<Admission> = Vec::new();
    let mut i: usize = 0;
    while i < w.len()
        invariant
            i <= w@.len(),
            r@ == w@.take(i as int),
        decreases w@.len() - i,
    {
        r.push(w[i]);
        i = i + 1;
        assert(r@ =~= w@.take(i as int));
    }
    assert(w@.take(i as int) =~= w@);
    r
}

fn prune_window(w: &mut Vec<Admission>, cutoff: u64)
    ensures
        final(w)@ == prune(old(w)@, cutoff),
{
    let ghost target = prune(w@, cutoff);
    while w.len() > 0 && w[0].0 < cutoff
        invariant
            prune(w@, cutoff) == target,
        decreases w@.len(),
    {
        let ghost before = w@;
        w.remove(0);
        assert(w@ =~= before.drop_first());
    }
}

fn window_total(w: &Vec<Admission>) -> (t: usize)
    ensures
        t == (if total(w@) <= usize::MAX {
            total(w@)
        } else {
            usize::MAX as nat
        }),
{
    let mut acc: usize = 0;
    let mut i: usize = 0;
    while i < w.len()
        invariant
            i <= w@.len(),
            acc == (if total(w@.take(i as int)) <= usize::MAX {
                total(w@.take(i as int))
            } else {
                usize::MAX as nat
            }),
        decreases w@.len() - i,
    {
        proof {
            assert(w@.take(i + 1) =~= w@.take(i as int).push(w@[i as int]));
            lemma_total_push(w@.take(i as int), w@[i as int]);
        }
        let c = w[i].1;
        acc = if acc > usize::MAX - c {
            usize::MAX
        } else {
            acc + c
        };
        i = i + 1;
    }
    assert(w@.take(i as int) =~= w@);
    acc
}

proof fn lemma_total_take(w: Seq<Admission>, i: int)
    requires
        0 <= i <= w.len(),
    ensures
        total(w.take(i)) <= total(w),
    decreases w.len() - i,
{
    if i < w.len() {
        lemma_total_take(w, i + 1);
        assert(w.take(i + 1) =~= w.take(i).push(w[i]));
        lemma_total_push(w.take(i), w[i]);
    } else {
        assert(w.take(i) =~= w);
    }
}

impl SlidingWindowLimiter {
    /// Internal consistency of the entries with the abstract map.
    pub closed spec fn wf(&self) -> bool {
        let es = self.entries@;
        let m = self.model@;
        &&& forall|i: int|
            0 <= i < es.len() ==> m.contains_key(#[trigger] es[i].key@) && m[es[i].key@]
                == es[i].window@
        &&& forall|k: Seq<char>|
            m.contains_key(k) ==> exists|i: int| 0 <= i < es.len() && #[trigger] es[i].key@ == k
        &&& forall|i: int, j: int| 0 <= i < j < es.len() ==> (#[trigger] es[i]).key@ != (#[trigger] es[j]).key@
        &&& m.dom().finite()
        &&& m.len() == es.len()
    }

    /// The key budget the limiter was made with.
    pub closed spec fn key_budget(&self) -> usize {
        self.max_keys
    }

    /// An empty limiter tracking at most `max_keys` keys.
    pub fn new(max_keys: usize) -> (l: Self)
        ensures
            l.wf(),
            l@ == Map::<Seq<char>, Seq<Admission>>::empty(),
            l.key_budget() == max_keys,
    {
        SlidingWindowLimiter { entries: Vec::new(), max_keys, model: Ghost(Map::empty()) }
    }

    /// Number of keys currently tracked.
    pub fn len(&self) -> (n: usize)
        requires
            self.wf(),
        ensures
            n == self@.len(),
    {
        self.entries.len()
    }

    fn find(&self, key: &[char]) -> (r: Option<usize>)
        requires
            self.wf(),
        ensures
            match r {
                Some(i) => i < self.entries@.len() && self.entries@[i as int].key@ == key@,
                None => !self@.contains_key(key@),
            },
    {
        let mut i: usize = 0;
        while i < self.entries.len()
            invariant
                self.wf(),
                i <= self.entries@.len(),
                forall|j: int| 0 <= j < i ==> self.entries@[j].key@ != key@,
            decreases self.entries@.len() - i,
        {
            if chars_eq(self.entries[i].key.as_slice(), key) {
                return Some(i);
            }
            i = i + 1;
        }
        proof {
            if self@.contains_key(key@) {
                let j = choose|j: int|
                    0 <= j < self.entries@.len() && #[trigger] self.entries@[j].key@ == key@;
            }
        }
        None
    }

    /// Replaces the window of the entry at `i`.
    fn set_window(&mut self, i: usize, w: Vec<Admission>)
        requires
            old(self).wf(),
            i < old(self).entries@.len(),
        ensures
            final(self).wf(),
            final(self)@ == old(self)@.insert(old(self).entries@[i as int].key@, w@),
            final(self).entries@.len() == old(self).entries@.len(),
            final(self).entries@[i as int].key@ == old(self).entries@[i as int].key@,
            final(self).entries@[i as int].window@ == w@,
            forall|j: int|
                0 <= j < old(self).entries@.len() && j != i ==> final(self).entries@[j] == old(
                    self,
                ).entries@[j],
            final(self).max_keys == old(self).max_keys,
    {
        let ghost old_entries = self.entries@;
        let ghost m = self.model@;
        let ghost k = old_entries[i as int].key@;
        let mut e = RateEntry { key: Vec::new(), window: Vec::new() };
        self.entries.set_and_swap(i, &mut e);
        e.window = w;
        self.entries.set(i, e);
        self.model = Ghost(m.insert(k, w@));
        proof {
            let es = self.entries@;
            assert(m.dom().insert(k) =~= m.dom());
            assert forall|j: int| 0 <= j < es.len() implies self.model@.contains_key(
                #[trigger] es[j].key@,
            ) && self.model@[es[j].key@] == es[j].window@ by {
                if j != i {
                    assert(es[j] == old_entries[j]);
                }
            }
            assert forall|kk: Seq<char>| self.model@.contains_key(kk) implies exists|j: int|
                0 <= j < es.len() && #[trigger] es[j].key@ == kk by {
                if kk == k {
                    assert(es[i as int].key@ == kk);
                } else {
                    let j = choose|j: int|
                        0 <= j < old_entries.len() && #[trigger] old_entries[j].key@ == kk;
                    assert(es[j] == old_entries[j]);
                }
            }
            assert forall|a: int, b: int| 0 <= a < b < es.len() implies (
            #[trigger] es[a]).key@ != (#[trigger] es[b]).key@ by {
                assert(es[a].key@ == old_entries[a].key@);
                assert(es[b].key@ == old_entries[b].key@);
            }
        }
    }

    /// Removes the entry at `i`.
    fn remove_entry(&mut self, i: usize)
        requires
            old(self).wf(),
            i < old(self).entries@.len(),
        ensures
            final(self).wf(),
            final(self)@ == old(self)@.remove(old(self).entries@[i as int].key@),
            final(self).entries@ == old(self).entries@.remove(i as int),
            final(self).max_keys == old(self).max_keys,
    {
        let ghost old_entries = self.entries@;
        let ghost m = self.model@;
        let ghost k = old_entries[i as int].key@;
        self.entries.remove(i);
        self.model = Ghost(m.remove(k));
        proof {
            let es = self.entries@;
            assert forall|j: int| 0 <= j < es.len() implies self.model@.contains_key(
                #[trigger] es[j].key@,
            ) && self.model@[es[j].key@] == es[j].window@ by {
                if j < i {
                    assert(es[j] == old_entries[j]);
                    assert(old_entries[j].key@ != old_entries[i as int].key@);
                } else {
                    assert(es[j] == old_entries[j + 1]);
                    assert(old_entries[i as int].key@ != old_entries[j + 1].key@);
                }
            }
            assert forall|kk: Seq<char>| self.model@.contains_key(kk) implies exists|j: int|
                0 <= j < es.len() && #[trigger] es[j].key@ == kk by {
                let j = choose|j: int|
                    0 <= j < old_entries.len() && #[trigger] old_entries[j].key@ == kk;
                assert(j != i);
                if j < i {
                    assert(es[j] == old_entries[j]);
                } else {
                    assert(es[j - 1] == old_entries[j]);
                }
            }
            assert forall|a: int, b: int| 0 <= a < b < es.len() implies (
            #[trigger] es[a]).key@ != (#[trigger] es[b]).key@ by {
                let oa = if a < i {
                    a
                } else {
                    a + 1
                };
                let ob = if b < i {
                    b
                } else {
                    b + 1
                };
                assert(es[a] == old_entries[oa]);
                assert(es[b] == old_entries[ob]);
            }
        }
    }

    /// Adds a new key with the given window.
    fn push_entry(&mut self, key: Vec<char>, w: Vec<Admission>)
        requires
            old(self).wf(),
            !old(self)@.contains_key(key@),
        ensures
            final(self).wf(),
            final(self)@ == old(self)@.insert(key@, w@),
            final(self).max_keys == old(self).max_keys,
    {
        let ghost old_entries = self.entries@;
        let ghost m = self.model@;
        let ghost k = key@;
        let e = RateEntry { key, window: w };
        self.entries.push(e);
        self.model = Ghost(m.insert(k, e.window@));
        proof {
            let es = self.entries@;
            let n = old_entries.len() as int;
            assert(es[n] == e);
            assert forall|j: int| 0 <= j < es.len() implies self.model@.contains_key(
                #[trigger] es[j].key@,
            ) && self.model@[es[j].key@] == es[j].window@ by {
                if j < n {
                    assert(es[j] == old_entries[j]);
                }
            }
            assert forall|kk: Seq<char>| self.model@.contains_key(kk) implies exists|j: int|
                0 <= j < es.len() && #[trigger] es[j].key@ == kk by {
                if kk == k {
                    assert(es[n].key@ == kk);
                } else {
                    let j = choose|j: int|
                        0 <= j < old_entries.len() && #[trigger] old_entries[j].key@ == kk;
                    assert(es[j] == old_entries[j]);
                }
            }
            assert forall|a: int, b: int| 0 <= a < b < es.len() implies (
            #[trigger] es[a]).key@ != (#[trigger] es[b]).key@ by {
                assert(es[a] == old_entries[a]);
                if b < n {
                    assert(es[b] == old_entries[b]);
                }
            }
        }
    }

    /// Prunes every window and drops the keys whose window empties.
    fn prune_everything(&mut self, cutoff: u64)
        requires
            old(self).wf(),
        ensures
            final(self).wf(),
            final(self)@ == prune_all(old(self)@, cutoff),
            final(self).max_keys == old(self).max_keys,
    {
        let ghost m0 = self.model@;
        let mut i: usize = 0;
        while i < self.entries.len()
            invariant
                self.wf(),
                self.max_keys == old(self).max_keys,
                m0 == old(self)@,
                i <= self.entries@.len(),
                forall|j: int|
                    0 <= j < i ==> prune(#[trigger] self.entries@[j].window@, cutoff)
                        == self.entries@[j].window@ && self.entries@[j].window@.len() > 0,
                forall|k: Seq<char>|
                    #[trigger] self@.contains_key(k) ==> m0.contains_key(k) && (self@[k] == m0[k]
                        || self@[k] == prune(m0[k], cutoff)),
                forall|k: Seq<char>|
                    m0.contains_key(k) && !#[trigger] self@.contains_key(k) ==> prune(
                        m0[k],
                        cutoff,
                    ).len() == 0,
            decreases self.entries@.len() - i,
        {
            let mut w = copy_window(&self.entries[i].window);
            assert(w@ =~= self.entries@[i as int].window@);
            let ghost k = self.entries@[i as int].key@;
            let ghost before = self@;
            prune_window(&mut w, cutoff);
            proof {
                lemma_prune_idem(self.entries@[i as int].window@, cutoff);
                lemma_total_prune(self.entries@[i as int].window@, cutoff);
                if before[k] == prune(m0[k], cutoff) {
                    lemma_prune_idem(m0[k], cutoff);
                }
            }
            if w.len() == 0 {
                let ghost old_entries = self.entries@;
                self.remove_entry(i);
                proof {
                    assert forall|j: int| 0 <= j < i implies prune(
                        #[trigger] self.entries@[j].window@,
                        cutoff,
                    ) == self.entries@[j].window@ && self.entries@[j].window@.len() > 0 by {
                        assert(self.entries@[j] == old_entries[j]);
                    }
                }
            } else {
                let ghost old_entries = self.entries@;
                self.set_window(i, w);
                proof {
                    assert forall|j: int| 0 <= j < i + 1 implies prune(
                        #[trigger] self.entries@[j].window@,
                        cutoff,
                    ) == self.entries@[j].window@ && self.entries@[j].window@.len() > 0 by {
                        if j < i {
                            assert(self.entries@[j] == old_entries[j]);
                        }
                    }
                }
                i = i + 1;
            }
        }
        proof {
            let target = prune_all(m0, cutoff);
            assert forall|k: Seq<char>| #[trigger] self@.contains_key(k) implies self@[k] == prune(
                m0[k],
                cutoff,
            ) by {
                let j = choose|j: int|
                    0 <= j < self.entries@.len() && #[trigger] self.entries@[j].key@ == k;
                assert(prune(self.entries@[j].window@, cutoff) == self.entries@[j].window@);
                if self@[k] == m0[k] {
                }
            }
            assert forall|k: Seq<char>| self@.contains_key(k) implies self@[k].len() > 0 by {
                let j = choose|j: int|
                    0 <= j < self.entries@.len() && #[trigger] self.entries@[j].key@ == k;
                assert(self.entries@[j].window@.len() > 0);
            }
            assert(self@ =~= target);
        }
    }

    /// Prunes the key's window, and when a new key would not fit, all
    /// windows; returns the key's position when it is tracked afterwards.
    fn prepare_key(&mut self, key: &[char], now: u64) -> (r: Option<usize>)
        requires
            old(self).wf(),
        ensures
            final(self).wf(),
            final(self)@ == prepare(old(self)@, old(self).max_keys, key@, now),
            final(self).max_keys == old(self).max_keys,
            match r {
                Some(i) => i < final(self).entries@.len() && final(self).entries@[i as int].key@
                    == key@,
                None => !final(self)@.contains_key(key@),
            },
    {
        let cutoff = cutoff_exec(now);
        if let Some(i) = self.find(key) {
            let mut w = copy_window(&self.entries[i].window);
            assert(w@ =~= self.entries@[i as int].window@);
            proof {
                lemma_total_prune(w@, cutoff);
            }
            prune_window(&mut w, cutoff);
            if w.len() == 0 {
                self.remove_entry(i);
            } else {
                self.set_window(i, w);
            }
        }
        let pos = self.find(key);
        if pos.is_none() && self.entries.len() >= self.max_keys {
            self.prune_everything(cutoff);
            self.find(key)
        } else {
            pos
        }
    }

    /// Admits one request of `key` when fewer than `max_per_min` of its
    /// requests fall in the last 60 seconds and the key fits the key budget.
    pub fn check(&mut self, key: &[char], max_per_min: usize, now: u64) -> (allowed: bool)
        requires
            old(self).wf(),
        ensures
            final(self).wf(),
            final(self).key_budget() == old(self).key_budget(),
            (final(self)@, allowed) == request_step(
                old(self)@,
                old(self).key_budget(),
                key@,
                max_per_min,
                now,
            ),
    {
        let pos = self.prepare_key(key, now);
        let ghost m2 = self@;
        match pos {
            None => {
                if self.entries.len() >= self.max_keys {
                    return false;
                }
                let mut w: Vec<Admission> = Vec::new();
                if 0 >= max_per_min {
                    let k = crate::text::sub_chars(key, 0, key.len());
                    assert(key@.subrange(0, key@.len() as int) =~= key@);
                    self.push_entry(k, w);
                    assert(w@ =~= window_of(m2, key@));
                    return false;
                }
                w.push((now, 1));
                proof {
                    assert(w@ =~= Seq::<Admission>::empty().push((now, 1usize)));
                    lemma_total_push(Seq::<Admission>::empty(), (now, 1usize));
                }
                let k = crate::text::sub_chars(key, 0, key.len());
                assert(key@.subrange(0, key@.len() as int) =~= key@);
                self.push_entry(k, w);
                true
            },
            Some(i) => {
                let mut w = copy_window(&self.entries[i].window);
                assert(w@ =~= self.entries@[i as int].window@);
                assert(w@ == window_of(m2, key@));
                if w.len() >= max_per_min {
                    self.set_window(i, w);
                    return false;
                }
                w.push((now, 1));
                self.set_window(i, w);
                true
            },
        }
    }
}

proof fn lemma_prune_idem(w: Seq<Admission>, c: u64)
    ensures
        prune(prune(w, c), c) == prune(w, c),
    decreases w.len(),
{
    if w.len() > 0 && w[0].0 < c {
        lemma_prune_idem(w.drop_first(), c);
    }
}

impl SlidingWindowLimiter {
    /// Admits up to `requested` events of `key` so that the events admitted
    /// in the last 60 seconds stay within `max_per_min`; returns how many.
    pub fn admit_events(
        &mut self,
        key: &[char],
        requested: usize,
        max_per_min: usize,
        now: u64,
    ) -> (admitted: usize)
        requires
            old(self).wf(),
        ensures
            final(self).wf(),
            final(self).key_budget() == old(self).key_budget(),
            (final(self)@, admitted) == events_step(
                old(self)@,
                old(self).key_budget(),
                key@,
                requested,
                max_per_min,
                now,
            ),
    {
        if requested == 0 || max_per_min == 0 {
            return 0;
        }
        let pos = self.prepare_key(key, now);
        let ghost m2 = self@;
        let mut w: Vec<Admission> = match pos {
            None => {
                if self.entries.len() >= self.max_keys {
                    return 0;
                }
                Vec::new()
            },
            Some(i) => copy_window(&self.entries[i].window),
        };
        assert(w@ == window_of(m2, key@));
        let current = window_total(&w);
        if current >= max_per_min {
            match pos {
                None => {
                    let k = crate::text::sub_chars(key, 0, key.len());
                    assert(key@.subrange(0, key@.len() as int) =~= key@);
                    self.push_entry(k, w);
                },
                Some(i) => {
                    self.set_window(i, w);
                },
            }
            return 0;
        }
        let remaining = max_per_min - current;
        let admitted = if requested < remaining {
            requested
        } else {
            remaining
        };
        w.push((now, admitted));
        match pos {
            None => {
                let k = crate::text::sub_chars(key, 0, key.len());
                assert(key@.subrange(0, key@.len() as int) =~= key@);
                self.push_entry(k, w);
            },
            Some(i) => {
                self.set_window(i, w);
            },
        }
        admitted
    }
}

/// Decimal digits of a number.
pub open spec fn decimal(n: nat) -> Seq<char>
    decreases n,
{
    if n < 10 {
        seq![(('0' as u32) + n) as char]
    } else {
        decimal(n / 10).push((('0' as u32) + (n % 10)) as char)
    }
}

/// Decimal rendering of a `u64` (what `to_string` gives).
pub fn u64_decimal(n: u64) -> (r: Vec<char>)
    ensures
        r@ == decimal(n as nat),
    decreases n,
{
    let d = (n % 10) as u8;
    let c = (48u8 + d) as char;
    if n < 10 {
        let r = vec![c];
        assert(r@ =~= decimal(n as nat));
        r
    } else {
        let mut r = u64_decimal(n / 10);
        r.push(c);
        r
    }
}

/// Key of the request limiter for a client under a given limit:
/// the limit, a colon, and the client address.
pub open spec fn request_key(max_per_min: usize, client: Seq<char>) -> Seq<char> {
    decimal(max_per_min as nat).push(':') + client
}

/// Builds [`request_key`].
pub fn request_key_exec(max_per_min: usize, client: &str) -> (k: Vec<char>)
    ensures
        k@ == request_key(max_per_min, client@),
{
    let mut k = u64_decimal(max_per_min as u64);
    k.push(':');
    let c = crate::text::chars_of(client);
    let mut i: usize = 0;
    let ghost base = k@;
    while i < c.len()
        invariant
            i <= c@.len(),
            k@ == base + c@.take(i as int),
        decreases c@.len() - i,
    {
        k.push(c[i]);
        i = i + 1;
        assert(k@ =~= base + c@.take(i as int));
    }
    assert(c@.take(i as int) =~= c@);
    k
}

/// Admits one request of `client` under `max_per_min` requests per minute,
/// keyed by the limit and the client.
pub fn check_rate_limit_with_max(
    limiter: &mut SlidingWindowLimiter,
    client: &str,
    max_per_min: usize,
    now: u64,
) -> (allowed: bool)
    requires
        old(limiter).wf(),
    ensures
        final(limiter).wf(),
        final(limiter).key_budget() == old(limiter).key_budget(),
        (final(limiter)@, allowed) == request_step(
            old(limiter)@,
            old(limiter).key_budget(),
            request_key(max_per_min, client@),
            max_per_min,
            now,
        ),
{
    let key = request_key_exec(max_per_min, client);
    limiter.check(key.as_slice(), max_per_min, now)
}

/// Admits one request of `client` under the collect limit of 60 per minute.
pub fn check_rate_limit(
    limiter: &mut SlidingWindowLimiter,
    client: &str,
    now: u64,
) -> (allowed: bool)
    requires
        old(limiter).wf(),
    ensures
        final(limiter).wf(),
        final(limiter).key_budget() == old(limiter).key_budget(),
        (final(limiter)@, allowed) == request_step(
            old(limiter)@,
            old(limiter).key_budget(),
            request_key(60, client@),
            60,
            now,
        ),
{
    check_rate_limit_with_max(limiter, client, 60, now)
}

/// Admits up to `requested` events of `key` under `max_per_min` per minute.
pub fn admit_events_rate_limit_with_max(
    limiter: &mut SlidingWindowLimiter,
    key: &str,
    requested: usize,
    max_per_min: usize,
    now: u64,
) -> (admitted: usize)
    requires
        old(limiter).wf(),
    ensures
        final(limiter).wf(),
        final(limiter).key_budget() == old(limiter).key_budget(),
        (final(limiter)@, admitted) == events_step(
            old(limiter)@,
            old(limiter).key_budget(),
            key@,
            requested,
            max_per_min,
            now,
        ),
{
    let k = crate::text::chars_of(key);
    limiter.admit_events(k.as_slice(), requested, max_per_min, now)
}

proof fn lemma_prepare_bounded(m: Map<Seq<char>, Seq<Admission>>, mk: usize, key: Seq<char>, now: u64)
    requires
        m.dom().finite(),
    ensures
        prepare(m, mk, key, now).dom().finite(),
        prepare(m, mk, key, now).len() <= m.len(),
        prepare(m, mk, key, now).contains_key(key) ==> m.contains_key(key),
{
    let c = window_cutoff(now);
    let m1 = if m.contains_key(key) {
        let w = prune(m[key], c);
        if w.len() == 0 {
            m.remove(key)
        } else {
            m.insert(key, w)
        }
    } else {
        m
    };
    if m.contains_key(key) {
        assert(m.dom().insert(key) =~= m.dom());
    }
    assert(m1.dom().finite());
    assert(m1.len() <= m.len());
    if !m1.contains_key(key) && m1.len() >= mk {
        let p = prune_all(m1, c);
        assert(p.dom().subset_of(m1.dom()));
        vstd::set_lib::lemma_len_subset(p.dom(), m1.dom());
    }
}

/// An admitted request never leaves more than `max_per_min` requests of
/// its key inside the window, and a rejected one adds none.
pub proof fn lemma_request_within_limit(
    m: Map<Seq<char>, Seq<Admission>>,
    max_keys: usize,
    key: Seq<char>,
    max_per_min: usize,
    now: u64,
)
    ensures
        ({
            let (next, allowed) = request_step(m, max_keys, key, max_per_min, now);
            &&& allowed ==> next.contains_key(key) && next[key].len() <= max_per_min
            &&& allowed ==> next[key].last() == (now, 1usize)
            &&& !allowed ==> window_of(next, key) == window_of(
                prepare(m, max_keys, key, now),
                key,
            )
        }),
{
}

/// Admitted events never push the key's window past `max_per_min`, never
/// exceed the request, and a full window admits none.
pub proof fn lemma_events_within_limit(
    m: Map<Seq<char>, Seq<Admission>>,
    max_keys: usize,
    key: Seq<char>,
    requested: usize,
    max_per_min: usize,
    now: u64,
)
    ensures
        ({
            let (next, admitted) = events_step(m, max_keys, key, requested, max_per_min, now);
            &&& admitted <= requested
            &&& admitted > 0 ==> next.contains_key(key) && total(next[key]) <= max_per_min
            &&& admitted > 0 ==> total(next[key]) == total(
                window_of(prepare(m, max_keys, key, now), key),
            ) + admitted
            &&& total(window_of(prepare(m, max_keys, key, now), key)) >= max_per_min
                ==> admitted == 0
        }),
{
    let (next, admitted) = events_step(m, max_keys, key, requested, max_per_min, now);
    if admitted > 0 {
        let w = window_of(prepare(m, max_keys, key, now), key);
        lemma_total_push(w, (now, admitted));
    }
}

/// The limiter never tracks more keys than its budget: a step from a
/// state within the budget stays within it.
pub proof fn lemma_key_budget_kept(
    m: Map<Seq<char>, Seq<Admission>>,
    max_keys: usize,
    key: Seq<char>,
    requested: usize,
    max_per_min: usize,
    now: u64,
)
    requires
        m.dom().finite(),
        m.len() <= max_keys,
    ensures
        request_step(m, max_keys, key, max_per_min, now).0.len() <= max_keys,
        events_step(m, max_keys, key, requested, max_per_min, now).0.len() <= max_keys,
{
    lemma_prepare_bounded(m, max_keys, key, now);
    let m2 = prepare(m, max_keys, key, now);
    if m2.contains_key(key) {
        assert(m2.dom().insert(key) =~= m2.dom());
    }
}

/// A request is admitted whenever its key has room: fewer than
/// `max_per_min` requests in the key's window after pruning, and the key
/// is tracked or there is room for another key.
pub proof fn lemma_request_admitted_under_limit(
    m: Map<Seq<char>, Seq<Admission>>,
    max_keys: usize,
    key: Seq<char>,
    max_per_min: usize,
    now: u64,
)
    requires
        window_of(prepare(m, max_keys, key, now), key).len() < max_per_min,
        prepare(m, max_keys, key, now).contains_key(key) || prepare(m, max_keys, key, now).len() < max_keys,
    ensures
        request_step(m, max_keys, key, max_per_min, now).1,
{
}

/// A batch of events is admitted as far as its key has room: when the key
/// is tracked or there is room for another key, the admitted count is the
/// smaller of the request and what the window has left.
pub proof fn lemma_events_admitted_under_limit(
    m: Map<Seq<char>, Seq<Admission>>,
    max_keys: usize,
    key: Seq<char>,
    requested: usize,
    max_per_min: usize,
    now: u64,
)
    requires
        prepare(m, max_keys, key, now).contains_key(key) || prepare(m, max_keys, key, now).len() < max_keys,
        total(window_of(prepare(m, max_keys, key, now), key)) < max_per_min,
    ensures
        ({
            let left = max_per_min - total(window_of(prepare(m, max_keys, key, now), key));
            events_step(m, max_keys, key, requested, max_per_min, now).1 == if requested < left {
                requested as int
            } else {
                left
            }
        }),
{
}

/// The state and verdicts after a run of requests for `key` at the given
/// times, in order.
pub open spec fn run_requests(
    m: Map<Seq<char>, Seq<Admission>>,
    max_keys: usize,
    key: Seq<char>,
    max_per_min: usize,
    times: Seq<u64>,
) -> (Map<Seq<char>, Seq<Admission>>, Seq<bool>)
    decreases times.len(),
{
    if times.len() == 0 {
        (m, Seq::empty())
    } else {
        let (m1, v) = run_requests(m, max_keys, key, max_per_min, times.drop_last());
        let (m2, a) = request_step(m1, max_keys, key, max_per_min, times.last());
        (m2, v.push(a))
    }
}

/// The requests of a run fall within one window: in order, and the last no
/// more than the window's width after the first.
pub open spec fn within_one_window(times: Seq<u64>) -> bool {
    &&& times.len() > 0
    &&& forall|i: int, j: int| 0 <= i <= j < times.len() ==> times[i] <= times[j]
    &&& times.last() - times[0] <= RATE_WINDOW_NS
}

proof fn lemma_run_prefix(
    m: Map<Seq<char>, Seq<Admission>>,
    max_keys: usize,
    key: Seq<char>,
    max_per_min: usize,
    times: Seq<u64>,
)
    requires
        max_per_min >= 1,
        within_one_window(times),
        !prepare(m, max_keys, key, times[0]).contains_key(key),
        prepare(m, max_keys, key, times[0]).len() < max_keys,
    ensures
        ({
            let (mm, v) = run_requests(m, max_keys, key, max_per_min, times);
            let n = times.len();
            &&& v.len() == n
            &&& forall|i: int| 0 <= i < n ==> v[i] == (i < max_per_min)
            &&& mm.contains_key(key)
            &&& mm[key].len() == if n < max_per_min { n } else { max_per_min as nat }
            &&& mm[key][0].0 == times[0]
        }),
    decreases times.len(),
{
    let n = times.len();
    if n == 1 {
        let t = times.drop_last();
        assert(t.len() == 0);
        assert(run_requests(m, max_keys, key, max_per_min, t) == (m, Seq::<bool>::empty()));
        assert(times.last() == times[0]);
        let (mm, v) = run_requests(m, max_keys, key, max_per_min, times);
        assert(v =~= seq![true]);
    } else {
        let prev = times.drop_last();
        assert(within_one_window(prev)) by {
            assert(prev[0] == times[0]);
            assert(prev.last() == times[n - 2]);
            assert(times[n - 2] <= times[n - 1]);
        }
        assert(prev[0] == times[0]);
        lemma_run_prefix(m, max_keys, key, max_per_min, prev);
        let (m1, v1) = run_requests(m, max_keys, key, max_per_min, prev);
        let t = times.last();
        let c = window_cutoff(t);
        assert(c <= times[0]);
        let w = m1[key];
        assert(w.len() > 0);
        assert(prune(w, c) == w);
        let m2 = prepare(m1, max_keys, key, t);
        assert(m2 =~= m1.insert(key, w));
        assert(window_of(m2, key) == w);
        let (m3, a) = request_step(m1, max_keys, key, max_per_min, t);
        let (mm, v) = run_requests(m, max_keys, key, max_per_min, times);
        assert(v == v1.push(a));
        assert forall|i: int| 0 <= i < n implies v[i] == (i < max_per_min) by {
            if i < n - 1 {
                assert(v[i] == v1[i]);
            }
        }
    }
}

/// In one window, of the requests for a key with no admission still in its
/// window (and room for it among the tracked keys), exactly the first
/// `max_per_min` are admitted and the rest refused: a slot frees only once
/// an admitted request is more than a window old.
pub proof fn lemma_first_requests_admitted(
    m: Map<Seq<char>, Seq<Admission>>,
    max_keys: usize,
    key: Seq<char>,
    max_per_min: usize,
    times: Seq<u64>,
)
    requires
        max_per_min >= 1,
        within_one_window(times),
        !prepare(m, max_keys, key, times[0]).contains_key(key),
        prepare(m, max_keys, key, times[0]).len() < max_keys,
    ensures
        ({
            let (_, v) = run_requests(m, max_keys, key, max_per_min, times);
            &&& v.len() == times.len()
            &&& forall|i: int| 0 <= i < times.len() ==> v[i] == (i < max_per_min)
        }),
{
    lemma_run_prefix(m, max_keys, key, max_per_min, times);
}

} // verus!
