//! Ingest queue accounting: global capacity grants, per-website and
//! per-tenant event counts, per-website queue reservations and their
//! release, write-ahead-log cursor advancement, session markers, and the
//! user-agent key hash of the override cache.
use vstd::prelude::*;
use vstd::string::StringSliceAdditionalSpecFns;

use crate::countmap::{lists_map, CountMap};
use crate::text::{chars_eq, chars_of};

verus! {

/// Session id of events whose session is resolved by the ingest worker.
pub const SESSION_ID_PENDING: &'static str = "__pending__";

/// Number of events granted from the global ingest queue: none when
/// nothing is requested or the queue is full, else as many as requested up
/// to the free room.
pub open spec fn ingest_grant(current: usize, capacity: usize, requested: usize) -> usize {
    if requested == 0 || current >= capacity {
        0
    } else if requested < capacity - current {
        requested
    } else {
        (capacity - current) as usize
    }
}

/// Decides how many events the global ingest queue grants.
pub fn reserve_ingest_capacity(current: usize, capacity: usize, requested: usize) -> (granted: usize)
    ensures
        granted == ingest_grant(current, capacity, requested),
        granted <= requested,
        current + granted <= capacity || granted == 0,
{
    if requested == 0 {
        return 0;
    }
    if current >= capacity {
        return 0;
    }
    let remaining = capacity - current;
    if requested < remaining {
        requested
    } else {
        remaining
    }
}

/// Queue occupancy after `count` events leave it (saturating at zero).
pub fn release_ingest_capacity(current: usize, count: usize) -> (next: usize)
    ensures
        next == (if current >= count {
            current - count
        } else {
            0
        }),
{
    if current >= count {
        current - count
    } else {
        0
    }
}

/// A grant followed by the release of the same number of events leaves the
/// queue occupancy where it was.
pub proof fn lemma_grant_then_release(current: usize, capacity: usize, requested: usize)
    ensures
        ({
            let g = ingest_grant(current, capacity, requested);
            let after = (current + g) as usize;
            (if after >= g {
                after - g
            } else {
                0
            }) == current
        }),
{
}

/// Number of occurrences of `k` in `keys`.
pub open spec fn count_of(keys: Seq<Seq<char>>, k: Seq<char>) -> nat
    decreases keys.len(),
{
    if keys.len() == 0 {
        0
    } else {
        count_of(keys.drop_last(), k) + if keys.last() == k {
            1nat
        } else {
            0nat
        }
    }
}

/// Occurrence count of every non-empty key of `keys`.
pub open spec fn key_counts(keys: Seq<Seq<char>>) -> Map<Seq<char>, usize> {
    Map::new(
        |k: Seq<char>| k.len() > 0 && count_of(keys, k) > 0,
        |k: Seq<char>| count_of(keys, k) as usize,
    )
}

proof fn lemma_count_of_le(keys: Seq<Seq<char>>, k: Seq<char>)
    ensures
        count_of(keys, k) <= keys.len(),
    decreases keys.len(),
{
    if keys.len() > 0 {
        lemma_count_of_le(keys.drop_last(), k);
    }
}

/// Counts the non-empty keys.
pub fn count_by_key(keys: &[Vec<char>]) -> (m: CountMap)
    ensures
        m.wf(),
        m@ == key_counts(keys@.map_values(|k: Vec<char>| k@)),
{
    let ghost views = keys@.map_values(|k: Vec<char>| k@);
    let mut m = CountMap::new();
    let mut i: usize = 0;
    while i < keys.len()
        invariant
            m.wf(),
            i <= keys@.len(),
            views == keys@.map_values(|k: Vec<char>| k@),
            m@ == key_counts(views.take(i as int)),
        decreases keys@.len() - i,
    {
        let ghost prefix = views.take(i as int);
        let ghost next = views.take(i + 1);
        assert(next.drop_last() =~= prefix);
        assert(next.last() == keys@[i as int]@);
        let k = keys[i].as_slice();
        if k.len() > 0 {
            let current = match m.get(k) {
                Some(c) => c,
                None => 0,
            };
            proof {
                lemma_count_of_le(prefix, k@);
                if !m@.contains_key(k@) {
                    assert(count_of(prefix, k@) == 0);
                }
            }
            m.insert(k, current + 1);
        }
        i = i + 1;
        proof {
            assert forall|kk: Seq<char>| #[trigger] count_of(next, kk) == count_of(prefix, kk) + (
            if kk == keys@[i - 1]@ {
                1nat
            } else {
                0nat
            }) by {}
            assert(m@ =~= key_counts(next));
        }
    }
    assert(views.take(i as int) =~= views);
    m
}

/// Event counts per non-empty website id, each website once.
pub fn count_events_by_website(website_ids: &[String]) -> (r: Vec<(String, usize)>)
    ensures
        lists_map(r@, key_counts(website_ids@.map_values(|s: String| s@))),
{
    let mut keys: Vec<Vec<char>> = Vec::new();
    let mut i: usize = 0;
    while i < website_ids.len()
        invariant
            i <= website_ids@.len(),
            keys@.map_values(|k: Vec<char>| k@) == website_ids@.take(i as int).map_values(
                |s: String| s@,
            ),
        decreases website_ids@.len() - i,
    {
        let k = chars_of(website_ids[i].as_str());
        let ghost before = keys@.map_values(|k: Vec<char>| k@);
        assert(k@ == website_ids@[i as int]@);
        keys.push(k);
        assert(keys@.map_values(|k: Vec<char>| k@) =~= before.push(website_ids@[i as int]@));
        assert(website_ids@.take(i + 1).map_values(|s: String| s@) =~= website_ids@.take(
            i as int,
        ).map_values(|s: String| s@).push(website_ids@[i as int]@));
        i = i + 1;
        assert(keys@.map_values(|k: Vec<char>| k@) =~= website_ids@.take(i as int).map_values(
            |s: String| s@,
        ));
    }
    assert(website_ids@.take(i as int) =~= website_ids@);
    let m = count_by_key(keys.as_slice());
    m.to_pairs()
}

/// Tenant key of an event: its tenant id, or empty when it has none.
pub open spec fn tenant_key(t: Option<String>) -> Seq<char> {
    match t {
        Some(s) => s@,
        None => Seq::empty(),
    }
}

/// Event counts per non-empty tenant id, each tenant once.
pub fn count_events_by_tenant(tenant_ids: &[Option<String>]) -> (r: Vec<(String, usize)>)
    ensures
        lists_map(r@, key_counts(tenant_ids@.map_values(|t: Option<String>| tenant_key(t)))),
{
    let mut keys: Vec<Vec<char>> = Vec::new();
    let mut i: usize = 0;
    while i < tenant_ids.len()
        invariant
            i <= tenant_ids@.len(),
            keys@.map_values(|k: Vec<char>| k@) == tenant_ids@.take(i as int).map_values(
                |t: Option<String>| tenant_key(t),
            ),
        decreases tenant_ids@.len() - i,
    {
        let k = match &tenant_ids[i] {
            Some(t) => chars_of(t.as_str()),
            None => Vec::new(),
        };
        let ghost before = keys@.map_values(|k: Vec<char>| k@);
        assert(k@ == tenant_key(tenant_ids@[i as int]));
        keys.push(k);
        assert(keys@.map_values(|k: Vec<char>| k@) =~= before.push(tenant_key(tenant_ids@[i as int])));
        assert(tenant_ids@.take(i + 1).map_values(|t: Option<String>| tenant_key(t)) =~= tenant_ids@.take(
            i as int,
        ).map_values(|t: Option<String>| tenant_key(t)).push(tenant_key(tenant_ids@[i as int])));
        i = i + 1;
        assert(keys@.map_values(|k: Vec<char>| k@) =~= tenant_ids@.take(i as int).map_values(
            |t: Option<String>| tenant_key(t),
        ));
    }
    assert(tenant_ids@.take(i as int) =~= tenant_ids@);
    let m = count_by_key(keys.as_slice());
    m.to_pairs()
}

/// Number of leading batches `(start, end)` whose log ranges chain on from
/// `cursor` without a gap.
pub open spec fn contiguous_len(cursor: u64, batches: Seq<(u64, u64)>) -> nat
    decreases batches.len(),
{
    if batches.len() == 0 || batches[0].0 != cursor {
        0
    } else {
        1 + contiguous_len(batches[0].1, batches.drop_first())
    }
}

/// Counts the batches that can be acknowledged in order from the log cursor.
pub fn contiguous_prefix_len(cursor: u64, batches: &[(u64, u64)]) -> (n: usize)
    ensures
        n == contiguous_len(cursor, batches@),
{
    let mut next_cursor = cursor;
    let mut n: usize = 0;
    assert(batches@.skip(0) =~= batches@);
    while n < batches.len()
        invariant
            n <= batches@.len(),
            contiguous_len(cursor, batches@) == n + contiguous_len(
                next_cursor,
                batches@.skip(n as int),
            ),
        decreases batches@.len() - n,
    {
        let (start, end) = batches[n];
        assert(batches@.skip(n as int)[0] == (start, end));
        if start != next_cursor {
            return n;
        }
        assert(batches@.skip(n as int).drop_first() =~= batches@.skip(n + 1));
        next_cursor = end;
        n = n + 1;
    }
    n
}

/// Whether an event still waits for its session to be resolved.
pub fn event_needs_session_resolution(session_id: &str) -> (r: bool)
    ensures
        r == (session_id@.len() == 0 || session_id@ == SESSION_ID_PENDING@),
{
    let s = chars_of(session_id);
    let p = chars_of(SESSION_ID_PENDING);
    s.len() == 0 || chars_eq(s.as_slice(), p.as_slice())
}

/// FNV-1a offset basis.
pub const FNV_OFFSET: u64 = 14695981039346656037;

/// FNV-1a prime.
pub const FNV_PRIME: u64 = 1099511628211;

/// 64-bit FNV-1a hash of a byte sequence.
pub open spec fn fnv1a(bytes: Seq<u8>) -> u64
    decreases bytes.len(),
{
    if bytes.len() == 0 {
        FNV_OFFSET
    } else {
        ((fnv1a(bytes.drop_last()) ^ (bytes.last() as u64)) as int * FNV_PRIME as int
            % 0x1_0000_0000_0000_0000) as u64
    }
}

/// FNV-1a hash of the user agent's UTF-8 bytes, used as a compact cache key.
pub fn hash_user_agent(user_agent: &str) -> (h: u64)
    ensures
        h == fnv1a(user_agent.spec_bytes()),
{
    let bytes = user_agent.as_bytes();
    let mut hash: u64 = FNV_OFFSET;
    let mut i: usize = 0;
    while i < bytes.len()
        invariant
            i <= bytes@.len(),
            bytes@ == user_agent.spec_bytes(),
            hash == fnv1a(bytes@.take(i as int)),
        decreases bytes@.len() - i,
    {
        assert(bytes@.take(i + 1).drop_last() =~= bytes@.take(i as int));
        hash = hash ^ (bytes[i] as u64);
        hash = hash.wrapping_mul(FNV_PRIME);
        i = i + 1;
    }
    assert(bytes@.take(i as int) =~= bytes@);
    hash
}

/// Count of `k` in `m`, zero when absent.
pub open spec fn get0(m: Map<Seq<char>, usize>, k: Seq<char>) -> usize {
    if m.contains_key(k) {
        m[k]
    } else {
        0
    }
}

/// Saturating addition of counts.
pub open spec fn sat_add(a: usize, b: usize) -> usize {
    if a + b > usize::MAX {
        usize::MAX
    } else {
        (a + b) as usize
    }
}

/// Saturating subtraction of counts.
pub open spec fn sat_sub(a: usize, b: usize) -> usize {
    if a >= b {
        (a - b) as usize
    } else {
        0
    }
}

/// Abstract `(key, count)` list.
pub open spec fn pairs_view(v: Seq<(String, usize)>) -> Seq<(Seq<char>, usize)> {
    v.map_values(|p: (String, usize)| (p.0@, p.1))
}

/// Queue counts after each listed website's count is added.
pub open spec fn add_fold(q: Map<Seq<char>, usize>, pairs: Seq<(Seq<char>, usize)>) -> Map<
    Seq<char>,
    usize,
>
    decreases pairs.len(),
{
    if pairs.len() == 0 {
        q
    } else {
        let q1 = add_fold(q, pairs.drop_last());
        let (k, c) = pairs.last();
        q1.insert(k, sat_add(get0(q1, k), c))
    }
}

/// Queue counts after each listed website's count is released; websites
/// that reach zero leave the map.
pub open spec fn release_fold(q: Map<Seq<char>, usize>, pairs: Seq<(Seq<char>, usize)>) -> Map<
    Seq<char>,
    usize,
>
    decreases pairs.len(),
{
    if pairs.len() == 0 {
        q
    } else {
        let q1 = release_fold(q, pairs.drop_last());
        let (k, c) = pairs.last();
        let next = sat_sub(get0(q1, k), c);
        if next == 0 {
            q1.remove(k)
        } else {
            q1.insert(k, next)
        }
    }
}

/// Reservation under per-website caps, event by event: queue counts,
/// accepted counts per website, acceptance of each event, dropped count.
pub open spec fn capped_fold(
    q: Map<Seq<char>, usize>,
    caps: Map<Seq<char>, usize>,
    default_cap: usize,
    ids: Seq<Seq<char>>,
) -> (Map<Seq<char>, usize>, Map<Seq<char>, usize>, Seq<bool>, nat)
    decreases ids.len(),
{
    if ids.len() == 0 {
        (q, Map::empty(), Seq::empty(), 0)
    } else {
        let (q1, c1, m1, d1) = capped_fold(q, caps, default_cap, ids.drop_last());
        let id = ids.last();
        let cap = if caps.contains_key(id) {
            caps[id]
        } else {
            default_cap
        };
        let cur = get0(q1, id);
        if cur >= cap {
            (q1, c1, m1.push(false), d1 + 1)
        } else {
            (q1.insert(id, (cur + 1) as usize), c1.insert(id, (get0(c1, id) + 1) as usize), m1.push(
                true,
            ), d1)
        }
    }
}

/// Outcome of reserving per-website queue room for a batch.
pub struct WebsiteReservation {
    /// Whether each event of the batch was accepted, in order.
    pub accepted: Vec<bool>,
    /// Number of events dropped because their website's queue was full.
    pub dropped: usize,
    /// Accepted events per website, each website once.
    pub website_event_counts: Vec<(String, usize)>,
}

fn get_or_zero(m: &CountMap, k: &[char]) -> (v: usize)
    requires
        m.wf(),
    ensures
        v == get0(m@, k@),
{
    match m.get(k) {
        Some(v) => v,
        None => 0,
    }
}

fn add_pairs(queue: &mut CountMap, pairs: &Vec<(String, usize)>)
    requires
        old(queue).wf(),
    ensures
        final(queue).wf(),
        final(queue)@ == add_fold(old(queue)@, pairs_view(pairs@)),
{
    let ghost q0 = queue@;
    let mut i: usize = 0;
    while i < pairs.len()
        invariant
            queue.wf(),
            i <= pairs@.len(),
            queue@ == add_fold(q0, pairs_view(pairs@).take(i as int)),
        decreases pairs@.len() - i,
    {
        let k = chars_of(pairs[i].0.as_str());
        let c = pairs[i].1;
        let cur = get_or_zero(queue, k.as_slice());
        let next = if cur > usize::MAX - c {
            usize::MAX
        } else {
            cur + c
        };
        queue.insert(k.as_slice(), next);
        proof {
            let pv = pairs_view(pairs@);
            assert(pv.take(i + 1).drop_last() =~= pv.take(i as int));
            assert(pv.take(i + 1).last() == (k@, c));
        }
        i = i + 1;
    }
    assert(pairs_view(pairs@).take(i as int) =~= pairs_view(pairs@));
}

/// Reserves per-website queue room for a batch of events (given by their
/// website ids). Without caps (none, or an empty cap map) every event is
/// accepted and each website's queue count grows by its event count; with
/// caps, events are taken in order and an event is dropped when its
/// website's queue count has reached its cap (or `default_cap` for
/// websites without one).
pub fn reserve_website_queue_capacity(
    queue: &mut CountMap,
    website_ids: &[String],
    caps: Option<&CountMap>,
    default_cap: usize,
) -> (r: WebsiteReservation)
    requires
        old(queue).wf(),
        caps matches Some(c) ==> c.wf(),
    ensures
        final(queue).wf(),
        lists_map(r.website_event_counts@, match caps {
            Some(c) if c@.len() > 0 => capped_fold(
                old(queue)@,
                c@,
                default_cap,
                website_ids@.map_values(|s: String| s@),
            ).1,
            _ => key_counts(website_ids@.map_values(|s: String| s@)),
        }),
        match caps {
            Some(c) if c@.len() > 0 => {
                let (q, _, mask, dropped) = capped_fold(
                    old(queue)@,
                    c@,
                    default_cap,
                    website_ids@.map_values(|s: String| s@),
                );
                &&& final(queue)@ == q
                &&& r.accepted@ == mask
                &&& r.dropped == dropped
            },
            _ => {
                &&& final(queue)@ == add_fold(old(queue)@, pairs_view(r.website_event_counts@))
                &&& r.accepted@ == Seq::new(website_ids@.len(), |i: int| true)
                &&& r.dropped == 0
            },
        },
{
    let ghost ids = website_ids@.map_values(|s: String| s@);
    let capped = match caps {
        Some(c) => c.len() > 0,
        None => false,
    };
    if !capped {
        let counts = count_events_by_website(website_ids);
        add_pairs(queue, &counts);
        let mut accepted: Vec<bool> = Vec::new();
        let mut i: usize = 0;
        while i < website_ids.len()
            invariant
                i <= website_ids@.len(),
                accepted@ == Seq::new(i as nat, |j: int| true),
            decreases website_ids@.len() - i,
        {
            accepted.push(true);
            i = i + 1;
            assert(accepted@ =~= Seq::new(i as nat, |j: int| true));
        }
        return WebsiteReservation { accepted, dropped: 0, website_event_counts: counts };
    }
    let cap_map = caps.unwrap();
    let ghost q0 = queue@;
    let mut counts = CountMap::new();
    let mut accepted: Vec<bool> = Vec::new();
    let mut dropped: usize = 0;
    let mut i: usize = 0;
    while i < website_ids.len()
        invariant
            queue.wf(),
            counts.wf(),
            cap_map.wf(),
            i <= website_ids@.len(),
            ids == website_ids@.map_values(|s: String| s@),
            (queue@, counts@, accepted@, dropped as nat) == capped_fold(
                q0,
                cap_map@,
                default_cap,
                ids.take(i as int),
            ),
            dropped <= i,
            forall|k: Seq<char>| #[trigger] get0(counts@, k) <= i,
        decreases website_ids@.len() - i,
    {
        let id = chars_of(website_ids[i].as_str());
        let cap = match cap_map.get(id.as_slice()) {
            Some(c) => c,
            None => default_cap,
        };
        let cur = get_or_zero(queue, id.as_slice());
        proof {
            assert(ids.take(i + 1).drop_last() =~= ids.take(i as int));
            assert(ids.take(i + 1).last() == id@);
        }
        let ghost old_counts = counts@;
        if cur >= cap {
            accepted.push(false);
            dropped = dropped + 1;
            assert forall|k: Seq<char>| #[trigger] get0(counts@, k) <= i + 1 by {
                assert(get0(old_counts, k) <= i);
            }
        } else {
            queue.insert(id.as_slice(), cur + 1);
            let c = get_or_zero(&counts, id.as_slice());
            assert(get0(counts@, id@) <= i);
            counts.insert(id.as_slice(), c + 1);
            accepted.push(true);
            assert forall|k: Seq<char>| #[trigger] get0(counts@, k) <= i + 1 by {
                assert(get0(old_counts, k) <= i);
            }
        }
        i = i + 1;
    }
    assert(ids.take(i as int) =~= ids);
    let website_event_counts = counts.to_pairs();
    WebsiteReservation { accepted, dropped, website_event_counts }
}

/// Releases the per-website queue counts of a drained batch.
pub fn release_website_queue_capacity(queue: &mut CountMap, counts: &[(String, usize)])
    requires
        old(queue).wf(),
    ensures
        final(queue).wf(),
        final(queue)@ == release_fold(old(queue)@, pairs_view(counts@)),
{
    let ghost q0 = queue@;
    let mut i: usize = 0;
    while i < counts.len()
        invariant
            queue.wf(),
            i <= counts@.len(),
            queue@ == release_fold(q0, pairs_view(counts@).take(i as int)),
        decreases counts@.len() - i,
    {
        let k = chars_of(counts[i].0.as_str());
        let c = counts[i].1;
        let cur = get_or_zero(queue, k.as_slice());
        let next = if cur >= c {
            cur - c
        } else {
            0
        };
        if next == 0 {
            queue.remove(k.as_slice());
        } else {
            queue.insert(k.as_slice(), next);
        }
        proof {
            let pv = pairs_view(counts@);
            assert(pv.take(i + 1).drop_last() =~= pv.take(i as int));
            assert(pv.take(i + 1).last() == (k@, c));
        }
        i = i + 1;
    }
    assert(pairs_view(counts@).take(i as int) =~= pairs_view(counts@));
}

/// `k` is not among the keys of `pairs`.
pub open spec fn key_absent(pairs: Seq<(Seq<char>, usize)>, k: Seq<char>) -> bool {
    forall|i: int| 0 <= i < pairs.len() ==> (#[trigger] pairs[i]).0 != k
}

/// The keys of `pairs` are pairwise distinct.
pub open spec fn keys_distinct(pairs: Seq<(Seq<char>, usize)>) -> bool {
    forall|i: int, j: int| 0 <= i < j < pairs.len() ==> (#[trigger] pairs[i]).0 != (#[trigger] pairs[j]).0
}

proof fn lemma_add_fold_untouched(q: Map<Seq<char>, usize>, pairs: Seq<(Seq<char>, usize)>, k: Seq<char>)
    requires
        key_absent(pairs, k),
    ensures
        add_fold(q, pairs).contains_key(k) == q.contains_key(k),
        get0(add_fold(q, pairs), k) == get0(q, k),
    decreases pairs.len(),
{
    if pairs.len() > 0 {
        let p = pairs.drop_last();
        assert(key_absent(p, k)) by {
            assert forall|i: int| 0 <= i < p.len() implies (#[trigger] p[i]).0 != k by {
                assert(p[i] == pairs[i]);
            }
        }
        assert(pairs.last() == pairs[pairs.len() - 1]);
        lemma_add_fold_untouched(q, p, k);
    }
}

proof fn lemma_release_fold_commutes(
    m: Map<Seq<char>, usize>,
    pairs: Seq<(Seq<char>, usize)>,
    k: Seq<char>,
    v: usize,
)
    requires
        key_absent(pairs, k),
    ensures
        release_fold(m.insert(k, v), pairs) == release_fold(m, pairs).insert(k, v),
    decreases pairs.len(),
{
    if pairs.len() > 0 {
        let p = pairs.drop_last();
        assert(key_absent(p, k)) by {
            assert forall|i: int| 0 <= i < p.len() implies (#[trigger] p[i]).0 != k by {
                assert(p[i] == pairs[i]);
            }
        }
        assert(pairs.last() == pairs[pairs.len() - 1]);
        lemma_release_fold_commutes(m, p, k, v);
        let a = release_fold(m, p);
        let (k2, c2) = pairs.last();
        assert(k2 != k);
        assert(get0(a.insert(k, v), k2) == get0(a, k2));
        let next = sat_sub(get0(a, k2), c2);
        if next == 0 {
            assert(a.insert(k, v).remove(k2) =~= a.remove(k2).insert(k, v));
        } else {
            assert(a.insert(k, v).insert(k2, next) =~= a.insert(k2, next).insert(k, v));
        }
    }
}

/// Releasing the per-website counts that a reservation added restores the
/// queue counts exactly, when the listed websites are distinct with
/// positive counts, the queue holds only positive counts, and no count
/// saturated.
pub proof fn lemma_release_undoes_reserve(q: Map<Seq<char>, usize>, pairs: Seq<(Seq<char>, usize)>)
    requires
        keys_distinct(pairs),
        forall|i: int| 0 <= i < pairs.len() ==> (#[trigger] pairs[i]).1 > 0,
        forall|k: Seq<char>| q.contains_key(k) ==> #[trigger] q[k] > 0,
        forall|i: int|
            0 <= i < pairs.len() ==> get0(q, (#[trigger] pairs[i]).0) + pairs[i].1 <= usize::MAX,
    ensures
        release_fold(add_fold(q, pairs), pairs) == q,
    decreases pairs.len(),
{
    if pairs.len() > 0 {
        let p = pairs.drop_last();
        let n = pairs.len() - 1;
        let (k, c) = pairs.last();
        assert(pairs.last() == pairs[n]);
        assert(keys_distinct(p)) by {
            assert forall|i: int, j: int| 0 <= i < j < p.len() implies (#[trigger] p[i]).0 != (
            #[trigger] p[j]).0 by {
                assert(p[i] == pairs[i]);
                assert(p[j] == pairs[j]);
            }
        }
        assert(key_absent(p, k)) by {
            assert forall|i: int| 0 <= i < p.len() implies (#[trigger] p[i]).0 != k by {
                assert(p[i] == pairs[i]);
            }
        }
        assert forall|i: int| 0 <= i < p.len() implies (#[trigger] p[i]).1 > 0 by {
            assert(p[i] == pairs[i]);
        }
        assert forall|i: int| 0 <= i < p.len() implies get0(q, (#[trigger] p[i]).0) + p[i].1
            <= usize::MAX by {
            assert(p[i] == pairs[i]);
        }
        lemma_release_undoes_reserve(q, p);
        let a = add_fold(q, p);
        lemma_add_fold_untouched(q, p, k);
        let v = sat_add(get0(a, k), c);
        assert(v == get0(q, k) + c);
        lemma_release_fold_commutes(a, p, k, v);
        let r = release_fold(a, p).insert(k, v);
        assert(release_fold(a, p) == q);
        assert(get0(r, k) == v);
        let next = sat_sub(v, c);
        assert(next == get0(q, k));
        if next == 0 {
            assert(!q.contains_key(k));
            assert(r.remove(k) =~= q);
        } else {
            assert(r.insert(k, next) =~= q);
        }
    }
}

/// Cap applied to website `k`.
pub open spec fn cap_of(caps: Map<Seq<char>, usize>, default_cap: usize, k: Seq<char>) -> usize {
    if caps.contains_key(k) {
        caps[k]
    } else {
        default_cap
    }
}

/// Under caps, a website whose queue count starts within its cap stays
/// within it; every event is either accepted or dropped, and the dropped
/// count is the number of rejected events.
pub proof fn lemma_capped_within_caps(
    q: Map<Seq<char>, usize>,
    caps: Map<Seq<char>, usize>,
    default_cap: usize,
    ids: Seq<Seq<char>>,
)
    requires
        forall|k: Seq<char>| #[trigger] get0(q, k) <= cap_of(caps, default_cap, k),
    ensures
        ({
            let (q2, _, mask, dropped) = capped_fold(q, caps, default_cap, ids);
            &&& forall|k: Seq<char>| #[trigger] get0(q2, k) <= cap_of(caps, default_cap, k)
            &&& mask.len() == ids.len()
            &&& dropped == mask.filter(|b: bool| !b).len()
        }),
    decreases ids.len(),
{
    if ids.len() > 0 {
        lemma_capped_within_caps(q, caps, default_cap, ids.drop_last());
        let (q1, c1, m1, d1) = capped_fold(q, caps, default_cap, ids.drop_last());
        let id = ids.last();
        let (q2, _, mask, dropped) = capped_fold(q, caps, default_cap, ids);
        assert(mask.drop_last() =~= m1);
        reveal(Seq::filter);
        assert forall|k: Seq<char>| #[trigger] get0(q2, k) <= cap_of(caps, default_cap, k) by {
            assert(get0(q1, k) <= cap_of(caps, default_cap, k));
        }
    }
}

/// How many events of a batch were queued and how many were dropped.
#[derive(Clone, Copy, Debug, PartialEq, Eq, Structural)]
pub struct IngestEnqueueOutcome {
    pub accepted_events: usize,
    pub dropped_events: usize,
}

/// Decision on a batch once the per-website caps have passed
/// `batch_len` events and dropped `dropped_by_website_cap`: the global
/// queue grants what it can; the grant, and the outcome reported.
pub open spec fn enqueue_decision_of(
    batch_len: usize,
    dropped_by_website_cap: usize,
    current: usize,
    capacity: usize,
) -> (usize, IngestEnqueueOutcome) {
    if batch_len == 0 {
        (0, IngestEnqueueOutcome { accepted_events: 0, dropped_events: dropped_by_website_cap })
    } else {
        let g = ingest_grant(current, capacity, batch_len);
        if g == 0 {
            (0, IngestEnqueueOutcome {
                accepted_events: 0,
                dropped_events: sat_add(dropped_by_website_cap, batch_len),
            })
        } else {
            (g, IngestEnqueueOutcome {
                accepted_events: g,
                dropped_events: sat_add(dropped_by_website_cap, (batch_len - g) as usize),
            })
        }
    }
}

/// Decides how much of a batch the global ingest queue takes, after the
/// per-website caps: the grant (the leading events that are queued) and
/// the outcome reported to the client.
pub fn enqueue_decision(
    batch_len: usize,
    dropped_by_website_cap: usize,
    current: usize,
    capacity: usize,
) -> (r: (usize, IngestEnqueueOutcome))
    ensures
        r == enqueue_decision_of(batch_len, dropped_by_website_cap, current, capacity),
        r.0 <= batch_len,
        r.1.accepted_events == r.0,
{
    if batch_len == 0 {
        return (0, IngestEnqueueOutcome { accepted_events: 0, dropped_events: dropped_by_website_cap });
    }
    let granted = reserve_ingest_capacity(current, capacity, batch_len);
    if granted == 0 {
        let d = dropped_by_website_cap.saturating_add(batch_len);
        return (0, IngestEnqueueOutcome { accepted_events: 0, dropped_events: d });
    }
    let dropped_global = batch_len - granted;
    let d = dropped_by_website_cap.saturating_add(dropped_global);
    (granted, IngestEnqueueOutcome { accepted_events: granted, dropped_events: d })
}

/// Every event of a batch is either queued or reported dropped (when the
/// drop count does not saturate).
pub proof fn lemma_enqueue_accounts_for_batch(
    batch_len: usize,
    dropped_by_website_cap: usize,
    current: usize,
    capacity: usize,
)
    requires
        dropped_by_website_cap + batch_len <= usize::MAX,
    ensures
        ({
            let (g, o) = enqueue_decision_of(batch_len, dropped_by_website_cap, current, capacity);
            o.accepted_events + o.dropped_events == dropped_by_website_cap + batch_len
        }),
{
}

/// One enqueue step, in its global accounting: of a batch of `n` events of
/// which the per-website caps dropped `dropped_by_cap`, the global queue
/// grants what fits. Every event is reported accepted or dropped, the
/// queue's occupancy grows by exactly the accepted events and stays within
/// its capacity, and when the log append then fails, releasing the grant
/// puts the occupancy back where it was.
pub proof fn lemma_enqueue_step_accounting(n: usize, dropped_by_cap: usize, current: usize, capacity: usize)
    requires
        dropped_by_cap <= n,
        current <= capacity,
    ensures
        ({
            let (g, o) = enqueue_decision_of((n - dropped_by_cap) as usize, dropped_by_cap, current, capacity);
            &&& o.accepted_events + o.dropped_events == n
            &&& o.accepted_events == g
            &&& current + g <= capacity
            &&& sat_sub((current + g) as usize, g) == current
        }),
{
    let m = (n - dropped_by_cap) as usize;
    lemma_enqueue_accounts_for_batch(m, dropped_by_cap, current, capacity);
}

/// Number of queued batches (of the given sizes, front first) that one
/// drain takes: batches are taken while fewer than `max_batches` are
/// taken, and taking stops once the events taken reach `max_events`.
pub open spec fn drain_take_from(sizes: Seq<usize>, i: nat, taken_events: usize, max_batches: usize, max_events: usize) -> nat
    decreases sizes.len() - i,
{
    if i >= max_batches || i >= sizes.len() {
        i
    } else {
        let next = sat_add(taken_events, sizes[i as int]);
        if next >= max_events {
            i + 1
        } else {
            drain_take_from(sizes, i + 1, next, max_batches, max_events)
        }
    }
}

/// Decides how many batches from the front of the queue one drain takes.
pub fn select_drain_batches(sizes: &[usize], max_batches: usize, max_events: usize) -> (n: usize)
    ensures
        n == drain_take_from(sizes@, 0, 0, max_batches, max_events),
        n <= sizes@.len(),
{
    let mut i: usize = 0;
    let mut taken: usize = 0;
    while i < max_batches && i < sizes.len()
        invariant
            i <= sizes@.len(),
            drain_take_from(sizes@, i as nat, taken, max_batches, max_events) == drain_take_from(
                sizes@,
                0,
                0,
                max_batches,
                max_events,
            ),
        decreases sizes@.len() - i,
    {
        let next = taken.saturating_add(sizes[i]);
        if next >= max_events {
            return i + 1;
        }
        taken = next;
        i = i + 1;
    }
    i
}

/// `2^k`, saturating at `u64::MAX`.
pub open spec fn pow2_sat(k: nat) -> u64
    decreases k,
{
    if k == 0 {
        1
    } else {
        let p = pow2_sat((k - 1) as nat);
        if p > u64::MAX / 2 {
            u64::MAX
        } else {
            (2 * p) as u64
        }
    }
}

/// Saturating product.
pub open spec fn sat_mul(a: u64, b: u64) -> u64 {
    if a * b > u64::MAX {
        u64::MAX
    } else {
        (a * b) as u64
    }
}

/// How a failed persist of drained batches is retried: the attempt number
/// (one more than the batches' highest retry count), the delay before
/// the retry (`base * 2^attempt`, capped at `max_delay`), and whether the
/// attempts are used up (the batches then wait the longest delay at the
/// head of the queue).
pub open spec fn retry_plan_of(retries: u32, base_ms: u64, max_delay_ms: u64, max_attempts: u32) -> (u32, u64, bool) {
    let attempt: u32 = if retries == u32::MAX {
        u32::MAX
    } else {
        (retries + 1) as u32
    };
    let d = sat_mul(base_ms, pow2_sat(attempt as nat));
    (attempt, if d < max_delay_ms {
        d
    } else {
        max_delay_ms
    }, attempt >= max_attempts)
}

/// Plans the retry of a failed persist.
pub fn retry_plan(retries: u32, base_ms: u64, max_delay_ms: u64, max_attempts: u32) -> (r: (u32, u64, bool))
    ensures
        r == retry_plan_of(retries, base_ms, max_delay_ms, max_attempts),
{
    let attempt = retries.saturating_add(1);
    let mut p: u64 = 1;
    let mut k: u32 = 0;
    while k < attempt
        invariant
            k <= attempt,
            p == pow2_sat(k as nat),
        decreases attempt - k,
    {
        p = if p > u64::MAX / 2 {
            u64::MAX
        } else {
            2 * p
        };
        k = k + 1;
    }
    let d = match base_ms.checked_mul(p) {
        Some(x) => x,
        None => u64::MAX,
    };
    let delay = if d < max_delay_ms {
        d
    } else {
        max_delay_ms
    };
    (attempt, delay, attempt >= max_attempts)
}

/// The highest retry count among drained batches (0 for none).
pub fn max_retries(retries: &[u32]) -> (m: u32)
    ensures
        forall|i: int| 0 <= i < retries@.len() ==> retries@[i] <= m,
        retries@.len() == 0 ==> m == 0,
        retries@.len() > 0 ==> exists|i: int| 0 <= i < retries@.len() && retries@[i] == m,
{
    let mut m: u32 = 0;
    let mut i: usize = 0;
    while i < retries.len()
        invariant
            i <= retries@.len(),
            forall|j: int| 0 <= j < i ==> retries@[j] <= m,
            i == 0 ==> m == 0,
            i > 0 ==> exists|j: int| 0 <= j < i && retries@[j] == m,
        decreases retries@.len() - i,
    {
        if i == 0 || retries[i] > m {
            m = retries[i];
        }
        i = i + 1;
    }
    m
}

/// A batch waiting in the ingest queue: the span of the write-ahead log it
/// was written to, how often persisting it has failed, its number of
/// events and its per-website event counts.
pub struct QueuedBatch {
    pub wal_start_offset: u64,
    pub wal_end_offset: u64,
    pub retries: u32,
    pub event_count: usize,
    pub website_event_counts: Vec<(String, usize)>,
}

/// Abstract view of a queued batch.
pub open spec fn batch_view(b: QueuedBatch) -> (u64, u64, u32, usize, Seq<(Seq<char>, usize)>) {
    (b.wal_start_offset, b.wal_end_offset, b.retries, b.event_count, pairs_view(b.website_event_counts@))
}

/// Views of queued batches.
pub open spec fn batches_view(v: Seq<QueuedBatch>) -> Seq<(u64, u64, u32, usize, Seq<(Seq<char>, usize)>)> {
    v.map_values(|b: QueuedBatch| batch_view(b))
}

/// Batches with their retry count set to `attempt`.
pub open spec fn with_retries(
    v: Seq<(u64, u64, u32, usize, Seq<(Seq<char>, usize)>)>,
    attempt: u32,
) -> Seq<(u64, u64, u32, usize, Seq<(Seq<char>, usize)>)> {
    v.map_values(|b: (u64, u64, u32, usize, Seq<(Seq<char>, usize)>)| (b.0, b.1, attempt, b.3, b.4))
}

/// The ingest queue and what is accounted for it: the batches (front
/// first), the write-ahead-log cursor (the end of what is persisted), the
/// number of queued events, and the queued events per website.
pub struct DrainState {
    pub queue: Vec<QueuedBatch>,
    pub wal_cursor: u64,
    pub queued_events: usize,
    pub website_queue: CountMap,
}

/// What the drain does after a failed persist: retry after the delay, or
/// stop (a drain that does not retry on error), or, with the attempts used
/// up, wait the longest delay and go on.
#[derive(Clone, Copy, Debug, PartialEq, Eq, Structural)]
pub enum DrainAfterFailure {
    RetryAfter(u64),
    Stop,
    ExhaustedWait(u64),
}

/// The highest retry count of batches (0 for none).
pub open spec fn max_retry_of(v: Seq<(u64, u64, u32, usize, Seq<(Seq<char>, usize)>)>) -> u32
    decreases v.len(),
{
    if v.len() == 0 {
        0
    } else {
        let m = max_retry_of(v.drop_last());
        if v.last().2 > m {
            v.last().2
        } else {
            m
        }
    }
}

/// The step after a failed persist, given the retry plan's attempt, delay
/// and whether the attempts are used up.
pub open spec fn after_failure_of(plan: (u32, u64, bool), max_delay_ms: u64, retry_on_error: bool) -> DrainAfterFailure {
    if plan.2 {
        DrainAfterFailure::ExhaustedWait(max_delay_ms)
    } else if retry_on_error {
        DrainAfterFailure::RetryAfter(plan.1)
    } else {
        DrainAfterFailure::Stop
    }
}

fn max_batch_retries(batches: &Vec<QueuedBatch>) -> (m: u32)
    ensures
        m == max_retry_of(batches_view(batches@)),
{
    let ghost bv = batches_view(batches@);
    let mut m: u32 = 0;
    let mut i: usize = 0;
    while i < batches.len()
        invariant
            i <= batches@.len(),
            bv == batches_view(batches@),
            m == max_retry_of(bv.take(i as int)),
        decreases batches@.len() - i,
    {
        assert(bv.take(i + 1).drop_last() =~= bv.take(i as int));
        assert(bv.take(i + 1).last() == bv[i as int]);
        if batches[i].retries > m {
            m = batches[i].retries;
        }
        i = i + 1;
    }
    assert(bv.take(i as int) =~= bv);
    m
}

/// Website queue counts after the counts of each batch are released, batch
/// by batch.
pub open spec fn release_batches(
    q: Map<Seq<char>, usize>,
    v: Seq<(u64, u64, u32, usize, Seq<(Seq<char>, usize)>)>,
) -> Map<Seq<char>, usize>
    decreases v.len(),
{
    if v.len() == 0 {
        q
    } else {
        release_fold(release_batches(q, v.drop_last()), v.last().4)
    }
}

/// Queued events after each batch's events leave the queue (saturating).
pub open spec fn release_batch_events(n: usize, v: Seq<(u64, u64, u32, usize, Seq<(Seq<char>, usize)>)>) -> usize
    decreases v.len(),
{
    if v.len() == 0 {
        n
    } else {
        sat_sub(release_batch_events(n, v.drop_last()), v.last().3)
    }
}

/// Event counts of batches.
pub open spec fn batch_sizes(v: Seq<(u64, u64, u32, usize, Seq<(Seq<char>, usize)>)>) -> Seq<usize> {
    v.map_values(|b: (u64, u64, u32, usize, Seq<(Seq<char>, usize)>)| b.3)
}

/// Log spans of batches.
pub open spec fn batch_spans(v: Seq<(u64, u64, u32, usize, Seq<(Seq<char>, usize)>)>) -> Seq<(u64, u64)> {
    v.map_values(|b: (u64, u64, u32, usize, Seq<(Seq<char>, usize)>)| (b.0, b.1))
}

/// How many batches one drain persists: of the batches it selects from the
/// front ([`drain_take_from`]), those that follow on from the cursor
/// without a gap ([`contiguous_len`]).
pub open spec fn drain_count(
    v: Seq<(u64, u64, u32, usize, Seq<(Seq<char>, usize)>)>,
    cursor: u64,
    max_batches: usize,
    max_events: usize,
) -> nat {
    let n = drain_take_from(batch_sizes(v), 0, 0, max_batches, max_events);
    contiguous_len(cursor, batch_spans(v).take(n as int))
}

proof fn lemma_contiguous_len_bound(cursor: u64, spans: Seq<(u64, u64)>)
    ensures
        contiguous_len(cursor, spans) <= spans.len(),
    decreases spans.len(),
{
    if spans.len() > 0 && spans[0].0 == cursor {
        lemma_contiguous_len_bound(spans[0].1, spans.drop_first());
    }
}

impl DrainState {
    /// Puts batches whose persist failed back at the head of the queue, in
    /// their order, each with the retry count `attempt`; nothing else
    /// changes.
    pub fn requeue_failed(&mut self, batches: Vec<QueuedBatch>, attempt: u32)
        ensures
            batches_view(final(self).queue@) == with_retries(batches_view(batches@), attempt) + batches_view(
                old(self).queue@,
            ),
            final(self).wal_cursor == old(self).wal_cursor,
            final(self).queued_events == old(self).queued_events,
            final(self).website_queue == old(self).website_queue,
    {
        let ghost bv = batches_view(batches@);
        let ghost qv = batches_view(self.queue@);
        let mut front: Vec<QueuedBatch> = Vec::new();
        let mut rest = batches;
        let n = rest.len();
        while rest.len() > 0
            invariant
                n == bv.len(),
                rest@.len() + front@.len() == n,
                batches_view(front@) == with_retries(bv.take(front@.len() as int), attempt),
                forall|j: int| 0 <= j < rest@.len() ==> batch_view(#[trigger] rest@[j]) == bv[front@.len() + j],
            decreases rest@.len(),
        {
            let mut b = rest.remove(0);
            let ghost k: int = front@.len() as int;
            assert(batch_view(b) == bv[k]);
            b.retries = attempt;
            let ghost before = batches_view(front@);
            let ghost bb = batch_view(b);
            assert(bb == (bv[k].0, bv[k].1, attempt, bv[k].3, bv[k].4));
            front.push(b);
            assert(batches_view(front@) =~= before.push(bb));
            assert(bv.take(k + 1) =~= bv.take(k).push(bv[k]));
            assert(with_retries(bv.take(k + 1), attempt) =~= with_retries(bv.take(k), attempt).push(bb));
        }
        assert(bv.take(n as int) =~= bv);
        let mut old_queue: Vec<QueuedBatch> = Vec::new();
        std::mem::swap(&mut old_queue, &mut self.queue);
        front.append(&mut old_queue);
        self.queue = front;
        assert(batches_view(self.queue@) =~= with_retries(bv, attempt) + qv);
    }

    /// Handles a failed persist of drained batches: the attempt is one more
    /// than the batches' highest retry count ([`retry_plan`]); the batches go
    /// back to the head of the queue with that retry count, and the write-
    /// ahead-log cursor and the queue counts stay as they are. The drain
    /// then waits the longest delay when the attempts are used up, else
    /// retries after the plan's delay, or stops when it does not retry on
    /// errors.
    pub fn persist_failed(
        &mut self,
        batches: Vec<QueuedBatch>,
        base_ms: u64,
        max_delay_ms: u64,
        max_attempts: u32,
        retry_on_error: bool,
    ) -> (r: DrainAfterFailure)
        ensures
            ({
                let plan = retry_plan_of(max_retry_of(batches_view(batches@)), base_ms, max_delay_ms, max_attempts);
                &&& batches_view(final(self).queue@) == with_retries(batches_view(batches@), plan.0)
                    + batches_view(old(self).queue@)
                &&& r == after_failure_of(plan, max_delay_ms, retry_on_error)
            }),
            final(self).wal_cursor == old(self).wal_cursor,
            final(self).queued_events == old(self).queued_events,
            final(self).website_queue == old(self).website_queue,
    {
        let m = max_batch_retries(&batches);
        let plan = retry_plan(m, base_ms, max_delay_ms, max_attempts);
        self.requeue_failed(batches, plan.0);
        if plan.2 {
            DrainAfterFailure::ExhaustedWait(max_delay_ms)
        } else if retry_on_error {
            DrainAfterFailure::RetryAfter(plan.1)
        } else {
            DrainAfterFailure::Stop
        }
    }
    /// Acknowledges drained batches whose events were persisted: their
    /// events and per-website counts leave the queue's accounting, and the
    /// write-ahead-log cursor moves to the end of the last batch; the queue
    /// itself is unchanged (the batches were taken off it).
    pub fn persist_succeeded(&mut self, batches: &Vec<QueuedBatch>)
        requires
            old(self).website_queue.wf(),
            batches@.len() > 0,
        ensures
            final(self).website_queue.wf(),
            final(self).wal_cursor == batches@.last().wal_end_offset,
            final(self).queued_events == release_batch_events(old(self).queued_events, batches_view(batches@)),
            final(self).website_queue@ == release_batches(old(self).website_queue@, batches_view(batches@)),
            batches_view(final(self).queue@) == batches_view(old(self).queue@),
    {
        let ghost bv = batches_view(batches@);
        let ghost q0 = self.website_queue@;
        let ghost n0 = self.queued_events;
        let mut i: usize = 0;
        while i < batches.len()
            invariant
                i <= batches@.len(),
                bv == batches_view(batches@),
                self.website_queue.wf(),
                self.website_queue@ == release_batches(q0, bv.take(i as int)),
                self.queued_events == release_batch_events(n0, bv.take(i as int)),
                batches_view(self.queue@) == batches_view(old(self).queue@),
            decreases batches@.len() - i,
        {
            assert(bv.take(i + 1).drop_last() =~= bv.take(i as int));
            assert(bv.take(i + 1).last() == bv[i as int]);
            release_website_queue_capacity(&mut self.website_queue, batches[i].website_event_counts.as_slice());
            self.queued_events = release_ingest_capacity(self.queued_events, batches[i].event_count);
            i = i + 1;
        }
        assert(bv.take(i as int) =~= bv);
        self.wal_cursor = batches[batches.len() - 1].wal_end_offset;
    }

    /// Takes the batches one drain persists off the head of the queue: it
    /// selects up to `max_batches` batches, stopping once `max_events`
    /// events are taken, and keeps the ones that follow on from the cursor
    /// without a gap; the selected batches it does not keep stay at the
    /// head, in order. Nothing else changes.
    pub fn take_drain_batches(&mut self, max_batches: usize, max_events: usize) -> (taken: Vec<QueuedBatch>)
        ensures
            ({
                let k = drain_count(batches_view(old(self).queue@), old(self).wal_cursor, max_batches, max_events);
                &&& batches_view(taken@) == batches_view(old(self).queue@).take(k as int)
                &&& batches_view(final(self).queue@) == batches_view(old(self).queue@).skip(k as int)
            }),
            final(self).wal_cursor == old(self).wal_cursor,
            final(self).queued_events == old(self).queued_events,
            final(self).website_queue == old(self).website_queue,
    {
        let ghost qv = batches_view(self.queue@);
        let mut sizes: Vec<usize> = Vec::new();
        let mut i: usize = 0;
        while i < self.queue.len()
            invariant
                i <= self.queue@.len(),
                qv == batches_view(self.queue@),
                sizes@ == batch_sizes(qv).take(i as int),
                self.wal_cursor == old(self).wal_cursor,
                self.queued_events == old(self).queued_events,
                self.website_queue == old(self).website_queue,
            decreases self.queue@.len() - i,
        {
            sizes.push(self.queue[i].event_count);
            assert(sizes@ =~= batch_sizes(qv).take(i + 1));
            i = i + 1;
        }
        assert(sizes@ =~= batch_sizes(qv));
        let n = select_drain_batches(sizes.as_slice(), max_batches, max_events);
        let mut spans: Vec<(u64, u64)> = Vec::new();
        let mut j: usize = 0;
        while j < n
            invariant
                n <= self.queue@.len(),
                j <= n,
                qv == batches_view(self.queue@),
                spans@ == batch_spans(qv).take(j as int),
                self.wal_cursor == old(self).wal_cursor,
                self.queued_events == old(self).queued_events,
                self.website_queue == old(self).website_queue,
            decreases n - j,
        {
            spans.push((self.queue[j].wal_start_offset, self.queue[j].wal_end_offset));
            assert(spans@ =~= batch_spans(qv).take(j + 1));
            j = j + 1;
        }
        assert(spans@ =~= batch_spans(qv).take(n as int));
        let k = contiguous_prefix_len(self.wal_cursor, spans.as_slice());
        proof {
            lemma_contiguous_len_bound(self.wal_cursor, spans@);
        }
        let mut taken: Vec<QueuedBatch> = Vec::new();
        let mut m: usize = 0;
        while m < k
            invariant
                k <= n <= qv.len(),
                m <= k,
                batches_view(taken@) == qv.take(m as int),
                batches_view(self.queue@) == qv.skip(m as int),
                self.wal_cursor == old(self).wal_cursor,
                self.queued_events == old(self).queued_events,
                self.website_queue == old(self).website_queue,
            decreases k - m,
        {
            let ghost before = batches_view(taken@);
            let ghost rest = self.queue@;
            assert(batches_view(rest).len() == rest.len());
            assert(qv.skip(m as int).len() == qv.len() - m);
            assert(rest.len() > 0);
            assert(batch_view(rest[0]) == batches_view(rest)[0]);
            assert(batches_view(rest)[0] == qv[m as int]);
            let b = self.queue.remove(0);
            assert(batch_view(b) == qv[m as int]);
            assert(self.queue@ =~= rest.subrange(1, rest.len() as int));
            taken.push(b);
            assert(batches_view(taken@) =~= before.push(qv[m as int]));
            assert(qv.take(m + 1) =~= qv.take(m as int).push(qv[m as int]));
            assert(batches_view(self.queue@) =~= qv.skip(m + 1)) by {
                assert forall|t: int| 0 <= t < self.queue@.len() implies batches_view(self.queue@)[t]
                    == qv.skip(m + 1)[t] by {
                    assert(self.queue@[t] == rest[t + 1]);
                    assert(batches_view(rest)[t + 1] == qv.skip(m as int)[t + 1]);
                }
            }
            m = m + 1;
        }
        taken
    }
}

} // verus!
