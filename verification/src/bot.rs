//! Heuristic bot classification of collected events: user-agent
//! signatures, missing browser headers, and per-visitor behaviour
//! (burst rate and path sweeps) over a sliding time window.
use std::hash::{Hash, Hasher};
use vstd::prelude::*;

use crate::text::{
    before_char, before_char_exec, chars_of, contains, contains_exec, find_exec, first_occ, lower,
    lower_chars, occurs_at, sub_chars, trim, trim_str, chars_eq,
};

verus! {

/// Width of the behaviour window, in nanoseconds (30 s).
pub const BEHAVIOR_WINDOW_NS: u64 = 30_000_000_000;

/// Number of samples in the window from which a burst is reported.
pub const BURST_EVENT_THRESHOLD: usize = 40;

/// Number of distinct paths in the window from which a sweep is reported.
pub const PATH_SWEEP_THRESHOLD: usize = 25;

/// Most samples kept per visitor.
pub const MAX_SAMPLES_PER_VISITOR: usize = 512;

/// Number of shards the activity state is split into.
pub const ACTIVITY_SHARDS: usize = 32;

/// Bot policy mode of a website.
#[derive(Clone, Copy, Debug, PartialEq, Eq, Structural)]
pub enum BotPolicyMode {
    Strict,
    Balanced,
    Off,
}

/// Policy that the classifier applies to a website's events.
#[derive(Clone, Copy, Debug)]
pub struct BotPolicyInput {
    pub mode: BotPolicyMode,
    pub threshold_score: i32,
}

/// Operator decision from the allow/block lists.
#[derive(Clone, Copy, Debug, PartialEq, Eq, Structural)]
pub enum BotOverrideDecision {
    ForceHuman,
    ForceBot,
}

/// Why an event was classified as it was.
#[derive(Clone, Copy, Debug, PartialEq, Eq, Structural)]
pub enum BotReason {
    Allowlist,
    Blocklist,
    UaSignature,
    HeaderAnomaly,
    BurstRate,
    PathSweep,
}

/// The label stored with an event for a reason.
pub open spec fn reason_label(r: BotReason) -> Seq<char> {
    match r {
        BotReason::Allowlist => "allowlist"@,
        BotReason::Blocklist => "blocklist"@,
        BotReason::UaSignature => "ua_signature"@,
        BotReason::HeaderAnomaly => "header_anomaly"@,
        BotReason::BurstRate => "burst_rate"@,
        BotReason::PathSweep => "path_sweep"@,
    }
}

impl BotReason {
    /// The label stored with an event for this reason.
    pub fn label(&self) -> (s: String)
        ensures
            s@ == reason_label(*self),
    {
        match self {
            BotReason::Allowlist => "allowlist".to_owned(),
            BotReason::Blocklist => "blocklist".to_owned(),
            BotReason::UaSignature => "ua_signature".to_owned(),
            BotReason::HeaderAnomaly => "header_anomaly".to_owned(),
            BotReason::BurstRate => "burst_rate".to_owned(),
            BotReason::PathSweep => "path_sweep".to_owned(),
        }
    }
}

/// Outcome of classifying one event.
#[derive(Clone, Copy, Debug, PartialEq, Eq, Structural)]
pub struct BotClassification {
    pub is_bot: bool,
    pub bot_score: i32,
    pub bot_reason: Option<BotReason>,
}

/// Name for the Unicode lower-casing that `str::to_lowercase` performs.
pub uninterp spec fn std_lowercase(s: Seq<char>) -> Seq<char>;

/// Unicode lower-casing through `str::to_lowercase`. The result is named
/// `std_lowercase` of the input. Claimed besides: text of ASCII characters
/// only is lower-cased character by character, `A`-`Z` to `a`-`z` (the
/// Unicode lower-case mapping of ASCII, as `char::to_ascii_lowercase`
/// documents it), everything else kept.
#[verifier::external_body]
fn to_lowercase_chars(s: &[char]) -> (r: Vec<char>)
    ensures
        r@ == std_lowercase(s@),
        (forall|i: int| 0 <= i < s@.len() ==> (s@[i] as u32) < 128) ==> r@ == lower(s@),
{
    let text: String = s.iter().collect();
    text.to_lowercase().chars().collect()
}

/// The path part of a tracked URL, as `normalize_path` computes it:
/// trimmed, without fragment and query, without scheme and authority,
/// `/` when nothing is left, otherwise lower-cased.
pub open spec fn normalized_path(url: Seq<char>) -> Seq<char> {
    let t = trim(url);
    if t.len() == 0 {
        seq!['/']
    } else {
        let without_query = before_char(before_char(t, '#'), '?');
        let scheme = first_occ(without_query, seq![':', '/', '/']);
        let candidate = if scheme >= 0 {
            let rest = without_query.skip(scheme + 3);
            let slash = first_occ(rest, seq!['/']);
            if slash >= 0 {
                rest.skip(slash)
            } else {
                seq!['/']
            }
        } else {
            without_query
        };
        if candidate.len() == 0 {
            seq!['/']
        } else {
            std_lowercase(candidate)
        }
    }
}

/// Reduces a URL to the lower-cased path that behaviour tracking compares.
pub fn normalize_path(url: &str) -> (r: Vec<char>)
    ensures
        r@ == normalized_path(url@),
{
    let t = trim_str(url);
    if t.len() == 0 {
        let r = vec!['/'];
        assert(r@ =~= seq!['/']);
        return r;
    }
    let without_fragment = before_char_exec(t.as_slice(), '#');
    let without_query = before_char_exec(without_fragment.as_slice(), '?');
    let sep = [':', '/', '/'];
    assert(sep@ =~= seq![':', '/', '/']);
    let candidate = match find_exec(without_query.as_slice(), &sep) {
        Some(i) => {
            proof {
                assert(occurs_at(without_query@, seq![':', '/', '/'], i as int));
            }
            let rest = sub_chars(without_query.as_slice(), i + 3, without_query.len());
            assert(rest@ =~= without_query@.skip(i + 3));
            let slash = ['/'];
            assert(slash@ =~= seq!['/']);
            match find_exec(rest.as_slice(), &slash) {
                Some(j) => {
                    proof {
                        assert(occurs_at(rest@, seq!['/'], j as int));
                    }
                    let c = sub_chars(rest.as_slice(), j, rest.len());
                    assert(c@ =~= rest@.skip(j as int));
                    c
                },
                None => {
                    let c = vec!['/'];
                    assert(c@ =~= seq!['/']);
                    c
                },
            }
        },
        None => without_query,
    };
    if candidate.len() == 0 {
        let r = vec!['/'];
        assert(r@ =~= seq!['/']);
        r
    } else {
        to_lowercase_chars(candidate.as_slice())
    }
}

/// Whether the lower-cased user agent carries a known crawler or
/// scripting-client signature.
pub open spec fn has_ua_signature(ua: Seq<char>) -> bool {
    let u = lower(ua);
    ||| contains(u, "bot"@)
    ||| contains(u, "spider"@)
    ||| contains(u, "crawler"@)
    ||| contains(u, "googlebot"@)
    ||| contains(u, "bingbot"@)
    ||| contains(u, "duckduckbot"@)
    ||| contains(u, "yandexbot"@)
    ||| contains(u, "baiduspider"@)
    ||| contains(u, "ahrefsbot"@)
    ||| contains(u, "semrushbot"@)
    ||| contains(u, "mj12bot"@)
    ||| contains(u, "headlesschrome"@)
    ||| contains(u, "phantomjs"@)
    ||| contains(u, "python-requests"@)
    ||| contains(u, "curl/"@)
    ||| contains(u, "wget/"@)
    ||| contains(u, "go-http-client"@)
    ||| contains(u, "libwww-perl"@)
    ||| contains(u, "urllib"@)
    ||| contains(u, "httpclient"@)
}

fn has_sig(u: &[char], sig: &str) -> (r: bool)
    ensures
        r == contains(u@, sig@),
{
    let p = chars_of(sig);
    contains_exec(u, p.as_slice())
}

/// Score contributed by a user-agent signature: `Some(90)` exactly when
/// the agent carries one.
pub fn ua_signature_score(user_agent: &str) -> (r: Option<i32>)
    ensures
        r == (if has_ua_signature(user_agent@) {
            Some(90i32)
        } else {
            None
        }),
{
    let raw = chars_of(user_agent);
    let u = lower_chars(raw.as_slice());
    let us = u.as_slice();
    let found = has_sig(us, "bot") || has_sig(us, "spider") || has_sig(us, "crawler") || has_sig(
        us,
        "googlebot",
    ) || has_sig(us, "bingbot") || has_sig(us, "duckduckbot") || has_sig(us, "yandexbot")
        || has_sig(us, "baiduspider") || has_sig(us, "ahrefsbot") || has_sig(us, "semrushbot")
        || has_sig(us, "mj12bot") || has_sig(us, "headlesschrome") || has_sig(us, "phantomjs")
        || has_sig(us, "python-requests") || has_sig(us, "curl/") || has_sig(us, "wget/")
        || has_sig(us, "go-http-client") || has_sig(us, "libwww-perl") || has_sig(us, "urllib")
        || has_sig(us, "httpclient");
    if found {
        Some(90)
    } else {
        None
    }
}

/// `v` clamped into `[lo, hi]`.
pub open spec fn clamp_int(v: int, lo: int, hi: int) -> int {
    if v < lo {
        lo
    } else if v > hi {
        hi
    } else {
        v
    }
}

/// The threshold a policy applies: its score clamped into `[0, 100]`.
pub fn policy_threshold(policy: &BotPolicyInput) -> (t: i32)
    ensures
        t as int == clamp_int(policy.threshold_score as int, 0, 100),
{
    if policy.threshold_score < 0 {
        0
    } else if policy.threshold_score > 100 {
        100
    } else {
        policy.threshold_score
    }
}

/// Running score and strongest reason so far.
pub struct ScoreState {
    pub score: int,
    pub primary: Option<(BotReason, int)>,
}

/// Adds one signal: the score grows by `value` and is clamped into
/// `[0, 100]`; the signal becomes the primary reason when it is strictly
/// stronger than the current one.
pub open spec fn bump(s: ScoreState, reason: BotReason, value: int) -> ScoreState {
    ScoreState {
        score: clamp_int(s.score + value, 0, 100),
        primary: match s.primary {
            Some((r, existing)) => if value > existing {
                Some((reason, value))
            } else {
                Some((r, existing))
            },
            None => Some((reason, value)),
        },
    }
}

/// Applies a signal only when it fired.
pub open spec fn bump_if(s: ScoreState, fired: bool, reason: BotReason, value: int) -> ScoreState {
    if fired {
        bump(s, reason, value)
    } else {
        s
    }
}

/// Score and primary reason of the heuristic signals, taken in the order
/// user agent (90), header anomaly (25), burst (40), path sweep (35).
pub open spec fn heuristic_score(
    ua_signature: bool,
    header_anomaly: bool,
    burst_rate: bool,
    path_sweep: bool,
) -> ScoreState {
    let s0 = ScoreState { score: 0, primary: None };
    let s1 = bump_if(s0, ua_signature, BotReason::UaSignature, 90);
    let s2 = bump_if(s1, header_anomaly, BotReason::HeaderAnomaly, 25);
    let s3 = bump_if(s2, burst_rate, BotReason::BurstRate, 40);
    bump_if(s3, path_sweep, BotReason::PathSweep, 35)
}

/// Classification from the heuristic signals under a policy: an event is a
/// bot when its score reaches the clamped threshold, and only then carries
/// the primary reason.
pub open spec fn classify_signals(
    ua_signature: bool,
    header_anomaly: bool,
    burst_rate: bool,
    path_sweep: bool,
    threshold_score: i32,
) -> BotClassification {
    let s = heuristic_score(ua_signature, header_anomaly, burst_rate, path_sweep);
    let is_bot = s.score >= clamp_int(threshold_score as int, 0, 100);
    BotClassification {
        is_bot,
        bot_score: s.score as i32,
        bot_reason: if is_bot {
            match s.primary {
                Some((r, _)) => Some(r),
                None => None,
            }
        } else {
            None
        },
    }
}

/// The classification an override decision forces.
pub open spec fn forced_classification(d: BotOverrideDecision) -> BotClassification {
    match d {
        BotOverrideDecision::ForceHuman => BotClassification {
            is_bot: false,
            bot_score: 0,
            bot_reason: Some(BotReason::Allowlist),
        },
        BotOverrideDecision::ForceBot => BotClassification {
            is_bot: true,
            bot_score: 100,
            bot_reason: Some(BotReason::Blocklist),
        },
    }
}

/// Executable running score (score and primary reason value).
struct ScoreAcc {
    score: i32,
    primary: Option<(BotReason, i32)>,
}

impl ScoreAcc {
    spec fn view_state(&self) -> ScoreState {
        ScoreState {
            score: self.score as int,
            primary: match self.primary {
                Some((r, v)) => Some((r, v as int)),
                None => None,
            },
        }
    }

    fn bump_if(&mut self, fired: bool, reason: BotReason, value: i32)
        requires
            0 <= old(self).score <= 100,
            0 < value <= 100,
        ensures
            final(self).view_state() == bump_if(old(self).view_state(), fired, reason, value as int),
            0 <= final(self).score <= 100,
    {
        if fired {
            let sum = self.score + value;
            self.score = if sum > 100 {
                100
            } else {
                sum
            };
            let replace = match self.primary {
                Some((_, existing)) => value > existing,
                None => true,
            };
            if replace {
                self.primary = Some((reason, value));
            }
        }
    }
}

/// Scores the heuristic signals of one event under a policy.
pub fn score_signals(
    ua_signature: bool,
    header_anomaly: bool,
    burst_rate: bool,
    path_sweep: bool,
    policy: &BotPolicyInput,
) -> (c: BotClassification)
    ensures
        c == classify_signals(
            ua_signature,
            header_anomaly,
            burst_rate,
            path_sweep,
            policy.threshold_score,
        ),
{
    let mut acc = ScoreAcc { score: 0, primary: None };
    acc.bump_if(ua_signature, BotReason::UaSignature, 90);
    acc.bump_if(header_anomaly, BotReason::HeaderAnomaly, 25);
    acc.bump_if(burst_rate, BotReason::BurstRate, 40);
    acc.bump_if(path_sweep, BotReason::PathSweep, 35);
    let threshold = policy_threshold(policy);
    let is_bot = acc.score >= threshold;
    let bot_reason = if is_bot {
        match acc.primary {
            Some((r, _)) => Some(r),
            None => None,
        }
    } else {
        None
    };
    BotClassification { is_bot, bot_score: acc.score, bot_reason }
}

/// One observed request of a visitor: when it came and the path it hit.
pub struct ActivitySample {
    pub at_ns: u64,
    pub path: Vec<char>,
}

/// Abstract sample: time in nanoseconds and normalized path.
pub type SampleView = (u64, Seq<char>);

/// Abstract visitor key: website id and visitor id.
pub type VisitorKey = (Seq<char>, Seq<char>);

impl ActivitySample {
    pub open spec fn view_sample(&self) -> SampleView {
        (self.at_ns, self.path@)
    }
}

/// Abstract view of a queue of samples.
pub open spec fn queue_view(q: Seq<ActivitySample>) -> Seq<SampleView> {
    q.map_values(|s: ActivitySample| s.view_sample())
}

/// A sample taken at `at` lies outside the window at `now` (elapsed time
/// saturates at zero, as `Instant::duration_since` does).
pub open spec fn expired(at: u64, now: u64) -> bool {
    (if now >= at {
        now - at
    } else {
        0
    }) > BEHAVIOR_WINDOW_NS
}

/// The queue with its expired front samples removed.
pub open spec fn drop_expired(q: Seq<SampleView>, now: u64) -> Seq<SampleView>
    decreases q.len(),
{
    if q.len() > 0 && expired(q[0].0, now) {
        drop_expired(q.drop_first(), now)
    } else {
        q
    }
}

/// The queue after a push: the oldest sample leaves once it holds more
/// than the per-visitor cap.
pub open spec fn cap_queue(q: Seq<SampleView>) -> Seq<SampleView> {
    if q.len() > MAX_SAMPLES_PER_VISITOR {
        q.drop_first()
    } else {
        q
    }
}

/// Number of distinct elements of a sequence.
pub open spec fn distinct_count(s: Seq<Seq<char>>) -> nat
    decreases s.len(),
{
    if s.len() == 0 {
        0
    } else {
        distinct_count(s.drop_last()) + if s.drop_last().contains(s.last()) {
            0nat
        } else {
            1nat
        }
    }
}

/// Paths of a queue.
pub open spec fn queue_paths(q: Seq<SampleView>) -> Seq<Seq<char>> {
    q.map_values(|s: SampleView| s.1)
}

/// The queue hits at least the sweep threshold of distinct paths.
pub open spec fn is_path_sweep(q: Seq<SampleView>) -> bool {
    distinct_count(queue_paths(q)) >= PATH_SWEEP_THRESHOLD
}

/// Behaviour signals (burst, sweep) and the next per-visitor state after
/// one more request of visitor `k` at `now` on `path`.
pub open spec fn behavior_step(
    m: Map<VisitorKey, Seq<SampleView>>,
    k: VisitorKey,
    now: u64,
    path: Seq<char>,
) -> (Map<VisitorKey, Seq<SampleView>>, (bool, bool)) {
    if !m.contains_key(k) {
        (m.insert(k, seq![(now, path)]), (false, false))
    } else {
        let q = drop_expired(m[k], now);
        if q.len() == 0 {
            (m.remove(k), (false, false))
        } else {
            let q2 = cap_queue(q.push((now, path)));
            (m.insert(k, q2), (q2.len() >= BURST_EVENT_THRESHOLD, is_path_sweep(q2)))
        }
    }
}

proof fn lemma_distinct_count_prefix(s: Seq<Seq<char>>, i: int)
    requires
        0 <= i <= s.len(),
    ensures
        distinct_count(s.take(i)) <= distinct_count(s),
    decreases s.len() - i,
{
    if i < s.len() {
        lemma_distinct_count_prefix(s, i + 1);
        assert(s.take(i + 1).drop_last() =~= s.take(i));
    } else {
        assert(s.take(i) =~= s);
    }
}

fn path_seen(unique: &Vec<Vec<char>>, p: &[char]) -> (r: bool)
    ensures
        r == unique@.map_values(|u: Vec<char>| u@).contains(p@),
{
    let ghost views = unique@.map_values(|u: Vec<char>| u@);
    let mut i: usize = 0;
    while i < unique.len()
        invariant
            i <= unique@.len(),
            views == unique@.map_values(|u: Vec<char>| u@),
            forall|j: int| 0 <= j < i ==> views[j] != p@,
        decreases unique@.len() - i,
    {
        if chars_eq(unique[i].as_slice(), p) {
            assert(views[i as int] == p@);
            return true;
        }
        i = i + 1;
    }
    assert(!views.contains(p@));
    false
}

/// Whether the samples hit at least `PATH_SWEEP_THRESHOLD` distinct paths.
pub fn has_path_sweep(queue: &[ActivitySample]) -> (r: bool)
    ensures
        r == is_path_sweep(queue_view(queue@)),
{
    let ghost paths = queue_paths(queue_view(queue@));
    let mut unique: Vec<Vec<char>> = Vec::new();
    let mut i: usize = 0;
    while i < queue.len()
        invariant
            i <= queue@.len(),
            paths == queue_paths(queue_view(queue@)),
            paths.len() == queue@.len(),
            unique@.len() == distinct_count(paths.take(i as int)),
            unique@.len() < PATH_SWEEP_THRESHOLD,
            forall|p: Seq<char>|
                unique@.map_values(|u: Vec<char>| u@).contains(p) <==> paths.take(
                    i as int,
                ).contains(p),
        decreases queue@.len() - i,
    {
        let path = queue[i].path.as_slice();
        let ghost prefix = paths.take(i as int);
        let ghost next = paths.take(i + 1);
        assert(next.drop_last() =~= prefix);
        assert(next.last() == path@);
        if path_seen(&unique, path) {
            assert(prefix.contains(path@));
            i = i + 1;
            assert forall|p: Seq<char>|
                unique@.map_values(|u: Vec<char>| u@).contains(p) <==> next.contains(p) by {
                if next.contains(p) {
                    let j = choose|j: int| 0 <= j < next.len() && next[j] == p;
                    if j < prefix.len() {
                        assert(prefix[j] == p);
                    }
                }
                if prefix.contains(p) {
                    let j = choose|j: int| 0 <= j < prefix.len() && prefix[j] == p;
                    assert(next[j] == p);
                }
            }
            continue;
        }
        let ghost old_views = unique@.map_values(|u: Vec<char>| u@);
        let copy = sub_chars(path, 0, path.len());
        assert(path@.subrange(0, path@.len() as int) =~= path@);
        unique.push(copy);
        let ghost new_views = unique@.map_values(|u: Vec<char>| u@);
        assert(new_views =~= old_views.push(path@));
        i = i + 1;
        assert forall|p: Seq<char>| new_views.contains(p) <==> next.contains(p) by {
            if next.contains(p) {
                let j = choose|j: int| 0 <= j < next.len() && next[j] == p;
                if j < prefix.len() {
                    assert(prefix[j] == p);
                    assert(prefix.contains(p));
                    assert(old_views.contains(p));
                    let k = choose|k: int| 0 <= k < old_views.len() && old_views[k] == p;
                    assert(new_views[k] == p);
                } else {
                    assert(new_views[old_views.len() as int] == p);
                }
            }
            if new_views.contains(p) {
                let k = choose|k: int| 0 <= k < new_views.len() && new_views[k] == p;
                if k < old_views.len() {
                    assert(old_views[k] == p);
                    assert(prefix.contains(p));
                    let j = choose|j: int| 0 <= j < prefix.len() && prefix[j] == p;
                    assert(next[j] == p);
                } else {
                    assert(next[prefix.len() as int] == p);
                }
            }
        }
        if unique.len() >= PATH_SWEEP_THRESHOLD {
            proof {
                lemma_distinct_count_prefix(paths, i as int);
            }
            return true;
        }
    }
    assert(paths.take(i as int) =~= paths);
    false
}

/// Samples of one visitor of one website.
pub struct ActivityEntry {
    pub website_id: Vec<char>,
    pub visitor_id: Vec<char>,
    pub samples: Vec<ActivitySample>,
}

/// Key of an entry.
pub open spec fn entry_key(e: ActivityEntry) -> VisitorKey {
    (e.website_id@, e.visitor_id@)
}

/// Per-visitor behaviour windows. Each visitor appears once, with a
/// non-empty window of at most `MAX_SAMPLES_PER_VISITOR` samples.
pub struct ActivityTracker {
    entries: Vec<ActivityEntry>,
    model: Ghost<Map<VisitorKey, Seq<SampleView>>>,
}

impl View for ActivityTracker {
    type V = Map<VisitorKey, Seq<SampleView>>;

    closed spec fn view(&self) -> Map<VisitorKey, Seq<SampleView>> {
        self.model@
    }
}

/// Every window in a per-visitor map is non-empty and within the cap.
pub open spec fn windows_bounded(m: Map<VisitorKey, Seq<SampleView>>) -> bool {
    forall|k: VisitorKey| m.contains_key(k) ==> 0 < #[trigger] m[k].len() <= MAX_SAMPLES_PER_VISITOR
}

proof fn lemma_drop_expired_len(q: Seq<SampleView>, now: u64)
    ensures
        drop_expired(q, now).len() <= q.len(),
    decreases q.len(),
{
    if q.len() > 0 && expired(q[0].0, now) {
        lemma_drop_expired_len(q.drop_first(), now);
    }
}

fn expired_exec(at: u64, now: u64) -> (r: bool)
    ensures
        r == expired(at, now),
{
    let elapsed = if now >= at {
        now - at
    } else {
        0
    };
    elapsed > BEHAVIOR_WINDOW_NS
}

fn expire_samples(samples: &mut Vec<ActivitySample>, now: u64)
    ensures
        queue_view(final(samples)@) == drop_expired(queue_view(old(samples)@), now),
{
    let ghost target = drop_expired(queue_view(samples@), now);
    while samples.len() > 0 && expired_exec(samples[0].at_ns, now)
        invariant
            drop_expired(queue_view(samples@), now) == target,
        decreases samples@.len(),
    {
        let ghost before = queue_view(samples@);
        samples.remove(0);
        assert(queue_view(samples@) =~= before.drop_first());
    }
}

impl ActivityTracker {
    /// Internal consistency of the entries with the abstract map.
    pub closed spec fn wf(&self) -> bool {
        let es = self.entries@;
        let m = self.model@;
        &&& forall|i: int|
            0 <= i < es.len() ==> m.contains_key(#[trigger] entry_key(es[i])) && m[entry_key(es[i])]
                == queue_view(es[i].samples@)
        &&& forall|k: VisitorKey|
            m.contains_key(k) ==> exists|i: int| 0 <= i < es.len() && #[trigger] entry_key(es[i]) == k
        &&& forall|i: int, j: int|
            0 <= i < j < es.len() ==> entry_key(#[trigger] es[i]) != entry_key(#[trigger] es[j])
        &&& windows_bounded(m)
    }

    /// An empty tracker.
    pub fn new() -> (t: Self)
        ensures
            t.wf(),
            t@ == Map::<VisitorKey, Seq<SampleView>>::empty(),
    {
        ActivityTracker { entries: Vec::new(), model: Ghost(Map::empty()) }
    }

    /// Every visitor window of a consistent tracker is non-empty and holds at
    /// most `MAX_SAMPLES_PER_VISITOR` samples.
    pub proof fn lemma_windows_bounded(&self)
        requires
            self.wf(),
        ensures
            windows_bounded(self@),
    {
    }

    fn find_entry(&self, w: &[char], v: &[char]) -> (r: Option<usize>)
        requires
            self.wf(),
        ensures
            match r {
                Some(i) => i < self.entries@.len() && entry_key(self.entries@[i as int]) == (
                w@,
                v@,
                ),
                None => !self@.contains_key((w@, v@)),
            },
    {
        let mut i: usize = 0;
        while i < self.entries.len()
            invariant
                self.wf(),
                i <= self.entries@.len(),
                forall|j: int| 0 <= j < i ==> entry_key(self.entries@[j]) != (w@, v@),
            decreases self.entries@.len() - i,
        {
            let e = &self.entries[i];
            if chars_eq(e.website_id.as_slice(), w) && chars_eq(e.visitor_id.as_slice(), v) {
                return Some(i);
            }
            i = i + 1;
        }
        proof {
            if self@.contains_key((w@, v@)) {
                let j = choose|j: int|
                    0 <= j < self.entries@.len() && #[trigger] entry_key(self.entries@[j]) == (
                    w@,
                    v@,
                    );
                assert(entry_key(self.entries@[j]) != (w@, v@));
            }
        }
        None
    }

    /// Records one request of a visitor at `now_ns` and reports the
    /// behaviour signals `(burst_rate, path_sweep)`: the first request of a
    /// visitor, or one after the visitor's window has fully expired, reports
    /// none; otherwise the window gains the request and is checked.
    pub fn evaluate_behavior(
        &mut self,
        website_id: &str,
        visitor_id: &str,
        url: &str,
        now_ns: u64,
    ) -> (r: (bool, bool))
        requires
            old(self).wf(),
        ensures
            final(self).wf(),
            (final(self)@, r) == behavior_step(
                old(self)@,
                (website_id@, visitor_id@),
                now_ns,
                normalized_path(url@),
            ),
    {
        let w = chars_of(website_id);
        let v = chars_of(visitor_id);
        let path = normalize_path(url);
        let ghost k: VisitorKey = (website_id@, visitor_id@);
        let ghost m = self.model@;
        let ghost old_entries = self.entries@;
        let sample = ActivitySample { at_ns: now_ns, path };
        match self.find_entry(w.as_slice(), v.as_slice()) {
            None => {
                let samples = vec![sample];
                let e = ActivityEntry { website_id: w, visitor_id: v, samples };
                assert(queue_view(e.samples@) =~= seq![(now_ns, normalized_path(url@))]);
                self.entries.push(e);
                self.model = Ghost(m.insert(k, seq![(now_ns, normalized_path(url@))]));
                proof {
                    let es = self.entries@;
                    let n = old_entries.len() as int;
                    assert(es[n] == e);
                    assert forall|i: int| 0 <= i < es.len() implies self.model@.contains_key(
                        #[trigger] entry_key(es[i]),
                    ) && self.model@[entry_key(es[i])] == queue_view(es[i].samples@) by {
                        if i < n {
                            assert(es[i] == old_entries[i]);
                            assert(entry_key(es[i]) != k);
                        }
                    }
                    assert forall|kk: VisitorKey| self.model@.contains_key(kk) implies exists|i: int|
                        0 <= i < es.len() && #[trigger] entry_key(es[i]) == kk by {
                        if kk == k {
                            assert(entry_key(es[n]) == kk);
                        } else {
                            let i = choose|i: int|
                                0 <= i < old_entries.len() && #[trigger] entry_key(old_entries[i])
                                    == kk;
                            assert(es[i] == old_entries[i]);
                        }
                    }
                    assert forall|kk: VisitorKey| self.model@.contains_key(kk) implies 0
                        < #[trigger] self.model@[kk].len() <= MAX_SAMPLES_PER_VISITOR by {
                        if kk != k {
                            assert(m.contains_key(kk));
                        }
                    }
                    assert forall|i: int, j: int| 0 <= i < j < es.len() implies entry_key(
                        #[trigger] es[i],
                    ) != entry_key(#[trigger] es[j]) by {
                        if j < n {
                            assert(es[i] == old_entries[i]);
                            assert(es[j] == old_entries[j]);
                        } else {
                            assert(es[i] == old_entries[i]);
                        }
                    }
                }
                (false, false)
            },
            Some(i) => {
                let mut e = ActivityEntry {
                    website_id: Vec::new(),
                    visitor_id: Vec::new(),
                    samples: Vec::new(),
                };
                self.entries.set_and_swap(i, &mut e);
                let ghost with_dummy = self.entries@;
                assert(entry_key(e) == k);
                assert(queue_view(e.samples@) == m[k]);
                expire_samples(&mut e.samples, now_ns);
                if e.samples.len() == 0 {
                    self.entries.remove(i);
                    self.model = Ghost(m.remove(k));
                    proof {
                        let es = self.entries@;
                        assert forall|kk: VisitorKey| self.model@.contains_key(kk) implies 0
                            < #[trigger] self.model@[kk].len() <= MAX_SAMPLES_PER_VISITOR by {
                            assert(m.contains_key(kk));
                        }
                        assert forall|j: int| 0 <= j < es.len() implies self.model@.contains_key(
                            #[trigger] entry_key(es[j]),
                        ) && self.model@[entry_key(es[j])] == queue_view(es[j].samples@) by {
                            if j < i {
                                assert(es[j] == old_entries[j]);
                                assert(entry_key(old_entries[j]) != entry_key(
                                    old_entries[i as int],
                                ));
                            } else {
                                assert(es[j] == old_entries[j + 1]);
                                assert(entry_key(old_entries[i as int]) != entry_key(
                                    old_entries[j + 1],
                                ));
                            }
                        }
                        assert forall|kk: VisitorKey|
                            self.model@.contains_key(kk) implies exists|j: int|
                            0 <= j < es.len() && #[trigger] entry_key(es[j]) == kk by {
                            let j = choose|j: int|
                                0 <= j < old_entries.len() && #[trigger] entry_key(
                                    old_entries[j],
                                ) == kk;
                            assert(j != i);
                            if j < i {
                                assert(es[j] == old_entries[j]);
                            } else {
                                assert(es[j - 1] == old_entries[j]);
                            }
                        }
                        assert forall|a: int, b: int| 0 <= a < b < es.len() implies entry_key(
                            #[trigger] es[a],
                        ) != entry_key(#[trigger] es[b]) by {
                            let oa = if a < i {
                                a
                            } else {
                                a + 1
                            };
                            let ob = if b < i {
                                b
                            } else {
                                b + 1
                            };
                            assert(es[a] == old_entries[oa]);
                            assert(es[b] == old_entries[ob]);
                        }
                    }
                    return (false, false);
                }
                let ghost q = queue_view(e.samples@);
                let ghost new_path = sample.path@;
                e.samples.push(sample);
                assert(queue_view(e.samples@) =~= q.push((now_ns, new_path)));
                if e.samples.len() > MAX_SAMPLES_PER_VISITOR {
                    let ghost before = queue_view(e.samples@);
                    e.samples.remove(0);
                    assert(queue_view(e.samples@) =~= before.drop_first());
                }
                let burst_rate = e.samples.len() >= BURST_EVENT_THRESHOLD;
                let path_sweep = has_path_sweep(e.samples.as_slice());
                let ghost q2 = queue_view(e.samples@);
                assert(entry_key(e) == k);
                self.entries.set(i, e);
                self.model = Ghost(m.insert(k, q2));
                proof {
                    let es = self.entries@;
                    assert(es.len() == old_entries.len());
                    lemma_drop_expired_len(m[k], now_ns);
                    assert forall|kk: VisitorKey| self.model@.contains_key(kk) implies 0
                        < #[trigger] self.model@[kk].len() <= MAX_SAMPLES_PER_VISITOR by {
                        if kk != k {
                            assert(m.contains_key(kk));
                        }
                    }
                    assert forall|j: int| 0 <= j < es.len() implies self.model@.contains_key(
                        #[trigger] entry_key(es[j]),
                    ) && self.model@[entry_key(es[j])] == queue_view(es[j].samples@) by {
                        if j != i {
                            assert(es[j] == old_entries[j]);
                            assert(entry_key(old_entries[j]) != entry_key(old_entries[i as int]));
                        }
                    }
                    assert forall|kk: VisitorKey|
                        self.model@.contains_key(kk) implies exists|j: int|
                        0 <= j < es.len() && #[trigger] entry_key(es[j]) == kk by {
                        if kk == k {
                            assert(entry_key(es[i as int]) == kk);
                        } else {
                            let j = choose|j: int|
                                0 <= j < old_entries.len() && #[trigger] entry_key(old_entries[j])
                                    == kk;
                            assert(es[j] == old_entries[j]);
                        }
                    }
                    assert forall|a: int, b: int| 0 <= a < b < es.len() implies entry_key(
                        #[trigger] es[a],
                    ) != entry_key(#[trigger] es[b]) by {
                        if a != i && b != i {
                            assert(es[a] == old_entries[a]);
                            assert(es[b] == old_entries[b]);
                        } else if a == i {
                            assert(es[b] == old_entries[b]);
                            assert(entry_key(old_entries[a]) != entry_key(old_entries[b]));
                        } else {
                            assert(es[a] == old_entries[a]);
                            assert(entry_key(old_entries[a]) != entry_key(old_entries[b]));
                        }
                    }
                }
                (burst_rate, path_sweep)
            },
        }
    }
}

/// Classifies one collected event. An operator override decides alone and
/// leaves the behaviour state untouched; otherwise the request is recorded
/// in the visitor's window and the user-agent, header and behaviour
/// signals are scored under the policy.
pub fn classify_event(
    tracker: &mut ActivityTracker,
    now_ns: u64,
    website_id: &str,
    visitor_id: &str,
    url: &str,
    user_agent: &str,
    has_accept_header: bool,
    has_accept_language_header: bool,
    policy: &BotPolicyInput,
    override_decision: Option<BotOverrideDecision>,
) -> (c: BotClassification)
    requires
        old(tracker).wf(),
    ensures
        final(tracker).wf(),
        match override_decision {
            Some(d) => c == forced_classification(d) && final(tracker)@ == old(tracker)@,
            None => {
                let (next, signals) = behavior_step(
                    old(tracker)@,
                    (website_id@, visitor_id@),
                    now_ns,
                    normalized_path(url@),
                );
                &&& final(tracker)@ == next
                &&& c == classify_signals(
                    has_ua_signature(user_agent@),
                    !has_accept_header || !has_accept_language_header,
                    signals.0,
                    signals.1,
                    policy.threshold_score,
                )
            },
        },
{
    if let Some(decision) = override_decision {
        return match decision {
            BotOverrideDecision::ForceHuman => BotClassification {
                is_bot: false,
                bot_score: 0,
                bot_reason: Some(BotReason::Allowlist),
            },
            BotOverrideDecision::ForceBot => BotClassification {
                is_bot: true,
                bot_score: 100,
                bot_reason: Some(BotReason::Blocklist),
            },
        };
    }
    let ua_signature = ua_signature_score(user_agent).is_some();
    let header_anomaly = !has_accept_header || !has_accept_language_header;
    let (burst_rate, path_sweep) = tracker.evaluate_behavior(website_id, visitor_id, url, now_ns);
    score_signals(ua_signature, header_anomaly, burst_rate, path_sweep, policy)
}

/// The score of any combination of signals stays within `[0, 100]`; the
/// event is a bot exactly when the score reaches the clamped threshold; a
/// bot carries a reason exactly when some signal fired, and that reason is
/// one of the fired signals.
pub proof fn lemma_classification_consistent(
    ua_signature: bool,
    header_anomaly: bool,
    burst_rate: bool,
    path_sweep: bool,
    threshold_score: i32,
)
    ensures
        ({
            let c = classify_signals(
                ua_signature,
                header_anomaly,
                burst_rate,
                path_sweep,
                threshold_score,
            );
            let any = ua_signature || header_anomaly || burst_rate || path_sweep;
            &&& 0 <= c.bot_score <= 100
            &&& c.is_bot == (c.bot_score >= clamp_int(threshold_score as int, 0, 100))
            &&& (c.bot_reason is Some) == (c.is_bot && any)
            &&& c.bot_reason == Some(BotReason::UaSignature) ==> ua_signature
            &&& c.bot_reason == Some(BotReason::HeaderAnomaly) ==> header_anomaly
            &&& c.bot_reason == Some(BotReason::BurstRate) ==> burst_rate
            &&& c.bot_reason == Some(BotReason::PathSweep) ==> path_sweep
            &&& !any ==> c.bot_score == 0
        }),
{
}

/// A known crawler signature alone scores at least 90, so it is flagged
/// under every threshold up to 90 (both default thresholds included), and
/// it is then the reported reason.
pub proof fn lemma_signature_flags_bot(
    header_anomaly: bool,
    burst_rate: bool,
    path_sweep: bool,
    threshold_score: i32,
)
    requires
        threshold_score <= 90,
    ensures
        ({
            let c = classify_signals(true, header_anomaly, burst_rate, path_sweep, threshold_score);
            c.bot_score >= 90 && c.is_bot && c.bot_reason == Some(BotReason::UaSignature)
        }),
{
}

/// Adding a signal never lowers the score.
pub proof fn lemma_score_monotone(
    a: (bool, bool, bool, bool),
    b: (bool, bool, bool, bool),
)
    requires
        a.0 ==> b.0,
        a.1 ==> b.1,
        a.2 ==> b.2,
        a.3 ==> b.3,
    ensures
        heuristic_score(a.0, a.1, a.2, a.3).score <= heuristic_score(b.0, b.1, b.2, b.3).score,
{
}

/// Name for the value of `std::hash::DefaultHasher::new()` after hashing
/// the website id and then the visitor id (`str::hash` each) and
/// `finish`. `DefaultHasher::new` is not seeded: its documentation
/// guarantees that every instance it makes is the same, so the value is a
/// function of the two texts (the algorithm may change between Rust
/// releases).
pub uninterp spec fn default_pair_hash(website_id: Seq<char>, visitor_id: Seq<char>) -> u64;

/// Hash of a visitor key through `std::hash::DefaultHasher`; named by
/// [`default_pair_hash`].
#[verifier::external_body]
fn default_hash_pair(website_id: &str, visitor_id: &str) -> (h: u64)
    ensures
        h == default_pair_hash(website_id@, visitor_id@),
{
    let mut hasher = std::hash::DefaultHasher::new();
    website_id.hash(&mut hasher);
    visitor_id.hash(&mut hasher);
    hasher.finish()
}

/// The shard of a visitor key's hash: the hash as a `usize`, modulo the
/// number of shards.
pub open spec fn hash_shard(h: u64) -> usize {
    (h as usize) % ACTIVITY_SHARDS
}

/// The shard of a visitor key's hash, as [`hash_shard`] states it.
pub fn shard_of_hash(h: u64) -> (i: usize)
    ensures
        i == hash_shard(h),
        i < ACTIVITY_SHARDS,
{
    (h as usize) % ACTIVITY_SHARDS
}

/// The shard that holds a visitor's behaviour state.
pub fn activity_shard_index(website_id: &str, visitor_id: &str) -> (i: usize)
    ensures
        i == hash_shard(default_pair_hash(website_id@, visitor_id@)),
        i < ACTIVITY_SHARDS,
{
    let h = default_hash_pair(website_id, visitor_id);
    shard_of_hash(h)
}

} // verus!
