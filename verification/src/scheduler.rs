//! The notifications scheduler: its settings (read from the environment
//! by the server), the idempotency keys of deliveries, and what a run of
//! a due subscription records.
use vstd::prelude::*;

use crate::routes::query::opt_view;
use crate::text::{append_str, chars_of, string_of};

verus! {

/// Whether every character of `s` is an ASCII digit.
pub open spec fn all_digits(s: Seq<char>) -> bool {
    forall|i: int| 0 <= i < s.len() ==> '0' <= #[trigger] s[i] <= '9'
}

/// Value of a string of decimal digits.
pub open spec fn digits_value(s: Seq<char>) -> nat
    decreases s.len(),
{
    if s.len() == 0 {
        0
    } else {
        digits_value(s.drop_last()) * 10 + ((s.last() as int) - ('0' as int)) as nat
    }
}

/// The unsigned integer a text denotes (what `u64::from_str` accepts): an
/// optional `+` and at least one digit, within range.
pub open spec fn u64_text(s: Seq<char>) -> Option<u64> {
    let d = if s.len() > 0 && s[0] == '+' {
        s.skip(1)
    } else {
        s
    };
    if d.len() > 0 && all_digits(d) && digits_value(d) <= u64::MAX {
        Some(digits_value(d) as u64)
    } else {
        None
    }
}

/// The signed integer a text denotes (what `i64::from_str` accepts): an
/// optional sign and at least one digit, within range.
pub open spec fn i64_text(s: Seq<char>) -> Option<i64> {
    let neg = s.len() > 0 && s[0] == '-';
    let d = if s.len() > 0 && (s[0] == '+' || s[0] == '-') {
        s.skip(1)
    } else {
        s
    };
    if d.len() == 0 || !all_digits(d) {
        None
    } else if neg {
        if digits_value(d) <= 0x8000_0000_0000_0000 {
            Some((-(digits_value(d) as int)) as i64)
        } else {
            None
        }
    } else if digits_value(d) <= i64::MAX {
        Some(digits_value(d) as i64)
    } else {
        None
    }
}

/// Reads the digits of `d`; `None` when one is not a digit, when there is
/// none, or when the value exceeds `limit`.
pub(crate) fn read_digits(d: &[char], limit: u64) -> (r: Option<u64>)
    ensures
        match r {
            Some(v) => d@.len() > 0 && all_digits(d@) && digits_value(d@) == v && v <= limit,
            None => !(d@.len() > 0 && all_digits(d@) && digits_value(d@) <= limit),
        },
{
    if d.len() == 0 {
        return None;
    }
    let mut v: u64 = 0;
    let mut i: usize = 0;
    while i < d.len()
        invariant
            i <= d@.len(),
            all_digits(d@.take(i as int)),
            digits_value(d@.take(i as int)) == v,
            v <= limit,
        decreases d@.len() - i,
    {
        assert(d@.take(i + 1).drop_last() =~= d@.take(i as int));
        let c = d[i];
        if !('0' <= c && c <= '9') {
            proof {
                assert(!all_digits(d@)) by {
                    assert(d@[i as int] == c);
                }
            }
            return None;
        }
        let digit = (c as u32 - '0' as u32) as u64;
        let next = match v.checked_mul(10) {
            Some(x) => match x.checked_add(digit) {
                Some(y) => y,
                None => {
                    proof {
                        lemma_digits_prefix_le(d@, i + 1);
                    }
                    return None;
                },
            },
            None => {
                proof {
                    lemma_digits_prefix_le(d@, i + 1);
                }
                return None;
            },
        };
        if next > limit {
            proof {
                lemma_digits_prefix_le(d@, i + 1);
            }
            return None;
        }
        v = next;
        i = i + 1;
    }
    assert(d@.take(i as int) =~= d@);
    Some(v)
}

/// The value of a digit string is at least that of any of its prefixes.
proof fn lemma_digits_prefix_le(s: Seq<char>, k: int)
    requires
        0 <= k <= s.len(),
    ensures
        all_digits(s) ==> digits_value(s.take(k)) <= digits_value(s),
    decreases s.len() - k,
{
    if k < s.len() {
        lemma_digits_prefix_le(s, k + 1);
        assert(s.take(k + 1).drop_last() =~= s.take(k));
        if all_digits(s) {
            assert('0' <= s[k] <= '9');
        }
    } else {
        assert(s.take(k) =~= s);
    }
}

/// Parses an unsigned decimal integer as `u64::from_str` does.
pub fn parse_u64_text(s: &str) -> (r: Option<u64>)
    ensures
        r == u64_text(s@),
{
    let c = chars_of(s);
    let start: usize = if c.len() > 0 && c[0] == '+' {
        1
    } else {
        0
    };
    let d = crate::text::sub_chars(c.as_slice(), start, c.len());
    assert(d@ =~= (if s@.len() > 0 && s@[0] == '+' {
        s@.skip(1)
    } else {
        s@
    }));
    read_digits(d.as_slice(), u64::MAX)
}

/// Parses a signed decimal integer as `i64::from_str` does.
pub fn parse_i64_text(s: &str) -> (r: Option<i64>)
    ensures
        r == i64_text(s@),
{
    let c = chars_of(s);
    let neg = c.len() > 0 && c[0] == '-';
    let start: usize = if c.len() > 0 && (c[0] == '+' || c[0] == '-') {
        1
    } else {
        0
    };
    let d = crate::text::sub_chars(c.as_slice(), start, c.len());
    assert(d@ =~= (if s@.len() > 0 && (s@[0] == '+' || s@[0] == '-') {
        s@.skip(1)
    } else {
        s@
    }));
    if neg {
        match read_digits(d.as_slice(), 0x8000_0000_0000_0000) {
            Some(v) => {
                if v == 0x8000_0000_0000_0000 {
                    Some(i64::MIN)
                } else {
                    Some(-(v as i64))
                }
            },
            None => None,
        }
    } else {
        match read_digits(d.as_slice(), 0x7fff_ffff_ffff_ffff) {
            Some(v) => Some(v as i64),
            None => None,
        }
    }
}

/// A setting read as an integer, clamped to `lo..=hi`, or `default` when
/// absent or not a number.
pub open spec fn clamped_setting(raw: Option<Seq<char>>, lo: i64, hi: i64, default: i64) -> i64 {
    match raw {
        Some(s) => match i64_text(s) {
            Some(v) => if v < lo {
                lo
            } else if v > hi {
                hi
            } else {
                v
            },
            None => default,
        },
        None => default,
    }
}

fn clamped_i64(raw: Option<&str>, lo: i64, hi: i64, default: i64) -> (v: i64)
    requires
        lo <= hi,
    ensures
        v == clamped_setting(opt_view(raw), lo, hi, default),
{
    match raw {
        Some(s) => match parse_i64_text(s) {
            Some(v) => if v < lo {
                lo
            } else if v > hi {
                hi
            } else {
                v
            },
            None => default,
        },
        None => default,
    }
}

/// Seconds between scheduler ticks: the setting clamped to `10..=3600`,
/// 60 by default.
pub fn scheduler_tick_seconds(raw: Option<&str>) -> (s: u64)
    ensures
        s == match opt_view(raw) {
            Some(t) => match u64_text(t) {
                Some(v) => if v < 10 {
                    10
                } else if v > 3600 {
                    3600
                } else {
                    v
                },
                None => 60,
            },
            None => 60u64,
        },
{
    match raw {
        Some(t) => match parse_u64_text(t) {
            Some(v) => if v < 10 {
                10
            } else if v > 3600 {
                3600
            } else {
                v
            },
            None => 60,
        },
        None => 60,
    }
}

/// Due subscriptions handled per tick: the setting clamped to `1..=100`,
/// 10 by default.
pub fn max_subscriptions_per_tick(raw: Option<&str>) -> (n: i64)
    ensures
        n == clamped_setting(opt_view(raw), 1, 100, 10),
{
    clamped_i64(raw, 1, 100, 10)
}

/// Alert rules checked per tick: the setting clamped to `1..=200`, 25 by
/// default.
pub fn max_alert_rules_per_tick(raw: Option<&str>) -> (n: i64)
    ensures
        n == clamped_setting(opt_view(raw), 1, 200, 25),
{
    clamped_i64(raw, 1, 200, 25)
}

/// Whether a daily maintenance task is due after `elapsed_secs`.
pub fn maintenance_due(elapsed_secs: u64) -> (b: bool)
    ensures
        b == (elapsed_secs >= 86400),
{
    elapsed_secs >= 86400
}

/// Idempotency bucket of a scheduled run: the first sixteen ASCII letters
/// and digits of its due time.
pub open spec fn bucket_of(s: Seq<char>) -> Seq<char>
    decreases s.len(),
{
    if s.len() == 0 {
        Seq::empty()
    } else {
        let prev = bucket_of(s.drop_last());
        if prev.len() < 16 && crate::cloud::is_alphanumeric(s.last()) {
            prev.push(s.last())
        } else {
            prev
        }
    }
}

/// Builds the idempotency bucket of a scheduled run.
pub fn idempotency_bucket(next_run_at: &str) -> (r: String)
    ensures
        r@ == bucket_of(next_run_at@),
{
    let c = chars_of(next_run_at);
    let mut out: Vec<char> = Vec::new();
    let mut i: usize = 0;
    assert(c@.take(0) =~= Seq::<char>::empty());
    while i < c.len()
        invariant
            i <= c@.len(),
            c@ == next_run_at@,
            out@ == bucket_of(c@.take(i as int)),
        decreases c@.len() - i,
    {
        assert(c@.take(i + 1).drop_last() =~= c@.take(i as int));
        let ch = c[i];
        if out.len() < 16 && (('0' <= ch && ch <= '9') || ('a' <= ch && ch <= 'z') || ('A' <= ch
            && ch <= 'Z')) {
            out.push(ch);
        }
        i = i + 1;
    }
    assert(c@.take(i as int) =~= c@);
    string_of(out.as_slice())
}

/// Idempotency key of a subscription's run.
pub fn subscription_idempotency_key(subscription_id: &str, next_run_at: &str) -> (k: String)
    ensures
        k@ == "sub:"@ + subscription_id@ + ":"@ + bucket_of(next_run_at@),
{
    let mut v = chars_of("sub:");
    append_str(&mut v, subscription_id);
    append_str(&mut v, ":");
    let b = idempotency_bucket(next_run_at);
    append_str(&mut v, b.as_str());
    string_of(v.as_slice())
}

/// Idempotency key of an alert's delivery on a day (`YYYYMMDD`).
pub fn alert_idempotency_key(rule_id: &str, day_compact: &str) -> (k: String)
    ensures
        k@ == "alert:"@ + rule_id@ + ":"@ + day_compact@,
{
    let mut v = chars_of("alert:");
    append_str(&mut v, rule_id);
    append_str(&mut v, ":");
    append_str(&mut v, day_compact);
    string_of(v.as_slice())
}

/// How producing a due subscription's report went.
pub enum SubscriptionRun {
    /// The subscribed report no longer exists.
    ReportMissing,
    /// The report failed with this message.
    ReportFailed(String),
    /// The report was produced and handed to delivery, which recorded a
    /// delivery (or found one recorded already).
    Delivered(bool),
}

/// What the scheduler records for a due subscription: the failure to
/// record (with its message), whether the subscription is marked as run
/// (which schedules its next run), and whether the run counts.
pub struct SubscriptionActions {
    pub record_failure: Option<String>,
    pub mark_ran: bool,
    pub counts: bool,
}

/// Decides what a due subscription's run records. A failure is recorded
/// once per run (`already_recorded` tells whether its idempotency key has
/// a delivery); a successful delivery marks the run.
pub fn subscription_actions(run: SubscriptionRun, already_recorded: bool) -> (a: SubscriptionActions)
    ensures
        (opt_view_string(a.record_failure), a.mark_ran, a.counts) == actions_of(run, already_recorded),
        match run {
            SubscriptionRun::ReportMissing => if already_recorded {
                a.record_failure is None && !a.mark_ran && !a.counts
            } else {
                opt_view_string(a.record_failure) == Some("report not found"@) && a.mark_ran
                    && a.counts
            },
            SubscriptionRun::ReportFailed(m) => if already_recorded {
                a.record_failure is None && !a.mark_ran && !a.counts
            } else {
                opt_view_string(a.record_failure) == Some(m@) && a.mark_ran && a.counts
            },
            SubscriptionRun::Delivered(d) => a.record_failure is None && a.mark_ran == d
                && a.counts == d,
        },
{
    match run {
        SubscriptionRun::ReportMissing => {
            if already_recorded {
                SubscriptionActions { record_failure: None, mark_ran: false, counts: false }
            } else {
                SubscriptionActions {
                    record_failure: Some("report not found".to_owned()),
                    mark_ran: true,
                    counts: true,
                }
            }
        },
        SubscriptionRun::ReportFailed(m) => {
            if already_recorded {
                SubscriptionActions { record_failure: None, mark_ran: false, counts: false }
            } else {
                SubscriptionActions { record_failure: Some(m), mark_ran: true, counts: true }
            }
        },
        SubscriptionRun::Delivered(d) => SubscriptionActions {
            record_failure: None,
            mark_ran: d,
            counts: d,
        },
    }
}

/// View of an optional owned string.
pub open spec fn opt_view_string(s: Option<String>) -> Option<Seq<char>> {
    crate::routes::query::opt_string_view(s)
}

/// What a due subscription's run records, as [`subscription_actions`]
/// decides it: the failure message to record, whether the run is marked,
/// whether it counts.
pub open spec fn actions_of(run: SubscriptionRun, already_recorded: bool) -> (Option<Seq<char>>, bool, bool) {
    match run {
        SubscriptionRun::ReportMissing => if already_recorded {
            (None, false, false)
        } else {
            (Some("report not found"@), true, true)
        },
        SubscriptionRun::ReportFailed(m) => if already_recorded {
            (None, false, false)
        } else {
            (Some(m@), true, true)
        },
        SubscriptionRun::Delivered(d) => (None, d, d),
    }
}

/// The idempotency keys that have a delivery recorded.
pub struct DeliveryLedger {
    keys: Vec<String>,
}

impl View for DeliveryLedger {
    type V = Set<Seq<char>>;

    closed spec fn view(&self) -> Set<Seq<char>> {
        self.keys@.map_values(|k: String| k@).to_set()
    }
}

/// Recording a delivery under a key: the key is added, and the delivery is
/// new exactly when the key was not there.
pub open spec fn ledger_step(recorded: Set<Seq<char>>, key: Seq<char>) -> (Set<Seq<char>>, bool) {
    (recorded.insert(key), !recorded.contains(key))
}

impl DeliveryLedger {
    /// No delivery recorded.
    pub fn new() -> (l: Self)
        ensures
            l@ == Set::<Seq<char>>::empty(),
    {
        let l = DeliveryLedger { keys: Vec::new() };
        assert(l.keys@.map_values(|k: String| k@) =~= Seq::<Seq<char>>::empty());
        assert(l@ =~= Set::<Seq<char>>::empty());
        l
    }

    /// Whether a delivery is recorded under the key.
    pub fn contains(&self, key: &str) -> (b: bool)
        ensures
            b == self@.contains(key@),
    {
        let ghost kv = self.keys@.map_values(|k: String| k@);
        let kc = crate::text::chars_of(key);
        let mut i: usize = 0;
        while i < self.keys.len()
            invariant
                i <= self.keys@.len(),
                kv == self.keys@.map_values(|k: String| k@),
                kc@ == key@,
                forall|j: int| 0 <= j < i ==> kv[j] != key@,
            decreases self.keys@.len() - i,
        {
            let c = crate::text::chars_of(self.keys[i].as_str());
            if crate::text::chars_eq(c.as_slice(), kc.as_slice()) {
                assert(kv[i as int] == key@);
                assert(kv.contains(key@));
                return true;
            }
            i = i + 1;
        }
        assert(!kv.contains(key@));
        false
    }

    /// Records a delivery under the key once: the result says whether the
    /// delivery is new (a second delivery under the same key records
    /// nothing and sends nothing).
    pub fn record(&mut self, key: &str) -> (added: bool)
        ensures
            (final(self)@, added) == ledger_step(old(self)@, key@),
    {
        if self.contains(key) {
            assert(self@.insert(key@) =~= self@);
            return false;
        }
        let ghost before = self.keys@.map_values(|k: String| k@);
        self.keys.push(key.to_owned());
        assert(self.keys@.map_values(|k: String| k@) =~= before.push(key@));
        assert(before.push(key@).to_set() =~= before.to_set().insert(key@)) by {
            assert forall|x: Seq<char>| before.push(key@).contains(x) <==> before.contains(x) || x == key@ by {
                if before.push(key@).contains(x) {
                    let i = choose|i: int| 0 <= i < before.push(key@).len() && before.push(key@)[i] == x;
                    if i < before.len() {
                        assert(before[i] == x);
                    }
                }
                if before.contains(x) {
                    let i = choose|i: int| 0 <= i < before.len() && before[i] == x;
                    assert(before.push(key@)[i] == x);
                }
                if x == key@ {
                    assert(before.push(key@)[before.len() as int] == x);
                }
            }
        }
        true
    }
}

/// A delivery is recorded once under its idempotency key: the first record
/// of a new key adds it, and a second record of the same key adds nothing
/// and reports that nothing was sent.
pub proof fn lemma_delivery_recorded_once(recorded: Set<Seq<char>>, key: Seq<char>)
    requires
        !recorded.contains(key),
    ensures
        ({
            let (after_first, first_new) = ledger_step(recorded, key);
            let (after_second, second_new) = ledger_step(after_first, key);
            &&& first_new
            &&& !second_new
            &&& after_second == after_first
            &&& after_first == recorded.insert(key)
        }),
{
    assert(recorded.insert(key).insert(key) =~= recorded.insert(key));
}

/// A failed run of a subscription is recorded once: the first run records
/// the failure, marks the run and counts it; a second run of the same
/// period, which finds the failure recorded under its idempotency key,
/// records, marks and counts nothing.
pub proof fn lemma_failed_run_recorded_once(recorded: Set<Seq<char>>, key: Seq<char>, run: SubscriptionRun)
    requires
        run is ReportMissing || run is ReportFailed,
        !recorded.contains(key),
    ensures
        ({
            let first = actions_of(run, recorded.contains(key));
            let after = if first.0 is Some {
                ledger_step(recorded, key).0
            } else {
                recorded
            };
            let second = actions_of(run, after.contains(key));
            &&& first.0 is Some && first.1 && first.2
            &&& second == (None::<Seq<char>>, false, false)
        }),
{
}

} // verus!
