//! Bot-management endpoints: their queries and date windows, policy and
//! list-entry checks, and the allow/block rules that override the
//! classifier.
use vstd::prelude::*;

use crate::bot::BotOverrideDecision;
use crate::error::{bad_request, bad_request_with, AppError};
use crate::routes::query::{
    lenient_day, opt_string_view, opt_view, order_message, parse_date_lenient, span_message,
    validate_date_span,
};
use crate::text::{
    byte_len, chars_byte_len, chars_eq, chars_of, contains, contains_exec, lower, lower_chars,
    trim, trim_str,
};

verus! {

/// Query of the bot summary.
pub struct BotSummaryQuery {
    pub start_date: Option<String>,
    pub end_date: Option<String>,
}

/// Query of the allow and block lists.
pub struct BotListQuery {
    pub cursor: Option<String>,
    pub limit: Option<u32>,
}

/// Query of the bot report.
pub struct BotReportQuery {
    pub start_date: Option<String>,
    pub end_date: Option<String>,
    pub granularity: Option<String>,
}

/// Body of a request to reclassify past events.
pub struct BotRecomputeRequest {
    pub start_date: Option<String>,
    pub end_date: Option<String>,
}

/// Query of the policy audit log.
pub struct BotAuditQuery {
    pub cursor: Option<String>,
    pub limit: Option<u32>,
}

/// Window of days of a bot query against `today`: each bound parsed after
/// trimming (ignored when it does not parse), the start defaulting to
/// `default_days` days ending today; in order and at most `max_days` long.
pub open spec fn bot_window(
    start: Option<Seq<char>>,
    end: Option<Seq<char>>,
    default_days: i64,
    max_days: i64,
    today: i32,
) -> Result<(i32, i32), Seq<char>> {
    let back = if default_days >= 1 {
        default_days - 1
    } else {
        0
    };
    let s = match start {
        Some(raw) => match lenient_day(raw) {
            Some(d) => d,
            None => (today - back) as i32,
        },
        None => (today - back) as i32,
    };
    let e = match end {
        Some(raw) => match lenient_day(raw) {
            Some(d) => d,
            None => today,
        },
        None => today,
    };
    if e < s {
        Err(order_message())
    } else if e - s + 1 > max_days {
        Err(span_message("date range"@, e - s + 1, max_days))
    } else {
        Ok((s, e))
    }
}

/// Resolves the window of days of a bot query against `today`; the
/// window covers whole days from the start's midnight to the end's.
pub fn bot_window_at(
    start_date: Option<&str>,
    end_date: Option<&str>,
    default_days: i64,
    max_days: i64,
    today: i32,
) -> (r: Result<(i32, i32), AppError>)
    requires
        1 <= default_days <= 366,
        0 <= max_days,
        crate::dates::MIN_DAY + 366 <= today,
    ensures
        match bot_window(opt_view(start_date), opt_view(end_date), default_days, max_days, today) {
            Ok(x) => r == Ok::<(i32, i32), AppError>(x),
            Err(m) => bad_request_with(r, m),
        },
{
    let back = (default_days - 1) as i32;
    let s = match start_date {
        Some(raw) => match parse_date_lenient(raw) {
            Some(d) => d,
            None => today - back,
        },
        None => today - back,
    };
    let e = match end_date {
        Some(raw) => match parse_date_lenient(raw) {
            Some(d) => d,
            None => today,
        },
        None => today,
    };
    if e < s {
        return Err(bad_request("end_date must be on or after start_date"));
    }
    validate_date_span(s, e, max_days, "date range")?;
    Ok((s, e))
}

fn as_opt_str(o: &Option<String>) -> (r: Option<&str>)
    ensures
        opt_view(r) == opt_string_view(*o),
{
    match o {
        Some(s) => Some(s.as_str()),
        None => None,
    }
}

impl BotSummaryQuery {
    /// Window of the summary: seven days by default, at most 90.
    pub fn window_at(&self, today: i32) -> (r: Result<(i32, i32), AppError>)
        requires
            crate::dates::MIN_DAY + 366 <= today,
        ensures
            match bot_window(opt_string_view(self.start_date), opt_string_view(self.end_date), 7, 90, today) {
                Ok(x) => r == Ok::<(i32, i32), AppError>(x),
                Err(m) => bad_request_with(r, m),
            },
    {
        bot_window_at(as_opt_str(&self.start_date), as_opt_str(&self.end_date), 7, 90, today)
    }
}

impl BotReportQuery {
    /// Window of the report: seven days by default, at most 90.
    pub fn window_at(&self, today: i32) -> (r: Result<(i32, i32), AppError>)
        requires
            crate::dates::MIN_DAY + 366 <= today,
        ensures
            match bot_window(opt_string_view(self.start_date), opt_string_view(self.end_date), 7, 90, today) {
                Ok(x) => r == Ok::<(i32, i32), AppError>(x),
                Err(m) => bad_request_with(r, m),
            },
    {
        bot_window_at(as_opt_str(&self.start_date), as_opt_str(&self.end_date), 7, 90, today)
    }

    /// Buckets of the report: hourly when asked for exactly, else daily.
    pub fn granularity(&self) -> (g: &'static str)
        ensures
            g@ == (if self.granularity matches Some(x) && x@ == "hour"@ {
                "hour"@
            } else {
                "day"@
            }),
    {
        match &self.granularity {
            Some(x) => {
                let c = chars_of(x.as_str());
                let h = chars_of("hour");
                if chars_eq(c.as_slice(), h.as_slice()) {
                    "hour"
                } else {
                    "day"
                }
            },
            None => "day",
        }
    }
}

impl BotRecomputeRequest {
    /// Window to reclassify: seven days by default, at most 30.
    pub fn window_at(&self, today: i32) -> (r: Result<(i32, i32), AppError>)
        requires
            crate::dates::MIN_DAY + 366 <= today,
        ensures
            match bot_window(opt_string_view(self.start_date), opt_string_view(self.end_date), 7, 30, today) {
                Ok(x) => r == Ok::<(i32, i32), AppError>(x),
                Err(m) => bad_request_with(r, m),
            },
    {
        bot_window_at(as_opt_str(&self.start_date), as_opt_str(&self.end_date), 7, 30, today)
    }
}

impl BotListQuery {
    /// Page size: 50 by default.
    pub fn page_limit(&self) -> (l: u32)
        ensures
            l == match self.limit {
                Some(x) => x,
                None => 50u32,
            },
    {
        match self.limit {
            Some(x) => x,
            None => 50,
        }
    }
}

impl BotAuditQuery {
    /// Page size: 50 by default.
    pub fn page_limit(&self) -> (l: u32)
        ensures
            l == match self.limit {
                Some(x) => x,
                None => 50u32,
            },
    {
        match self.limit {
            Some(x) => x,
            None => 50,
        }
    }
}

/// Who the audit log names as the author of self-hosted changes.
pub fn actor_label() -> (s: &'static str)
    ensures
        s@ == "selfhosted"@,
{
    "selfhosted"
}

/// Rejects a policy threshold outside `0..=100`.
pub fn validate_policy(threshold_score: i32) -> (r: Result<(), AppError>)
    ensures
        r is Ok <==> 0 <= threshold_score <= 100,
        r is Err ==> bad_request_with(r, "threshold_score must be between 0 and 100"@),
{
    if threshold_score < 0 || threshold_score > 100 {
        return Err(bad_request("threshold_score must be between 0 and 100"));
    }
    Ok(())
}

/// Outcome of checking a list entry: its trimmed match value must be
/// non-empty and at most 255 bytes, and its note at most 255 bytes.
pub open spec fn list_entry_verdict(match_value: Seq<char>, note: Option<Seq<char>>) -> Result<(), Seq<char>> {
    if trim(match_value).len() == 0 {
        Err("match_value cannot be empty"@)
    } else if byte_len(trim(match_value)) > 255 {
        Err("match_value must be 255 characters or fewer"@)
    } else if note matches Some(n) && byte_len(n) > 255 {
        Err("note must be 255 characters or fewer"@)
    } else {
        Ok(())
    }
}

/// Checks an allow- or block-list entry.
pub fn validate_list_entry(match_value: &str, note: Option<&str>) -> (r: Result<(), AppError>)
    ensures
        match list_entry_verdict(match_value@, opt_view(note)) {
            Ok(()) => r is Ok,
            Err(m) => bad_request_with(r, m),
        },
{
    let t = trim_str(match_value);
    if t.len() == 0 {
        return Err(bad_request("match_value cannot be empty"));
    }
    if chars_byte_len(t.as_slice()) > 255 {
        return Err(bad_request("match_value must be 255 characters or fewer"));
    }
    if let Some(n) = note {
        if n.len() > 255 {
            return Err(bad_request("note must be 255 characters or fewer"));
        }
    }
    Ok(())
}

/// How a rule matches a request.
#[derive(Clone, Copy, Debug, PartialEq, Eq, Structural)]
pub enum BotMatchType {
    UaContains,
    IpExact,
    IpCidr,
}

/// Name for the canonical text (as the standard library's `IpAddr` prints
/// it) of the address that `ipnet`'s parser reads in the text, or `None`
/// when it reads none.
pub uninterp spec fn ip_canonical(s: Seq<char>) -> Option<Seq<char>>;

/// Reads an IP address through `ipnet::IpNet::from_str` on the text with
/// `/32` appended and prints its `addr()`; named by [`ip_canonical`].
/// `ipnet`'s parser also takes octets with a leading zero, which
/// [`canonical_ip`] refuses before calling it.
#[verifier::external_body]
pub(crate) fn parse_ip_canonical(s: &str) -> (r: Option<String>)
    ensures
        opt_string_view(r) == ip_canonical(s@),
{
    format!("{s}/32").parse::<ipnet::IpNet>().ok().map(|n| n.addr().to_string())
}

/// Name for whether the network written in `net` (as `ipnet::IpNet`
/// parses it) contains the address written in `ip`; false when either
/// does not parse.
pub uninterp spec fn cidr_holds(net: Seq<char>, ip: Seq<char>) -> bool;

/// `ipnet::IpNet::contains` on the parsed network and address; named by
/// [`cidr_holds`].
#[verifier::external_body]
pub(crate) fn cidr_contains(net: &str, ip: &str) -> (b: bool)
    ensures
        b == cidr_holds(net@, ip@),
{
    match (net.parse::<ipnet::IpNet>(), format!("{ip}/32").parse::<ipnet::IpNet>()) {
        (Ok(n), Ok(h)) => n.contains(&h.addr()),
        _ => false,
    }
}

/// A decimal digit.
pub open spec fn is_decimal_digit(c: char) -> bool {
    '0' <= c && c <= '9'
}

/// Where the run of decimal digits that starts at `i` ends.
pub open spec fn digits_end(s: Seq<char>, i: int) -> int
    decreases s.len() - i,
{
    if 0 <= i < s.len() && is_decimal_digit(s[i]) {
        digits_end(s, i + 1)
    } else {
        i
    }
}

/// At `i` begins a dotted-decimal octet written with a leading zero
/// (`010`): a `0` followed by another digit, at the start of the text or
/// after `.` or `:`, in a run of digits that touches a `.`.
pub open spec fn zero_led_octet(s: Seq<char>, i: int) -> bool {
    &&& 0 <= i && i + 1 < s.len()
    &&& s[i] == '0'
    &&& is_decimal_digit(s[i + 1])
    &&& (i == 0 || s[i - 1] == '.' || s[i - 1] == ':')
    &&& ((i > 0 && s[i - 1] == '.') || (digits_end(s, i) < s.len() && s[digits_end(s, i)] == '.'))
}

/// No dotted-decimal octet of the text has a leading zero. The standard
/// library's `IpAddr` parser refuses such octets; `ipnet`'s parser, which
/// otherwise reads addresses as it does, accepts them.
pub open spec fn octets_plain(s: Seq<char>) -> bool {
    forall|i: int| !#[trigger] zero_led_octet(s, i)
}

/// The canonical text of the IP address written in `s`, read as the
/// standard library reads an `IpAddr`: `ipnet`'s reading, refusing
/// octets with a leading zero.
pub open spec fn std_ip(s: Seq<char>) -> Option<Seq<char>> {
    if octets_plain(s) {
        ip_canonical(s)
    } else {
        None
    }
}

fn digits_end_exec(s: &[char], i: usize) -> (j: usize)
    requires
        i <= s@.len(),
    ensures
        j == digits_end(s@, i as int),
        i <= j <= s@.len(),
{
    let mut j = i;
    while j < s.len() && '0' <= s[j] && s[j] <= '9'
        invariant
            i <= j <= s@.len(),
            digits_end(s@, j as int) == digits_end(s@, i as int),
        decreases s@.len() - j,
    {
        j = j + 1;
    }
    j
}

/// Whether no dotted-decimal octet of the text has a leading zero.
pub fn octets_plain_exec(s: &[char]) -> (b: bool)
    ensures
        b == octets_plain(s@),
{
    let n = s.len();
    let mut i: usize = 0;
    while i < n
        invariant
            n == s@.len(),
            i <= n,
            forall|k: int| 0 <= k < i ==> !#[trigger] zero_led_octet(s@, k),
        decreases n - i,
    {
        if i + 1 < n && s[i] == '0' && '0' <= s[i + 1] && s[i + 1] <= '9'
            && (i == 0 || s[i - 1] == '.' || s[i - 1] == ':') {
            let j = digits_end_exec(s, i);
            if (i > 0 && s[i - 1] == '.') || (j < n && s[j] == '.') {
                assert(zero_led_octet(s@, i as int));
                return false;
            }
        }
        assert(!zero_led_octet(s@, i as int));
        i = i + 1;
    }
    assert forall|k: int| !#[trigger] zero_led_octet(s@, k) by {
        if 0 <= k < n {
        }
    }
    true
}

/// Reads an IP address as the standard library's `IpAddr` parser does and
/// prints it canonically.
pub fn canonical_ip(s: &str) -> (r: Option<String>)
    ensures
        opt_string_view(r) == std_ip(s@),
{
    let c = chars_of(s);
    if octets_plain_exec(c.as_slice()) {
        parse_ip_canonical(s)
    } else {
        None
    }
}

/// Whether a rule matches a request from `source_ip` (whose canonical
/// address is `ip`, if any) with lower-cased user agent `ua`.
pub open spec fn rule_matches(
    match_type: BotMatchType,
    match_value: Seq<char>,
    ip: Option<Seq<char>>,
    source_ip: Seq<char>,
    ua: Seq<char>,
) -> bool {
    let v = trim(match_value);
    match match_type {
        BotMatchType::UaContains => contains(ua, lower(v)),
        BotMatchType::IpExact => ip matches Some(c) && lower(c) == lower(v),
        BotMatchType::IpCidr => ip is Some && cidr_holds(v, source_ip),
    }
}

fn override_match_rule(
    match_type: BotMatchType,
    match_value: &str,
    parsed_ip: &Option<String>,
    source_ip: &str,
    user_agent_lc: &[char],
) -> (b: bool)
    ensures
        b == rule_matches(match_type, match_value@, opt_string_view(*parsed_ip), source_ip@, user_agent_lc@),
{
    let v = trim_str(match_value);
    match match_type {
        BotMatchType::UaContains => {
            let lv = lower_chars(v.as_slice());
            contains_exec(user_agent_lc, lv.as_slice())
        },
        BotMatchType::IpExact => match parsed_ip {
            Some(c) => {
                let cc = chars_of(c.as_str());
                let lc = lower_chars(cc.as_slice());
                let lv = lower_chars(v.as_slice());
                chars_eq(lc.as_slice(), lv.as_slice())
            },
            None => false,
        },
        BotMatchType::IpCidr => match parsed_ip {
            Some(_) => {
                let vs = crate::text::string_of(v.as_slice());
                cidr_contains(vs.as_str(), source_ip)
            },
            None => false,
        },
    }
}

/// Views of rules.
pub open spec fn rules_view(r: Seq<(BotMatchType, String)>) -> Seq<(BotMatchType, Seq<char>)> {
    r.map_values(|x: (BotMatchType, String)| (x.0, x.1@))
}

/// Whether any of the rules matches the request.
pub open spec fn any_rule_matches(
    rules: Seq<(BotMatchType, Seq<char>)>,
    ip: Option<Seq<char>>,
    source_ip: Seq<char>,
    ua: Seq<char>,
) -> bool {
    exists|i: int| 0 <= i < rules.len() && #[trigger] rule_matches(rules[i].0, rules[i].1, ip, source_ip, ua)
}

fn first_match(
    rules: &[(BotMatchType, String)],
    parsed_ip: &Option<String>,
    source_ip: &str,
    ua: &[char],
) -> (b: bool)
    ensures
        b == any_rule_matches(rules_view(rules@), opt_string_view(*parsed_ip), source_ip@, ua@),
{
    let ghost rv = rules_view(rules@);
    let mut i: usize = 0;
    while i < rules.len()
        invariant
            i <= rules@.len(),
            rv == rules_view(rules@),
            forall|j: int| 0 <= j < i ==> !#[trigger] rule_matches(
                rv[j].0,
                rv[j].1,
                opt_string_view(*parsed_ip),
                source_ip@,
                ua@,
            ),
        decreases rules@.len() - i,
    {
        if override_match_rule(rules[i].0, rules[i].1.as_str(), parsed_ip, source_ip, ua) {
            assert(rule_matches(rv[i as int].0, rv[i as int].1, opt_string_view(*parsed_ip), source_ip@, ua@));
            return true;
        }
        i = i + 1;
    }
    false
}

/// Operator override for a request: a matching block rule forces a bot, a
/// matching allow rule (when no block rule matches) forces a human.
pub open spec fn override_of(
    block: Seq<(BotMatchType, Seq<char>)>,
    allow: Seq<(BotMatchType, Seq<char>)>,
    source_ip: Seq<char>,
    user_agent: Seq<char>,
) -> Option<BotOverrideDecision> {
    let ip = std_ip(source_ip);
    let ua = lower(user_agent);
    if any_rule_matches(block, ip, source_ip, ua) {
        Some(BotOverrideDecision::ForceBot)
    } else if any_rule_matches(allow, ip, source_ip, ua) {
        Some(BotOverrideDecision::ForceHuman)
    } else {
        None
    }
}

/// Applies the allow and block lists to a request.
pub fn classify_override_from_rules(
    source_ip: &str,
    user_agent: &str,
    block_rules: &[(BotMatchType, String)],
    allow_rules: &[(BotMatchType, String)],
) -> (r: Option<BotOverrideDecision>)
    ensures
        r == override_of(rules_view(block_rules@), rules_view(allow_rules@), source_ip@, user_agent@),
{
    let parsed_ip = canonical_ip(source_ip);
    let raw = chars_of(user_agent);
    let ua = lower_chars(raw.as_slice());
    if first_match(block_rules, &parsed_ip, source_ip, ua.as_slice()) {
        return Some(BotOverrideDecision::ForceBot);
    }
    if first_match(allow_rules, &parsed_ip, source_ip, ua.as_slice()) {
        return Some(BotOverrideDecision::ForceHuman);
    }
    None
}

fn has_lit(m: &[char], lit: &str) -> (b: bool)
    ensures
        b == contains(m@, lit@),
{
    let l = chars_of(lit);
    contains_exec(m, l.as_slice())
}

/// Answer to a failed listing: a bad cursor is the client's fault.
pub fn map_list_error(message: &str) -> (e: AppError)
    ensures
        contains(message@, "invalid_cursor"@) ==> (e matches AppError::BadRequest(m) && m@
            == "invalid cursor"@),
        !contains(message@, "invalid_cursor"@) ==> (e matches AppError::Internal(m) && m@
            == message@),
{
    let m = chars_of(message);
    if has_lit(m.as_slice(), "invalid_cursor") {
        bad_request("invalid cursor")
    } else {
        AppError::Internal(message.to_owned())
    }
}

/// Answer to a failed list insertion: a uniqueness violation means the
/// entry exists.
pub fn map_entry_error(message: &str) -> (e: AppError)
    ensures
        contains(message@, "UNIQUE"@) ==> (e matches AppError::BadRequest(m) && m@
            == "entry already exists"@),
        !contains(message@, "UNIQUE"@) ==> (e matches AppError::Internal(m) && m@ == message@),
{
    let m = chars_of(message);
    if has_lit(m.as_slice(), "UNIQUE") {
        bad_request("entry already exists")
    } else {
        AppError::Internal(message.to_owned())
    }
}

/// The address a stored event is reclassified with: its source, or
/// `unknown` when none was stored.
pub open spec fn stored_ip(source_ip: Option<Seq<char>>) -> Seq<char> {
    match source_ip {
        Some(ip) => ip,
        None => "unknown"@,
    }
}

/// The user agent a stored event is reclassified with (empty when none).
pub open spec fn stored_ua(user_agent: Option<Seq<char>>) -> Seq<char> {
    match user_agent {
        Some(ua) => ua,
        None => Seq::empty(),
    }
}

/// Reclassifies one stored event during a recompute run: the operator's
/// allow and block lists first, then the regular classification, with
/// both request headers counted as present.
pub fn recompute_event_classification(
    tracker: &mut crate::bot::ActivityTracker,
    now_ns: u64,
    website_id: &str,
    visitor_id: &str,
    url: &str,
    source_ip: Option<&str>,
    user_agent: Option<&str>,
    policy: &crate::bot::BotPolicyInput,
    block_rules: &[(BotMatchType, String)],
    allow_rules: &[(BotMatchType, String)],
) -> (c: crate::bot::BotClassification)
    requires
        old(tracker).wf(),
    ensures
        final(tracker).wf(),
        match override_of(
            rules_view(block_rules@),
            rules_view(allow_rules@),
            stored_ip(opt_view(source_ip)),
            stored_ua(opt_view(user_agent)),
        ) {
            Some(d) => c == crate::bot::forced_classification(d) && final(tracker)@ == old(tracker)@,
            None => {
                let (next, signals) = crate::bot::behavior_step(
                    old(tracker)@,
                    (website_id@, visitor_id@),
                    now_ns,
                    crate::bot::normalized_path(url@),
                );
                &&& final(tracker)@ == next
                &&& c == crate::bot::classify_signals(
                    crate::bot::has_ua_signature(stored_ua(opt_view(user_agent))),
                    false,
                    signals.0,
                    signals.1,
                    policy.threshold_score,
                )
            },
        },
{
    let ip: &str = match source_ip {
        Some(ip) => ip,
        None => "unknown",
    };
    let ua: &str = match user_agent {
        Some(ua) => ua,
        None => "",
    };
    proof {
        reveal_strlit("");
    }
    assert(ip@ == stored_ip(opt_view(source_ip)));
    assert(ua@ == stored_ua(opt_view(user_agent)));
    let decision = classify_override_from_rules(ip, ua, block_rules, allow_rules);
    crate::bot::classify_event(tracker, now_ns, website_id, visitor_id, url, ua, true, true, policy, decision)
}

} // verus!
