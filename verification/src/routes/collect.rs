//! Event collection: checks on a batch, the visitor, screen and UTM
//! fields of each event, the user agent, and the client address behind
//! trusted proxies.
use vstd::prelude::*;

use crate::bot::{BotPolicyInput, BotPolicyMode};
use crate::error::{bad_request, bad_request_with, AppError};
use crate::routes::bot::{cidr_holds, std_ip};
use crate::routes::query::{opt_string_view, opt_view};
use crate::text::{
    append_str, before_char, before_char_exec, byte_len, chars_eq, chars_of, first_occ, find_exec,
    lemma_before_char_len, split_exec, split_parts, string_of, sub_chars, trim, trim_chars,
    trim_str,
};

verus! {

/// Largest accepted body of `POST /api/collect`, in bytes.
pub const COLLECT_BODY_LIMIT: usize = 102400;

/// Largest serialized `event_data` of one event, in bytes.
pub const EVENT_DATA_MAX_BYTES: usize = 4096;

/// Most events in one batch.
pub const MAX_BATCH_EVENTS: usize = 50;


/// Whether some event data (given by its serialized size) is too large.
pub open spec fn has_oversized_data(sizes: Seq<Option<usize>>) -> bool {
    exists|i: int| 0 <= i < sizes.len() && (#[trigger] sizes[i] matches Some(n) && n > EVENT_DATA_MAX_BYTES)
}

/// Checks a batch of `len` events whose `event_data`, where present,
/// serializes to the given sizes: at most 50 events, at least one, and no
/// event data over 4096 bytes.
pub fn validate_batch(len: usize, data_sizes: &[Option<usize>]) -> (r: Result<(), AppError>)
    ensures
        len > MAX_BATCH_EVENTS ==> (r matches Err(AppError::BatchTooLarge(n)) && n == len),
        len == 0 ==> bad_request_with(r, "empty batch"@),
        1 <= len <= MAX_BATCH_EVENTS && has_oversized_data(data_sizes@) ==> r matches Err(
            AppError::PayloadTooLarge,
        ),
        1 <= len <= MAX_BATCH_EVENTS && !has_oversized_data(data_sizes@) ==> r is Ok,
{
    if len > MAX_BATCH_EVENTS {
        return Err(AppError::BatchTooLarge(len));
    }
    if len == 0 {
        return Err(bad_request("empty batch"));
    }
    let mut i: usize = 0;
    while i < data_sizes.len()
        invariant
            1 <= len <= MAX_BATCH_EVENTS,
            i <= data_sizes@.len(),
            forall|j: int| 0 <= j < i ==> !(#[trigger] data_sizes@[j] matches Some(n) && n
                > EVENT_DATA_MAX_BYTES),
        decreases data_sizes@.len() - i,
    {
        if let Some(n) = data_sizes[i] {
            if n > EVENT_DATA_MAX_BYTES {
                return Err(AppError::PayloadTooLarge);
            }
        }
        i = i + 1;
    }
    Ok(())
}

/// Threshold a stored policy applies at collection: a threshold that is
/// not positive means the mode's default (60 when strict, 70 otherwise).
pub open spec fn collect_threshold(mode: BotPolicyMode, stored: i32) -> i32 {
    if stored <= 0 {
        match mode {
            BotPolicyMode::Strict => 60,
            _ => 70,
        }
    } else {
        stored
    }
}

/// A positive stored threshold is applied as it is; the mode's default
/// (60 when strict, 70 when balanced or off) stands in only for a stored
/// threshold that is zero or negative.
pub proof fn lemma_collect_threshold_keeps_stored(mode: BotPolicyMode, stored: i32)
    ensures
        stored > 0 ==> collect_threshold(mode, stored) == stored,
        stored <= 0 && mode is Strict ==> collect_threshold(mode, stored) == 60,
        stored <= 0 && mode is Balanced ==> collect_threshold(mode, stored) == 70,
        stored <= 0 && mode is Off ==> collect_threshold(mode, stored) == 70,
{
}

/// The policy input for a stored policy.
pub fn effective_policy(mode: BotPolicyMode, stored_threshold: i32) -> (p: BotPolicyInput)
    ensures
        p.mode == mode,
        p.threshold_score == collect_threshold(mode, stored_threshold),
        stored_threshold > 0 ==> p.threshold_score == stored_threshold,
        stored_threshold <= 0 ==> p.threshold_score == (if mode is Strict {
            60i32
        } else {
            70i32
        }),
{
    let threshold_score = if stored_threshold <= 0 {
        match mode {
            BotPolicyMode::Strict => 60,
            _ => 70,
        }
    } else {
        stored_threshold
    };
    BotPolicyInput { mode, threshold_score }
}

/// Refuses a batch with an event for a website that is not known (404
/// `Unknown website_id: <id>`, naming the first such event's website).
pub fn check_websites_known(website_ids: &[String], known: &[bool]) -> (r: Result<(), AppError>)
    requires
        known@.len() == website_ids@.len(),
    ensures
        (forall|i: int| 0 <= i < known@.len() ==> known@[i]) ==> r is Ok,
        forall|i: int|
            0 <= i < known@.len() && !known@[i] && (forall|j: int| 0 <= j < i ==> known@[j]) ==> (r matches Err(
                AppError::NotFound(m),
            ) && m@ == "Unknown website_id: "@ + website_ids@[i]@),
{
    let mut i: usize = 0;
    while i < known.len()
        invariant
            known@.len() == website_ids@.len(),
            i <= known@.len(),
            forall|j: int| 0 <= j < i ==> known@[j],
        decreases known@.len() - i,
    {
        if !known[i] {
            let mut m = chars_of("Unknown website_id: ");
            append_str(&mut m, website_ids[i].as_str());
            proof {
                assert forall|k: int|
                    0 <= k < known@.len() && !known@[k] && (forall|j: int| 0 <= j < k ==> known@[j]) implies k
                    == i by {
                    if k < i {
                    } else if k > i {
                        assert(known@[i as int]);
                    }
                }
            }
            return Err(AppError::NotFound(string_of(m.as_slice())));
        }
        i = i + 1;
    }
    Ok(())
}

/// The screen of an event: as given, else `{width}x{height}` when both
/// are given.
pub open spec fn screen_of(screen: Option<Seq<char>>, width: Option<u32>, height: Option<u32>) -> Option<Seq<char>> {
    match screen {
        Some(s) => Some(s),
        None => match (width, height) {
            (Some(w), Some(h)) => Some(
                crate::ratelimit::decimal(w as nat) + seq!['x'] + crate::ratelimit::decimal(
                    h as nat,
                ),
            ),
            _ => None,
        },
    }
}

/// Builds the screen of an event.
pub fn screen_string(screen: Option<String>, width: Option<u32>, height: Option<u32>) -> (r: Option<String>)
    ensures
        opt_string_view(r) == screen_of(opt_string_view(screen), width, height),
{
    match screen {
        Some(s) => Some(s),
        None => match (width, height) {
            (Some(w), Some(h)) => {
                let mut v = crate::ratelimit::u64_decimal(w as u64);
                v.push('x');
                let hd = crate::ratelimit::u64_decimal(h as u64);
                crate::text::append_chars(&mut v, hd.as_slice());
                Some(string_of(v.as_slice()))
            },
            _ => None,
        },
    }
}

/// UTM parameters of an event.
#[derive(Debug)]
pub struct UtmParams {
    pub utm_source: Option<String>,
    pub utm_medium: Option<String>,
    pub utm_campaign: Option<String>,
    pub utm_term: Option<String>,
    pub utm_content: Option<String>,
}

/// The query string of a URL: what follows its first `?`.
pub open spec fn query_of(url: Seq<char>) -> Option<Seq<char>> {
    let i = first_occ(url, seq!['?']);
    if i < 0 {
        None
    } else {
        Some(url.skip(i + 1))
    }
}

/// Key of a `key=value` pair, trimmed.
pub open spec fn pair_key(pair: Seq<char>) -> Seq<char> {
    trim(before_char(pair, '='))
}

/// Value of a `key=value` pair (after the first `=`), trimmed; empty
/// without `=`.
pub open spec fn pair_value(pair: Seq<char>) -> Seq<char> {
    let k = before_char(pair, '=');
    if k.len() < pair.len() {
        trim(pair.skip(k.len() + 1int))
    } else {
        Seq::empty()
    }
}

/// `+` read as a space, the one decoding applied to query values.
pub open spec fn plus_to_space(v: Seq<char>) -> Seq<char> {
    v.map_values(|c: char| if c == '+' { ' ' } else { c })
}

/// Value of `key` among `key=value` pairs: the last pair with that key
/// and a non-empty value decides.
pub open spec fn utm_in(pairs: Seq<Seq<char>>, key: Seq<char>) -> Option<Seq<char>>
    decreases pairs.len(),
{
    if pairs.len() == 0 {
        None
    } else {
        let p = pairs.last();
        if pair_key(p) == key && pair_value(p).len() > 0 {
            Some(plus_to_space(pair_value(p)))
        } else {
            utm_in(pairs.drop_last(), key)
        }
    }
}

/// Value of the UTM parameter `key` in a URL's query string.
pub open spec fn url_utm(url: Seq<char>, key: Seq<char>) -> Option<Seq<char>> {
    match query_of(url) {
        None => None,
        Some(q) => utm_in(split_parts(q, '&'), key),
    }
}

fn eq_lit(v: &[char], lit: &str) -> (b: bool)
    ensures
        b == (v@ == lit@),
{
    let l = chars_of(lit);
    chars_eq(v, l.as_slice())
}

fn pair_parts(pair: &[char]) -> (r: (Vec<char>, Vec<char>))
    ensures
        r.0@ == pair_key(pair@),
        r.1@ == pair_value(pair@),
{
    let k = before_char_exec(pair, '=');
    proof {
        lemma_before_char_len(pair@, '=');
    }
    let key = trim_chars(k.as_slice());
    if k.len() < pair.len() {
        let rest = sub_chars(pair, k.len() + 1, pair.len());
        assert(rest@ =~= pair@.skip(k@.len() + 1int));
        (key, trim_chars(rest.as_slice()))
    } else {
        (key, Vec::new())
    }
}

fn decode_plus(v: &[char]) -> (r: String)
    ensures
        r@ == plus_to_space(v@),
{
    let mut out: Vec<char> = Vec::new();
    let mut i: usize = 0;
    while i < v.len()
        invariant
            i <= v@.len(),
            out@ == plus_to_space(v@.take(i as int)),
        decreases v@.len() - i,
    {
        let c = if v[i] == '+' {
            ' '
        } else {
            v[i]
        };
        out.push(c);
        i = i + 1;
        assert(out@ =~= plus_to_space(v@.take(i as int)));
    }
    assert(v@.take(i as int) =~= v@);
    string_of(out.as_slice())
}

fn set_if(slot: &mut Option<String>, key: &[char], value: &[char], name: &str)
    ensures
        opt_string_view(*final(slot)) == if key@ == name@ && value@.len() > 0 {
            Some(plus_to_space(value@))
        } else {
            opt_string_view(*old(slot))
        },
{
    if value.len() > 0 && eq_lit(key, name) {
        *slot = Some(decode_plus(value));
    }
}

/// Reads the UTM parameters of a URL's query string; for each, the last
/// pair with a non-empty value wins, and `+` reads as a space.
pub fn extract_utm_from_url(url: &str) -> (r: UtmParams)
    ensures
        opt_string_view(r.utm_source) == url_utm(url@, "utm_source"@),
        opt_string_view(r.utm_medium) == url_utm(url@, "utm_medium"@),
        opt_string_view(r.utm_campaign) == url_utm(url@, "utm_campaign"@),
        opt_string_view(r.utm_term) == url_utm(url@, "utm_term"@),
        opt_string_view(r.utm_content) == url_utm(url@, "utm_content"@),
{
    let mut r = UtmParams {
        utm_source: None,
        utm_medium: None,
        utm_campaign: None,
        utm_term: None,
        utm_content: None,
    };
    let u = chars_of(url);
    let q = ['?'];
    assert(q@ =~= seq!['?']);
    let pos = match find_exec(u.as_slice(), &q) {
        Some(p) => p,
        None => {
            return r;
        },
    };
    proof {
        let k = choose|k: int| crate::text::is_first_occ(u@, seq!['?'], k);
        assert(crate::text::occurs_at(u@, seq!['?'], k));
        assert(k == pos as int);
    }
    assert(pos < u.len());
    let query = sub_chars(u.as_slice(), pos + 1, u.len());
    assert(query@ =~= url@.skip(pos + 1));
    let pairs = split_exec(query.as_slice(), '&');
    let ghost pv = split_parts(query@, '&');
    let mut i: usize = 0;
    assert(pv.take(0) =~= Seq::<Seq<char>>::empty());
    while i < pairs.len()
        invariant
            i <= pairs@.len(),
            pairs@.map_values(|p: Vec<char>| p@) == pv,
            opt_string_view(r.utm_source) == utm_in(pv.take(i as int), "utm_source"@),
            opt_string_view(r.utm_medium) == utm_in(pv.take(i as int), "utm_medium"@),
            opt_string_view(r.utm_campaign) == utm_in(pv.take(i as int), "utm_campaign"@),
            opt_string_view(r.utm_term) == utm_in(pv.take(i as int), "utm_term"@),
            opt_string_view(r.utm_content) == utm_in(pv.take(i as int), "utm_content"@),
        decreases pairs@.len() - i,
    {
        let (k, v) = pair_parts(pairs[i].as_slice());
        assert(pv.take(i + 1).drop_last() =~= pv.take(i as int));
        assert(pv.take(i + 1).last() == pairs@[i as int]@);
        set_if(&mut r.utm_source, k.as_slice(), v.as_slice(), "utm_source");
        set_if(&mut r.utm_medium, k.as_slice(), v.as_slice(), "utm_medium");
        set_if(&mut r.utm_campaign, k.as_slice(), v.as_slice(), "utm_campaign");
        set_if(&mut r.utm_term, k.as_slice(), v.as_slice(), "utm_term");
        set_if(&mut r.utm_content, k.as_slice(), v.as_slice(), "utm_content");
        i = i + 1;
    }
    assert(pv.take(i as int) =~= pv);
    r
}

/// A UTM field of an event: the payload's, else the URL's.
pub open spec fn prefer(given: Option<Seq<char>>, fallback: Option<Seq<char>>) -> Option<Seq<char>> {
    match given {
        Some(v) => Some(v),
        None => fallback,
    }
}

fn or_else(given: Option<String>, fallback: Option<String>) -> (r: Option<String>)
    ensures
        opt_string_view(r) == prefer(opt_string_view(given), opt_string_view(fallback)),
{
    match given {
        Some(v) => Some(v),
        None => fallback,
    }
}

/// UTM fields of an event: those of the payload take precedence over
/// those read from its URL.
pub fn merge_utm(given: UtmParams, url: &str) -> (r: UtmParams)
    ensures
        opt_string_view(r.utm_source) == prefer(opt_string_view(given.utm_source), url_utm(url@, "utm_source"@)),
        opt_string_view(r.utm_medium) == prefer(opt_string_view(given.utm_medium), url_utm(url@, "utm_medium"@)),
        opt_string_view(r.utm_campaign) == prefer(opt_string_view(given.utm_campaign), url_utm(url@, "utm_campaign"@)),
        opt_string_view(r.utm_term) == prefer(opt_string_view(given.utm_term), url_utm(url@, "utm_term"@)),
        opt_string_view(r.utm_content) == prefer(opt_string_view(given.utm_content), url_utm(url@, "utm_content"@)),
{
    let from_url = extract_utm_from_url(url);
    UtmParams {
        utm_source: or_else(given.utm_source, from_url.utm_source),
        utm_medium: or_else(given.utm_medium, from_url.utm_medium),
        utm_campaign: or_else(given.utm_campaign, from_url.utm_campaign),
        utm_term: or_else(given.utm_term, from_url.utm_term),
        utm_content: or_else(given.utm_content, from_url.utm_content),
    }
}

/// Fields `woothee` reads from a user agent: name, category, os, os
/// version, browser version (empty when unknown).
#[derive(Debug)]
pub struct WootheeFields {
    pub name: String,
    pub category: String,
    pub os: String,
    pub os_version: String,
    pub version: String,
}

/// View of [`WootheeFields`].
pub open spec fn woothee_view(w: WootheeFields) -> (Seq<char>, Seq<char>, Seq<char>, Seq<char>, Seq<char>) {
    (w.name@, w.category@, w.os@, w.os_version@, w.version@)
}

/// Name for what `woothee::parser::Parser::parse` reads from a user
/// agent (as [`woothee_view`] lists it), or `None` when it classifies
/// nothing.
pub uninterp spec fn woothee_result(ua: Seq<char>) -> Option<(Seq<char>, Seq<char>, Seq<char>, Seq<char>, Seq<char>)>;

/// `woothee::parser::Parser::new().parse`, its fields copied out; named
/// by [`woothee_result`].
#[verifier::external_body]
fn woothee_parse(ua: &str) -> (r: Option<WootheeFields>)
    ensures
        match r {
            Some(w) => woothee_result(ua@) == Some(woothee_view(w)),
            None => woothee_result(ua@) is None,
        },
{
    woothee::parser::Parser::new().parse(ua).map(
        |w| WootheeFields {
            name: w.name.to_string(),
            category: w.category.to_string(),
            os: w.os.to_string(),
            os_version: w.os_version.to_string(),
            version: w.version.to_string(),
        },
    )
}

/// Browser, operating system and device of a user agent.
#[derive(Debug)]
pub struct UaInfo {
    pub browser: String,
    pub browser_version: Option<String>,
    pub os: String,
    pub os_version: Option<String>,
    pub device_type: String,
}

/// Device type of a `woothee` category: phones are mobile, tablets are
/// tablets, everything else counts as a desktop.
pub open spec fn device_of(category: Seq<char>) -> Seq<char> {
    if category == "smartphone"@ || category == "mobilephone"@ {
        "mobile"@
    } else if category == "tablet"@ {
        "tablet"@
    } else {
        "desktop"@
    }
}

/// The category table: smartphones and feature phones are mobile,
/// tablets are tablets, and personal computers, crawlers, appliances and
/// any other category count as desktops.
pub proof fn lemma_device_of_categories(category: Seq<char>)
    ensures
        category == "smartphone"@ ==> device_of(category) == "mobile"@,
        category == "mobilephone"@ ==> device_of(category) == "mobile"@,
        category == "tablet"@ ==> device_of(category) == "tablet"@,
        category == "pc"@ ==> device_of(category) == "desktop"@,
        category == "crawler"@ ==> device_of(category) == "desktop"@,
        category == "appliance"@ ==> device_of(category) == "desktop"@,
        category != "smartphone"@ && category != "mobilephone"@ && category != "tablet"@
            ==> device_of(category) == "desktop"@,
{
    reveal_strlit("smartphone");
    reveal_strlit("mobilephone");
    reveal_strlit("tablet");
    reveal_strlit("pc");
    reveal_strlit("crawler");
    reveal_strlit("appliance");
}

/// An empty field means unknown.
pub open spec fn known(v: Seq<char>) -> Option<Seq<char>> {
    if v.len() == 0 {
        None
    } else {
        Some(v)
    }
}

fn known_exec(v: String) -> (r: Option<String>)
    ensures
        opt_string_view(r) == known(v@),
{
    let c = chars_of(v.as_str());
    if c.len() == 0 {
        None
    } else {
        Some(v)
    }
}

/// The category `woothee` gives a user agent, if it classifies it.
pub open spec fn woothee_category(ua: Seq<char>) -> Option<Seq<char>> {
    match woothee_result(ua) {
        Some(w) => Some(w.1),
        None => None,
    }
}

/// The device type read from a user agent, if any.
pub open spec fn device_type_of(r: Option<UaInfo>) -> Option<Seq<char>> {
    match r {
        Some(u) => Some(u.device_type@),
        None => None,
    }
}

/// Reads a user agent; nothing for an empty one.
pub fn parse_user_agent(user_agent: &str) -> (r: Option<UaInfo>)
    ensures
        user_agent@.len() == 0 ==> r is None,
        user_agent@.len() > 0 ==> match woothee_result(user_agent@) {
            None => r is None,
            Some((name, category, os, os_version, version)) => r matches Some(u) && u.browser@
                == name && opt_string_view(u.browser_version) == known(version) && u.os@ == os
                && opt_string_view(u.os_version) == known(os_version) && u.device_type@
                == device_of(category),
        },
        user_agent@.len() > 0 && (woothee_category(user_agent@) == Some("smartphone"@)
            || woothee_category(user_agent@) == Some("mobilephone"@)) ==> device_type_of(r) == Some(
            "mobile"@,
        ),
        user_agent@.len() > 0 && woothee_category(user_agent@) == Some("tablet"@)
            ==> device_type_of(r) == Some("tablet"@),
        user_agent@.len() > 0 && woothee_category(user_agent@) is Some && woothee_category(
            user_agent@,
        ) != Some("smartphone"@) && woothee_category(user_agent@) != Some("mobilephone"@)
            && woothee_category(user_agent@) != Some("tablet"@) ==> device_type_of(r) == Some(
            "desktop"@,
        ),
{
    let c = chars_of(user_agent);
    if c.len() == 0 {
        return None;
    }
    let w = woothee_parse(user_agent)?;
    let cat = chars_of(w.category.as_str());
    let device_type = if eq_lit(cat.as_slice(), "smartphone") || eq_lit(cat.as_slice(), "mobilephone") {
        "mobile".to_owned()
    } else if eq_lit(cat.as_slice(), "tablet") {
        "tablet".to_owned()
    } else {
        "desktop".to_owned()
    };
    proof {
        lemma_device_of_categories(cat@);
    }
    Some(
        UaInfo {
            browser: w.name,
            browser_version: known_exec(w.version),
            os: w.os,
            os_version: known_exec(w.os_version),
            device_type,
        },
    )
}

/// Name for whether `ipnet::IpNet` parses the text as a network.
pub uninterp spec fn net_parses(s: Seq<char>) -> bool;

/// `s.parse::<ipnet::IpNet>().is_ok()`; named by [`net_parses`].
#[verifier::external_body]
fn is_network(s: &str) -> (b: bool)
    ensures
        b == net_parses(s@),
{
    s.parse::<ipnet::IpNet>().is_ok()
}

/// The trusted proxy networks of a comma-separated setting: each entry
/// trimmed, those that parse as networks, in order.
pub open spec fn trusted_networks(parts: Seq<Seq<char>>) -> Seq<Seq<char>>
    decreases parts.len(),
{
    if parts.len() == 0 {
        Seq::empty()
    } else {
        let rest = trusted_networks(parts.drop_last());
        if net_parses(trim(parts.last())) {
            rest.push(trim(parts.last()))
        } else {
            rest
        }
    }
}

/// A setting with each whitespace character turned into a comma, so that
/// entries may be separated by commas, whitespace, or both.
pub open spec fn spaces_as_commas(s: Seq<char>) -> Seq<char> {
    s.map_values(|c: char| if crate::text::is_ws(c) { ',' } else { c })
}

/// Reads the trusted proxy networks of a setting (none when unset): its
/// entries are separated by commas or whitespace.
pub fn trusted_proxy_cidrs(raw: Option<&str>) -> (r: Vec<String>)
    ensures
        r@.map_values(|s: String| s@) == match raw {
            Some(x) => trusted_networks(split_parts(spaces_as_commas(x@), ',')),
            None => Seq::empty(),
        },
{
    let mut out: Vec<String> = Vec::new();
    let x = match raw {
        Some(x) => x,
        None => {
            assert(out@.map_values(|s: String| s@) =~= Seq::<Seq<char>>::empty());
            return out;
        },
    };
    let raw_chars = chars_of(x);
    let mut c: Vec<char> = Vec::new();
    let mut k: usize = 0;
    while k < raw_chars.len()
        invariant
            k <= raw_chars@.len(),
            raw_chars@ == x@,
            c@ == spaces_as_commas(x@).take(k as int),
        decreases raw_chars@.len() - k,
    {
        let ch = raw_chars[k];
        if crate::text::char_is_whitespace(ch) {
            c.push(',');
        } else {
            c.push(ch);
        }
        assert(c@ =~= spaces_as_commas(x@).take(k + 1));
        k = k + 1;
    }
    assert(c@ =~= spaces_as_commas(x@));
    let parts = split_exec(c.as_slice(), ',');
    let ghost pv = split_parts(spaces_as_commas(x@), ',');
    let mut i: usize = 0;
    assert(pv.take(0) =~= Seq::<Seq<char>>::empty());
    assert(out@.map_values(|s: String| s@) =~= Seq::<Seq<char>>::empty());
    while i < parts.len()
        invariant
            i <= parts@.len(),
            parts@.map_values(|p: Vec<char>| p@) == pv,
            out@.map_values(|s: String| s@) == trusted_networks(pv.take(i as int)),
        decreases parts@.len() - i,
    {
        assert(pv.take(i + 1).drop_last() =~= pv.take(i as int));
        assert(pv.take(i + 1).last() == parts@[i as int]@);
        let t = trim_chars(parts[i].as_slice());
        let ts = string_of(t.as_slice());
        if is_network(ts.as_str()) {
            let ghost before = out@.map_values(|s: String| s@);
            out.push(ts);
            assert(out@.map_values(|s: String| s@) =~= before.push(t@));
        }
        i = i + 1;
    }
    assert(pv.take(i as int) =~= pv);
    out
}

/// Whether any trusted network holds the address.
pub open spec fn trusted(nets: Seq<String>, ip: Seq<char>) -> bool {
    exists|i: int| 0 <= i < nets.len() && #[trigger] cidr_holds(nets[i]@, ip)
}

fn any_trusted(nets: &[String], ip: &str) -> (b: bool)
    ensures
        b == trusted(nets@, ip@),
{
    let mut i: usize = 0;
    while i < nets.len()
        invariant
            i <= nets@.len(),
            forall|j: int| 0 <= j < i ==> !#[trigger] cidr_holds(nets@[j]@, ip@),
        decreases nets@.len() - i,
    {
        if crate::routes::bot::cidr_contains(nets[i].as_str(), ip) {
            return true;
        }
        i = i + 1;
    }
    false
}

/// The client address of a request. The socket's address is used unless
/// it belongs to a trusted proxy, in which case the first address of
/// `X-Forwarded-For` (when it is one) takes its place; without a socket
/// address, that forwarded address or `unknown`.
pub open spec fn client_ip_of(
    forwarded_for: Option<Seq<char>>,
    remote_ip: Option<Seq<char>>,
    nets: Seq<String>,
) -> Seq<char> {
    let fwd = match forwarded_for {
        Some(h) => std_ip(trim(before_char(h, ','))),
        None => None,
    };
    match remote_ip {
        Some(r) => if trusted(nets, r) {
            match fwd {
                Some(f) => f,
                None => r,
            }
        } else {
            r
        },
        None => match fwd {
            Some(f) => f,
            None => "unknown"@,
        },
    }
}

/// Finds the client address of a request; `remote_ip` is the socket's
/// address as the standard library prints it.
pub fn extract_client_ip(forwarded_for: Option<&str>, remote_ip: Option<&str>, trusted_nets: &[String]) -> (r: String)
    ensures
        r@ == client_ip_of(opt_view(forwarded_for), opt_view(remote_ip), trusted_nets@),
{
    let fwd = match forwarded_for {
        Some(h) => {
            let c = chars_of(h);
            let first = before_char_exec(c.as_slice(), ',');
            let t = trim_chars(first.as_slice());
            let ts = string_of(t.as_slice());
            crate::routes::bot::canonical_ip(ts.as_str())
        },
        None => None,
    };
    match remote_ip {
        Some(r) => {
            if any_trusted(trusted_nets, r) {
                match fwd {
                    Some(f) => f,
                    None => r.to_owned(),
                }
            } else {
                r.to_owned()
            }
        },
        None => match fwd {
            Some(f) => f,
            None => "unknown".to_owned(),
        },
    }
}

/// Location of a client from the GeoIP database.
#[derive(Debug)]
pub struct GeoInfo {
    pub country: Option<String>,
    pub region: Option<String>,
    pub city: Option<String>,
}

/// One event as a client sends it; `event_data` is its JSON text.
#[derive(Debug)]
pub struct CollectPayload {
    pub website_id: String,
    pub event_type: String,
    pub url: String,
    pub referrer: Option<String>,
    pub event_name: Option<String>,
    pub event_data: Option<String>,
    /// Sent by some clients; not used: the visitor is the one the server
    /// derives from the salt, address and user agent.
    pub visitor_id: Option<String>,
    pub screen: Option<String>,
    pub screen_width: Option<u32>,
    pub screen_height: Option<u32>,
    pub language: Option<String>,
    pub utm_source: Option<String>,
    pub utm_medium: Option<String>,
    pub utm_campaign: Option<String>,
    pub utm_term: Option<String>,
    pub utm_content: Option<String>,
}

/// An enriched event, ready for the ingest queue; `created_at_us` is in
/// microseconds since the Unix epoch.
#[derive(Debug)]
pub struct Event {
    pub id: String,
    pub website_id: String,
    pub tenant_id: Option<String>,
    pub session_id: String,
    pub visitor_id: String,
    pub event_type: String,
    pub url: String,
    pub referrer_url: Option<String>,
    pub referrer_domain: Option<String>,
    pub event_name: Option<String>,
    pub event_data: Option<String>,
    pub country: Option<String>,
    pub region: Option<String>,
    pub city: Option<String>,
    pub browser: Option<String>,
    pub browser_version: Option<String>,
    pub os: Option<String>,
    pub os_version: Option<String>,
    pub device_type: Option<String>,
    pub screen: Option<String>,
    pub language: Option<String>,
    pub utm_source: Option<String>,
    pub utm_medium: Option<String>,
    pub utm_campaign: Option<String>,
    pub utm_term: Option<String>,
    pub utm_content: Option<String>,
    pub link_id: Option<String>,
    pub pixel_id: Option<String>,
    pub source_ip: Option<String>,
    pub user_agent: Option<String>,
    pub is_bot: bool,
    pub bot_score: i32,
    pub bot_reason: Option<crate::bot::BotReason>,
    pub created_at_us: i64,
}

/// What a request contributes to each of its events.
pub struct CollectContext {
    pub client_ip: String,
    pub user_agent: String,
    /// The visitor id derived from the day's salt, the address and the user
    /// agent (`sha256(salt_epoch + ip + user_agent)`, 16 hex characters).
    pub server_visitor_id: String,
    pub geo: Option<GeoInfo>,
    pub ua: Option<UaInfo>,
    pub base_now_us: i64,
}

/// A geo field of the request, when the lookup found one.
pub open spec fn geo_field(geo: Option<GeoInfo>, pick: spec_fn(GeoInfo) -> Option<String>) -> Option<Seq<char>> {
    match geo {
        Some(g) => opt_string_view(pick(g)),
        None => None,
    }
}

/// A user-agent field of the request, when the agent was recognized.
pub open spec fn ua_field(ua: Option<UaInfo>, pick: spec_fn(UaInfo) -> Option<Seq<char>>) -> Option<Seq<char>> {
    match ua {
        Some(u) => pick(u),
        None => None,
    }
}

/// `e` is the event built from payload `p` at position `idx` of its batch
/// under `ctx`, with the given id, referrer domain and classification.
pub open spec fn event_built(
    e: Event,
    p: CollectPayload,
    idx: usize,
    ctx: CollectContext,
    id: Seq<char>,
    referrer_domain: Option<Seq<char>>,
    c: crate::bot::BotClassification,
) -> bool {
    &&& e.id@ == id
    &&& e.website_id@ == p.website_id@
    &&& e.tenant_id is None
    &&& e.session_id@ == crate::ingest::SESSION_ID_PENDING@
    &&& e.visitor_id@ == ctx.server_visitor_id@
    &&& e.event_type@ == p.event_type@
    &&& e.url@ == p.url@
    &&& opt_string_view(e.referrer_url) == opt_string_view(p.referrer)
    &&& opt_string_view(e.referrer_domain) == referrer_domain
    &&& opt_string_view(e.event_name) == opt_string_view(p.event_name)
    &&& opt_string_view(e.event_data) == opt_string_view(p.event_data)
    &&& opt_string_view(e.country) == geo_field(ctx.geo, |g: GeoInfo| g.country)
    &&& opt_string_view(e.region) == geo_field(ctx.geo, |g: GeoInfo| g.region)
    &&& opt_string_view(e.city) == geo_field(ctx.geo, |g: GeoInfo| g.city)
    &&& opt_string_view(e.browser) == ua_field(ctx.ua, |u: UaInfo| Some(u.browser@))
    &&& opt_string_view(e.browser_version) == ua_field(ctx.ua, |u: UaInfo| opt_string_view(u.browser_version))
    &&& opt_string_view(e.os) == ua_field(ctx.ua, |u: UaInfo| Some(u.os@))
    &&& opt_string_view(e.os_version) == ua_field(ctx.ua, |u: UaInfo| opt_string_view(u.os_version))
    &&& opt_string_view(e.device_type) == ua_field(ctx.ua, |u: UaInfo| Some(u.device_type@))
    &&& opt_string_view(e.screen) == screen_of(opt_string_view(p.screen), p.screen_width, p.screen_height)
    &&& opt_string_view(e.language) == opt_string_view(p.language)
    &&& opt_string_view(e.utm_source) == prefer(opt_string_view(p.utm_source), url_utm(p.url@, "utm_source"@))
    &&& opt_string_view(e.utm_medium) == prefer(opt_string_view(p.utm_medium), url_utm(p.url@, "utm_medium"@))
    &&& opt_string_view(e.utm_campaign) == prefer(opt_string_view(p.utm_campaign), url_utm(p.url@, "utm_campaign"@))
    &&& opt_string_view(e.utm_term) == prefer(opt_string_view(p.utm_term), url_utm(p.url@, "utm_term"@))
    &&& opt_string_view(e.utm_content) == prefer(opt_string_view(p.utm_content), url_utm(p.url@, "utm_content"@))
    &&& e.link_id is None
    &&& e.pixel_id is None
    &&& opt_string_view(e.source_ip) == Some(ctx.client_ip@)
    &&& opt_string_view(e.user_agent) == Some(ctx.user_agent@)
    &&& e.is_bot == c.is_bot
    &&& e.bot_score == c.bot_score
    &&& e.bot_reason == c.bot_reason
    &&& e.created_at_us == ctx.base_now_us + idx
}

fn clone_opt(o: &Option<String>) -> (r: Option<String>)
    ensures
        opt_string_view(r) == opt_string_view(*o),
{
    match o {
        Some(s) => Some(s.clone()),
        None => None,
    }
}

/// Builds the enriched event of one payload of a batch (its position
/// orders the events of the batch in time).
pub fn build_event(
    p: CollectPayload,
    idx: usize,
    ctx: &CollectContext,
    id: String,
    referrer_domain: Option<String>,
    c: crate::bot::BotClassification,
) -> (e: Event)
    requires
        ctx.base_now_us + idx <= i64::MAX,
        idx <= MAX_BATCH_EVENTS,
    ensures
        event_built(e, p, idx, *ctx, id@, opt_string_view(referrer_domain), c),
{
    let ghost pv = p;
    let visitor_id = ctx.server_visitor_id.clone();
    let screen = screen_string(p.screen, p.screen_width, p.screen_height);
    let given = UtmParams {
        utm_source: p.utm_source,
        utm_medium: p.utm_medium,
        utm_campaign: p.utm_campaign,
        utm_term: p.utm_term,
        utm_content: p.utm_content,
    };
    let utm = merge_utm(given, p.url.as_str());
    let (country, region, city) = match &ctx.geo {
        Some(g) => (clone_opt(&g.country), clone_opt(&g.region), clone_opt(&g.city)),
        None => (None, None, None),
    };
    let (browser, browser_version, os, os_version, device_type) = match &ctx.ua {
        Some(u) => (
            Some(u.browser.clone()),
            clone_opt(&u.browser_version),
            Some(u.os.clone()),
            clone_opt(&u.os_version),
            Some(u.device_type.clone()),
        ),
        None => (None, None, None, None, None),
    };
    let referrer_url = clone_opt(&p.referrer);
    let e = Event {
        id,
        website_id: p.website_id,
        tenant_id: None,
        session_id: crate::ingest::SESSION_ID_PENDING.to_owned(),
        visitor_id,
        event_type: p.event_type,
        url: p.url,
        referrer_url,
        referrer_domain,
        event_name: p.event_name,
        event_data: p.event_data,
        country,
        region,
        city,
        browser,
        browser_version,
        os,
        os_version,
        device_type,
        screen,
        language: p.language,
        utm_source: utm.utm_source,
        utm_medium: utm.utm_medium,
        utm_campaign: utm.utm_campaign,
        utm_term: utm.utm_term,
        utm_content: utm.utm_content,
        link_id: None,
        pixel_id: None,
        source_ip: Some(ctx.client_ip.clone()),
        user_agent: Some(ctx.user_agent.clone()),
        is_bot: c.is_bot,
        bot_score: c.bot_score,
        bot_reason: c.bot_reason,
        created_at_us: ctx.base_now_us + idx as i64,
    };
    e
}

} // verus!
