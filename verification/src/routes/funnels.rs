//! Funnels: name and step checks, the query of funnel results (date range,
//! filters, time zone), how backend failures are reported, and the keys
//! of the per-client rate limits.
use vstd::prelude::*;

use crate::error::{bad_request, bad_request_with, AppError};
use crate::routes::query::{
    filters_result, invalid_date_message, lenient_day, normalize_filters,
    normalize_timezone_non_empty, opt_string_view, opt_strings_view, opt_view, order_message,
    parse_defaulted_date_range_strict, span_message, str_views, validate_date_span,
};
use crate::routes::retention::{retention_filter_limits, retention_filter_names, timezone_result};
use crate::routes::validation::{
    check_text, failed_as, text_verdict, validate_entity_name, verdict_for, ValidationFailure,
};
use crate::routes::bot::{canonical_ip, std_ip};
use crate::routes::public::pairs_view;
use crate::text::{
    append_chars, append_str, before_char, before_char_exec, byte_len, chars_of, contains,
    contains_exec, string_of, trim, trim_str,
};
use crate::webhook::{header_text, header_value};

verus! {

/// Default length of the results range, in days.
pub const DEFAULT_RESULTS_RANGE_DAYS: i64 = 30;

/// Longest results range, in days.
pub const MAX_RESULTS_RANGE_DAYS: i64 = 90;

/// One step of a funnel being created.
#[derive(Debug)]
pub struct CreateFunnelStepRequest {
    pub step_type: String,
    pub match_value: String,
    pub label: Option<String>,
}

/// Checks a funnel name: not blank, at most 100 bytes.
pub fn validate_name(name: &str) -> (r: Result<(), ValidationFailure>)
    ensures
        verdict_for(
            r,
            text_verdict(
                name@,
                100,
                "name must not be empty"@,
                "name must be 100 characters or fewer"@,
            ),
            "name"@,
        ),
{
    validate_entity_name(name)
}

/// Outcome of checking one step: its match value, then its label if any;
/// a failure carries its message and field.
pub open spec fn step_verdict(s: CreateFunnelStepRequest) -> Result<(), (Seq<char>, Seq<char>)> {
    match text_verdict(
        s.match_value@,
        500,
        "match_value must not be empty"@,
        "match_value must be 500 characters or fewer"@,
    ) {
        Err(m) => Err((m, "match_value"@)),
        Ok(()) => match s.label {
            None => Ok(()),
            Some(l) => match text_verdict(
                l@,
                120,
                "label must not be empty"@,
                "label must be 120 characters or fewer"@,
            ) {
                Err(m) => Err((m, "label"@)),
                Ok(()) => Ok(()),
            },
        },
    }
}

/// Outcome of checking steps in order: the first failing step decides.
pub open spec fn steps_verdict(steps: Seq<CreateFunnelStepRequest>) -> Result<(), (Seq<char>, Seq<char>)>
    decreases steps.len(),
{
    if steps.len() == 0 {
        Ok(())
    } else {
        match steps_verdict(steps.drop_last()) {
            Err(x) => Err(x),
            Ok(()) => step_verdict(steps.last()),
        }
    }
}

/// `r` matches a step outcome.
pub open spec fn step_result_matches(r: Result<(), ValidationFailure>, v: Result<(), (Seq<char>, Seq<char>)>) -> bool {
    match v {
        Ok(()) => r is Ok,
        Err((m, f)) => failed_as(r, "validation_error"@, m, f),
    }
}

fn check_step(step: &CreateFunnelStepRequest) -> (r: Result<(), ValidationFailure>)
    ensures
        step_result_matches(r, step_verdict(*step)),
{
    check_text(
        step.match_value.as_str(),
        "match_value",
        500,
        "match_value must not be empty",
        "match_value must be 500 characters or fewer",
    )?;
    if let Some(label) = &step.label {
        check_text(
            label.as_str(),
            "label",
            120,
            "label must not be empty",
            "label must be 120 characters or fewer",
        )?;
    }
    Ok(())
}

proof fn lemma_steps_err_extends(steps: Seq<CreateFunnelStepRequest>, k: int)
    requires
        0 <= k <= steps.len(),
        steps_verdict(steps.take(k)) is Err,
    ensures
        steps_verdict(steps) == steps_verdict(steps.take(k)),
    decreases steps.len() - k,
{
    if k < steps.len() {
        assert(steps.take(k + 1).drop_last() =~= steps.take(k));
        lemma_steps_err_extends(steps, k + 1);
    } else {
        assert(steps.take(k) =~= steps);
    }
}

/// Checks the steps of a funnel: between 2 and 8 of them, each with a
/// match value and, if labelled, a label.
pub fn validate_steps(steps: &[CreateFunnelStepRequest]) -> (r: Result<(), ValidationFailure>)
    ensures
        !(2 <= steps@.len() <= 8) ==> failed_as(
            r,
            "validation_error"@,
            "funnels must have between 2 and 8 steps"@,
            "steps"@,
        ),
        (2 <= steps@.len() <= 8) ==> step_result_matches(r, steps_verdict(steps@)),
{
    if steps.len() < 2 || steps.len() > 8 {
        return Err(
            ValidationFailure {
                code: "validation_error",
                message: "funnels must have between 2 and 8 steps",
                field: Some("steps"),
            },
        );
    }
    let mut i: usize = 0;
    assert(steps@.take(0) =~= Seq::<CreateFunnelStepRequest>::empty());
    while i < steps.len()
        invariant
            2 <= steps@.len() <= 8,
            i <= steps@.len(),
            steps_verdict(steps@.take(i as int)) is Ok,
        decreases steps@.len() - i,
    {
        let r = check_step(&steps[i]);
        assert(steps@.take(i + 1).drop_last() =~= steps@.take(i as int));
        assert(steps@.take(i + 1).last() == steps@[i as int]);
        if r.is_err() {
            proof {
                lemma_steps_err_extends(steps@, i + 1);
            }
            return r;
        }
        i = i + 1;
    }
    assert(steps@.take(i as int) =~= steps@);
    Ok(())
}

/// Query of the results of one funnel.
pub struct FunnelResultsQuery {
    pub start_date: Option<String>,
    pub end_date: Option<String>,
    pub timezone: Option<String>,
    pub filter_country: Option<String>,
    pub filter_page: Option<String>,
    pub filter_referrer: Option<String>,
    pub filter_browser: Option<String>,
    pub filter_os: Option<String>,
    pub filter_device: Option<String>,
    pub filter_language: Option<String>,
    pub filter_utm_source: Option<String>,
    pub filter_utm_medium: Option<String>,
    pub filter_utm_campaign: Option<String>,
    pub filter_region: Option<String>,
    pub filter_city: Option<String>,
    pub filter_hostname: Option<String>,
}

/// Checked parameters of funnel results: range, filters (in the order of
/// the retention filters) and time zone.
#[derive(Debug)]
pub struct FunnelResultsRequest {
    pub start_date: i32,
    pub end_date: i32,
    pub filters: Vec<Option<String>>,
    pub timezone: Option<String>,
}

/// The filters of a funnel-results query, in the retention order.
pub open spec fn funnel_filter_values(q: FunnelResultsQuery) -> Seq<Option<Seq<char>>> {
    seq![
        opt_string_view(q.filter_country),
        opt_string_view(q.filter_page),
        opt_string_view(q.filter_referrer),
        opt_string_view(q.filter_browser),
        opt_string_view(q.filter_os),
        opt_string_view(q.filter_device),
        opt_string_view(q.filter_language),
        opt_string_view(q.filter_utm_source),
        opt_string_view(q.filter_utm_medium),
        opt_string_view(q.filter_utm_campaign),
        opt_string_view(q.filter_region),
        opt_string_view(q.filter_city),
        opt_string_view(q.filter_hostname),
    ]
}

/// Date range of funnel results against `today`: present bounds must
/// parse (trimmed); absent ones default to the 30 days ending today; in
/// order; at most 90 days.
pub open spec fn results_range(start: Option<Seq<char>>, end: Option<Seq<char>>, today: i32) -> Result<
    (i32, i32),
    Seq<char>,
> {
    let start_bad = start is Some && lenient_day(start.unwrap()) is None;
    let end_bad = end is Some && lenient_day(end.unwrap()) is None;
    let s = match start {
        Some(raw) => lenient_day(raw).unwrap(),
        None => (today - (DEFAULT_RESULTS_RANGE_DAYS - 1)) as i32,
    };
    let e = match end {
        Some(raw) => lenient_day(raw).unwrap(),
        None => today,
    };
    if start_bad {
        Err(invalid_date_message("start_date"@))
    } else if end_bad {
        Err(invalid_date_message("end_date"@))
    } else if e < s {
        Err(order_message())
    } else if e - s + 1 > MAX_RESULTS_RANGE_DAYS {
        Err(span_message("date range"@, e - s + 1, MAX_RESULTS_RANGE_DAYS))
    } else {
        Ok((s, e))
    }
}

fn as_opt_str(o: &Option<String>) -> (r: Option<&str>)
    ensures
        opt_view(r) == opt_string_view(*o),
{
    match o {
        Some(s) => Some(s.as_str()),
        None => None,
    }
}

/// Checks the parameters of a funnel-results query against `today`: date
/// range, then filters, then time zone.
pub fn results_request_at(query: FunnelResultsQuery, today: i32) -> (r: Result<FunnelResultsRequest, AppError>)
    requires
        crate::dates::day_in_range(today as int),
        crate::dates::day_in_range(today - (DEFAULT_RESULTS_RANGE_DAYS - 1)),
    ensures
        match results_range(opt_string_view(query.start_date), opt_string_view(query.end_date), today) {
            Err(m) => bad_request_with(r, m),
            Ok((s, e)) => match filters_result(
                retention_filter_names(),
                retention_filter_limits(),
                funnel_filter_values(query),
            ) {
                Err(m) => bad_request_with(r, m),
                Ok(fs) => match timezone_result(opt_string_view(query.timezone)) {
                    Err(m) => bad_request_with(r, m),
                    Ok(tz) => r matches Ok(req) && req.start_date == s && req.end_date == e
                        && opt_strings_view(req.filters@) == fs && opt_string_view(req.timezone)
                        == tz,
                },
            },
        },
{
    let (start_date, end_date) = parse_defaulted_date_range_strict(
        as_opt_str(&query.start_date),
        as_opt_str(&query.end_date),
        today,
        DEFAULT_RESULTS_RANGE_DAYS - 1,
    )?;
    validate_date_span(start_date, end_date, MAX_RESULTS_RANGE_DAYS, "date range")?;
    let names: Vec<&str> = vec![
        "filter_country",
        "filter_page",
        "filter_referrer",
        "filter_browser",
        "filter_os",
        "filter_device",
        "filter_language",
        "filter_utm_source",
        "filter_utm_medium",
        "filter_utm_campaign",
        "filter_region",
        "filter_city",
        "filter_hostname",
    ];
    let limits: Vec<usize> = vec![64, 512, 512, 128, 128, 64, 64, 256, 256, 256, 128, 128, 255];
    let ghost fv = funnel_filter_values(query);
    let tz = query.timezone;
    let values: Vec<Option<String>> = vec![
        query.filter_country,
        query.filter_page,
        query.filter_referrer,
        query.filter_browser,
        query.filter_os,
        query.filter_device,
        query.filter_language,
        query.filter_utm_source,
        query.filter_utm_medium,
        query.filter_utm_campaign,
        query.filter_region,
        query.filter_city,
        query.filter_hostname,
    ];
    assert(str_views(names@) =~= retention_filter_names());
    assert(limits@ =~= retention_filter_limits());
    assert(opt_strings_view(values@) =~= fv);
    let filters = normalize_filters(names.as_slice(), limits.as_slice(), values)?;
    let timezone = normalize_timezone_non_empty(as_opt_str(&tz))?;
    Ok(FunnelResultsRequest { start_date, end_date, filters, timezone })
}

fn has_lit(m: &[char], lit: &str) -> (b: bool)
    ensures
        b == contains(m@, lit@),
{
    let l = chars_of(lit);
    contains_exec(m, l.as_slice())
}

/// Answer to a failed funnel-results query, read from the backend's
/// message: an unknown funnel, a time-zone problem, or an internal error.
pub fn map_results_error(message: &str) -> (e: AppError)
    ensures
        contains(message@, "Funnel not found"@) ==> (e matches AppError::NotFound(m) && m@
            == "Funnel not found"@),
        !contains(message@, "Funnel not found"@) && (contains(message@, "invalid_timezone"@)
            || contains(message@, "invalid_timezone_transition"@) || contains(
            message@,
            "invalid_date_boundary"@,
        )) ==> (e matches AppError::BadRequest(m) && m@ == "invalid timezone"@),
        !contains(message@, "Funnel not found"@) && !contains(message@, "invalid_timezone"@)
            && !contains(message@, "invalid_timezone_transition"@) && !contains(
            message@,
            "invalid_date_boundary"@,
        ) ==> (e matches AppError::Internal(m) && m@ == message@),
{
    let m = chars_of(message);
    if has_lit(m.as_slice(), "Funnel not found") {
        AppError::NotFound("Funnel not found".to_owned())
    } else if has_lit(m.as_slice(), "invalid_timezone") || has_lit(
        m.as_slice(),
        "invalid_timezone_transition",
    ) || has_lit(m.as_slice(), "invalid_date_boundary") {
        bad_request("invalid timezone")
    } else {
        AppError::Internal(message.to_owned())
    }
}

/// Name for the value of `std::hash::DefaultHasher::new()` after hashing
/// the text (`str::hash`) and `finish`. `DefaultHasher::new` is not seeded:
/// its documentation guarantees that every instance it makes is the same,
/// so the value is a function of the text (the algorithm may change between
/// Rust releases).
pub uninterp spec fn default_str_hash(value: Seq<char>) -> u64;

/// `std::hash::DefaultHasher::new()` fed with the text; named by
/// [`default_str_hash`].
#[verifier::external_body]
fn default_hash_str(value: &str) -> (h: u64)
    ensures
        h == default_str_hash(value@),
{
    let mut hasher = std::collections::hash_map::DefaultHasher::new();
    std::hash::Hash::hash(value, &mut hasher);
    std::hash::Hasher::finish(&hasher)
}

/// Sixteen lower-case hex digits of a 64-bit value, zero-padded.
pub open spec fn hex16(h: u64) -> Seq<char> {
    Seq::new(16, |i: int| crate::auth::hex_digit((((h as int) / pow16(15 - i)) % 16) as u8))
}

/// Powers of sixteen.
pub open spec fn pow16(n: int) -> int
    decreases n,
{
    if n <= 0 {
        1
    } else {
        16 * pow16(n - 1)
    }
}

proof fn lemma_pow16_pos(n: int)
    ensures
        pow16(n) >= 1,
    decreases n,
{
    if n > 0 {
        lemma_pow16_pos(n - 1);
    }
}

/// A client fingerprint: `prefix`, `:`, and sixteen hex digits of the
/// value's `DefaultHasher` hash.
pub fn fingerprint_key(prefix: &str, value: &str) -> (k: String)
    ensures
        k@ == prefix@ + ":"@ + hex16(default_str_hash(value@)),
{
    let h = default_hash_str(value);
    hash_fingerprint(prefix, h)
}

/// A fingerprint of a hash: `prefix`, `:`, and the hash as sixteen
/// lower-case hex digits.
pub fn hash_fingerprint(prefix: &str, h: u64) -> (k: String)
    ensures
        k@ == prefix@ + ":"@ + hex16(h),
{
    let mut v = chars_of(prefix);
    append_str(&mut v, ":");
    let ghost base = v@;
    let mut i: usize = 0;
    let mut digits: Vec<char> = Vec::new();
    let mut p: u64 = 0x1000_0000_0000_0000;
    proof {
        reveal_with_fuel(pow16, 16);
    }
    while i < 16
        invariant
            i <= 16,
            p as int == pow16(15 - i as int),
            p > 0,
            digits@.len() == i,
            forall|j: int| 0 <= j < i ==> digits@[j] == hex16(h)[j],
        decreases 16 - i,
    {
        let d = ((h / p) % 16) as u8;
        let c = if d < 10 {
            (48u8 + d) as char
        } else {
            (87u8 + d) as char
        };
        assert(d as int == (((h as int) / pow16(15 - i as int)) % 16));
        digits.push(c);
        if i < 15 {
            assert(pow16(15 - i as int) == 16 * pow16(14 - i as int));
            proof {
                lemma_pow16_pos(14 - i as int);
            }
            p = p / 16;
        }
        i = i + 1;
    }
    assert(digits@ =~= hex16(h));
    append_chars(&mut v, digits.as_slice());
    string_of(v.as_slice())
}

/// The canonical address written in a header value: trimmed, non-empty,
/// at most 64 bytes, and an IP address.
pub open spec fn parsed_client_ip(raw: Seq<char>) -> Option<Seq<char>> {
    let t = trim(raw);
    if t.len() == 0 || byte_len(t) > 64 {
        None
    } else {
        std_ip(t)
    }
}

fn parse_client_ip(raw: &str) -> (r: Option<String>)
    ensures
        opt_string_view(r) == parsed_client_ip(raw@),
{
    let t = trim_str(raw);
    let ts = string_of(t.as_slice());
    if t.len() == 0 || ts.as_str().len() > 64 {
        return None;
    }
    canonical_ip(ts.as_str())
}

/// A header value usable as a fingerprint: not blank and at most `max` bytes.
pub open spec fn fingerprintable(v: Option<Seq<char>>, max: nat) -> bool {
    v matches Some(x) && trim(x).len() > 0 && byte_len(x) <= max
}

/// What identifies a client for the funnel rate limits.
pub enum BucketSource {
    /// Its address, from `x-real-ip`, else the first `x-forwarded-for` entry.
    Address(Seq<char>),
    /// A fingerprint of its `authorization` header.
    Authorization,
    /// A fingerprint of its `user-agent` header.
    UserAgent,
    /// Nothing: all such clients share one bucket.
    Anonymous,
}

/// The source of a client's bucket, in order of preference.
pub open spec fn bucket_source(h: Seq<(Seq<char>, Seq<char>)>) -> BucketSource {
    let real_ip = match header_text(h, "x-real-ip"@) {
        Some(v) => parsed_client_ip(v),
        None => None,
    };
    let forwarded = match header_text(h, "x-forwarded-for"@) {
        Some(v) => parsed_client_ip(before_char(v, ',')),
        None => None,
    };
    if real_ip is Some {
        BucketSource::Address(real_ip.unwrap())
    } else if forwarded is Some {
        BucketSource::Address(forwarded.unwrap())
    } else if fingerprintable(header_text(h, "authorization"@), 4096) {
        BucketSource::Authorization
    } else if fingerprintable(header_text(h, "user-agent"@), 1024) {
        BucketSource::UserAgent
    } else {
        BucketSource::Anonymous
    }
}

fn fingerprintable_exec(v: &Option<String>, max: usize) -> (b: bool)
    ensures
        b == fingerprintable(opt_string_view(*v), max as nat),
{
    match v {
        Some(x) => {
            let t = trim_str(x.as_str());
            t.len() > 0 && x.as_str().len() <= max
        },
        None => false,
    }
}

/// The rate-limit bucket of a client: its address, else a fingerprint of
/// its credentials or user agent, else `anonymous`.
pub fn client_bucket_key(headers: &[(String, String)]) -> (k: String)
    ensures
        match bucket_source(pairs_view(headers@)) {
            BucketSource::Address(ip) => k@ == ip,
            BucketSource::Authorization => k@ == "auth"@ + ":"@ + hex16(
                default_str_hash(header_text(pairs_view(headers@), "authorization"@).unwrap()),
            ),
            BucketSource::UserAgent => k@ == "ua"@ + ":"@ + hex16(
                default_str_hash(header_text(pairs_view(headers@), "user-agent"@).unwrap()),
            ),
            BucketSource::Anonymous => k@ == "anonymous"@,
        },
{
    let real_ip = match header_value(headers, "x-real-ip") {
        Some(v) => parse_client_ip(v.as_str()),
        None => None,
    };
    if let Some(ip) = real_ip {
        return ip;
    }
    let forwarded = match header_value(headers, "x-forwarded-for") {
        Some(v) => {
            let c = chars_of(v.as_str());
            let first = before_char_exec(c.as_slice(), ',');
            let fs = string_of(first.as_slice());
            parse_client_ip(fs.as_str())
        },
        None => None,
    };
    if let Some(ip) = forwarded {
        return ip;
    }
    let auth = header_value(headers, "authorization");
    if fingerprintable_exec(&auth, 4096) {
        let a = auth.unwrap();
        return fingerprint_key("auth", a.as_str());
    }
    let ua = header_value(headers, "user-agent");
    if fingerprintable_exec(&ua, 1024) {
        let u = ua.unwrap();
        return fingerprint_key("ua", u.as_str());
    }
    string_of(chars_of("anonymous").as_slice())
}

} // verus!
