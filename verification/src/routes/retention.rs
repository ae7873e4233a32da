//! Cohort retention: parameters, granularity, period limits, and how the
//! errors of the analytics backend are reported.
use vstd::prelude::*;

use crate::error::{bad_request, bad_request_with, AppError};
use crate::ratelimit::{decimal, u64_decimal};
use crate::routes::query::{
    filters_result, normalize_filters, opt_string_view, opt_strings_view,
    parse_required_date_range, range_matches, required_range_result, str_views,
};
use crate::text::{append_chars, append_str, chars_eq, chars_of, contains, contains_exec, string_of, trim, trim_str};

verus! {

/// Seconds a client is asked to wait after a retention query timed out.
pub const RETENTION_QUERY_TIMEOUT_RETRY_AFTER_SECONDS: u64 = 2;

/// Query of `GET /api/websites/:id/retention`.
pub struct RetentionParams {
    pub start_date: Option<String>,
    pub end_date: Option<String>,
    pub timezone: Option<String>,
    pub cohort_granularity: Option<String>,
    pub max_periods: Option<u32>,
    pub filter_country: Option<String>,
    pub filter_page: Option<String>,
    pub filter_referrer: Option<String>,
    pub filter_browser: Option<String>,
    pub filter_os: Option<String>,
    pub filter_device: Option<String>,
    pub filter_language: Option<String>,
    pub filter_utm_source: Option<String>,
    pub filter_utm_medium: Option<String>,
    pub filter_utm_campaign: Option<String>,
    pub filter_region: Option<String>,
    pub filter_city: Option<String>,
    pub filter_hostname: Option<String>,
}

/// Width of a retention cohort.
#[derive(Clone, Copy, Debug, PartialEq, Eq, Structural)]
pub enum RetentionGranularity {
    Day,
    Week,
    Month,
}

/// Message for an unknown granularity.
pub open spec fn granularity_message() -> Seq<char> {
    "cohort_granularity must be one of: day, week, month"@
}

/// Granularity named by the (trimmed) parameter; weekly when absent.
pub open spec fn granularity_of(raw: Option<Seq<char>>) -> Result<RetentionGranularity, Seq<char>> {
    match raw {
        None => Ok(RetentionGranularity::Week),
        Some(r) => {
            let t = trim(r);
            if t == "day"@ {
                Ok(RetentionGranularity::Day)
            } else if t == "week"@ {
                Ok(RetentionGranularity::Week)
            } else if t == "month"@ {
                Ok(RetentionGranularity::Month)
            } else {
                Err(granularity_message())
            }
        },
    }
}

fn eq_lit(v: &[char], lit: &str) -> (b: bool)
    ensures
        b == (v@ == lit@),
{
    let l = chars_of(lit);
    chars_eq(v, l.as_slice())
}

/// Parses the cohort granularity.
pub fn parse_granularity(raw: Option<&str>) -> (r: Result<RetentionGranularity, AppError>)
    ensures
        match granularity_of(
            match raw {
                Some(x) => Some(x@),
                None => None,
            },
        ) {
            Ok(g) => r == Ok::<RetentionGranularity, AppError>(g),
            Err(m) => bad_request_with(r, m),
        },
{
    match raw {
        None => Ok(RetentionGranularity::Week),
        Some(x) => {
            let t = trim_str(x);
            if eq_lit(t.as_slice(), "day") {
                Ok(RetentionGranularity::Day)
            } else if eq_lit(t.as_slice(), "week") {
                Ok(RetentionGranularity::Week)
            } else if eq_lit(t.as_slice(), "month") {
                Ok(RetentionGranularity::Month)
            } else {
                Err(bad_request("cohort_granularity must be one of: day, week, month"))
            }
        },
    }
}

/// Number of periods shown when none is asked for.
pub open spec fn default_periods_of(g: RetentionGranularity) -> u32 {
    match g {
        RetentionGranularity::Day => 30,
        RetentionGranularity::Week => 8,
        RetentionGranularity::Month => 12,
    }
}

/// Default number of periods for a granularity.
pub fn default_periods(granularity: RetentionGranularity) -> (n: u32)
    ensures
        n == default_periods_of(granularity),
{
    match granularity {
        RetentionGranularity::Day => 30,
        RetentionGranularity::Week => 8,
        RetentionGranularity::Month => 12,
    }
}

/// Least and greatest number of periods, and the granularity's adjective.
pub open spec fn period_bounds(g: RetentionGranularity) -> (u32, u32, Seq<char>) {
    match g {
        RetentionGranularity::Day => (1, 30, "daily"@),
        RetentionGranularity::Week => (1, 12, "weekly"@),
        RetentionGranularity::Month => (1, 12, "monthly"@),
    }
}

/// Message for a number of periods out of bounds.
pub open spec fn periods_message(g: RetentionGranularity) -> Seq<char> {
    let (lo, hi, label) = period_bounds(g);
    "max_periods must be between "@ + decimal(lo as nat) + " and "@ + decimal(hi as nat) + " for "@
        + label + " granularity"@
}

/// Checks the number of periods against the granularity's bounds.
pub fn validate_max_periods(granularity: RetentionGranularity, max_periods: u32) -> (r: Result<
    (),
    AppError,
>)
    ensures
        r is Ok <==> period_bounds(granularity).0 <= max_periods <= period_bounds(granularity).1,
        r is Err ==> bad_request_with(r, periods_message(granularity)),
{
    let (lo, hi, label): (u32, u32, &str) = match granularity {
        RetentionGranularity::Day => (1, 30, "daily"),
        RetentionGranularity::Week => (1, 12, "weekly"),
        RetentionGranularity::Month => (1, 12, "monthly"),
    };
    if lo <= max_periods && max_periods <= hi {
        return Ok(());
    }
    let mut m = chars_of("max_periods must be between ");
    let a = u64_decimal(lo as u64);
    append_chars(&mut m, a.as_slice());
    append_str(&mut m, " and ");
    let b = u64_decimal(hi as u64);
    append_chars(&mut m, b.as_slice());
    append_str(&mut m, " for ");
    append_str(&mut m, label);
    append_str(&mut m, " granularity");
    Err(crate::error::bad_request_chars(m.as_slice()))
}

fn has_lit(m: &[char], lit: &str) -> (b: bool)
    ensures
        b == contains(m@, lit@),
{
    let l = chars_of(lit);
    contains_exec(m, l.as_slice())
}

/// Maps a failure of the retention backend, given by its message, to the
/// error the client sees.
pub fn map_retention_backend_error(message: &str) -> (e: AppError)
    ensures
        contains(message@, "retention_query_timeout"@) ==> (e == AppError::QueryTimeout {
            retry_after_seconds: RETENTION_QUERY_TIMEOUT_RETRY_AFTER_SECONDS,
        }),
        !contains(message@, "retention_query_timeout"@) && (contains(message@, "invalid_timezone"@)
            || contains(message@, "invalid_timezone_transition"@) || contains(
            message@,
            "invalid_date_boundary"@,
        )) ==> (e matches AppError::BadRequest(m) && m@ == "invalid timezone"@),
        !contains(message@, "retention_query_timeout"@) && !contains(message@, "invalid_timezone"@)
            && !contains(message@, "invalid_timezone_transition"@) && !contains(
            message@,
            "invalid_date_boundary"@,
        ) ==> (e matches AppError::Internal(m) && m@ == message@),
{
    let m = chars_of(message);
    if has_lit(m.as_slice(), "retention_query_timeout") {
        AppError::QueryTimeout { retry_after_seconds: RETENTION_QUERY_TIMEOUT_RETRY_AFTER_SECONDS }
    } else if has_lit(m.as_slice(), "invalid_timezone") || has_lit(
        m.as_slice(),
        "invalid_timezone_transition",
    ) || has_lit(m.as_slice(), "invalid_date_boundary") {
        bad_request("invalid timezone")
    } else {
        AppError::Internal(message.to_owned())
    }
}

/// Filters of a retention query, in the order they are checked.
pub open spec fn retention_filter_names() -> Seq<Seq<char>> {
    seq![
        "filter_country"@,
        "filter_page"@,
        "filter_referrer"@,
        "filter_browser"@,
        "filter_os"@,
        "filter_device"@,
        "filter_language"@,
        "filter_utm_source"@,
        "filter_utm_medium"@,
        "filter_utm_campaign"@,
        "filter_region"@,
        "filter_city"@,
        "filter_hostname"@,
    ]
}

/// Byte limits of the retention filters, in the same order.
pub open spec fn retention_filter_limits() -> Seq<usize> {
    seq![64usize, 512, 512, 128, 128, 64, 64, 256, 256, 256, 128, 128, 255]
}

/// The retention filters of `p`, in the same order.
pub open spec fn retention_filter_values(p: RetentionParams) -> Seq<Option<Seq<char>>> {
    seq![
        opt_string_view(p.filter_country),
        opt_string_view(p.filter_page),
        opt_string_view(p.filter_referrer),
        opt_string_view(p.filter_browser),
        opt_string_view(p.filter_os),
        opt_string_view(p.filter_device),
        opt_string_view(p.filter_language),
        opt_string_view(p.filter_utm_source),
        opt_string_view(p.filter_utm_medium),
        opt_string_view(p.filter_utm_campaign),
        opt_string_view(p.filter_region),
        opt_string_view(p.filter_city),
        opt_string_view(p.filter_hostname),
    ]
}

/// A checked retention query: the cohort settings, the date range, the
/// time zone, and the filters in the order of [`retention_filter_names`].
#[derive(Debug)]
pub struct RetentionRequest {
    pub granularity: RetentionGranularity,
    pub max_periods: u32,
    pub start_date: i32,
    pub end_date: i32,
    pub timezone: Option<String>,
    pub filters: Vec<Option<String>>,
}

/// Outcome of the time-zone parameter: trimmed, and refused when blank.
pub open spec fn timezone_result(tz: Option<Seq<char>>) -> Result<Option<Seq<char>>, Seq<char>> {
    match tz {
        None => Ok(None),
        Some(raw) => if trim(raw).len() == 0 {
            Err("timezone cannot be empty when provided"@)
        } else {
            Ok(Some(trim(raw)))
        },
    }
}

/// Checks every parameter of a retention query, in the order the handler
/// does: granularity, number of periods, date range, time zone, filters.
pub fn retention_request(params: RetentionParams) -> (r: Result<RetentionRequest, AppError>)
    ensures
        match granularity_of(opt_string_view(params.cohort_granularity)) {
            Err(m) => bad_request_with(r, m),
            Ok(g) => {
                let mp = match params.max_periods {
                    Some(x) => x,
                    None => default_periods_of(g),
                };
                if !(period_bounds(g).0 <= mp <= period_bounds(g).1) {
                    bad_request_with(r, periods_message(g))
                } else {
                    match required_range_result(
                        opt_string_view(params.start_date),
                        opt_string_view(params.end_date),
                    ) {
                        Err(m) => bad_request_with(r, m),
                        Ok((s, e)) => match timezone_result(opt_string_view(params.timezone)) {
                            Err(m) => bad_request_with(r, m),
                            Ok(tz) => match filters_result(
                                retention_filter_names(),
                                retention_filter_limits(),
                                retention_filter_values(params),
                            ) {
                                Err(m) => bad_request_with(r, m),
                                Ok(fs) => r matches Ok(req) && req.granularity == g
                                    && req.max_periods == mp && req.start_date == s
                                    && req.end_date == e && opt_string_view(req.timezone) == tz
                                    && opt_strings_view(req.filters@) == fs,
                            },
                        },
                    }
                }
            },
        },
{
    let granularity = parse_granularity(
        match &params.cohort_granularity {
            Some(s) => Some(s.as_str()),
            None => None,
        },
    )?;
    let max_periods = match params.max_periods {
        Some(x) => x,
        None => default_periods(granularity),
    };
    validate_max_periods(granularity, max_periods)?;
    let (start_date, end_date) = parse_required_date_range(
        match &params.start_date {
            Some(s) => Some(s.as_str()),
            None => None,
        },
        match &params.end_date {
            Some(s) => Some(s.as_str()),
            None => None,
        },
    )?;
    let timezone = crate::routes::query::normalize_timezone_non_empty(
        match &params.timezone {
            Some(s) => Some(s.as_str()),
            None => None,
        },
    )?;
    let names: Vec<&str> = vec![
        "filter_country",
        "filter_page",
        "filter_referrer",
        "filter_browser",
        "filter_os",
        "filter_device",
        "filter_language",
        "filter_utm_source",
        "filter_utm_medium",
        "filter_utm_campaign",
        "filter_region",
        "filter_city",
        "filter_hostname",
    ];
    let limits: Vec<usize> = vec![64, 512, 512, 128, 128, 64, 64, 256, 256, 256, 128, 128, 255];
    let ghost pv = retention_filter_values(params);
    let values: Vec<Option<String>> = vec![
        params.filter_country,
        params.filter_page,
        params.filter_referrer,
        params.filter_browser,
        params.filter_os,
        params.filter_device,
        params.filter_language,
        params.filter_utm_source,
        params.filter_utm_medium,
        params.filter_utm_campaign,
        params.filter_region,
        params.filter_city,
        params.filter_hostname,
    ];
    assert(str_views(names@) =~= retention_filter_names());
    assert(limits@ =~= retention_filter_limits());
    assert(opt_strings_view(values@) =~= pv);
    let filters = normalize_filters(names.as_slice(), limits.as_slice(), values)?;
    Ok(RetentionRequest { granularity, max_periods, start_date, end_date, timezone, filters })
}

} // verus!
