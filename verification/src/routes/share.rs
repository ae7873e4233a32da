//! Public share links: their queries, date windows and the client address
//! their rate limit is keyed by.
use vstd::prelude::*;

use crate::dates::{EPOCH_EVE_DAY, MAX_DAY};
use crate::error::{bad_request, bad_request_with, AppError};
use crate::routes::query::{
    lenient_range, opt_string_view, opt_view, order_message, parse_defaulted_date_range_lenient,
    span_message, validate_date_span,
};
use crate::text::{before_char, before_char_exec, chars_of, string_of, trim, trim_chars};

verus! {

/// Requests per minute a client may make to public share endpoints.
pub const SHARE_RATE_LIMIT: usize = 30;

/// Longest date range of a shared dashboard, in days.
pub const MAX_SHARE_SPAN_DAYS: i64 = 90;

/// Query of the shared stats, page views and other summaries.
pub struct ShareDateQuery {
    pub start_date: Option<String>,
    pub end_date: Option<String>,
}

/// Query of the shared metrics (`type` is the metric).
pub struct ShareMetricsQuery {
    pub start_date: Option<String>,
    pub end_date: Option<String>,
    pub metric_type: Option<String>,
    pub limit: Option<i64>,
    pub offset: Option<i64>,
}

/// Date window of a shared dashboard against `today`: the lenient range
/// (the last seven days by default) limited to 90 days.
pub open spec fn share_window(start: Option<Seq<char>>, end: Option<Seq<char>>, today: i32) -> Result<
    (i32, i32),
    Seq<char>,
> {
    let (s, e) = lenient_range(start, end, 6, today);
    if e < s {
        Err(order_message())
    } else if e - s + 1 > MAX_SHARE_SPAN_DAYS {
        Err(span_message("share date range"@, e - s + 1, MAX_SHARE_SPAN_DAYS))
    } else {
        Ok((s, e))
    }
}

/// Resolves the date window of a shared dashboard against today's date.
pub fn parse_dates(start: Option<&str>, end: Option<&str>) -> (r: Result<(i32, i32), AppError>)
    ensures
        exists|today: i32|
            EPOCH_EVE_DAY <= today <= MAX_DAY && match #[trigger] share_window(
                opt_view(start),
                opt_view(end),
                today,
            ) {
                Ok(x) => r == Ok::<(i32, i32), AppError>(x),
                Err(m) => bad_request_with(r, m),
            },
{
    let today = crate::dates::today_utc();
    let r = share_window_at(start, end, today);
    assert(share_window(opt_view(start), opt_view(end), today) == share_window(
        opt_view(start),
        opt_view(end),
        today,
    ));
    r
}

/// Resolves the date window of a shared dashboard against `today`.
pub fn share_window_at(start: Option<&str>, end: Option<&str>, today: i32) -> (r: Result<
    (i32, i32),
    AppError,
>)
    requires
        EPOCH_EVE_DAY <= today <= MAX_DAY,
    ensures
        match share_window(opt_view(start), opt_view(end), today) {
            Ok(x) => r == Ok::<(i32, i32), AppError>(x),
            Err(m) => bad_request_with(r, m),
        },
{
    let (s, e) = crate::routes::query::parse_defaulted_date_range_lenient_at(start, end, 6, today)?;
    validate_date_span(s, e, MAX_SHARE_SPAN_DAYS, "share date range")?;
    Ok((s, e))
}

fn as_opt_str(o: &Option<String>) -> (r: Option<&str>)
    ensures
        opt_view(r) == opt_string_view(*o),
{
    match o {
        Some(s) => Some(s.as_str()),
        None => None,
    }
}

impl ShareDateQuery {
    /// The date window of the query.
    pub fn window(&self) -> (r: Result<(i32, i32), AppError>)
        ensures
            exists|today: i32|
                EPOCH_EVE_DAY <= today <= MAX_DAY && match #[trigger] share_window(
                    opt_string_view(self.start_date),
                    opt_string_view(self.end_date),
                    today,
                ) {
                    Ok(x) => r == Ok::<(i32, i32), AppError>(x),
                    Err(m) => bad_request_with(r, m),
                },
    {
        parse_dates(as_opt_str(&self.start_date), as_opt_str(&self.end_date))
    }
}

impl ShareMetricsQuery {
    /// The metric asked for; the parameter is required.
    pub fn required_metric_type(&self) -> (r: Result<&str, AppError>)
        ensures
            match self.metric_type {
                Some(t) => r matches Ok(x) && x@ == t@,
                None => bad_request_with(r, "type parameter is required"@),
            },
    {
        match &self.metric_type {
            Some(t) => Ok(t.as_str()),
            None => Err(bad_request("type parameter is required")),
        }
    }

    /// Limit (10 by default, clamped to `1..=100`) and offset (0 by
    /// default, never negative).
    pub fn page(&self) -> (r: (i64, i64))
        ensures
            r == crate::cloud::metrics_page(self.limit, self.offset),
    {
        let l = match self.limit {
            Some(x) => x,
            None => 10,
        };
        let o = match self.offset {
            Some(x) => x,
            None => 0,
        };
        (if l < 1 {
            1
        } else if l > 100 {
            100
        } else {
            l
        }, if o < 0 {
            0
        } else {
            o
        })
    }

    /// The date window of the query.
    pub fn window(&self) -> (r: Result<(i32, i32), AppError>)
        ensures
            exists|today: i32|
                EPOCH_EVE_DAY <= today <= MAX_DAY && match #[trigger] share_window(
                    opt_string_view(self.start_date),
                    opt_string_view(self.end_date),
                    today,
                ) {
                    Ok(x) => r == Ok::<(i32, i32), AppError>(x),
                    Err(m) => bad_request_with(r, m),
                },
    {
        parse_dates(as_opt_str(&self.start_date), as_opt_str(&self.end_date))
    }
}

/// Client address of a public request: the first entry of
/// `X-Forwarded-For`, trimmed, or `unknown` without that header.
pub open spec fn share_client_ip(forwarded_for: Option<Seq<char>>) -> Seq<char> {
    match forwarded_for {
        Some(h) => trim(before_char(h, ',')),
        None => "unknown"@,
    }
}

/// Reads the client address of a public request.
pub fn client_ip(forwarded_for: Option<&str>) -> (r: String)
    ensures
        r@ == share_client_ip(opt_view(forwarded_for)),
{
    match forwarded_for {
        Some(h) => {
            let c = chars_of(h);
            let first = before_char_exec(c.as_slice(), ',');
            let t = trim_chars(first.as_slice());
            string_of(t.as_slice())
        },
        None => "unknown".to_owned(),
    }
}

/// The filter of a public share: the date range and the bot setting, with
/// no time zone and no dimension filter.
pub fn share_filter(start_date: i32, end_date: i32, include_bots: bool) -> (f: crate::routes::query::AnalyticsFilter)
    ensures
        f.start_date == start_date,
        f.end_date == end_date,
        f.include_bots == include_bots,
        f.timezone is None,
        f.filter_country is None && f.filter_page is None && f.filter_referrer is None,
        f.filter_browser is None && f.filter_os is None && f.filter_device is None,
        f.filter_language is None && f.filter_utm_source is None && f.filter_utm_medium is None,
        f.filter_utm_campaign is None && f.filter_region is None && f.filter_city is None,
        f.filter_hostname is None,
{
    crate::routes::query::AnalyticsFilter {
        start_date,
        end_date,
        timezone: None,
        filter_country: None,
        filter_page: None,
        filter_referrer: None,
        filter_browser: None,
        filter_os: None,
        filter_device: None,
        filter_language: None,
        filter_utm_source: None,
        filter_utm_medium: None,
        filter_utm_campaign: None,
        filter_region: None,
        filter_city: None,
        filter_hostname: None,
        include_bots,
    }
}

} // verus!
