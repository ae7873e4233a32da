//! Custom events: the shared filter query, its date range (at most 90
//! days) and the required event name.
use vstd::prelude::*;

use crate::cloud::{cloud_dates, parse_dates_at};
use crate::dates::{EPOCH_EVE_DAY, MAX_DAY, MIN_DAY};
use crate::error::{bad_request, bad_request_with, AppError};
use crate::routes::query::{
    normalize_timezone_non_empty, opt_string_view, opt_view, order_message, span_message,
    validate_date_span, AnalyticsFilter,
};
use crate::text::{byte_len, chars_byte_len, string_of, trim, trim_str};

verus! {

/// Longest date range of the events endpoints, in days.
pub const MAX_EVENTS_QUERY_DAYS: i64 = 90;

/// Longest event name, in bytes.
pub const MAX_EVENT_NAME_BYTES: usize = 255;

/// Filter parameters shared by the events endpoints.
pub struct EventFilterQuery {
    pub start_date: Option<String>,
    pub end_date: Option<String>,
    pub timezone: Option<String>,
    pub filter_country: Option<String>,
    pub filter_page: Option<String>,
    pub filter_referrer: Option<String>,
    pub filter_browser: Option<String>,
    pub filter_os: Option<String>,
    pub filter_device: Option<String>,
    pub filter_language: Option<String>,
    pub filter_utm_source: Option<String>,
    pub filter_utm_medium: Option<String>,
    pub filter_utm_campaign: Option<String>,
    pub filter_region: Option<String>,
    pub filter_city: Option<String>,
    pub filter_hostname: Option<String>,
    pub include_bots: Option<bool>,
}

/// Query of the event-name listing.
pub struct EventsQuery {
    pub filter: EventFilterQuery,
}

/// Query of the property breakdown of one event.
pub struct EventPropertiesQuery {
    pub event_name: Option<String>,
    pub filter: EventFilterQuery,
}

/// Query of the time series of one event.
pub struct EventTimeseriesQuery {
    pub event_name: Option<String>,
    pub granularity: Option<String>,
    pub filter: EventFilterQuery,
}

/// Outcome of an events date range against `today`: bounds parsed as
/// given (else the last seven days), in order, at most 90 days.
pub open spec fn events_range(start: Option<Seq<char>>, end: Option<Seq<char>>, today: i32) -> Result<
    (i32, i32),
    Seq<char>,
> {
    let (s, e) = cloud_dates(start, end, today);
    if e < s {
        Err(order_message())
    } else if e - s + 1 > MAX_EVENTS_QUERY_DAYS {
        Err(span_message("date range"@, e - s + 1, MAX_EVENTS_QUERY_DAYS))
    } else {
        Ok((s, e))
    }
}

fn as_opt_str(o: &Option<String>) -> (r: Option<&str>)
    ensures
        opt_view(r) == opt_string_view(*o),
{
    match o {
        Some(s) => Some(s.as_str()),
        None => None,
    }
}

/// Resolves and checks an events date range against `today`.
pub fn parse_date_range_at(start_date: Option<&str>, end_date: Option<&str>, today: i32) -> (r: Result<
    (i32, i32),
    AppError,
>)
    requires
        MIN_DAY + 6 <= today,
    ensures
        match events_range(opt_view(start_date), opt_view(end_date), today) {
            Ok(x) => r == Ok::<(i32, i32), AppError>(x),
            Err(m) => bad_request_with(r, m),
        },
{
    let (s, e) = parse_dates_at(start_date, end_date, today);
    if e < s {
        return Err(bad_request("end_date must be on or after start_date"));
    }
    validate_date_span(s, e, MAX_EVENTS_QUERY_DAYS, "date range")?;
    Ok((s, e))
}

/// Outcome of an optional time zone: trimmed, refused when blank.
pub open spec fn tz_outcome(tz: Option<Seq<char>>) -> Result<Option<Seq<char>>, Seq<char>> {
    match tz {
        None => Ok(None),
        Some(raw) => if trim(raw).len() == 0 {
            Err("timezone cannot be empty when provided"@)
        } else {
            Ok(Some(trim(raw)))
        },
    }
}

/// The dimension filters of `f` are those of `q`, unchanged.
pub open spec fn same_dimensions(f: AnalyticsFilter, q: EventFilterQuery) -> bool {
    &&& f.filter_country == q.filter_country
    &&& f.filter_page == q.filter_page
    &&& f.filter_referrer == q.filter_referrer
    &&& f.filter_browser == q.filter_browser
    &&& f.filter_os == q.filter_os
    &&& f.filter_device == q.filter_device
    &&& f.filter_language == q.filter_language
    &&& f.filter_utm_source == q.filter_utm_source
    &&& f.filter_utm_medium == q.filter_utm_medium
    &&& f.filter_utm_campaign == q.filter_utm_campaign
    &&& f.filter_region == q.filter_region
    &&& f.filter_city == q.filter_city
    &&& f.filter_hostname == q.filter_hostname
}

/// `r` is the analytics filter of `query` against `today`: the date range
/// is checked first, then the time zone; the dimension filters pass
/// through and bots follow the query or the website's default.
pub open spec fn filter_built(
    query: EventFilterQuery,
    default_include_bots: bool,
    today: i32,
    r: Result<AnalyticsFilter, AppError>,
) -> bool {
    match events_range(opt_string_view(query.start_date), opt_string_view(query.end_date), today) {
        Err(m) => bad_request_with(r, m),
        Ok((s, e)) => match tz_outcome(opt_string_view(query.timezone)) {
            Err(m) => bad_request_with(r, m),
            Ok(tz) => r matches Ok(f) && f.start_date == s && f.end_date == e && opt_string_view(
                f.timezone,
            ) == tz && same_dimensions(f, query) && f.include_bots == match query.include_bots {
                Some(b) => b,
                None => default_include_bots,
            },
        },
    }
}

/// Builds the analytics filter of an events query against `today`: the
/// date range is checked first, then the time zone.
pub fn build_filter_at(query: &EventFilterQuery, default_include_bots: bool, today: i32) -> (r: Result<
    AnalyticsFilter,
    AppError,
>)
    requires
        MIN_DAY + 6 <= today,
    ensures
        filter_built(*query, default_include_bots, today, r),
{
    let (start_date, end_date) = parse_date_range_at(
        as_opt_str(&query.start_date),
        as_opt_str(&query.end_date),
        today,
    )?;
    let timezone = normalize_timezone_non_empty(as_opt_str(&query.timezone))?;
    Ok(
        AnalyticsFilter {
            start_date,
            end_date,
            timezone,
            filter_country: query.filter_country.clone(),
            filter_page: query.filter_page.clone(),
            filter_referrer: query.filter_referrer.clone(),
            filter_browser: query.filter_browser.clone(),
            filter_os: query.filter_os.clone(),
            filter_device: query.filter_device.clone(),
            filter_language: query.filter_language.clone(),
            filter_utm_source: query.filter_utm_source.clone(),
            filter_utm_medium: query.filter_utm_medium.clone(),
            filter_utm_campaign: query.filter_utm_campaign.clone(),
            filter_region: query.filter_region.clone(),
            filter_city: query.filter_city.clone(),
            filter_hostname: query.filter_hostname.clone(),
            include_bots: match query.include_bots {
                Some(b) => b,
                None => default_include_bots,
            },
        },
    )
}

/// [`build_filter_at`] against today's UTC date.
pub fn build_filter(query: &EventFilterQuery, default_include_bots: bool) -> (r: Result<
    AnalyticsFilter,
    AppError,
>)
    ensures
        exists|today: i32|
            EPOCH_EVE_DAY <= today <= MAX_DAY && #[trigger] filter_built(
                *query,
                default_include_bots,
                today,
                r,
            ),
{
    let today = crate::dates::today_utc();
    let r = build_filter_at(query, default_include_bots, today);
    r
}

/// Outcome of the event-name parameter: required, trimmed, non-empty and
/// at most 255 bytes.
pub open spec fn event_name_outcome(name: Option<Seq<char>>) -> Result<Seq<char>, Seq<char>> {
    match name {
        None => Err("event_name query parameter is required"@),
        Some(n) => if trim(n).len() == 0 {
            Err("event_name must not be empty"@)
        } else if byte_len(trim(n)) > MAX_EVENT_NAME_BYTES {
            Err("event_name must be 255 characters or fewer"@)
        } else {
            Ok(trim(n))
        },
    }
}

/// The event name an events query is about.
pub fn require_event_name(event_name: Option<String>) -> (r: Result<String, AppError>)
    ensures
        match event_name_outcome(opt_string_view(event_name)) {
            Ok(n) => r matches Ok(x) && x@ == n,
            Err(m) => bad_request_with(r, m),
        },
{
    let name = match event_name {
        Some(n) => n,
        None => {
            return Err(bad_request("event_name query parameter is required"));
        },
    };
    let t = trim_str(name.as_str());
    if t.len() == 0 {
        return Err(bad_request("event_name must not be empty"));
    }
    if chars_byte_len(t.as_slice()) > MAX_EVENT_NAME_BYTES {
        return Err(bad_request("event_name must be 255 characters or fewer"));
    }
    Ok(string_of(t.as_slice()))
}

} // verus!
