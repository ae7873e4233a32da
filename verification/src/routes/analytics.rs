//! Queries of the dashboard endpoints (stats, page views, metrics,
//! sessions, realtime) and the checks each performs before it asks the
//! analytics backend.
use vstd::prelude::*;

use crate::cloud::{cloud_dates, parse_dates_at};
use crate::dates::{EPOCH_EVE_DAY, MAX_DAY, MIN_DAY};
use crate::error::{bad_request, bad_request_with, AppError};
use crate::routes::query::{lenient_range, opt_view, order_message, parse_defaulted_date_range_lenient};
use crate::text::{byte_len, chars_of};

verus! {

/// Query of `GET /api/websites/:id/stats`.
pub struct StatsQuery {
    pub start_date: Option<String>,
    pub end_date: Option<String>,
    pub timezone: Option<String>,
    pub filter_country: Option<String>,
    pub filter_page: Option<String>,
    pub filter_referrer: Option<String>,
    pub filter_browser: Option<String>,
    pub filter_os: Option<String>,
    pub filter_device: Option<String>,
    pub filter_language: Option<String>,
    pub filter_utm_source: Option<String>,
    pub filter_utm_medium: Option<String>,
    pub filter_utm_campaign: Option<String>,
    pub filter_region: Option<String>,
    pub filter_city: Option<String>,
    pub filter_hostname: Option<String>,
    pub include_bots: Option<bool>,
    pub compare_mode: Option<String>,
    pub compare_start_date: Option<String>,
    pub compare_end_date: Option<String>,
}

/// Query of `GET /api/websites/:id/pageviews`.
pub struct PageviewsQuery {
    pub start_date: Option<String>,
    pub end_date: Option<String>,
    pub granularity: Option<String>,
    pub timezone: Option<String>,
    pub filter_country: Option<String>,
    pub filter_page: Option<String>,
    pub filter_referrer: Option<String>,
    pub filter_browser: Option<String>,
    pub filter_os: Option<String>,
    pub filter_device: Option<String>,
    pub filter_language: Option<String>,
    pub filter_utm_source: Option<String>,
    pub filter_utm_medium: Option<String>,
    pub filter_utm_campaign: Option<String>,
    pub filter_region: Option<String>,
    pub filter_city: Option<String>,
    pub filter_hostname: Option<String>,
    pub include_bots: Option<bool>,
    pub compare_mode: Option<String>,
    pub compare_start_date: Option<String>,
    pub compare_end_date: Option<String>,
}

/// Query of `GET /api/websites/:id/metrics` (`type` is the metric).
pub struct MetricsQuery {
    pub metric_type: String,
    pub limit: Option<i64>,
    pub offset: Option<i64>,
    pub start_date: Option<String>,
    pub end_date: Option<String>,
    pub timezone: Option<String>,
    pub filter_country: Option<String>,
    pub filter_page: Option<String>,
    pub filter_referrer: Option<String>,
    pub filter_browser: Option<String>,
    pub filter_os: Option<String>,
    pub filter_device: Option<String>,
    pub filter_language: Option<String>,
    pub filter_utm_source: Option<String>,
    pub filter_utm_medium: Option<String>,
    pub filter_utm_campaign: Option<String>,
    pub filter_region: Option<String>,
    pub filter_city: Option<String>,
    pub filter_hostname: Option<String>,
    pub include_bots: Option<bool>,
    pub compare_mode: Option<String>,
    pub compare_start_date: Option<String>,
    pub compare_end_date: Option<String>,
}

/// Query of `GET /api/websites/:id/sessions`.
pub struct SessionsQuery {
    pub start_date: Option<String>,
    pub end_date: Option<String>,
    pub limit: Option<u32>,
    pub cursor: Option<String>,
    pub timezone: Option<String>,
    pub filter_country: Option<String>,
    pub filter_page: Option<String>,
    pub filter_referrer: Option<String>,
    pub filter_browser: Option<String>,
    pub filter_os: Option<String>,
    pub filter_device: Option<String>,
    pub filter_language: Option<String>,
    pub filter_utm_source: Option<String>,
    pub filter_utm_medium: Option<String>,
    pub filter_utm_campaign: Option<String>,
    pub filter_region: Option<String>,
    pub filter_city: Option<String>,
    pub filter_hostname: Option<String>,
    pub include_bots: Option<bool>,
}

/// Query of `GET /api/websites/:id/realtime`.
pub struct RealtimeQuery {
    pub include_bots: Option<bool>,
}

/// Whether bots are counted: as asked, else the website's default.
pub open spec fn bots_included(asked: Option<bool>, default: bool) -> bool {
    match asked {
        Some(b) => b,
        None => default,
    }
}

fn or_default(asked: Option<bool>, default: bool) -> (b: bool)
    ensures
        b == bots_included(asked, default),
{
    match asked {
        Some(b) => b,
        None => default,
    }
}

fn as_opt_str(o: &Option<String>) -> (r: Option<&str>)
    ensures
        opt_view(r) == crate::routes::query::opt_string_view(*o),
{
    match o {
        Some(s) => Some(s.as_str()),
        None => None,
    }
}

/// A country filter is a two-letter ISO 3166-1 code in capitals.
pub open spec fn valid_country_code(c: Seq<char>) -> bool {
    byte_len(c) == 2 && forall|i: int| 0 <= i < c.len() ==> 'A' <= #[trigger] c[i] <= 'Z'
}

/// Rejects a country filter that is not two upper-case ASCII letters.
pub fn validate_filter_country(country: Option<&str>) -> (r: Result<(), AppError>)
    ensures
        match country {
            None => r is Ok,
            Some(c) => {
                &&& r is Ok <==> valid_country_code(c@)
                &&& r is Err ==> bad_request_with(
                    r,
                    "filter_country must be ISO 3166-1 alpha-2 (2 chars)"@,
                )
            },
        },
{
    let c = match country {
        Some(c) => c,
        None => {
            return Ok(());
        },
    };
    let cs = chars_of(c);
    let mut all_upper = true;
    let mut i: usize = 0;
    while i < cs.len()
        invariant
            i <= cs@.len(),
            cs@ == c@,
            all_upper == forall|j: int| 0 <= j < i ==> 'A' <= #[trigger] cs@[j] <= 'Z',
        decreases cs@.len() - i,
    {
        if !('A' <= cs[i] && cs[i] <= 'Z') {
            all_upper = false;
        }
        i = i + 1;
    }
    if c.len() != 2 || !all_upper {
        return Err(bad_request("filter_country must be ISO 3166-1 alpha-2 (2 chars)"));
    }
    Ok(())
}

impl StatsQuery {
    /// Checks the country filter, then resolves the date range (the last
    /// seven days by default; bounds that do not parse are ignored).
    pub fn validate(&self) -> (r: Result<(i32, i32), AppError>)
        ensures
            match self.filter_country {
                Some(c) if !valid_country_code(c@) => bad_request_with(
                    r,
                    "filter_country must be ISO 3166-1 alpha-2 (2 chars)"@,
                ),
                _ => exists|today: i32|
                    EPOCH_EVE_DAY <= today <= MAX_DAY && {
                        let (s, e) = #[trigger] lenient_range(
                            crate::routes::query::opt_string_view(self.start_date),
                            crate::routes::query::opt_string_view(self.end_date),
                            6,
                            today,
                        );
                        &&& e >= s ==> r == Ok::<(i32, i32), AppError>((s, e))
                        &&& e < s ==> bad_request_with(r, order_message())
                    },
            },
    {
        validate_filter_country(as_opt_str(&self.filter_country))?;
        parse_defaulted_date_range_lenient(
            as_opt_str(&self.start_date),
            as_opt_str(&self.end_date),
            6,
        )
    }

    /// Whether bots are counted, given the website's default.
    pub fn include_bots_or(&self, default: bool) -> (b: bool)
        ensures
            b == bots_included(self.include_bots, default),
    {
        or_default(self.include_bots, default)
    }
}

impl PageviewsQuery {
    /// Resolves the date range: the last seven days by default; bounds
    /// that do not parse are ignored.
    pub fn date_range(&self) -> (r: Result<(i32, i32), AppError>)
        ensures
            exists|today: i32|
                EPOCH_EVE_DAY <= today <= MAX_DAY && {
                    let (s, e) = #[trigger] lenient_range(
                        crate::routes::query::opt_string_view(self.start_date),
                        crate::routes::query::opt_string_view(self.end_date),
                        6,
                        today,
                    );
                    &&& e >= s ==> r == Ok::<(i32, i32), AppError>((s, e))
                    &&& e < s ==> bad_request_with(r, order_message())
                },
    {
        parse_defaulted_date_range_lenient(
            as_opt_str(&self.start_date),
            as_opt_str(&self.end_date),
            6,
        )
    }

    /// Whether bots are counted, given the website's default.
    pub fn include_bots_or(&self, default: bool) -> (b: bool)
        ensures
            b == bots_included(self.include_bots, default),
    {
        or_default(self.include_bots, default)
    }
}

impl MetricsQuery {
    /// Date range against `today`: each bound parsed as given, else the
    /// six days before `today` and `today`.
    pub fn date_range_at(&self, today: i32) -> (r: (i32, i32))
        requires
            MIN_DAY + 6 <= today,
        ensures
            r == cloud_dates(
                crate::routes::query::opt_string_view(self.start_date),
                crate::routes::query::opt_string_view(self.end_date),
                today,
            ),
    {
        parse_dates_at(as_opt_str(&self.start_date), as_opt_str(&self.end_date), today)
    }

    /// Number of rows: 10 by default, clamped to `1..=100`.
    pub fn page_limit(&self) -> (l: i64)
        ensures
            l == crate::cloud::metrics_page(self.limit, None).0,
    {
        let l = match self.limit {
            Some(x) => x,
            None => 10,
        };
        if l < 1 {
            1
        } else if l > 100 {
            100
        } else {
            l
        }
    }

    /// Whether bots are counted, given the website's default.
    pub fn include_bots_or(&self, default: bool) -> (b: bool)
        ensures
            b == bots_included(self.include_bots, default),
    {
        or_default(self.include_bots, default)
    }
}

/// Message for a session page size out of bounds.
pub open spec fn session_limit_message() -> Seq<char> {
    "limit must be between 1 and 200"@
}

impl SessionsQuery {
    /// Checks the page size (50 by default, within `1..=200`) and resolves
    /// the date range against `today` (bounds parsed as given, else the
    /// last seven days), which must be in order.
    pub fn validate_at(&self, today: i32) -> (r: Result<(u32, i32, i32), AppError>)
        requires
            MIN_DAY + 6 <= today,
        ensures
            ({
                let limit = match self.limit {
                    Some(l) => l,
                    None => 50,
                };
                let (s, e) = cloud_dates(
                    crate::routes::query::opt_string_view(self.start_date),
                    crate::routes::query::opt_string_view(self.end_date),
                    today,
                );
                &&& !(1 <= limit <= 200) ==> bad_request_with(r, session_limit_message())
                &&& (1 <= limit <= 200) && e < s ==> bad_request_with(r, order_message())
                &&& (1 <= limit <= 200) && e >= s ==> r == Ok::<(u32, i32, i32), AppError>(
                    (limit, s, e),
                )
            }),
    {
        let limit = match self.limit {
            Some(l) => l,
            None => 50,
        };
        if limit < 1 || limit > 200 {
            return Err(bad_request("limit must be between 1 and 200"));
        }
        let (s, e) = parse_dates_at(as_opt_str(&self.start_date), as_opt_str(&self.end_date), today);
        if e < s {
            return Err(bad_request("end_date must be on or after start_date"));
        }
        Ok((limit, s, e))
    }

    /// Whether bots are counted, given the website's default.
    pub fn include_bots_or(&self, default: bool) -> (b: bool)
        ensures
            b == bots_included(self.include_bots, default),
    {
        or_default(self.include_bots, default)
    }
}

impl RealtimeQuery {
    /// Whether bots are counted, given the website's default.
    pub fn include_bots_or(&self, default: bool) -> (b: bool)
        ensures
            b == bots_included(self.include_bots, default),
    {
        or_default(self.include_bots, default)
    }
}

} // verus!
