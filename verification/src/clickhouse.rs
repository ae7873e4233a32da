//! ClickHouse queries of cloud mode: the SQL text and named parameters of
//! each analytics query, with the dimension filters appended.
use vstd::prelude::*;

use crate::cloud::{clause_separator, filter_parts, join_with, string_pairs_view, ChFilters};
use crate::dates::{chrono_format_ymd, day_in_range, format_ymd};
use crate::ratelimit::{decimal, u64_decimal};
use crate::text::{append_chars, append_str, chars_eq, chars_of, string_of};

verus! {

/// Text of the first instant of a day as ClickHouse reads a `DateTime64(3)`.
pub open spec fn ch_datetime_of(day: i32) -> Seq<char> {
    chrono_format_ymd(day) + " 00:00:00.000"@
}

/// Formats the first instant of a day for ClickHouse.
pub fn ch_datetime(day: i32) -> (s: String)
    requires
        day_in_range(day as int),
    ensures
        s@ == ch_datetime_of(day),
{
    let mut v = chars_of(format_ymd(day).as_str());
    append_str(&mut v, " 00:00:00.000");
    string_of(v.as_slice())
}

/// Bounds of the days `start..=end`: the start of the first day and the
/// start of the day after the last.
pub fn period_bounds(start_day: i32, end_day: i32) -> (r: (String, String))
    requires
        day_in_range(start_day as int),
        day_in_range(end_day + 1),
    ensures
        r.0@ == ch_datetime_of(start_day),
        r.1@ == ch_datetime_of((end_day + 1) as i32),
{
    (ch_datetime(start_day), ch_datetime(end_day + 1))
}

/// Bounds of a summary's period and of the period of the same length just
/// before it, which the summary compares against.
pub fn stats_periods(start_day: i32, end_day: i32) -> (r: ((String, String), (String, String)))
    requires
        day_in_range(start_day as int),
        day_in_range(end_day + 1),
        day_in_range(crate::routes::compare::previous_period_start(start_day as int, end_day as int)),
        day_in_range(start_day - 1),
    ensures
        r.0.0@ == ch_datetime_of(start_day),
        r.0.1@ == ch_datetime_of((end_day + 1) as i32),
        r.1.0@ == ch_datetime_of(crate::routes::compare::previous_period_start(start_day as int, end_day as int) as i32),
        r.1.1@ == ch_datetime_of(start_day),
{
    let current = period_bounds(start_day, end_day);
    let days: i64 = (end_day as i64) - (start_day as i64) + 1;
    let prev_end: i32 = start_day - 1;
    let prev_start: i32 = ((prev_end as i64) - (days - 1)) as i32;
    let previous = period_bounds(prev_start, prev_end);
    (current, previous)
}

/// Named parameters shared by the range queries, then the filters'.
pub open spec fn range_params(
    tenant: Seq<char>,
    website: Seq<char>,
    start: Seq<char>,
    end: Seq<char>,
    filters: Seq<(Seq<char>, Seq<char>)>,
) -> Seq<(Seq<char>, Seq<char>)> {
    seq![("tenant_id"@, tenant), ("website_id"@, website), ("start"@, start), ("end"@, end)] + filters
}

fn pair(k: &str, v: &str) -> (r: (String, String))
    ensures
        r.0@ == k@,
        r.1@ == v@,
{
    (k.to_owned(), v.to_owned())
}

/// Builds the named parameters of a range query.
pub fn build_range_params(
    tenant_id: &str,
    website_id: &str,
    start: &str,
    end: &str,
    filter_params: &Vec<(String, String)>,
) -> (r: Vec<(String, String)>)
    ensures
        string_pairs_view(r@) == range_params(tenant_id@, website_id@, start@, end@, string_pairs_view(filter_params@)),
{
    let mut r: Vec<(String, String)> = Vec::new();
    r.push(pair("tenant_id", tenant_id));
    r.push(pair("website_id", website_id));
    r.push(pair("start", start));
    r.push(pair("end", end));
    let ghost base = string_pairs_view(r@);
    assert(base =~= seq![("tenant_id"@, tenant_id@), ("website_id"@, website_id@), ("start"@, start@), ("end"@, end@)]);
    let mut i: usize = 0;
    while i < filter_params.len()
        invariant
            i <= filter_params@.len(),
            string_pairs_view(r@) == base + string_pairs_view(filter_params@).take(i as int),
        decreases filter_params@.len() - i,
    {
        let ghost before = string_pairs_view(r@);
        let ghost fv = string_pairs_view(filter_params@);
        let p = pair(filter_params[i].0.as_str(), filter_params[i].1.as_str());
        assert(fv[i as int] == (p.0@, p.1@));
        r.push(p);
        assert(string_pairs_view(r@) =~= before.push((p.0@, p.1@)));
        assert(fv.take(i + 1) =~= fv.take(i as int).push(fv[i as int]));
        assert(string_pairs_view(r@) =~= base + fv.take(i + 1));
        i = i + 1;
    }
    assert(string_pairs_view(filter_params@).take(i as int) =~= string_pairs_view(filter_params@));
    r
}

/// Head of the query of pageviews, visitors and sessions in a period; the
/// filter clause follows.
pub const PERIOD_BASICS_SQL_HEAD: &'static str = "SELECT\n            countIf(event_type = 'pageview') AS pageviews,\n            uniqIf(visitor_id, event_type = 'pageview') AS visitors,\n            uniqIf(session_id, event_type = 'pageview') AS sessions\n         FROM sparklytics.events\n         WHERE tenant_id = {tenant_id:String}\n           AND website_id = {website_id:String}\n           AND created_at >= {start:DateTime64(3)}\n           AND created_at < {end:DateTime64(3)}\n           ";

/// Query of pageviews, visitors and sessions in a period.
pub open spec fn period_basics_sql_of(filter: Seq<char>) -> Seq<char> {
    PERIOD_BASICS_SQL_HEAD@ + filter
}

/// Builds the query of a period's pageviews, visitors and sessions.
pub fn period_basics_sql(filter_clause: &str) -> (s: String)
    ensures
        s@ == period_basics_sql_of(filter_clause@),
{
    let mut v = chars_of(PERIOD_BASICS_SQL_HEAD);
    append_str(&mut v, filter_clause);
    string_of(v.as_slice())
}

/// Head of the bounce-rate query (bounced and counted sessions).
pub const BOUNCE_SQL_HEAD: &'static str = "SELECT\n            countIf(pv_count = 1)    AS bounced,\n            countIf(pv_count >= 1)   AS total\n         FROM (\n            SELECT session_id, countIf(event_type = 'pageview') AS pv_count\n            FROM sparklytics.events\n            WHERE tenant_id = {tenant_id:String}\n              AND website_id = {website_id:String}\n              AND created_at >= {start:DateTime64(3)}\n              AND created_at < {end:DateTime64(3)}\n              ";

/// Tail of the bounce-rate query, after the filter clause.
pub const BOUNCE_SQL_TAIL: &'static str = "\n            GROUP BY session_id\n         )";

/// Query of the sessions of a period with one pageview and with any.
pub open spec fn bounce_sql_of(filter: Seq<char>) -> Seq<char> {
    BOUNCE_SQL_HEAD@ + filter + BOUNCE_SQL_TAIL@
}

/// Builds the bounce-rate query.
pub fn bounce_sql(filter_clause: &str) -> (s: String)
    ensures
        s@ == bounce_sql_of(filter_clause@),
{
    let mut v = chars_of(BOUNCE_SQL_HEAD);
    append_str(&mut v, filter_clause);
    append_str(&mut v, BOUNCE_SQL_TAIL);
    string_of(v.as_slice())
}

/// Query of the average session duration in a period (no filters).
pub const AVG_DURATION_SQL: &'static str = "\n        SELECT avg(\n            toUnixTimestamp64Milli(last_seen) - toUnixTimestamp64Milli(first_seen)\n        ) / 1000.0 AS avg_secs\n        FROM sparklytics.sessions\n        WHERE tenant_id = {tenant_id:String}\n          AND website_id = {website_id:String}\n          AND first_seen >= {start:DateTime64(3)}\n          AND first_seen < {end:DateTime64(3)}\n    ";

/// Parts of the time-series query: before the truncation function, between
/// it and the filter clause, and after the filter clause.
pub const PAGEVIEWS_SQL_HEAD: &'static str = "SELECT\n            formatDateTime(";
pub const PAGEVIEWS_SQL_MIDDLE: &'static str = "(created_at), '%Y-%m-%d %H:%i:%S') AS date,\n            countIf(event_type = 'pageview') AS pageviews,\n            uniqIf(visitor_id, event_type = 'pageview') AS visitors\n         FROM sparklytics.events\n         WHERE tenant_id = {tenant_id:String}\n           AND website_id = {website_id:String}\n           AND created_at >= {start:DateTime64(3)}\n           AND created_at < {end:DateTime64(3)}\n           ";
pub const PAGEVIEWS_SQL_TAIL: &'static str = "\n         GROUP BY date\n         ORDER BY date ASC";

/// Time-series query of pageviews and visitors per bucket.
pub open spec fn pageviews_sql_of(trunc_fn: Seq<char>, filter: Seq<char>) -> Seq<char> {
    PAGEVIEWS_SQL_HEAD@ + trunc_fn + PAGEVIEWS_SQL_MIDDLE@ + filter + PAGEVIEWS_SQL_TAIL@
}

/// Bucket of the time series: `hour` or `month` when asked for, else `day`.
pub open spec fn granularity_name(g: Option<Seq<char>>) -> Seq<char> {
    match g {
        Some(x) => if x == "hour"@ {
            "hour"@
        } else if x == "month"@ {
            "month"@
        } else {
            "day"@
        },
        None => "day"@,
    }
}

/// ClickHouse function that truncates an instant to its bucket.
pub open spec fn trunc_fn_of(granularity: Seq<char>) -> Seq<char> {
    if granularity == "hour"@ {
        "toStartOfHour"@
    } else if granularity == "month"@ {
        "toStartOfMonth"@
    } else {
        "toStartOfDay"@
    }
}

fn same_as(v: &[char], lit: &str) -> (b: bool)
    ensures
        b == (v@ == lit@),
{
    let l = chars_of(lit);
    chars_eq(v, l.as_slice())
}

/// The bucket of a time series and its truncation function.
pub fn pageviews_granularity(granularity: Option<&str>) -> (r: (&'static str, &'static str))
    ensures
        r.0@ == granularity_name(match granularity {
            Some(g) => Some(g@),
            None => None,
        }),
        r.1@ == trunc_fn_of(r.0@),
{
    proof {
        reveal_strlit("hour");
        reveal_strlit("month");
        reveal_strlit("day");
    }
    match granularity {
        Some(g) => {
            let c = chars_of(g);
            if same_as(c.as_slice(), "hour") {
                ("hour", "toStartOfHour")
            } else if same_as(c.as_slice(), "month") {
                ("month", "toStartOfMonth")
            } else {
                ("day", "toStartOfDay")
            }
        },
        None => ("day", "toStartOfDay"),
    }
}

/// Builds the time-series query.
pub fn pageviews_sql(trunc_fn: &str, filter_clause: &str) -> (s: String)
    ensures
        s@ == pageviews_sql_of(trunc_fn@, filter_clause@),
{
    let mut v = chars_of(PAGEVIEWS_SQL_HEAD);
    append_str(&mut v, trunc_fn);
    append_str(&mut v, PAGEVIEWS_SQL_MIDDLE);
    append_str(&mut v, filter_clause);
    append_str(&mut v, PAGEVIEWS_SQL_TAIL);
    string_of(v.as_slice())
}

/// The expression a breakdown groups by, and whether it also counts
/// pageviews (pages only): absent values show as `(direct)`, `(unknown)` or
/// `(none)`; an unknown metric type breaks down by page.
pub open spec fn metric_expr_of(metric_type: Seq<char>) -> (Seq<char>, bool) {
    if metric_type == "page"@ {
        ("url"@, true)
    } else if metric_type == "referrer"@ {
        ("if(referrer_domain = '' OR isNull(referrer_domain), '(direct)', referrer_domain)"@, false)
    } else if metric_type == "country"@ {
        ("if(isNull(country), '(unknown)', country)"@, false)
    } else if metric_type == "browser"@ {
        ("if(isNull(browser), '(unknown)', browser)"@, false)
    } else if metric_type == "os"@ {
        ("if(isNull(os), '(unknown)', os)"@, false)
    } else if metric_type == "device"@ {
        ("if(isNull(device_type), '(unknown)', device_type)"@, false)
    } else if metric_type == "language"@ {
        ("if(isNull(language), '(unknown)', language)"@, false)
    } else if metric_type == "screen"@ {
        ("if(isNull(screen), '(unknown)', screen)"@, false)
    } else if metric_type == "utm_source"@ {
        ("if(isNull(utm_source), '(none)', utm_source)"@, false)
    } else if metric_type == "utm_medium"@ {
        ("if(isNull(utm_medium), '(none)', utm_medium)"@, false)
    } else if metric_type == "utm_campaign"@ {
        ("if(isNull(utm_campaign), '(none)', utm_campaign)"@, false)
    } else {
        ("url"@, true)
    }
}

/// Picks the expression of a breakdown.
pub fn metric_value_expr(metric_type: &str) -> (r: (&'static str, bool))
    ensures
        (r.0@, r.1) == metric_expr_of(metric_type@),
{
    let t = chars_of(metric_type);
    let s = t.as_slice();
    if same_as(s, "page") {
        ("url", true)
    } else if same_as(s, "referrer") {
        ("if(referrer_domain = '' OR isNull(referrer_domain), '(direct)', referrer_domain)", false)
    } else if same_as(s, "country") {
        ("if(isNull(country), '(unknown)', country)", false)
    } else if same_as(s, "browser") {
        ("if(isNull(browser), '(unknown)', browser)", false)
    } else if same_as(s, "os") {
        ("if(isNull(os), '(unknown)', os)", false)
    } else if same_as(s, "device") {
        ("if(isNull(device_type), '(unknown)', device_type)", false)
    } else if same_as(s, "language") {
        ("if(isNull(language), '(unknown)', language)", false)
    } else if same_as(s, "screen") {
        ("if(isNull(screen), '(unknown)', screen)", false)
    } else if same_as(s, "utm_source") {
        ("if(isNull(utm_source), '(none)', utm_source)", false)
    } else if same_as(s, "utm_medium") {
        ("if(isNull(utm_medium), '(none)', utm_medium)", false)
    } else if same_as(s, "utm_campaign") {
        ("if(isNull(utm_campaign), '(none)', utm_campaign)", false)
    } else {
        ("url", true)
    }
}

/// Parts of the breakdown query around its expression, pageview column,
/// filter clause and ordering column.
pub const METRICS_SQL_HEAD: &'static str = "SELECT ";
pub const METRICS_SQL_AFTER_EXPR: &'static str = " AS value, uniq(visitor_id) AS visitors";
pub const METRICS_SQL_AFTER_PAGEVIEWS: &'static str = "\n         FROM sparklytics.events\n         WHERE tenant_id = {tenant_id:String}\n           AND website_id = {website_id:String}\n           AND created_at >= {start:DateTime64(3)}\n           AND created_at < {end:DateTime64(3)}\n           ";
pub const METRICS_SQL_AFTER_FILTER: &'static str = "\n         GROUP BY value\n         ORDER BY ";
pub const METRICS_SQL_TAIL: &'static str = " DESC\n         LIMIT {limit:UInt32} OFFSET {offset:UInt32}";

/// Column of pageviews in a page breakdown.
pub const PAGEVIEWS_COLUMN: &'static str = ", countIf(event_type = 'pageview') AS pageviews";

/// Rows of a breakdown, busiest first, one page of them.
pub open spec fn metrics_data_sql_of(expr: Seq<char>, with_pageviews: bool, filter: Seq<char>) -> Seq<char> {
    METRICS_SQL_HEAD@ + expr + METRICS_SQL_AFTER_EXPR@ + (if with_pageviews {
        PAGEVIEWS_COLUMN@
    } else {
        Seq::empty()
    }) + METRICS_SQL_AFTER_PAGEVIEWS@ + filter + METRICS_SQL_AFTER_FILTER@ + (if with_pageviews {
        "pageviews"@
    } else {
        "visitors"@
    }) + METRICS_SQL_TAIL@
}

/// Parts of the query of the number of distinct values of a breakdown.
pub const METRICS_COUNT_SQL_HEAD: &'static str = "SELECT uniq(";
pub const METRICS_COUNT_SQL_AFTER_EXPR: &'static str = ") AS total\n         FROM sparklytics.events\n         WHERE tenant_id = {tenant_id:String}\n           AND website_id = {website_id:String}\n           AND created_at >= {start:DateTime64(3)}\n           AND created_at < {end:DateTime64(3)}\n           ";

/// Number of distinct values of a breakdown.
pub open spec fn metrics_count_sql_of(expr: Seq<char>, filter: Seq<char>) -> Seq<char> {
    METRICS_COUNT_SQL_HEAD@ + expr + METRICS_COUNT_SQL_AFTER_EXPR@ + filter
}

/// Queries and parameters of one page of a breakdown.
pub struct MetricsPlan {
    pub data_sql: String,
    pub count_sql: String,
    pub data_params: Vec<(String, String)>,
    pub count_params: Vec<(String, String)>,
}

/// Plans one page of a breakdown over the days `start..=end`.
pub fn metrics_plan(
    tenant_id: &str,
    website_id: &str,
    start_day: i32,
    end_day: i32,
    metric_type: &str,
    limit: i64,
    offset: i64,
    filters: &ChFilters,
) -> (p: MetricsPlan)
    requires
        day_in_range(start_day as int),
        day_in_range(end_day + 1),
        limit >= 0,
        offset >= 0,
    ensures
        ({
            let (expr, with_pv) = metric_expr_of(metric_type@);
            let filter = join_with(filter_parts(*filters).0, clause_separator());
            let base = range_params(
                tenant_id@,
                website_id@,
                ch_datetime_of(start_day),
                ch_datetime_of((end_day + 1) as i32),
                filter_parts(*filters).1,
            );
            &&& p.data_sql@ == metrics_data_sql_of(expr, with_pv, filter)
            &&& p.count_sql@ == metrics_count_sql_of(expr, filter)
            &&& string_pairs_view(p.count_params@) == base
            &&& string_pairs_view(p.data_params@) == base.push(("limit"@, decimal(limit as nat))).push(
                ("offset"@, decimal(offset as nat)),
            )
        }),
{
    let (start, end) = period_bounds(start_day, end_day);
    let (expr, with_pv) = metric_value_expr(metric_type);
    let (filter, filter_params) = filters.filter_clause();
    let mut data = chars_of(METRICS_SQL_HEAD);
    append_str(&mut data, expr);
    append_str(&mut data, METRICS_SQL_AFTER_EXPR);
    if with_pv {
        append_str(&mut data, PAGEVIEWS_COLUMN);
    }
    append_str(&mut data, METRICS_SQL_AFTER_PAGEVIEWS);
    append_str(&mut data, filter.as_str());
    append_str(&mut data, METRICS_SQL_AFTER_FILTER);
    if with_pv {
        append_str(&mut data, "pageviews");
    } else {
        append_str(&mut data, "visitors");
    }
    append_str(&mut data, METRICS_SQL_TAIL);
    proof {
        reveal_strlit("");
    }
    assert(data@ =~= metrics_data_sql_of(expr@, with_pv, filter@));
    let mut count = chars_of(METRICS_COUNT_SQL_HEAD);
    append_str(&mut count, expr);
    append_str(&mut count, METRICS_COUNT_SQL_AFTER_EXPR);
    append_str(&mut count, filter.as_str());
    let count_params = build_range_params(tenant_id, website_id, start.as_str(), end.as_str(), &filter_params);
    let mut data_params = build_range_params(tenant_id, website_id, start.as_str(), end.as_str(), &filter_params);
    let ghost base = string_pairs_view(data_params@);
    let l = u64_decimal(limit as u64);
    let o = u64_decimal(offset as u64);
    data_params.push(("limit".to_owned(), string_of(l.as_slice())));
    data_params.push(("offset".to_owned(), string_of(o.as_slice())));
    assert(string_pairs_view(data_params@) =~= base.push(("limit"@, decimal(limit as nat))).push(("offset"@, decimal(offset as nat))));
    MetricsPlan {
        data_sql: string_of(data.as_slice()),
        count_sql: string_of(count.as_slice()),
        data_params,
        count_params,
    }
}

/// Whether a breakdown has rows after this page.
pub fn metrics_has_more(offset: i64, limit: i64, total: i64) -> (b: bool)
    ensures
        b == (offset + limit < total),
{
    (offset as i128) + (limit as i128) < (total as i128)
}

/// Visitors active in the last thirty minutes.
pub const REALTIME_ACTIVE_SQL: &'static str = "\n        SELECT uniq(visitor_id) AS active_visitors\n        FROM sparklytics.events\n        WHERE tenant_id = {tenant_id:String}\n          AND website_id = {website_id:String}\n          AND created_at >= now() - INTERVAL 30 MINUTE\n    ";

/// The hundred latest events of the last thirty minutes.
pub const REALTIME_EVENTS_SQL: &'static str = "\n        SELECT\n            url,\n            referrer_domain,\n            country,\n            browser,\n            device_type,\n            event_type,\n            formatDateTime(created_at, '%Y-%m-%dT%H:%i:%SZ') AS ts\n        FROM sparklytics.events\n        WHERE tenant_id = {tenant_id:String}\n          AND website_id = {website_id:String}\n          AND created_at >= now() - INTERVAL 30 MINUTE\n        ORDER BY created_at DESC\n        LIMIT 100\n    ";

/// Events of the last thirty minutes.
pub const REALTIME_TOTAL_SQL: &'static str = "\n        SELECT count() AS total\n        FROM sparklytics.events\n        WHERE tenant_id = {tenant_id:String}\n          AND website_id = {website_id:String}\n          AND created_at >= now() - INTERVAL 30 MINUTE\n    ";

} // verus!
