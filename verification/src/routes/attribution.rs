//! Revenue attribution: the model, and the date range resolved in the
//! query's time zone.
use vstd::prelude::*;

use crate::dates::{chrono_tz_parses, timezone_parses, EPOCH_EVE_DAY, MAX_DAY};
use crate::error::{bad_request, bad_request_with, AppError};
use crate::routes::query::{
    invalid_date_message, lenient_day, opt_string_view, opt_view, order_message,
    parse_defaulted_date_range_strict, today_for_optional_timezone,
};
use crate::text::{chars_eq, chars_of, contains, contains_exec, string_of, trim, trim_str};

verus! {

/// Query of the attribution and revenue endpoints.
pub struct AttributionRequestQuery {
    pub goal_id: String,
    pub model: Option<String>,
    pub start_date: Option<String>,
    pub end_date: Option<String>,
    pub timezone: Option<String>,
    pub filter_country: Option<String>,
    pub filter_page: Option<String>,
    pub filter_referrer: Option<String>,
    pub filter_browser: Option<String>,
    pub filter_os: Option<String>,
    pub filter_device: Option<String>,
    pub filter_language: Option<String>,
    pub filter_utm_source: Option<String>,
    pub filter_utm_medium: Option<String>,
    pub filter_utm_campaign: Option<String>,
    pub filter_region: Option<String>,
    pub filter_city: Option<String>,
    pub filter_hostname: Option<String>,
}

/// How conversions are credited.
#[derive(Clone, Copy, Debug, PartialEq, Eq, Structural)]
pub enum AttributionModel {
    FirstTouch,
    LastTouch,
}

/// Model named by the (trimmed) parameter: last touch when absent or
/// blank.
pub open spec fn model_of(raw: Option<Seq<char>>) -> Result<AttributionModel, Seq<char>> {
    match raw {
        None => Ok(AttributionModel::LastTouch),
        Some(r) => if trim(r).len() == 0 || trim(r) == "last_touch"@ {
            Ok(AttributionModel::LastTouch)
        } else if trim(r) == "first_touch"@ {
            Ok(AttributionModel::FirstTouch)
        } else {
            Err("model must be one of: first_touch, last_touch"@)
        },
    }
}

fn eq_lit(v: &[char], lit: &str) -> (b: bool)
    ensures
        b == (v@ == lit@),
{
    let l = chars_of(lit);
    chars_eq(v, l.as_slice())
}

/// Parses the attribution model.
pub fn parse_model(raw: Option<&str>) -> (r: Result<AttributionModel, AppError>)
    ensures
        match model_of(opt_view(raw)) {
            Ok(m) => r == Ok::<AttributionModel, AppError>(m),
            Err(m) => bad_request_with(r, m),
        },
{
    match raw {
        None => Ok(AttributionModel::LastTouch),
        Some(x) => {
            let t = trim_str(x);
            if t.len() == 0 || eq_lit(t.as_slice(), "last_touch") {
                Ok(AttributionModel::LastTouch)
            } else if eq_lit(t.as_slice(), "first_touch") {
                Ok(AttributionModel::FirstTouch)
            } else {
                Err(bad_request("model must be one of: first_touch, last_touch"))
            }
        },
    }
}

/// Date range of an attribution query against `today` (in the query's
/// zone): present bounds must parse (trimmed); absent ones default to the
/// seven days ending today; in order.
pub open spec fn attribution_range(start: Option<Seq<char>>, end: Option<Seq<char>>, today: i32) -> Result<
    (i32, i32),
    Seq<char>,
> {
    let start_bad = start is Some && lenient_day(start.unwrap()) is None;
    let end_bad = end is Some && lenient_day(end.unwrap()) is None;
    let s = match start {
        Some(raw) => lenient_day(raw).unwrap(),
        None => (today - 6) as i32,
    };
    let e = match end {
        Some(raw) => lenient_day(raw).unwrap(),
        None => today,
    };
    if start_bad {
        Err(invalid_date_message("start_date"@))
    } else if end_bad {
        Err(invalid_date_message("end_date"@))
    } else if e < s {
        Err(order_message())
    } else {
        Ok((s, e))
    }
}

/// Resolves the date range of an attribution query against `today`.
pub fn parse_date_range_at(start_date: Option<&str>, end_date: Option<&str>, today: i32) -> (r: Result<
    (i32, i32),
    AppError,
>)
    requires
        EPOCH_EVE_DAY <= today <= MAX_DAY,
    ensures
        match attribution_range(opt_view(start_date), opt_view(end_date), today) {
            Ok(x) => r == Ok::<(i32, i32), AppError>(x),
            Err(m) => bad_request_with(r, m),
        },
{
    parse_defaulted_date_range_strict(start_date, end_date, today, 6)
}

/// Resolves the date range of an attribution query against today's date
/// in the given zone (UTC when absent or blank).
pub fn parse_date_range(start_date: Option<&str>, end_date: Option<&str>, timezone: Option<&str>) -> (r:
    Result<(i32, i32), AppError>)
    ensures
        match timezone {
            Some(raw) if trim(raw@).len() > 0 && !chrono_tz_parses(trim(raw@)) => bad_request_with(
                r,
                "invalid timezone"@,
            ),
            _ => exists|today: i32|
                EPOCH_EVE_DAY <= today <= MAX_DAY && match #[trigger] attribution_range(
                    opt_view(start_date),
                    opt_view(end_date),
                    today,
                ) {
                    Ok(x) => r == Ok::<(i32, i32), AppError>(x),
                    Err(m) => bad_request_with(r, m),
                },
        },
{
    let today = today_for_optional_timezone(timezone)?;
    parse_date_range_at(start_date, end_date, today)
}

/// What an attribution query asks for: the range, the zone, the goal and
/// the model.
#[derive(Debug)]
pub struct AttributionPlan {
    pub start_date: i32,
    pub end_date: i32,
    pub timezone: Option<String>,
    pub goal_id: String,
    pub model: AttributionModel,
}

/// The query's time zone: trimmed; absent or blank means none; otherwise
/// `chrono_tz` must know it.
pub open spec fn attribution_zone(tz: Option<Seq<char>>) -> Result<Option<Seq<char>>, Seq<char>> {
    match tz {
        None => Ok(None),
        Some(raw) => if trim(raw).len() == 0 {
            Ok(None)
        } else if chrono_tz_parses(trim(raw)) {
            Ok(Some(trim(raw)))
        } else {
            Err("invalid timezone"@)
        },
    }
}

/// Checks an attribution query against `today` in its zone: the zone,
/// then the date range, then the model.
pub fn build_plan_at(query: AttributionRequestQuery, today: i32) -> (r: Result<AttributionPlan, AppError>)
    requires
        EPOCH_EVE_DAY <= today <= MAX_DAY,
    ensures
        match attribution_zone(opt_string_view(query.timezone)) {
            Err(m) => bad_request_with(r, m),
            Ok(tz) => match attribution_range(
                opt_string_view(query.start_date),
                opt_string_view(query.end_date),
                today,
            ) {
                Err(m) => bad_request_with(r, m),
                Ok((s, e)) => match model_of(opt_string_view(query.model)) {
                    Err(m) => bad_request_with(r, m),
                    Ok(model) => r matches Ok(p) && p.start_date == s && p.end_date == e
                        && opt_string_view(p.timezone) == tz && p.goal_id == query.goal_id
                        && p.model == model,
                },
            },
        },
{
    let timezone = match &query.timezone {
        None => None,
        Some(raw) => {
            let t = trim_str(raw.as_str());
            if t.len() == 0 {
                None
            } else {
                let s = string_of(t.as_slice());
                if !timezone_parses(s.as_str()) {
                    return Err(bad_request("invalid timezone"));
                }
                Some(s)
            }
        },
    };
    let (start_date, end_date) = parse_date_range_at(
        match &query.start_date {
            Some(s) => Some(s.as_str()),
            None => None,
        },
        match &query.end_date {
            Some(s) => Some(s.as_str()),
            None => None,
        },
        today,
    )?;
    let model = parse_model(
        match &query.model {
            Some(s) => Some(s.as_str()),
            None => None,
        },
    )?;
    Ok(AttributionPlan { start_date, end_date, timezone, goal_id: query.goal_id, model })
}

fn has_lit(m: &[char], lit: &str) -> (b: bool)
    ensures
        b == contains(m@, lit@),
{
    let l = chars_of(lit);
    contains_exec(m, l.as_slice())
}

/// Answer to a failed attribution query: an unknown goal, or an internal
/// error.
pub fn map_attribution_error(message: &str) -> (e: AppError)
    ensures
        contains(message@, "Goal not found"@) ==> (e matches AppError::NotFound(m) && m@
            == "Goal not found"@),
        !contains(message@, "Goal not found"@) ==> (e matches AppError::Internal(m) && m@
            == message@),
{
    let m = chars_of(message);
    if has_lit(m.as_slice(), "Goal not found") {
        AppError::NotFound("Goal not found".to_owned())
    } else {
        AppError::Internal(message.to_owned())
    }
}

} // verus!
