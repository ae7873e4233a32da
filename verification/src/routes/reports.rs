//! Saved reports: name checks, time zones and the resolution of relative
//! and absolute date ranges.
use vstd::prelude::*;

use crate::dates::{chrono_tz_parses, day_in_range, timezone_parses, today_in_timezone, today_utc, EPOCH_EVE_DAY, MAX_DAY};
use crate::error::{bad_request, bad_request_with, AppError};
use crate::routes::query::{
    opt_string_view, opt_view, check_name, invalid_date_message, lenient_day, name_verdict, order_message, parse_strict_date,
    validate_date_order, verdict_matches,
};
use crate::text::{string_of, trim, trim_str};

verus! {

/// Most saved reports a website may hold.
pub const MAX_REPORTS_PER_WEBSITE: i64 = 100;

/// Longest report name, in bytes.
pub const MAX_REPORT_NAME_BYTES: usize = 100;

/// Checks a report name: not blank, at most 100 bytes.
pub fn validate_name(name: &str) -> (r: Result<(), AppError>)
    ensures
        verdict_matches(
            r,
            name_verdict(
                name@,
                "name must not be empty"@,
                MAX_REPORT_NAME_BYTES,
                "name must be 100 characters or fewer"@,
            ),
        ),
{
    check_name(
        name,
        "name must not be empty",
        MAX_REPORT_NAME_BYTES,
        "name must be 100 characters or fewer",
    )
}

/// A report's time zone: absent or blank means none; otherwise the trimmed
/// name, which `chrono_tz` must know.
pub fn normalize_timezone(timezone: Option<&str>) -> (r: Result<Option<String>, AppError>)
    ensures
        match timezone {
            None => r matches Ok(None),
            Some(raw) => if trim(raw@).len() == 0 {
                r matches Ok(None)
            } else if chrono_tz_parses(trim(raw@)) {
                r matches Ok(Some(t)) && t@ == trim(raw@)
            } else {
                bad_request_with(r, "invalid timezone"@)
            },
        },
{
    match timezone {
        None => Ok(None),
        Some(raw) => {
            let t = trim_str(raw);
            if t.len() == 0 {
                return Ok(None);
            }
            let s = string_of(t.as_slice());
            if timezone_parses(s.as_str()) {
                Ok(Some(s))
            } else {
                Err(bad_request("invalid timezone"))
            }
        },
    }
}

/// Today's date in the given zone (UTC when none), from the system clock.
pub fn today_for_timezone(timezone: Option<&str>) -> (r: Result<i32, AppError>)
    ensures
        match timezone {
            None => r is Ok,
            Some(raw) => {
                &&& r is Ok <==> chrono_tz_parses(raw@)
                &&& r is Err ==> bad_request_with(r, "invalid timezone"@)
            },
        },
        r matches Ok(d) ==> EPOCH_EVE_DAY <= d <= MAX_DAY,
{
    match timezone {
        None => Ok(today_utc()),
        Some(raw) => match today_in_timezone(raw) {
            Some(d) => Ok(d),
            None => Err(bad_request("invalid timezone")),
        },
    }
}

/// Window length of a relative range: the given number of days, 30 by
/// default.
pub open spec fn relative_days_or_default(relative_days: Option<u32>) -> u32 {
    match relative_days {
        Some(d) => d,
        None => 30,
    }
}

/// Message for a window length outside `1..=365`.
pub open spec fn relative_days_message() -> Seq<char> {
    "relative_days must be between 1 and 365"@
}

/// The relative window of `days` days that ends on `today`.
pub fn relative_window(relative_days: Option<u32>, today: i32) -> (r: Result<(i32, i32), AppError>)
    requires
        EPOCH_EVE_DAY <= today <= MAX_DAY,
    ensures
        ({
            let days = relative_days_or_default(relative_days);
            &&& (1 <= days <= 365) ==> r == Ok::<(i32, i32), AppError>(
                ((today - (days - 1)) as i32, today),
            )
            &&& !(1 <= days <= 365) ==> bad_request_with(r, relative_days_message())
        }),
{
    let days = match relative_days {
        Some(d) => d,
        None => 30,
    };
    if days < 1 || days > 365 {
        return Err(bad_request("relative_days must be between 1 and 365"));
    }
    let start = today - (days as i32 - 1);
    Ok((start, today))
}

/// Relative range ending today in the report's zone: the window length is
/// checked first, then the zone.
pub fn parse_relative_range(relative_days: Option<u32>, timezone: Option<&str>) -> (r: Result<
    (i32, i32),
    AppError,
>)
    ensures
        ({
            let days = relative_days_or_default(relative_days);
            let zone_ok = match timezone {
                None => true,
                Some(raw) => chrono_tz_parses(raw@),
            };
            &&& !(1 <= days <= 365) ==> bad_request_with(r, relative_days_message())
            &&& (1 <= days <= 365) && !zone_ok ==> bad_request_with(r, "invalid timezone"@)
            &&& (1 <= days <= 365) && zone_ok ==> (r matches Ok((s, e)) && e - s == days - 1
                && EPOCH_EVE_DAY <= e <= MAX_DAY)
        }),
{
    let days = match relative_days {
        Some(d) => d,
        None => 30,
    };
    if days < 1 || days > 365 {
        return Err(bad_request("relative_days must be between 1 and 365"));
    }
    let today = today_for_timezone(timezone)?;
    relative_window(relative_days, today)
}

/// Outcome of an absolute range: the two days, or the message of the
/// first problem.
pub open spec fn absolute_range_of(start_date: Option<Seq<char>>, end_date: Option<Seq<char>>) -> Result<(i32, i32), Seq<char>> {
    match (start_date, end_date) {
        (None, _) => Err("start_date is required for absolute range"@),
        (Some(_), None) => Err("end_date is required for absolute range"@),
        (Some(s), Some(e)) => match (lenient_day(s), lenient_day(e)) {
            (None, _) => Err(invalid_date_message("start_date"@)),
            (Some(_), None) => Err(invalid_date_message("end_date"@)),
            (Some(a), Some(b)) => if b < a {
                Err(order_message())
            } else {
                Ok((a, b))
            },
        },
    }
}

/// Absolute range from two required `YYYY-MM-DD` bounds, in order.
pub fn parse_absolute_range(start_date: Option<&str>, end_date: Option<&str>) -> (r: Result<
    (i32, i32),
    AppError,
>)
    ensures
        match absolute_range_of(opt_view(start_date), opt_view(end_date)) {
            Ok(p) => r == Ok::<(i32, i32), AppError>(p),
            Err(m) => bad_request_with(r, m),
        },
        match (start_date, end_date) {
            (None, _) => bad_request_with(r, "start_date is required for absolute range"@),
            (Some(_), None) => bad_request_with(r, "end_date is required for absolute range"@),
            (Some(s), Some(e)) => match (lenient_day(s@), lenient_day(e@)) {
                (None, _) => bad_request_with(r, invalid_date_message("start_date"@)),
                (Some(_), None) => bad_request_with(r, invalid_date_message("end_date"@)),
                (Some(a), Some(b)) => if b < a {
                    bad_request_with(r, order_message())
                } else {
                    r == Ok::<(i32, i32), AppError>((a, b))
                },
            },
        },
{
    let start_raw = match start_date {
        Some(s) => s,
        None => {
            return Err(bad_request("start_date is required for absolute range"));
        },
    };
    let end_raw = match end_date {
        Some(e) => e,
        None => {
            return Err(bad_request("end_date is required for absolute range"));
        },
    };
    let start = parse_strict_date(start_raw, "start_date")?;
    let end = parse_strict_date(end_raw, "end_date")?;
    validate_date_order(start, end)?;
    Ok((start, end))
}

/// Outcome of the metric type of a report or metrics query: it must be one
/// of the valid types.
pub open spec fn metric_type_verdict(metric_type: Seq<char>, valid: Seq<Seq<char>>) -> Result<(), Seq<char>> {
    if valid.contains(metric_type) {
        Ok(())
    } else {
        Err("invalid metric type: "@ + metric_type)
    }
}

/// Checks a metric type against the valid ones.
pub fn check_metric_type(metric_type: &str, valid: &[&str]) -> (r: Result<(), AppError>)
    ensures
        match metric_type_verdict(metric_type@, valid@.map_values(|v: &str| v@)) {
            Ok(()) => r is Ok,
            Err(m) => bad_request_with(r, m),
        },
{
    let ghost vv = valid@.map_values(|v: &str| v@);
    let mc = crate::text::chars_of(metric_type);
    let mut i: usize = 0;
    while i < valid.len()
        invariant
            i <= valid@.len(),
            vv == valid@.map_values(|v: &str| v@),
            mc@ == metric_type@,
            forall|j: int| 0 <= j < i ==> vv[j] != metric_type@,
        decreases valid@.len() - i,
    {
        let vc = crate::text::chars_of(valid[i]);
        if crate::text::chars_eq(vc.as_slice(), mc.as_slice()) {
            assert(vv[i as int] == metric_type@);
            return Ok(());
        }
        i = i + 1;
    }
    let mut m = crate::text::chars_of("invalid metric type: ");
    crate::text::append_str(&mut m, metric_type);
    Err(crate::error::bad_request_chars(m.as_slice()))
}

/// Checks the metric type of a report: a metrics report needs one, and it
/// must be valid; other reports take none into account.
pub fn check_report_metric_type(is_metrics: bool, metric_type: Option<&str>, valid: &[&str]) -> (r: Result<(), AppError>)
    ensures
        !is_metrics ==> r is Ok,
        is_metrics && metric_type is None ==> bad_request_with(r, "metric_type is required for metrics reports"@),
        is_metrics ==> match metric_type {
            Some(t) => match metric_type_verdict(t@, valid@.map_values(|v: &str| v@)) {
                Ok(()) => r is Ok,
                Err(m) => bad_request_with(r, m),
            },
            None => true,
        },
{
    if !is_metrics {
        return Ok(());
    }
    match metric_type {
        None => Err(bad_request("metric_type is required for metrics reports")),
        Some(t) => check_metric_type(t, valid),
    }
}

/// How a report's date range is given.
#[derive(Clone, Copy, Debug, PartialEq, Eq, Structural)]
pub enum DateRangeType {
    Relative,
    Absolute,
}

/// Outcome of a report's time zone: none when absent or blank, else the
/// trimmed name when `chrono_tz` knows it; `Err` when it does not.
pub open spec fn timezone_of(timezone: Option<Seq<char>>) -> Result<Option<Seq<char>>, ()> {
    match timezone {
        None => Ok(None),
        Some(raw) => if trim(raw).len() == 0 {
            Ok(None)
        } else if chrono_tz_parses(trim(raw)) {
            Ok(Some(trim(raw)))
        } else {
            Err(())
        },
    }
}

/// Outcome of a report's metric type check.
pub open spec fn report_metric_of(is_metrics: bool, metric_type: Option<Seq<char>>, valid: Seq<Seq<char>>) -> Result<(), Seq<char>> {
    if !is_metrics {
        Ok(())
    } else {
        match metric_type {
            None => Err("metric_type is required for metrics reports"@),
            Some(t) => metric_type_verdict(t, valid),
        }
    }
}

/// The window and zone a report runs over: the zone is checked first,
/// then the range (relative: `relative_days` days ending today in the zone;
/// absolute: the two bounds), then the metric type of a metrics report.
pub fn build_analytics_context(
    range_type: DateRangeType,
    relative_days: Option<u32>,
    start_date: Option<&str>,
    end_date: Option<&str>,
    timezone: Option<&str>,
    is_metrics: bool,
    metric_type: Option<&str>,
    valid_metric_types: &[&str],
) -> (r: Result<(i32, i32, Option<String>), AppError>)
    ensures
        ({
            let valid = valid_metric_types@.map_values(|v: &str| v@);
            match timezone_of(opt_view(timezone)) {
                Err(()) => bad_request_with(r, "invalid timezone"@),
                Ok(z) => match range_type {
                    DateRangeType::Absolute => match absolute_range_of(opt_view(start_date), opt_view(end_date)) {
                        Err(m) => bad_request_with(r, m),
                        Ok((a, b)) => match report_metric_of(is_metrics, opt_view(metric_type), valid) {
                            Err(m) => bad_request_with(r, m),
                            Ok(()) => r matches Ok((x, y, tz)) && x == a && y == b && opt_string_view(tz) == z,
                        },
                    },
                    DateRangeType::Relative => {
                        let days = relative_days_or_default(relative_days);
                        if !(1 <= days <= 365) {
                            bad_request_with(r, relative_days_message())
                        } else {
                            match report_metric_of(is_metrics, opt_view(metric_type), valid) {
                                Err(m) => bad_request_with(r, m),
                                Ok(()) => r matches Ok((x, y, tz)) && y - x == days - 1 && EPOCH_EVE_DAY <= y
                                    <= MAX_DAY && opt_string_view(tz) == z,
                            }
                        }
                    },
                },
            }
        }),
{
    let tz = normalize_timezone(timezone)?;
    let (start, end) = match range_type {
        DateRangeType::Relative => {
            let zone: Option<&str> = match &tz {
                Some(t) => Some(t.as_str()),
                None => None,
            };
            parse_relative_range(relative_days, zone)?
        },
        DateRangeType::Absolute => parse_absolute_range(start_date, end_date)?,
    };
    check_report_metric_type(is_metrics, metric_type, valid_metric_types)?;
    Ok((start, end, tz))
}

} // verus!
