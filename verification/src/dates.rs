//! Calendar dates as day numbers (days from the common era, 0001-01-01
//! being day 1, as `chrono`'s `num_days_from_ce` counts them), with the
//! `chrono` and `chrono-tz` calls that parse, format and read them.
use chrono::Datelike;
use vstd::prelude::*;

verus! {

/// Day number of the earliest date `chrono` represents (262144 BCE-01-01).
pub const MIN_DAY: i32 = -95746129;

/// Day number of the latest date `chrono` represents (262142-12-31).
pub const MAX_DAY: i32 = 95745399;

/// Day number of 1969-12-31, the day before the Unix epoch.
pub const EPOCH_EVE_DAY: i32 = 719162;

/// `d` is the day number of a representable date.
pub open spec fn day_in_range(d: int) -> bool {
    MIN_DAY <= d <= MAX_DAY
}

/// Name for the day number that `NaiveDate::parse_from_str(s, "%Y-%m-%d")`
/// yields, or `None` when it rejects the text.
pub uninterp spec fn chrono_parse_ymd(s: Seq<char>) -> Option<i32>;

/// Name for whether `chrono_tz::Tz` parses the text as a time-zone name.
pub uninterp spec fn chrono_tz_parses(s: Seq<char>) -> bool;

/// Name for the `YYYY-MM-DD` text that `NaiveDate`'s `Display` gives for a day.
pub uninterp spec fn chrono_format_ymd(day: i32) -> Seq<char>;

/// Parses `YYYY-MM-DD` through `NaiveDate::parse_from_str` and returns
/// the day number (`num_days_from_ce`). The result is named
/// `chrono_parse_ymd`; every date `chrono` yields lies within its
/// documented `NaiveDate::MIN..=NaiveDate::MAX` range.
#[verifier::external_body]
pub(crate) fn parse_ymd(s: &str) -> (r: Option<i32>)
    ensures
        r == chrono_parse_ymd(s@),
        r matches Some(d) ==> day_in_range(d as int),
{
    chrono::NaiveDate::parse_from_str(s, "%Y-%m-%d").ok().map(|d| d.num_days_from_ce())
}

/// Whether `chrono_tz::Tz::from_str` accepts the name.
#[verifier::external_body]
pub(crate) fn timezone_parses(s: &str) -> (b: bool)
    ensures
        b == chrono_tz_parses(s@),
{
    s.parse::<chrono_tz::Tz>().is_ok()
}

/// Today's date in UTC, read from the system clock (`Utc::now`). Only its
/// range is claimed: the value depends on the time of the call, and
/// `Utc::now` gives no date before the Unix epoch (it panics on a clock set
/// before 1970, which no argument here can rule out).
#[verifier::external_body]
pub(crate) fn today_utc() -> (d: i32)
    ensures
        EPOCH_EVE_DAY <= d <= MAX_DAY,
{
    chrono::Utc::now().date_naive().num_days_from_ce()
}

/// Today's date in the named time zone, read from the system clock;
/// `None` exactly when `chrono_tz` rejects the name. Only the range of the
/// date is claimed: it depends on the time of the call (no zone is more
/// than a day behind UTC, `Utc::now` gives no date before 1970, and no
/// `NaiveDate` lies after `NaiveDate::MAX`).
#[verifier::external_body]
pub(crate) fn today_in_timezone(tz: &str) -> (r: Option<i32>)
    ensures
        r is Some == chrono_tz_parses(tz@),
        r matches Some(d) ==> EPOCH_EVE_DAY <= d <= MAX_DAY,
{
    match tz.parse::<chrono_tz::Tz>() {
        Ok(zone) => Some(chrono::Utc::now().with_timezone(&zone).date_naive().num_days_from_ce()),
        Err(_) => None,
    }
}

/// The `YYYY-MM-DD` text of a day (`NaiveDate`'s `Display`); named
/// `chrono_format_ymd`.
#[verifier::external_body]
pub(crate) fn format_ymd(day: i32) -> (s: String)
    requires
        day_in_range(day as int),
    ensures
        s@ == chrono_format_ymd(day),
{
    chrono::NaiveDate::from_num_days_from_ce_opt(day).unwrap().to_string()
}

/// Number of days from `start` to `end`, both included.
pub open spec fn span_days(start: i32, end: i32) -> int {
    end - start + 1
}

} // verus!
