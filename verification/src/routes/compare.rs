//! Period comparison: the range compared against the primary one, its
//! default (the period just before), and how a comparison is described.
use vstd::prelude::*;

use crate::dates::{chrono_format_ymd, chrono_parse_ymd, day_in_range, format_ymd, parse_ymd};
use crate::error::{bad_request_chars, bad_request_with, AppError};
use crate::text::{append_str, chars_of, string_of, trim, trim_str};

verus! {

/// How the comparison range is chosen.
#[derive(Clone, Copy, Debug, PartialEq, Eq, Structural)]
pub enum CompareMode {
    /// No comparison (`none`).
    NoComparison,
    /// The period of the same length just before.
    PreviousPeriod,
    /// The same dates a year earlier.
    PreviousYear,
    /// Dates given by the client.
    Custom,
}

/// A primary range and the range it is compared with, as day numbers.
#[derive(Clone, Copy, Debug, PartialEq, Eq, Structural)]
pub struct ComparisonRange {
    pub mode: CompareMode,
    pub primary_start: i32,
    pub primary_end: i32,
    pub comparison_start: i32,
    pub comparison_end: i32,
}

/// Name of a mode in responses.
pub open spec fn mode_name(mode: CompareMode) -> Seq<char> {
    match mode {
        CompareMode::NoComparison => "none"@,
        CompareMode::PreviousPeriod => "previous_period"@,
        CompareMode::PreviousYear => "previous_year"@,
        CompareMode::Custom => "custom"@,
    }
}

/// The name of a mode.
pub fn mode_slug(mode: &CompareMode) -> (s: &'static str)
    ensures
        s@ == mode_name(*mode),
{
    match mode {
        CompareMode::NoComparison => "none",
        CompareMode::PreviousPeriod => "previous_period",
        CompareMode::PreviousYear => "previous_year",
        CompareMode::Custom => "custom",
    }
}

/// First day of the period before a primary range: as many days as the
/// primary range, ending the day before it starts.
pub open spec fn previous_period_start(start: int, end: int) -> int {
    start - 1 - (end - start)
}

/// The previous period of a primary range: it has the primary range's
/// length and ends the day before the primary range starts.
pub fn default_previous_period_range(primary_start: i32, primary_end: i32) -> (r: ComparisonRange)
    requires
        day_in_range(primary_start as int),
        day_in_range(primary_end as int),
        day_in_range(previous_period_start(primary_start as int, primary_end as int)),
        day_in_range(primary_start - 1),
    ensures
        r.mode == CompareMode::PreviousPeriod,
        r.primary_start == primary_start,
        r.primary_end == primary_end,
        r.comparison_end == primary_start - 1,
        r.comparison_end - r.comparison_start == r.primary_end - r.primary_start,
{
    let days: i64 = (primary_end as i64) - (primary_start as i64) + 1;
    let comparison_end: i32 = primary_start - 1;
    let comparison_start: i32 = ((comparison_end as i64) - (days - 1)) as i32;
    ComparisonRange {
        mode: CompareMode::PreviousPeriod,
        primary_start,
        primary_end,
        comparison_start,
        comparison_end,
    }
}

/// The comparison in force, or else the previous period of the primary range.
pub fn active_or_default_range(compare: Option<&ComparisonRange>, primary_start: i32, primary_end: i32) -> (r: ComparisonRange)
    requires
        compare is None ==> {
            &&& day_in_range(primary_start as int)
            &&& day_in_range(primary_end as int)
            &&& day_in_range(previous_period_start(primary_start as int, primary_end as int))
            &&& day_in_range(primary_start - 1)
        },
    ensures
        match compare {
            Some(c) => r == *c,
            None => {
                &&& r.mode == CompareMode::PreviousPeriod
                &&& r.primary_start == primary_start
                &&& r.primary_end == primary_end
                &&& r.comparison_end == primary_start - 1
                &&& r.comparison_start == previous_period_start(primary_start as int, primary_end as int)
            },
        },
{
    match compare {
        Some(c) => *c,
        None => default_previous_period_range(primary_start, primary_end),
    }
}

/// Outcome of a comparison date: the trimmed text must be `YYYY-MM-DD`.
pub open spec fn compare_date_of(raw: Seq<char>, field: Seq<char>) -> Result<i32, Seq<char>> {
    match chrono_parse_ymd(trim(raw)) {
        Some(d) => Ok(d),
        None => Err("invalid "@ + field + " (expected YYYY-MM-DD)"@),
    }
}

/// Parses a comparison date named `field`.
pub fn parse_compare_date(raw: &str, field: &str) -> (r: Result<i32, AppError>)
    ensures
        match compare_date_of(raw@, field@) {
            Ok(d) => r == Ok::<i32, AppError>(d),
            Err(m) => bad_request_with(r, m),
        },
{
    let t = trim_str(raw);
    let ts = string_of(t.as_slice());
    match parse_ymd(ts.as_str()) {
        Some(d) => Ok(d),
        None => {
            let mut m = chars_of("invalid ");
            append_str(&mut m, field);
            append_str(&mut m, " (expected YYYY-MM-DD)");
            Err(bad_request_chars(m.as_slice()))
        },
    }
}

/// How a comparison is described in responses: its mode and the two
/// ranges as `YYYY-MM-DD` texts.
pub struct ComparisonDescription {
    pub mode: &'static str,
    pub primary_range: (String, String),
    pub comparison_range: (String, String),
}

/// Describes a comparison, when there is one.
pub fn describe_comparison(compare: Option<&ComparisonRange>) -> (r: Option<ComparisonDescription>)
    requires
        compare matches Some(c) ==> {
            &&& day_in_range(c.primary_start as int)
            &&& day_in_range(c.primary_end as int)
            &&& day_in_range(c.comparison_start as int)
            &&& day_in_range(c.comparison_end as int)
        },
    ensures
        match compare {
            None => r is None,
            Some(c) => r matches Some(d) && {
                &&& d.mode@ == mode_name(c.mode)
                &&& d.primary_range.0@ == chrono_format_ymd(c.primary_start)
                &&& d.primary_range.1@ == chrono_format_ymd(c.primary_end)
                &&& d.comparison_range.0@ == chrono_format_ymd(c.comparison_start)
                &&& d.comparison_range.1@ == chrono_format_ymd(c.comparison_end)
            },
        },
{
    match compare {
        None => None,
        Some(c) => Some(
            ComparisonDescription {
                mode: mode_slug(&c.mode),
                primary_range: (format_ymd(c.primary_start), format_ymd(c.primary_end)),
                comparison_range: (format_ymd(c.comparison_start), format_ymd(c.comparison_end)),
            },
        ),
    }
}

} // verus!
