//! Goals: name and match-value checks, the per-website limit, how backend
//! failures are reported, and the date range of goal statistics.
use vstd::prelude::*;

use crate::cloud::{cloud_dates, parse_dates_at};
use crate::dates::MIN_DAY;
use crate::error::{bad_request, bad_request_with, AppError};
use crate::routes::query::{opt_string_view, opt_view, order_message};
use crate::routes::validation::{
    failed_as, text_verdict, validate_entity_name, validate_match_value as check_match_value,
    verdict_for, ValidationFailure,
};
use crate::text::{chars_of, contains, contains_exec};

verus! {

/// Most goals a website may have.
pub const MAX_GOALS_PER_WEBSITE: i64 = 50;

/// Query of the statistics of one goal.
pub struct GoalStatsQuery {
    pub start_date: Option<String>,
    pub end_date: Option<String>,
    pub timezone: Option<String>,
    pub filter_country: Option<String>,
    pub filter_page: Option<String>,
    pub filter_referrer: Option<String>,
    pub filter_browser: Option<String>,
    pub filter_os: Option<String>,
    pub filter_device: Option<String>,
    pub filter_language: Option<String>,
    pub filter_utm_source: Option<String>,
    pub filter_utm_medium: Option<String>,
    pub filter_utm_campaign: Option<String>,
    pub filter_region: Option<String>,
    pub filter_city: Option<String>,
    pub filter_hostname: Option<String>,
}

/// Checks a goal name: not blank, at most 100 bytes.
pub fn validate_name(name: &str) -> (r: Result<(), ValidationFailure>)
    ensures
        verdict_for(
            r,
            text_verdict(
                name@,
                100,
                "name must not be empty"@,
                "name must be 100 characters or fewer"@,
            ),
            "name"@,
        ),
{
    validate_entity_name(name)
}

/// Checks a goal's match value: not blank, at most 500 bytes.
pub fn validate_match_value(match_value: &str) -> (r: Result<(), ValidationFailure>)
    ensures
        verdict_for(
            r,
            text_verdict(
                match_value@,
                500,
                "match_value must not be empty"@,
                "match_value must be 500 characters or fewer"@,
            ),
            "match_value"@,
        ),
{
    check_match_value(match_value)
}

/// Answer when a website already has the most goals it may have.
pub open spec fn goal_limit_failure(r: Result<(), ValidationFailure>) -> bool {
    failed_as(r, "limit_exceeded"@, "maximum of 50 goals per website reached"@, "goals"@)
}

/// Answer when the name is taken.
pub open spec fn duplicate_failure(r: Result<(), ValidationFailure>) -> bool {
    failed_as(r, "duplicate_name"@, "goal name already exists for this website"@, "name"@)
}

/// Refuses a new goal when the website already has 50.
pub fn check_goal_limit(count: i64) -> (r: Result<(), ValidationFailure>)
    ensures
        count >= MAX_GOALS_PER_WEBSITE ==> goal_limit_failure(r),
        count < MAX_GOALS_PER_WEBSITE ==> r is Ok,
{
    if count >= MAX_GOALS_PER_WEBSITE {
        return Err(
            ValidationFailure {
                code: "limit_exceeded",
                message: "maximum of 50 goals per website reached",
                field: Some("goals"),
            },
        );
    }
    Ok(())
}

/// Refuses a goal whose name is taken.
pub fn check_duplicate_name(exists: bool) -> (r: Result<(), ValidationFailure>)
    ensures
        exists ==> duplicate_failure(r),
        !exists ==> r is Ok,
{
    if exists {
        return Err(
            ValidationFailure {
                code: "duplicate_name",
                message: "goal name already exists for this website",
                field: Some("name"),
            },
        );
    }
    Ok(())
}

/// How a failed write of a goal is answered, read from the backend's
/// message.
pub enum GoalWriteFailure {
    Unprocessable(ValidationFailure),
    App(AppError),
}

fn has_lit(m: &[char], lit: &str) -> (b: bool)
    ensures
        b == contains(m@, lit@),
{
    let l = chars_of(lit);
    contains_exec(m, l.as_slice())
}

/// Answer to a failed goal creation: the limit or a duplicate name when
/// the backend's message says so, an internal error otherwise.
pub fn map_create_goal_error(message: &str) -> (r: GoalWriteFailure)
    ensures
        contains(message@, "limit_exceeded"@) ==> (r matches GoalWriteFailure::Unprocessable(f)
            && goal_limit_failure(Err(f))),
        !contains(message@, "limit_exceeded"@) && contains(message@, "duplicate_name"@) ==> (r matches GoalWriteFailure::Unprocessable(f)
            && duplicate_failure(Err(f))),
        !contains(message@, "limit_exceeded"@) && !contains(message@, "duplicate_name"@) ==> (r matches GoalWriteFailure::App(AppError::Internal(m))
            && m@ == message@),
{
    let m = chars_of(message);
    if has_lit(m.as_slice(), "limit_exceeded") {
        return GoalWriteFailure::Unprocessable(
            ValidationFailure {
                code: "limit_exceeded",
                message: "maximum of 50 goals per website reached",
                field: Some("goals"),
            },
        );
    }
    if has_lit(m.as_slice(), "duplicate_name") {
        return GoalWriteFailure::Unprocessable(
            ValidationFailure {
                code: "duplicate_name",
                message: "goal name already exists for this website",
                field: Some("name"),
            },
        );
    }
    GoalWriteFailure::App(AppError::Internal(message.to_owned()))
}

/// Answer to a failed goal update: not found or a duplicate name when the
/// backend's message says so, an internal error otherwise.
pub fn map_update_goal_error(message: &str) -> (r: GoalWriteFailure)
    ensures
        contains(message@, "Goal not found"@) ==> (r matches GoalWriteFailure::App(
            AppError::NotFound(m),
        ) && m@ == "Goal not found"@),
        !contains(message@, "Goal not found"@) && contains(message@, "duplicate_name"@) ==> (r matches GoalWriteFailure::Unprocessable(f)
            && duplicate_failure(Err(f))),
        !contains(message@, "Goal not found"@) && !contains(message@, "duplicate_name"@) ==> (r matches GoalWriteFailure::App(AppError::Internal(m))
            && m@ == message@),
{
    let m = chars_of(message);
    if has_lit(m.as_slice(), "Goal not found") {
        return GoalWriteFailure::App(AppError::NotFound("Goal not found".to_owned()));
    }
    if has_lit(m.as_slice(), "duplicate_name") {
        return GoalWriteFailure::Unprocessable(
            ValidationFailure {
                code: "duplicate_name",
                message: "goal name already exists for this website",
                field: Some("name"),
            },
        );
    }
    GoalWriteFailure::App(AppError::Internal(message.to_owned()))
}

fn as_opt_str(o: &Option<String>) -> (r: Option<&str>)
    ensures
        opt_view(r) == opt_string_view(*o),
{
    match o {
        Some(s) => Some(s.as_str()),
        None => None,
    }
}

impl GoalStatsQuery {
    /// Date range against `today`: bounds parsed as given, else the last
    /// seven days; it must be in order.
    pub fn date_range_at(&self, today: i32) -> (r: Result<(i32, i32), AppError>)
        requires
            MIN_DAY + 6 <= today,
        ensures
            ({
                let (s, e) = cloud_dates(
                    opt_string_view(self.start_date),
                    opt_string_view(self.end_date),
                    today,
                );
                &&& e < s ==> bad_request_with(r, order_message())
                &&& e >= s ==> r == Ok::<(i32, i32), AppError>((s, e))
            }),
    {
        let (s, e) = parse_dates_at(as_opt_str(&self.start_date), as_opt_str(&self.end_date), today);
        if e < s {
            return Err(bad_request("end_date must be on or after start_date"));
        }
        Ok((s, e))
    }
}

} // verus!
