//! User journeys: the anchor, the direction and depth, and the rest of the
//! query checked in the order the handler checks it.
use vstd::prelude::*;

use crate::error::{bad_request, bad_request_with, AppError};
use crate::routes::query::{
    filters_result, normalize_filters, normalize_timezone_non_empty, opt_string_view,
    opt_strings_view, opt_view, parse_required_date_range, range_matches, required_range_result,
    str_views,
};
use crate::routes::retention::{retention_filter_limits, retention_filter_names, timezone_result};
use crate::text::{byte_len, chars_byte_len, chars_eq, chars_of, contains, contains_exec, string_of, trim, trim_str};

verus! {

/// Depth explored when none is asked for.
pub const DEFAULT_DEPTH: u32 = 3;

/// Longest anchor value, in bytes.
pub const MAX_ANCHOR_VALUE_BYTES: usize = 500;

/// Query of `GET /api/websites/:id/journey`.
pub struct JourneyQueryParams {
    pub anchor_type: Option<String>,
    pub anchor_value: Option<String>,
    pub direction: Option<String>,
    pub max_depth: Option<u32>,
    pub start_date: Option<String>,
    pub end_date: Option<String>,
    pub timezone: Option<String>,
    pub filter_country: Option<String>,
    pub filter_page: Option<String>,
    pub filter_referrer: Option<String>,
    pub filter_browser: Option<String>,
    pub filter_os: Option<String>,
    pub filter_device: Option<String>,
    pub filter_language: Option<String>,
    pub filter_utm_source: Option<String>,
    pub filter_utm_medium: Option<String>,
    pub filter_utm_campaign: Option<String>,
    pub filter_region: Option<String>,
    pub filter_city: Option<String>,
    pub filter_hostname: Option<String>,
    pub include_bots: Option<bool>,
}

/// What a journey starts from.
#[derive(Clone, Copy, Debug, PartialEq, Eq, Structural)]
pub enum AnchorType {
    Page,
    Event,
}

/// Which way a journey is followed.
#[derive(Clone, Copy, Debug, PartialEq, Eq, Structural)]
pub enum JourneyDirection {
    Next,
    Previous,
}

/// Anchor type named by the (trimmed) parameter, which is required.
pub open spec fn anchor_type_of(raw: Option<Seq<char>>) -> Result<AnchorType, Seq<char>> {
    match raw {
        None => Err("anchor_type is required"@),
        Some(r) => if trim(r) == "page"@ {
            Ok(AnchorType::Page)
        } else if trim(r) == "event"@ {
            Ok(AnchorType::Event)
        } else {
            Err("anchor_type must be either 'page' or 'event'"@)
        },
    }
}

/// Direction named by the (trimmed) parameter, which is required.
pub open spec fn direction_of(raw: Option<Seq<char>>) -> Result<JourneyDirection, Seq<char>> {
    match raw {
        None => Err("direction is required"@),
        Some(r) => if trim(r) == "next"@ {
            Ok(JourneyDirection::Next)
        } else if trim(r) == "previous"@ {
            Ok(JourneyDirection::Previous)
        } else {
            Err("direction must be either 'next' or 'previous'"@)
        },
    }
}

fn eq_lit(v: &[char], lit: &str) -> (b: bool)
    ensures
        b == (v@ == lit@),
{
    let l = chars_of(lit);
    chars_eq(v, l.as_slice())
}

/// Parses the anchor type.
pub fn parse_anchor_type(raw: Option<&str>) -> (r: Result<AnchorType, AppError>)
    ensures
        match anchor_type_of(opt_view(raw)) {
            Ok(a) => r == Ok::<AnchorType, AppError>(a),
            Err(m) => bad_request_with(r, m),
        },
{
    match raw {
        None => Err(bad_request("anchor_type is required")),
        Some(x) => {
            let t = trim_str(x);
            if eq_lit(t.as_slice(), "page") {
                Ok(AnchorType::Page)
            } else if eq_lit(t.as_slice(), "event") {
                Ok(AnchorType::Event)
            } else {
                Err(bad_request("anchor_type must be either 'page' or 'event'"))
            }
        },
    }
}

/// Parses the direction.
pub fn parse_direction(raw: Option<&str>) -> (r: Result<JourneyDirection, AppError>)
    ensures
        match direction_of(opt_view(raw)) {
            Ok(d) => r == Ok::<JourneyDirection, AppError>(d),
            Err(m) => bad_request_with(r, m),
        },
{
    match raw {
        None => Err(bad_request("direction is required")),
        Some(x) => {
            let t = trim_str(x);
            if eq_lit(t.as_slice(), "next") {
                Ok(JourneyDirection::Next)
            } else if eq_lit(t.as_slice(), "previous") {
                Ok(JourneyDirection::Previous)
            } else {
                Err(bad_request("direction must be either 'next' or 'previous'"))
            }
        },
    }
}

/// The anchor value: required, trimmed, non-empty, at most 500 bytes.
pub open spec fn anchor_value_of(raw: Option<Seq<char>>) -> Result<Seq<char>, Seq<char>> {
    match raw {
        None => Err("anchor_value is required"@),
        Some(r) => if trim(r).len() == 0 {
            Err("anchor_value is required"@)
        } else if byte_len(trim(r)) > MAX_ANCHOR_VALUE_BYTES {
            Err("anchor_value must be at most 500 characters"@)
        } else {
            Ok(trim(r))
        },
    }
}

/// Reads the anchor value.
pub fn parse_anchor_value(raw: Option<&str>) -> (r: Result<String, AppError>)
    ensures
        match anchor_value_of(opt_view(raw)) {
            Ok(v) => r matches Ok(x) && x@ == v,
            Err(m) => bad_request_with(r, m),
        },
{
    let x = match raw {
        Some(x) => x,
        None => {
            return Err(bad_request("anchor_value is required"));
        },
    };
    let t = trim_str(x);
    if t.len() == 0 {
        return Err(bad_request("anchor_value is required"));
    }
    if chars_byte_len(t.as_slice()) > MAX_ANCHOR_VALUE_BYTES {
        return Err(bad_request("anchor_value must be at most 500 characters"));
    }
    Ok(string_of(t.as_slice()))
}

/// A checked journey query.
#[derive(Debug)]
pub struct JourneyRequest {
    pub anchor_type: AnchorType,
    pub anchor_value: String,
    pub direction: JourneyDirection,
    pub max_depth: u32,
    pub start_date: i32,
    pub end_date: i32,
    pub timezone: Option<String>,
    pub filters: Vec<Option<String>>,
}

/// The filters of a journey query, in the retention order.
pub open spec fn journey_filter_values(q: JourneyQueryParams) -> Seq<Option<Seq<char>>> {
    seq![
        opt_string_view(q.filter_country),
        opt_string_view(q.filter_page),
        opt_string_view(q.filter_referrer),
        opt_string_view(q.filter_browser),
        opt_string_view(q.filter_os),
        opt_string_view(q.filter_device),
        opt_string_view(q.filter_language),
        opt_string_view(q.filter_utm_source),
        opt_string_view(q.filter_utm_medium),
        opt_string_view(q.filter_utm_campaign),
        opt_string_view(q.filter_region),
        opt_string_view(q.filter_city),
        opt_string_view(q.filter_hostname),
    ]
}

/// Message for a depth out of bounds.
pub open spec fn depth_message() -> Seq<char> {
    "max_depth must be between 1 and 5"@
}

/// `r` holds a journey request with these parts.
pub open spec fn journey_built(
    r: Result<JourneyRequest, AppError>,
    a: AnchorType,
    v: Seq<char>,
    d: JourneyDirection,
    depth: u32,
    range: (i32, i32),
    tz: Option<Seq<char>>,
    fs: Seq<Option<Seq<char>>>,
) -> bool {
    r matches Ok(req) && req.anchor_type == a && req.anchor_value@ == v && req.direction == d
        && req.max_depth == depth && req.start_date == range.0 && req.end_date == range.1
        && opt_string_view(req.timezone) == tz && opt_strings_view(req.filters@) == fs
}

fn as_opt_str(o: &Option<String>) -> (r: Option<&str>)
    ensures
        opt_view(r) == opt_string_view(*o),
{
    match o {
        Some(s) => Some(s.as_str()),
        None => None,
    }
}

/// Checks a journey query: anchor type, anchor value, direction, depth
/// (3 by default, within `1..=5`), date range, time zone, then filters.
pub fn journey_request(q: JourneyQueryParams) -> (r: Result<JourneyRequest, AppError>)
    ensures
        match anchor_type_of(opt_string_view(q.anchor_type)) {
            Err(m) => bad_request_with(r, m),
            Ok(a) => match anchor_value_of(opt_string_view(q.anchor_value)) {
                Err(m) => bad_request_with(r, m),
                Ok(v) => match direction_of(opt_string_view(q.direction)) {
                    Err(m) => bad_request_with(r, m),
                    Ok(d) => {
                        let depth = match q.max_depth {
                            Some(x) => x,
                            None => DEFAULT_DEPTH,
                        };
                        if !(1 <= depth <= 5) {
                            bad_request_with(r, depth_message())
                        } else {
                            match required_range_result(
                                opt_string_view(q.start_date),
                                opt_string_view(q.end_date),
                            ) {
                                Err(m) => bad_request_with(r, m),
                                Ok(range) => match timezone_result(opt_string_view(q.timezone)) {
                                    Err(m) => bad_request_with(r, m),
                                    Ok(tz) => match filters_result(
                                        retention_filter_names(),
                                        retention_filter_limits(),
                                        journey_filter_values(q),
                                    ) {
                                        Err(m) => bad_request_with(r, m),
                                        Ok(fs) => journey_built(r, a, v, d, depth, range, tz, fs),
                                    },
                                },
                            }
                        }
                    },
                },
            },
        },
{
    let anchor_type = parse_anchor_type(as_opt_str(&q.anchor_type))?;
    let anchor_value = parse_anchor_value(as_opt_str(&q.anchor_value))?;
    let direction = parse_direction(as_opt_str(&q.direction))?;
    let max_depth = match q.max_depth {
        Some(x) => x,
        None => DEFAULT_DEPTH,
    };
    if max_depth < 1 || max_depth > 5 {
        return Err(bad_request("max_depth must be between 1 and 5"));
    }
    let (start_date, end_date) = parse_required_date_range(
        as_opt_str(&q.start_date),
        as_opt_str(&q.end_date),
    )?;
    let timezone = normalize_timezone_non_empty(as_opt_str(&q.timezone))?;
    let names: Vec<&str> = vec![
        "filter_country",
        "filter_page",
        "filter_referrer",
        "filter_browser",
        "filter_os",
        "filter_device",
        "filter_language",
        "filter_utm_source",
        "filter_utm_medium",
        "filter_utm_campaign",
        "filter_region",
        "filter_city",
        "filter_hostname",
    ];
    let limits: Vec<usize> = vec![64, 512, 512, 128, 128, 64, 64, 256, 256, 256, 128, 128, 255];
    let ghost fv = journey_filter_values(q);
    let values: Vec<Option<String>> = vec![
        q.filter_country,
        q.filter_page,
        q.filter_referrer,
        q.filter_browser,
        q.filter_os,
        q.filter_device,
        q.filter_language,
        q.filter_utm_source,
        q.filter_utm_medium,
        q.filter_utm_campaign,
        q.filter_region,
        q.filter_city,
        q.filter_hostname,
    ];
    assert(str_views(names@) =~= retention_filter_names());
    assert(limits@ =~= retention_filter_limits());
    assert(opt_strings_view(values@) =~= fv);
    let filters = normalize_filters(names.as_slice(), limits.as_slice(), values)?;
    Ok(
        JourneyRequest {
            anchor_type,
            anchor_value,
            direction,
            max_depth,
            start_date,
            end_date,
            timezone,
            filters,
        },
    )
}

fn has_lit(m: &[char], lit: &str) -> (b: bool)
    ensures
        b == contains(m@, lit@),
{
    let l = chars_of(lit);
    contains_exec(m, l.as_slice())
}

/// Answer to a failed journey query, read from the backend's message.
pub fn map_journey_error(message: &str) -> (e: AppError)
    ensures
        contains(message@, "invalid_anchor_value"@) ==> (e matches AppError::BadRequest(m) && m@
            == "anchor_value is required"@),
        !contains(message@, "invalid_anchor_value"@) && (contains(message@, "invalid_timezone"@)
            || contains(message@, "invalid_timezone_transition"@) || contains(
            message@,
            "invalid_date_boundary"@,
        )) ==> (e matches AppError::BadRequest(m) && m@ == "invalid timezone"@),
        !contains(message@, "invalid_anchor_value"@) && !contains(message@, "invalid_timezone"@)
            && !contains(message@, "invalid_timezone_transition"@) && !contains(
            message@,
            "invalid_date_boundary"@,
        ) ==> (e matches AppError::Internal(m) && m@ == message@),
{
    let m = chars_of(message);
    if has_lit(m.as_slice(), "invalid_anchor_value") {
        bad_request("anchor_value is required")
    } else if has_lit(m.as_slice(), "invalid_timezone") || has_lit(
        m.as_slice(),
        "invalid_timezone_transition",
    ) || has_lit(m.as_slice(), "invalid_date_boundary") {
        bad_request("invalid timezone")
    } else {
        AppError::Internal(message.to_owned())
    }
}

} // verus!
