//! Shared query-parameter parsing: date ranges, time zones, optional
//! filters and booleans.
use vstd::prelude::*;

use crate::dates::{
    chrono_parse_ymd, day_in_range, parse_ymd, today_in_timezone, today_utc, EPOCH_EVE_DAY,
    MAX_DAY, MIN_DAY,
};
use crate::error::{bad_request, bad_request_chars, bad_request_with, AppError};
use crate::text::{append_str, byte_len, chars_byte_len, chars_eq, chars_of, lower, lower_chars, string_of, trim, trim_str};

verus! {

/// Day parsed from trimmed text, if `chrono` accepts it.
pub open spec fn lenient_day(raw: Seq<char>) -> Option<i32> {
    chrono_parse_ymd(trim(raw))
}

/// Parses a `YYYY-MM-DD` date after trimming; `None` when it does not parse.
pub fn parse_date_lenient(raw: &str) -> (r: Option<i32>)
    ensures
        r == lenient_day(raw@),
{
    let t = trim_str(raw);
    let s = string_of(t.as_slice());
    parse_ymd(s.as_str())
}

/// Message for a date that does not parse.
pub open spec fn invalid_date_message(field: Seq<char>) -> Seq<char> {
    "invalid "@ + field + " (expected YYYY-MM-DD)"@
}

/// Parses a required `YYYY-MM-DD` date after trimming.
pub fn parse_strict_date(raw: &str, field: &str) -> (r: Result<i32, AppError>)
    ensures
        match lenient_day(raw@) {
            Some(d) => r == Ok::<i32, AppError>(d),
            None => bad_request_with(r, invalid_date_message(field@)),
        },
{
    match parse_date_lenient(raw) {
        Some(d) => Ok(d),
        None => {
            let mut m: Vec<char> = Vec::new();
            append_str(&mut m, "invalid ");
            append_str(&mut m, field);
            append_str(&mut m, " (expected YYYY-MM-DD)");
            Err(bad_request_chars(m.as_slice()))
        },
    }
}

/// Message of a reversed range.
pub open spec fn order_message() -> Seq<char> {
    "end_date must be on or after start_date"@
}

/// Rejects a range whose end precedes its start.
pub fn validate_date_order(start: i32, end: i32) -> (r: Result<(), AppError>)
    ensures
        end < start <==> r is Err,
        r is Err ==> bad_request_with(r, order_message()),
{
    if end < start {
        return Err(bad_request("end_date must be on or after start_date"));
    }
    Ok(())
}

/// Range with defaults (`today - lookback` .. `today`) for absent or
/// unparsable bounds, rejected when reversed.
pub open spec fn lenient_range(
    start: Option<Seq<char>>,
    end: Option<Seq<char>>,
    lookback: i64,
    today: i32,
) -> (i32, i32) {
    let s = match start {
        Some(raw) => match lenient_day(raw) {
            Some(d) => d,
            None => (today - lookback) as i32,
        },
        None => (today - lookback) as i32,
    };
    let e = match end {
        Some(raw) => match lenient_day(raw) {
            Some(d) => d,
            None => today,
        },
        None => today,
    };
    (s, e)
}

/// A bound that parses is taken as given; the start falls back to
/// `lookback` days before `today` and the end to `today` only when the
/// bound is absent or does not parse.
pub proof fn lemma_lenient_range_uses_given_bounds(
    start: Option<Seq<char>>,
    end: Option<Seq<char>>,
    lookback: i64,
    today: i32,
)
    ensures
        start is Some && lenient_day(start->0) is Some ==> lenient_range(
            start,
            end,
            lookback,
            today,
        ).0 == lenient_day(start->0)->0,
        end is Some && lenient_day(end->0) is Some ==> lenient_range(
            start,
            end,
            lookback,
            today,
        ).1 == lenient_day(end->0)->0,
        (start is None || lenient_day(start->0) is None) ==> lenient_range(
            start,
            end,
            lookback,
            today,
        ).0 == (today - lookback) as i32,
        (end is None || lenient_day(end->0) is None) ==> lenient_range(
            start,
            end,
            lookback,
            today,
        ).1 == today,
{
}

/// View of an optional string slice.
pub open spec fn opt_view(s: Option<&str>) -> Option<Seq<char>> {
    match s {
        Some(x) => Some(x@),
        None => None,
    }
}

/// Date range that ignores bounds which do not parse, falling back to the
/// `lookback` days before `today` and to `today`; reversed ranges are rejected.
pub fn parse_defaulted_date_range_lenient_at(
    start_date: Option<&str>,
    end_date: Option<&str>,
    default_lookback_days: i64,
    today: i32,
) -> (r: Result<(i32, i32), AppError>)
    requires
        day_in_range(today as int),
        day_in_range(today - default_lookback_days),
    ensures
        ({
            let (s, e) = lenient_range(
                opt_view(start_date),
                opt_view(end_date),
                default_lookback_days,
                today,
            );
            &&& e >= s ==> r == Ok::<(i32, i32), AppError>((s, e))
            &&& e < s ==> bad_request_with(r, order_message())
        }),
        start_date is Some && end_date is Some && lenient_day(start_date->0@) is Some
            && lenient_day(end_date->0@) is Some && lenient_day(start_date->0@)->0 <= lenient_day(
            end_date->0@,
        )->0 ==> r == Ok::<(i32, i32), AppError>(
            (lenient_day(start_date->0@)->0, lenient_day(end_date->0@)->0),
        ),
        start_date is Some && lenient_day(start_date->0@) is Some && r is Ok ==> r->Ok_0.0
            == lenient_day(start_date->0@)->0,
        (start_date is None || lenient_day(start_date->0@) is None) && r is Ok ==> r->Ok_0.0 == (
        today - default_lookback_days) as i32,
{
    let fallback = (today as i64 - default_lookback_days) as i32;
    let start = match start_date {
        Some(raw) => match parse_date_lenient(raw) {
            Some(d) => d,
            None => fallback,
        },
        None => fallback,
    };
    let end = match end_date {
        Some(raw) => match parse_date_lenient(raw) {
            Some(d) => d,
            None => today,
        },
        None => today,
    };
    validate_date_order(start, end)?;
    Ok((start, end))
}

/// [`parse_defaulted_date_range_lenient_at`] with today's UTC date from the
/// system clock.
pub fn parse_defaulted_date_range_lenient(
    start_date: Option<&str>,
    end_date: Option<&str>,
    default_lookback_days: i64,
) -> (r: Result<(i32, i32), AppError>)
    requires
        0 <= default_lookback_days <= EPOCH_EVE_DAY - MIN_DAY,
    ensures
        exists|today: i32|
            EPOCH_EVE_DAY <= today <= MAX_DAY && {
                let (s, e) = #[trigger] lenient_range(
                    opt_view(start_date),
                    opt_view(end_date),
                    default_lookback_days,
                    today,
                );
                &&& e >= s ==> r == Ok::<(i32, i32), AppError>((s, e))
                &&& e < s ==> bad_request_with(r, order_message())
            },
{
    let today = today_utc();
    let r = parse_defaulted_date_range_lenient_at(
        start_date,
        end_date,
        default_lookback_days,
        today,
    );
    assert(EPOCH_EVE_DAY <= today <= MAX_DAY && {
        let (s, e) = lenient_range(
            opt_view(start_date),
            opt_view(end_date),
            default_lookback_days,
            today,
        );
        &&& e >= s ==> r == Ok::<(i32, i32), AppError>((s, e))
        &&& e < s ==> bad_request_with(r, order_message())
    });
    r
}

/// Date range with defaults for absent bounds; present bounds must parse
/// (`start_date`, then `end_date`), and reversed ranges are rejected.
pub fn parse_defaulted_date_range_strict(
    start_date: Option<&str>,
    end_date: Option<&str>,
    default_today: i32,
    default_lookback_days: i64,
) -> (r: Result<(i32, i32), AppError>)
    requires
        day_in_range(default_today as int),
        day_in_range(default_today - default_lookback_days),
    ensures
        ({
            let start_bad = start_date is Some && lenient_day(start_date.unwrap()@) is None;
            let end_bad = end_date is Some && lenient_day(end_date.unwrap()@) is None;
            let s = match start_date {
                Some(raw) => lenient_day(raw@).unwrap(),
                None => (default_today - default_lookback_days) as i32,
            };
            let e = match end_date {
                Some(raw) => lenient_day(raw@).unwrap(),
                None => default_today,
            };
            &&& start_bad ==> bad_request_with(r, invalid_date_message("start_date"@))
            &&& !start_bad && end_bad ==> bad_request_with(r, invalid_date_message("end_date"@))
            &&& !start_bad && !end_bad && e < s ==> bad_request_with(r, order_message())
            &&& !start_bad && !end_bad && e >= s ==> r == Ok::<(i32, i32), AppError>((s, e))
        }),
{
    let start = match start_date {
        Some(raw) => parse_strict_date(raw, "start_date")?,
        None => (default_today as i64 - default_lookback_days) as i32,
    };
    let end = match end_date {
        Some(raw) => parse_strict_date(raw, "end_date")?,
        None => default_today,
    };
    validate_date_order(start, end)?;
    Ok((start, end))
}

/// Message for a missing bound.
pub open spec fn required_message(field: Seq<char>) -> Seq<char> {
    field + " is required"@
}

/// A range whose bounds must both be present and parse, in order.
pub open spec fn required_range_result(start: Option<Seq<char>>, end: Option<Seq<char>>) -> Result<
    (i32, i32),
    Seq<char>,
> {
    match (start, end) {
        (None, _) => Err("start_date is required"@),
        (Some(_), None) => Err("end_date is required"@),
        (Some(a), Some(b)) => match (lenient_day(a), lenient_day(b)) {
            (None, _) => Err(invalid_date_message("start_date"@)),
            (Some(_), None) => Err(invalid_date_message("end_date"@)),
            (Some(s), Some(e)) => if e < s {
                Err(order_message())
            } else {
                Ok((s, e))
            },
        },
    }
}

/// Relates a date-range result to its abstract outcome (message of a
/// `BadRequest` on error).
pub open spec fn range_matches(r: Result<(i32, i32), AppError>, x: Result<(i32, i32), Seq<char>>) -> bool {
    match x {
        Ok(v) => r == Ok::<(i32, i32), AppError>(v),
        Err(msg) => bad_request_with(r, msg),
    }
}

/// A range whose bounds are both required.
pub fn parse_required_date_range(start_date: Option<&str>, end_date: Option<&str>) -> (r: Result<
    (i32, i32),
    AppError,
>)
    ensures
        range_matches(r, required_range_result(opt_view(start_date), opt_view(end_date))),
{
    let start_raw = match start_date {
        Some(s) => s,
        None => {
            return Err(bad_request("start_date is required"));
        },
    };
    let end_raw = match end_date {
        Some(e) => e,
        None => {
            return Err(bad_request("end_date is required"));
        },
    };
    let start = parse_strict_date(start_raw, "start_date")?;
    let end = parse_strict_date(end_raw, "end_date")?;
    validate_date_order(start, end)?;
    Ok((start, end))
}

/// Today's date in the given zone, UTC when the zone is absent or blank.
pub fn today_for_optional_timezone(timezone: Option<&str>) -> (r: Result<i32, AppError>)
    ensures
        match timezone {
            Some(raw) if trim(raw@).len() > 0 => {
                &&& r is Ok <==> crate::dates::chrono_tz_parses(trim(raw@))
                &&& r is Err ==> bad_request_with(r, "invalid timezone"@)
            },
            _ => r is Ok,
        },
        r matches Ok(d) ==> EPOCH_EVE_DAY <= d <= MAX_DAY,
{
    match timezone {
        None => Ok(today_utc()),
        Some(raw) => {
            let t = trim_str(raw);
            if t.len() == 0 {
                return Ok(today_utc());
            }
            let s = string_of(t.as_slice());
            match today_in_timezone(s.as_str()) {
                Some(d) => Ok(d),
                None => Err(bad_request("invalid timezone")),
            }
        },
    }
}

/// A provided time zone, trimmed; blank is rejected.
pub fn normalize_timezone_non_empty(timezone: Option<&str>) -> (r: Result<Option<String>, AppError>)
    ensures
        match timezone {
            None => r matches Ok(None),
            Some(raw) => if trim(raw@).len() == 0 {
                bad_request_with(r, "timezone cannot be empty when provided"@)
            } else {
                r matches Ok(Some(t)) && t@ == trim(raw@)
            },
        },
{
    match timezone {
        Some(raw) => {
            let t = trim_str(raw);
            if t.len() == 0 {
                return Err(bad_request("timezone cannot be empty when provided"));
            }
            Ok(Some(string_of(t.as_slice())))
        },
        None => Ok(None),
    }
}

/// Outcome of normalizing an optional filter: absent, rejected with a
/// message, or the trimmed value.
pub open spec fn optional_filter_result(field: Seq<char>, value: Option<Seq<char>>, max_len: usize) -> Result<
    Option<Seq<char>>,
    Seq<char>,
> {
    match value {
        None => Ok(None),
        Some(raw) => {
            let t = trim(raw);
            if t.len() == 0 {
                Err(field + " cannot be empty when provided"@)
            } else if byte_len(t) > max_len {
                Err(field + " is too long (max "@ + crate::ratelimit::decimal(max_len as nat)
                    + " characters)"@)
            } else {
                Ok(Some(t))
            }
        },
    }
}

/// View of an optional owned string.
pub open spec fn opt_string_view(s: Option<String>) -> Option<Seq<char>> {
    match s {
        Some(x) => Some(x@),
        None => None,
    }
}

/// Relates a normalized filter to its abstract outcome.
pub open spec fn filter_matches(r: Result<Option<String>, AppError>, x: Result<Option<Seq<char>>, Seq<char>>) -> bool {
    match x {
        Ok(None) => r matches Ok(None),
        Ok(Some(v)) => r matches Ok(Some(t)) && t@ == v,
        Err(msg) => bad_request_with(r, msg),
    }
}

/// An optional filter value: trimmed, non-blank, at most `max_len` bytes.
pub fn normalize_optional_filter(field: &str, value: Option<String>, max_len: usize) -> (r: Result<
    Option<String>,
    AppError,
>)
    ensures
        filter_matches(r, optional_filter_result(field@, opt_string_view(value), max_len)),
{
    if let Some(raw) = value {
        let t = trim_str(raw.as_str());
        if t.len() == 0 {
            let mut m = chars_of(field);
            append_str(&mut m, " cannot be empty when provided");
            return Err(bad_request_chars(m.as_slice()));
        }
        if chars_byte_len(t.as_slice()) > max_len {
            let mut m = chars_of(field);
            append_str(&mut m, " is too long (max ");
            let digits = crate::ratelimit::u64_decimal(max_len as u64);
            crate::text::append_chars(&mut m, digits.as_slice());
            append_str(&mut m, " characters)");
            return Err(bad_request_chars(m.as_slice()));
        }
        return Ok(Some(string_of(t.as_slice())));
    }
    Ok(None)
}

/// Boolean spellings accepted in query strings, after trimming and ASCII
/// lower-casing: `true`/`1` and `false`/`0`.
pub open spec fn bool_spelling(raw: Seq<char>) -> Option<bool> {
    let v = lower(trim(raw));
    if v == "true"@ || v == "1"@ {
        Some(true)
    } else if v == "false"@ || v == "0"@ {
        Some(false)
    } else {
        None
    }
}

fn eq_lit(v: &[char], lit: &str) -> (b: bool)
    ensures
        b == (v@ == lit@),
{
    let l = chars_of(lit);
    chars_eq(v, l.as_slice())
}

/// An optional boolean query parameter.
pub fn parse_optional_bool(value: Option<&str>, field: &str) -> (r: Result<Option<bool>, AppError>)
    ensures
        match value {
            None => r matches Ok(None),
            Some(raw) => match bool_spelling(raw@) {
                Some(b) => r matches Ok(Some(x)) && x == b,
                None => bad_request_with(r, field@
                    + " must be one of: true, false, 1, 0"@),
            },
        },
{
    let raw = match value {
        Some(raw) => raw,
        None => {
            return Ok(None);
        },
    };
    let t = trim_str(raw);
    let v = lower_chars(t.as_slice());
    if eq_lit(v.as_slice(), "true") || eq_lit(v.as_slice(), "1") {
        Ok(Some(true))
    } else if eq_lit(v.as_slice(), "false") || eq_lit(v.as_slice(), "0") {
        Ok(Some(false))
    } else {
        let mut m = chars_of(field);
        append_str(&mut m, " must be one of: true, false, 1, 0");
        Err(bad_request_chars(m.as_slice()))
    }
}

/// Message for a range longer than allowed.
pub open spec fn span_message(field_name: Seq<char>, range_days: int, max_days: i64) -> Seq<char> {
    field_name + " too large: "@ + crate::ratelimit::decimal(range_days as nat) + " days (max "@
        + crate::ratelimit::decimal(max_days as nat) + ")"@
}

/// Rejects a range of more than `max_days` days (both ends counted).
pub fn validate_date_span(start: i32, end: i32, max_days: i64, field_name: &str) -> (r: Result<
    (),
    AppError,
>)
    requires
        start <= end,
        max_days >= 0,
    ensures
        r is Err <==> end - start + 1 > max_days,
        r is Err ==> bad_request_with(r, span_message(field_name@, end - start + 1, max_days)),
{
    let range_days = (end as i64) - (start as i64) + 1;
    if range_days > max_days {
        let mut m = chars_of(field_name);
        append_str(&mut m, " too large: ");
        let d = crate::ratelimit::u64_decimal(range_days as u64);
        crate::text::append_chars(&mut m, d.as_slice());
        append_str(&mut m, " days (max ");
        let d2 = crate::ratelimit::u64_decimal(max_days as u64);
        crate::text::append_chars(&mut m, d2.as_slice());
        append_str(&mut m, ")");
        return Err(bad_request_chars(m.as_slice()));
    }
    Ok(())
}

/// Outcome of a name check: a blank name gets `empty_msg`, a name of more
/// than `max` bytes gets `long_msg`.
pub open spec fn name_verdict(name: Seq<char>, empty_msg: Seq<char>, max: usize, long_msg: Seq<char>) -> Result<
    (),
    Seq<char>,
> {
    if trim(name).len() == 0 {
        Err(empty_msg)
    } else if byte_len(name) > max {
        Err(long_msg)
    } else {
        Ok(())
    }
}

/// Relates a check's result to its abstract verdict.
pub open spec fn verdict_matches(r: Result<(), AppError>, v: Result<(), Seq<char>>) -> bool {
    match v {
        Ok(()) => r is Ok,
        Err(m) => bad_request_with(r, m),
    }
}

/// Checks a display name: not blank and at most `max` bytes long.
pub fn check_name(name: &str, empty_msg: &str, max: usize, long_msg: &str) -> (r: Result<
    (),
    AppError,
>)
    ensures
        verdict_matches(r, name_verdict(name@, empty_msg@, max, long_msg@)),
{
    let t = trim_str(name);
    if t.len() == 0 {
        return Err(bad_request(empty_msg));
    }
    if name.len() > max {
        return Err(bad_request(long_msg));
    }
    Ok(())
}

/// Views of a list of string slices.
pub open spec fn str_views(v: Seq<&str>) -> Seq<Seq<char>> {
    v.map_values(|x: &str| x@)
}

/// Views of a list of optional owned strings.
pub open spec fn opt_strings_view(v: Seq<Option<String>>) -> Seq<Option<Seq<char>>> {
    v.map_values(|x: Option<String>| opt_string_view(x))
}

/// Outcome of normalizing a list of optional filters in order (field
/// `names[i]`, at most `maxes[i]` bytes): the first failure decides the
/// error, otherwise every value is normalized.
pub open spec fn filters_result(
    names: Seq<Seq<char>>,
    maxes: Seq<usize>,
    values: Seq<Option<Seq<char>>>,
) -> Result<Seq<Option<Seq<char>>>, Seq<char>>
    decreases values.len(),
{
    if values.len() == 0 {
        Ok(Seq::empty())
    } else {
        let k = values.len() - 1;
        match filters_result(names.take(k), maxes.take(k), values.take(k)) {
            Err(m) => Err(m),
            Ok(done) => match optional_filter_result(names[k], values[k], maxes[k]) {
                Err(m) => Err(m),
                Ok(v) => Ok(done.push(v)),
            },
        }
    }
}

/// Normalizes several optional filters in order with
/// [`normalize_optional_filter`].
pub fn normalize_filters(names: &[&str], maxes: &[usize], values: Vec<Option<String>>) -> (r: Result<
    Vec<Option<String>>,
    AppError,
>)
    requires
        names@.len() == values@.len(),
        maxes@.len() == values@.len(),
    ensures
        match filters_result(
            str_views(names@),
            maxes@,
            opt_strings_view(values@),
        ) {
            Ok(vs) => r matches Ok(out) && opt_strings_view(out@) == vs,
            Err(m) => bad_request_with(r, m),
        },
{
    let ghost nv = str_views(names@);
    let ghost vv = opt_strings_view(values@);
    let n = values.len();
    let mut out: Vec<Option<String>> = Vec::new();
    let mut i: usize = 0;
    proof {
        assert(nv.take(0) =~= Seq::<Seq<char>>::empty());
        assert(maxes@.take(0) =~= Seq::<usize>::empty());
        assert(vv.take(0) =~= Seq::<Option<Seq<char>>>::empty());
        assert(opt_strings_view(out@) =~= Seq::<Option<Seq<char>>>::empty());
    }
    while i < n
        invariant
            n == values@.len(),
            names@.len() == n,
            maxes@.len() == n,
            i <= n,
            nv == str_views(names@),
            vv == opt_strings_view(values@),
            filters_result(nv.take(i as int), maxes@.take(i as int), vv.take(i as int))
                == Ok::<Seq<Option<Seq<char>>>, Seq<char>>(opt_strings_view(out@)),
        decreases n - i,
    {
        let v = values[i].clone();
        assert(opt_string_view(v) == vv[i as int]);
        let nr = normalize_optional_filter(names[i], v, maxes[i]);
        proof {
            let k = i as int;
            assert(nv.take(k + 1).take(k) =~= nv.take(k));
            assert(maxes@.take(k + 1).take(k) =~= maxes@.take(k));
            assert(vv.take(k + 1).take(k) =~= vv.take(k));
            assert(nv.take(k + 1)[k] == names@[k]@);
            assert(vv.take(k + 1)[k] == vv[k]);
        }
        match nr {
            Err(e) => {
                proof {
                    let k = i as int;
                    let om = optional_filter_result(nv[k], vv[k], maxes@[k]);
                    assert(om is Err);
                    let m = om->Err_0;
                    assert(bad_request_with(Err::<Option<String>, AppError>(e), m));
                    assert(filters_result(nv.take(k + 1), maxes@.take(k + 1), vv.take(k + 1))
                        == Err::<Seq<Option<Seq<char>>>, Seq<char>>(m));
                    lemma_filters_err_extends(nv, maxes@, vv, k + 1);
                    assert(filters_result(nv, maxes@, vv) == Err::<Seq<Option<Seq<char>>>, Seq<char>>(m));
                    assert(bad_request_with(Err::<Vec<Option<String>>, AppError>(e), m));
                }
                return Err(e);
            },
            Ok(x) => {
                let ghost before = opt_strings_view(out@);
                out.push(x);
                assert(opt_strings_view(out@) =~= before.push(opt_string_view(x)));
            },
        }
        i = i + 1;
    }
    proof {
        assert(nv.take(n as int) =~= nv);
        assert(maxes@.take(n as int) =~= maxes@);
        assert(vv.take(n as int) =~= vv);
    }
    Ok(out)
}

/// Once a prefix of the filters fails, every longer prefix fails with the
/// same message.
proof fn lemma_filters_err_extends(
    names: Seq<Seq<char>>,
    maxes: Seq<usize>,
    values: Seq<Option<Seq<char>>>,
    k: int,
)
    requires
        0 <= k <= values.len(),
        names.len() == values.len(),
        maxes.len() == values.len(),
        filters_result(names.take(k), maxes.take(k), values.take(k)) is Err,
    ensures
        filters_result(names, maxes, values) == filters_result(
            names.take(k),
            maxes.take(k),
            values.take(k),
        ),
    decreases values.len() - k,
{
    if k < values.len() {
        let k1 = k + 1;
        assert(names.take(k1).take(k) =~= names.take(k));
        assert(maxes.take(k1).take(k) =~= maxes.take(k));
        assert(values.take(k1).take(k) =~= values.take(k));
        lemma_filters_err_extends(names, maxes, values, k1);
    } else {
        assert(names.take(k) =~= names);
        assert(maxes.take(k) =~= maxes);
        assert(values.take(k) =~= values);
    }
}

/// Filter handed to the analytics backend: date range, time zone,
/// dimension filters and whether bots are counted.
#[derive(Debug)]
pub struct AnalyticsFilter {
    pub start_date: i32,
    pub end_date: i32,
    pub timezone: Option<String>,
    pub filter_country: Option<String>,
    pub filter_page: Option<String>,
    pub filter_referrer: Option<String>,
    pub filter_browser: Option<String>,
    pub filter_os: Option<String>,
    pub filter_device: Option<String>,
    pub filter_language: Option<String>,
    pub filter_utm_source: Option<String>,
    pub filter_utm_medium: Option<String>,
    pub filter_utm_campaign: Option<String>,
    pub filter_region: Option<String>,
    pub filter_city: Option<String>,
    pub filter_hostname: Option<String>,
    pub include_bots: bool,
}

} // verus!
