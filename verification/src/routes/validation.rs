//! `422 Unprocessable Entity` answers of the goal and funnel endpoints and
//! the text checks that produce them.
use vstd::prelude::*;

use crate::text::{byte_len, trim, trim_str};

verus! {

/// A request rejected as unprocessable: machine code, message, and the
/// field at fault.
#[derive(Debug)]
pub struct ValidationFailure {
    pub code: &'static str,
    pub message: &'static str,
    pub field: Option<&'static str>,
}

/// `r` was rejected with exactly this code, message and field.
pub open spec fn failed_as(
    r: Result<(), ValidationFailure>,
    code: Seq<char>,
    message: Seq<char>,
    field: Seq<char>,
) -> bool {
    match r {
        Err(f) => f.code@ == code && f.message@ == message && (f.field matches Some(x) && x@
            == field),
        Ok(_) => false,
    }
}

/// Outcome of a text check: blank text gets `empty_msg`, text of more
/// than `max` bytes gets `long_msg`.
pub open spec fn text_verdict(value: Seq<char>, max: usize, empty_msg: Seq<char>, long_msg: Seq<char>) -> Result<
    (),
    Seq<char>,
> {
    if trim(value).len() == 0 {
        Err(empty_msg)
    } else if byte_len(value) > max {
        Err(long_msg)
    } else {
        Ok(())
    }
}

/// Relates a check's result to its verdict for a field.
pub open spec fn verdict_for(r: Result<(), ValidationFailure>, v: Result<(), Seq<char>>, field: Seq<char>) -> bool {
    match v {
        Ok(()) => r is Ok,
        Err(m) => failed_as(r, "validation_error"@, m, field),
    }
}

/// Checks one text field: not blank, at most `max` bytes.
pub fn check_text(
    value: &str,
    field: &'static str,
    max: usize,
    empty_msg: &'static str,
    long_msg: &'static str,
) -> (r: Result<(), ValidationFailure>)
    ensures
        verdict_for(r, text_verdict(value@, max, empty_msg@, long_msg@), field@),
{
    let t = trim_str(value);
    if t.len() == 0 {
        return Err(ValidationFailure { code: "validation_error", message: empty_msg, field: Some(field) });
    }
    if value.len() > max {
        return Err(ValidationFailure { code: "validation_error", message: long_msg, field: Some(field) });
    }
    Ok(())
}

/// Checks an entity name: not blank, at most 100 bytes.
pub fn validate_entity_name(name: &str) -> (r: Result<(), ValidationFailure>)
    ensures
        verdict_for(
            r,
            text_verdict(
                name@,
                100,
                "name must not be empty"@,
                "name must be 100 characters or fewer"@,
            ),
            "name"@,
        ),
{
    check_text(name, "name", 100, "name must not be empty", "name must be 100 characters or fewer")
}

/// Checks a match value: not blank, at most 500 bytes.
pub fn validate_match_value(match_value: &str) -> (r: Result<(), ValidationFailure>)
    ensures
        verdict_for(
            r,
            text_verdict(
                match_value@,
                500,
                "match_value must not be empty"@,
                "match_value must be 500 characters or fewer"@,
            ),
            "match_value"@,
        ),
{
    check_text(
        match_value,
        "match_value",
        500,
        "match_value must not be empty",
        "match_value must be 500 characters or fewer",
    )
}

} // verus!
