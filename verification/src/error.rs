//! Application errors and the HTTP response each one maps to.
use vstd::prelude::*;

use crate::json::{
    json_insert_null, json_insert_object, json_insert_string, json_map_new, json_nulls, json_object_text, json_objects,
    json_plain, json_strings, json_text,
};

verus! {

/// Application-level errors that map directly to HTTP responses.
#[derive(Debug)]
pub enum AppError {
    NotFound(String),
    BadRequest(String),
    BatchTooLarge(usize),
    Unauthorized,
    Forbidden,
    OrganizationContextRequired,
    SetupRequired,
    Gone,
    MethodNotAllowed,
    RateLimited,
    RateLimitedWithRetry { retry_after_seconds: u64 },
    PayloadTooLarge,
    IngestOverloaded { retry_after_seconds: u64 },
    QueryTimeout { retry_after_seconds: u64 },
    /// Cloud-mode billing gate blocked the request (plan event limit exceeded).
    PlanLimitExceeded,
    Internal(String),
}

/// Status, machine code, message and optional `Retry-After` of an error
/// response; the body is `{"error":{"code","message","field":null}}`.
pub struct ErrorResponse {
    pub status: u16,
    pub code: &'static str,
    pub message: String,
    pub retry_after_seconds: Option<u64>,
}

/// Abstract error response: status, code, message, retry-after.
pub open spec fn response_of(e: AppError) -> (u16, Seq<char>, Seq<char>, Option<u64>) {
    match e {
        AppError::NotFound(msg) => (404, "not_found"@, msg@, None),
        AppError::BadRequest(msg) => (400, "validation_error"@, msg@, None),
        AppError::BatchTooLarge(_) => (
            400,
            "batch_too_large"@,
            "Batch exceeds maximum of 50 events"@,
            None,
        ),
        AppError::Unauthorized => (401, "unauthorized"@, "Unauthorized"@, None),
        AppError::Forbidden => (403, "forbidden"@, "Forbidden"@, None),
        AppError::OrganizationContextRequired => (
            403,
            "organization_context_required"@,
            "Organization context required"@,
            None,
        ),
        AppError::SetupRequired => (
            403,
            "setup_required"@,
            "Admin setup required. POST /api/auth/setup first."@,
            None,
        ),
        AppError::Gone => (410, "gone"@, "Setup already completed"@, None),
        AppError::MethodNotAllowed => (
            405,
            "method_not_allowed"@,
            "Method not allowed for this auth mode"@,
            None,
        ),
        AppError::RateLimited => (429, "rate_limited"@, "Rate limit exceeded"@, None),
        AppError::RateLimitedWithRetry { retry_after_seconds } => (
            429,
            "rate_limited"@,
            "Rate limit exceeded"@,
            Some(retry_after_seconds),
        ),
        AppError::PayloadTooLarge => (400, "payload_too_large"@, "Payload exceeds size limit"@, None),
        AppError::IngestOverloaded { retry_after_seconds } => (
            503,
            "ingest_overloaded"@,
            "Ingestion queue is overloaded, retry later"@,
            Some(retry_after_seconds),
        ),
        AppError::QueryTimeout { retry_after_seconds } => (
            503,
            "query_timeout"@,
            "Query timed out, retry later"@,
            Some(retry_after_seconds),
        ),
        AppError::PlanLimitExceeded => (429, "plan_limit_exceeded"@, "Event limit reached"@, None),
        AppError::Internal(_) => (500, "internal_error"@, "Internal server error"@, None),
    }
}

fn owned(s: &str) -> (r: String)
    ensures
        r@ == s@,
{
    s.to_owned()
}

impl AppError {
    /// The response this error maps to.
    pub fn response(&self) -> (r: ErrorResponse)
        ensures
            (r.status, r.code@, r.message@, r.retry_after_seconds) == response_of(*self),
    {
        match self {
            AppError::NotFound(msg) => ErrorResponse {
                status: 404,
                code: "not_found",
                message: msg.clone(),
                retry_after_seconds: None,
            },
            AppError::BadRequest(msg) => ErrorResponse {
                status: 400,
                code: "validation_error",
                message: msg.clone(),
                retry_after_seconds: None,
            },
            AppError::BatchTooLarge(_) => ErrorResponse {
                status: 400,
                code: "batch_too_large",
                message: owned("Batch exceeds maximum of 50 events"),
                retry_after_seconds: None,
            },
            AppError::Unauthorized => ErrorResponse {
                status: 401,
                code: "unauthorized",
                message: owned("Unauthorized"),
                retry_after_seconds: None,
            },
            AppError::Forbidden => ErrorResponse {
                status: 403,
                code: "forbidden",
                message: owned("Forbidden"),
                retry_after_seconds: None,
            },
            AppError::OrganizationContextRequired => ErrorResponse {
                status: 403,
                code: "organization_context_required",
                message: owned("Organization context required"),
                retry_after_seconds: None,
            },
            AppError::SetupRequired => ErrorResponse {
                status: 403,
                code: "setup_required",
                message: owned("Admin setup required. POST /api/auth/setup first."),
                retry_after_seconds: None,
            },
            AppError::Gone => ErrorResponse {
                status: 410,
                code: "gone",
                message: owned("Setup already completed"),
                retry_after_seconds: None,
            },
            AppError::MethodNotAllowed => ErrorResponse {
                status: 405,
                code: "method_not_allowed",
                message: owned("Method not allowed for this auth mode"),
                retry_after_seconds: None,
            },
            AppError::RateLimited => ErrorResponse {
                status: 429,
                code: "rate_limited",
                message: owned("Rate limit exceeded"),
                retry_after_seconds: None,
            },
            AppError::RateLimitedWithRetry { retry_after_seconds } => ErrorResponse {
                status: 429,
                code: "rate_limited",
                message: owned("Rate limit exceeded"),
                retry_after_seconds: Some(*retry_after_seconds),
            },
            AppError::PayloadTooLarge => ErrorResponse {
                status: 400,
                code: "payload_too_large",
                message: owned("Payload exceeds size limit"),
                retry_after_seconds: None,
            },
            AppError::IngestOverloaded { retry_after_seconds } => ErrorResponse {
                status: 503,
                code: "ingest_overloaded",
                message: owned("Ingestion queue is overloaded, retry later"),
                retry_after_seconds: Some(*retry_after_seconds),
            },
            AppError::QueryTimeout { retry_after_seconds } => ErrorResponse {
                status: 503,
                code: "query_timeout",
                message: owned("Query timed out, retry later"),
                retry_after_seconds: Some(*retry_after_seconds),
            },
            AppError::PlanLimitExceeded => ErrorResponse {
                status: 429,
                code: "plan_limit_exceeded",
                message: owned("Event limit reached"),
                retry_after_seconds: None,
            },
            AppError::Internal(_) => ErrorResponse {
                status: 500,
                code: "internal_error",
                message: owned("Internal server error"),
                retry_after_seconds: None,
            },
        }
    }
}

/// `r` failed with a `BadRequest` carrying exactly `msg`.
pub open spec fn bad_request_with<T>(r: Result<T, AppError>, msg: Seq<char>) -> bool {
    match r {
        Err(AppError::BadRequest(m)) => m@ == msg,
        _ => false,
    }
}

/// A `BadRequest` error with the given message.
pub fn bad_request(msg: &str) -> (e: AppError)
    ensures
        e matches AppError::BadRequest(m) && m@ == msg@,
{
    AppError::BadRequest(msg.to_owned())
}

/// A `BadRequest` error with a message held as characters.
pub fn bad_request_chars(msg: &[char]) -> (e: AppError)
    ensures
        e matches AppError::BadRequest(m) && m@ == msg@,
{
    AppError::BadRequest(crate::text::string_of(msg))
}

/// The `Retry-After` header of an error response, when the error carries a
/// retry delay: its name and the delay in decimal seconds.
pub fn retry_after_header(e: &AppError) -> (h: Option<(String, String)>)
    ensures
        match response_of(*e).3 {
            Some(secs) => h matches Some((n, v)) && n@ == "retry-after"@ && v@ == crate::ratelimit::decimal(
                secs as nat,
            ),
            None => h is None,
        },
{
    let r = e.response();
    match r.retry_after_seconds {
        Some(secs) => {
            let digits = crate::ratelimit::u64_decimal(secs);
            Some((owned("retry-after"), crate::text::string_of(digits.as_slice())))
        },
        None => None,
    }
}

/// The JSON body of an error response:
/// `{"error":{"code":<code>,"field":null,"message":<message>}}`.
pub open spec fn error_body_of(code: Seq<char>, message: Seq<char>) -> Seq<char> {
    json_object_text(
        Map::<Seq<char>, Seq<char>>::empty(),
        Set::<Seq<char>>::empty(),
        Map::<Seq<char>, (Map<Seq<char>, Seq<char>>, Set<Seq<char>>)>::empty().insert(
            "error"@,
            (
                Map::<Seq<char>, Seq<char>>::empty().insert("code"@, code).insert("message"@, message).remove(
                    "field"@,
                ),
                Set::<Seq<char>>::empty().remove("code"@).remove("message"@).insert("field"@),
            ),
        ),
    )
}

/// The JSON body of the response an error maps to.
pub fn error_body(e: &AppError) -> (body: String)
    ensures
        body@ == error_body_of(response_of(*e).1, response_of(*e).2),
{
    let r = e.response();
    let mut inner = json_map_new();
    json_insert_string(&mut inner, "code", r.code);
    json_insert_string(&mut inner, "message", r.message.as_str());
    json_insert_null(&mut inner, "field");
    proof {
        assert(json_objects(inner) =~= Map::<Seq<char>, (Map<Seq<char>, Seq<char>>, Set<Seq<char>>)>::empty());
    }
    let mut outer = json_map_new();
    json_insert_object(&mut outer, "error", inner);
    proof {
        assert(json_strings(outer) =~= Map::<Seq<char>, Seq<char>>::empty());
        assert(json_nulls(outer) =~= Set::<Seq<char>>::empty());
    }
    json_text(&outer)
}

} // verus!
