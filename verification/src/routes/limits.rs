//! Ingest limits of a website, and the platform-admin endpoints for plan
//! limits and usage.
use vstd::prelude::*;

use crate::cloud::{
    b64url_decode, decode_b64url, json_claims, parse_token_claims, ORG_CLAIM, ORG_ID_CLAIM, ORG_ROLE_CLAIM,
    USER_CLAIM,
};
use crate::dates::chrono_parse_ymd;
use crate::error::{bad_request, bad_request_chars, bad_request_with, AppError};
use crate::routes::query::{opt_string_view, opt_view};
use crate::text::{
    split_exec, split_parts,
    append_str, before_char, before_char_exec, byte_len, chars_eq, chars_of, has_char,
    has_char_exec, starts_with, starts_with_exec, string_of, sub_chars, trim, trim_chars,
};

verus! {

/// Body of the ingest-limits update: each field absent (unchanged), null
/// (back to the default) or a value.
pub struct UpdateIngestLimitsRequest {
    pub peak_events_per_sec: Option<Option<i64>>,
    pub queue_max_events: Option<Option<i64>>,
}

/// Message of a limit that is not positive.
pub open spec fn positive_message(field: Seq<char>) -> Seq<char> {
    field + " must be > 0"@
}

/// A limit value, which must be positive when set.
pub fn clamp_positive_i64(value: Option<i64>, field: &str) -> (r: Result<Option<i64>, AppError>)
    ensures
        match value {
            None => r == Ok::<Option<i64>, AppError>(None),
            Some(v) => if v <= 0 {
                bad_request_with(r, positive_message(field@))
            } else {
                r == Ok::<Option<i64>, AppError>(Some(v))
            },
        },
{
    let v = match value {
        Some(v) => v,
        None => {
            return Ok(None);
        },
    };
    if v <= 0 {
        let mut m = chars_of(field);
        append_str(&mut m, " must be > 0");
        return Err(bad_request_chars(m.as_slice()));
    }
    Ok(Some(v))
}

/// Outcome of one field of the update.
pub open spec fn field_update(value: Option<Option<i64>>, field: Seq<char>) -> Result<Option<Option<i64>>, Seq<char>> {
    match value {
        None => Ok(None),
        Some(None) => Ok(Some(None)),
        Some(Some(v)) => if v <= 0 {
            Err(positive_message(field))
        } else {
            Ok(Some(Some(v)))
        },
    }
}

impl UpdateIngestLimitsRequest {
    /// Checks the update: at least one field, each set value positive
    /// (peak rate first).
    pub fn validate(&self) -> (r: Result<(Option<Option<i64>>, Option<Option<i64>>), AppError>)
        ensures
            self.peak_events_per_sec is None && self.queue_max_events is None ==> bad_request_with(
                r,
                "at least one ingest limit field must be provided"@,
            ),
            !(self.peak_events_per_sec is None && self.queue_max_events is None) ==> match (
                field_update(self.peak_events_per_sec, "peak_events_per_sec"@),
                field_update(self.queue_max_events, "queue_max_events"@),
            ) {
                (Err(m), _) => bad_request_with(r, m),
                (Ok(_), Err(m)) => bad_request_with(r, m),
                (Ok(p), Ok(q)) => r == Ok::<(Option<Option<i64>>, Option<Option<i64>>), AppError>(
                    (p, q),
                ),
            },
    {
        if self.peak_events_per_sec.is_none() && self.queue_max_events.is_none() {
            return Err(bad_request("at least one ingest limit field must be provided"));
        }
        let peak = match self.peak_events_per_sec {
            Some(v) => Some(clamp_positive_i64(v, "peak_events_per_sec")?),
            None => None,
        };
        let queue = match self.queue_max_events {
            Some(v) => Some(clamp_positive_i64(v, "queue_max_events")?),
            None => None,
        };
        Ok((peak, queue))
    }
}

/// A website's own limit when it has a positive one that fits a `usize`.
pub open spec fn custom_limit(stored: Option<i64>) -> Option<usize> {
    match stored {
        Some(v) if v > 0 && v <= usize::MAX => Some(v as usize),
        _ => None,
    }
}

/// The limit in force: the website's own, else the server default; and
/// whether it is the website's own.
pub fn effective_limit(stored: Option<i64>, default: usize) -> (r: (usize, Option<usize>))
    ensures
        r.1 == custom_limit(stored),
        r.0 == match custom_limit(stored) {
            Some(c) => c,
            None => default,
        },
{
    let custom: Option<usize> = match stored {
        Some(v) => if v > 0 && (v as u64) <= (usize::MAX as u64) {
            Some(v as usize)
        } else {
            None
        },
        None => None,
    };
    match custom {
        Some(c) => (c, custom),
        None => (default, custom),
    }
}

/// Body of a plan-limit update.
pub struct UpdatePlanLimitRequest {
    pub peak_events_per_sec: u32,
    pub monthly_event_limit: u64,
}

/// Body of a tenant override: each field absent, null or a value.
#[derive(Clone, Copy, Debug, PartialEq, Eq, Structural)]
pub struct UpdateTenantOverrideRequest {
    pub peak_events_per_sec: Option<Option<u32>>,
    pub monthly_event_limit: Option<Option<u64>>,
    pub clear: Option<bool>,
}

impl UpdatePlanLimitRequest {
    /// Checks a plan-limit update: both limits positive, the rate first.
    pub fn validate(&self) -> (r: Result<(), AppError>)
        ensures
            self.peak_events_per_sec == 0 ==> bad_request_with(r, "peak_events_per_sec must be > 0"@),
            self.peak_events_per_sec != 0 && self.monthly_event_limit == 0 ==> bad_request_with(
                r,
                "monthly_event_limit must be > 0"@,
            ),
            self.peak_events_per_sec != 0 && self.monthly_event_limit != 0 ==> r is Ok,
    {
        if self.peak_events_per_sec == 0 {
            return Err(bad_request("peak_events_per_sec must be > 0"));
        }
        if self.monthly_event_limit == 0 {
            return Err(bad_request("monthly_event_limit must be > 0"));
        }
        Ok(())
    }
}

/// A tenant's stored override of its plan limits.
#[derive(Clone, Copy, Debug, PartialEq, Eq, Structural)]
pub struct TenantLimitOverride {
    pub peak_events_per_sec: Option<u32>,
    pub monthly_event_limit: Option<u64>,
}

/// What a tenant-override update does to the stored override.
#[derive(Clone, Copy, Debug, PartialEq, Eq, Structural)]
pub enum OverrideAction {
    /// Remove the override: the plan's limits apply again.
    Clear,
    /// Store these limits as the override.
    Upsert(TenantLimitOverride),
}

/// A field of the update merged with the stored override: absent keeps the
/// stored value, null removes it, a value replaces it.
pub open spec fn merged<T>(update: Option<Option<T>>, stored: Option<T>) -> Option<T> {
    match update {
        Some(v) => v,
        None => stored,
    }
}

/// Outcome of a tenant-override update against the stored override.
pub open spec fn override_outcome(
    req: UpdateTenantOverrideRequest,
    existing: Option<TenantLimitOverride>,
) -> Result<OverrideAction, Seq<char>> {
    let stored_peak = match existing {
        Some(o) => o.peak_events_per_sec,
        None => None,
    };
    let stored_monthly = match existing {
        Some(o) => o.monthly_event_limit,
        None => None,
    };
    let peak = merged(req.peak_events_per_sec, stored_peak);
    let monthly = merged(req.monthly_event_limit, stored_monthly);
    if req.clear == Some(true) {
        Ok(OverrideAction::Clear)
    } else if req.peak_events_per_sec is None && req.monthly_event_limit is None {
        Err("at least one override field must be provided"@)
    } else if peak == Some(0u32) {
        Err("peak_events_per_sec must be > 0"@)
    } else if monthly == Some(0u64) {
        Err("monthly_event_limit must be > 0"@)
    } else if peak is None && monthly is None {
        Ok(OverrideAction::Clear)
    } else {
        Ok(OverrideAction::Upsert(TenantLimitOverride { peak_events_per_sec: peak, monthly_event_limit: monthly }))
    }
}

impl UpdateTenantOverrideRequest {
    /// The action when it does not depend on the stored override: `Clear`
    /// when asked for, an error when no field is given; `None` when the
    /// stored override must be read first.
    pub fn immediate_action(&self) -> (r: Result<Option<OverrideAction>, AppError>)
        ensures
            self.clear == Some(true) ==> r == Ok::<Option<OverrideAction>, AppError>(Some(OverrideAction::Clear)),
            self.clear != Some(true) && self.peak_events_per_sec is None && self.monthly_event_limit is None
                ==> bad_request_with(r, "at least one override field must be provided"@),
            self.clear != Some(true) && !(self.peak_events_per_sec is None && self.monthly_event_limit is None)
                ==> r == Ok::<Option<OverrideAction>, AppError>(None),
    {
        if let Some(true) = self.clear {
            return Ok(Some(OverrideAction::Clear));
        }
        if self.peak_events_per_sec.is_none() && self.monthly_event_limit.is_none() {
            return Err(bad_request("at least one override field must be provided"));
        }
        Ok(None)
    }

    /// The action of the update given the stored override: fields left out
    /// keep their stored value; a zero limit is refused; when nothing is
    /// left the override is cleared, else the merged limits are stored.
    pub fn action(&self, existing: Option<TenantLimitOverride>) -> (r: Result<OverrideAction, AppError>)
        ensures
            match override_outcome(*self, existing) {
                Ok(a) => r == Ok::<OverrideAction, AppError>(a),
                Err(m) => bad_request_with(r, m),
            },
    {
        if let Some(true) = self.clear {
            return Ok(OverrideAction::Clear);
        }
        if self.peak_events_per_sec.is_none() && self.monthly_event_limit.is_none() {
            return Err(bad_request("at least one override field must be provided"));
        }
        let stored_peak = match existing {
            Some(o) => o.peak_events_per_sec,
            None => None,
        };
        let stored_monthly = match existing {
            Some(o) => o.monthly_event_limit,
            None => None,
        };
        let peak = match self.peak_events_per_sec {
            Some(v) => v,
            None => stored_peak,
        };
        let monthly = match self.monthly_event_limit {
            Some(v) => v,
            None => stored_monthly,
        };
        if let Some(0) = peak {
            return Err(bad_request("peak_events_per_sec must be > 0"));
        }
        if let Some(0) = monthly {
            return Err(bad_request("monthly_event_limit must be > 0"));
        }
        if peak.is_none() && monthly.is_none() {
            return Ok(OverrideAction::Clear);
        }
        Ok(OverrideAction::Upsert(TenantLimitOverride { peak_events_per_sec: peak, monthly_event_limit: monthly }))
    }
}

/// Query of the usage endpoint.
pub struct UsageQuery {
    pub month: Option<String>,
}

/// Outcome of the month parameter: `YYYY-MM` (seven bytes) must name a
/// month, anything else must be a `YYYY-MM-DD` date.
pub open spec fn month_verdict(month: Option<Seq<char>>) -> Result<(), Seq<char>> {
    match month {
        None => Ok(()),
        Some(raw) => if byte_len(raw) == 7 {
            if chrono_parse_ymd(raw + "-01"@) is Some {
                Ok(())
            } else {
                Err("invalid month format, expected YYYY-MM"@)
            }
        } else if chrono_parse_ymd(raw) is Some {
            Ok(())
        } else {
            Err("invalid month format, expected YYYY-MM or YYYY-MM-DD"@)
        },
    }
}

/// Checks the month of a usage query.
pub fn validate_month_query(month: Option<&str>) -> (r: Result<(), AppError>)
    ensures
        match month_verdict(opt_view(month)) {
            Ok(()) => r is Ok,
            Err(m) => bad_request_with(r, m),
        },
{
    let raw = match month {
        Some(m) => m,
        None => {
            return Ok(());
        },
    };
    if raw.len() == 7 {
        let mut full = chars_of(raw);
        append_str(&mut full, "-01");
        let s = string_of(full.as_slice());
        if crate::dates::parse_ymd(s.as_str()).is_none() {
            return Err(bad_request("invalid month format, expected YYYY-MM"));
        }
        return Ok(());
    }
    if crate::dates::parse_ymd(raw).is_none() {
        return Err(bad_request("invalid month format, expected YYYY-MM or YYYY-MM-DD"));
    }
    Ok(())
}

impl UsageQuery {
    /// Checks the month of the query.
    pub fn validate(&self) -> (r: Result<(), AppError>)
        ensures
            match month_verdict(opt_string_view(self.month)) {
                Ok(()) => r is Ok,
                Err(m) => bad_request_with(r, m),
            },
    {
        validate_month_query(
            match &self.month {
                Some(m) => Some(m.as_str()),
                None => None,
            },
        )
    }
}

/// Subject of a platform admin's token: `Bearer ` and exactly three
/// `.`-separated parts, the middle one decoding to claims with a `sub`.
pub open spec fn bearer_subject(header: Option<Seq<char>>) -> Option<Seq<char>> {
    match header {
        None => None,
        Some(h) => if !starts_with(h, "Bearer "@) {
            None
        } else {
            let parts = split_parts(h.skip(7), '.');
            if parts.len() != 3 {
                None
            } else {
                match b64url_decode(parts[1]) {
                    None => None,
                    Some(bytes) => match json_claims(bytes, USER_CLAIM@, ORG_CLAIM@, ORG_ID_CLAIM@, ORG_ROLE_CLAIM@) {
                        None => None,
                        Some(c) => c.0,
                    },
                }
            }
        },
    }
}

/// Reads the subject of a platform admin's `Authorization` header.
pub fn extract_bearer_subject(header: Option<&str>) -> (r: Result<String, AppError>)
    ensures
        match bearer_subject(opt_view(header)) {
            Some(s) => r matches Ok(x) && x@ == s,
            None => r matches Err(AppError::Unauthorized),
        },
{
    let h = match header {
        Some(h) => h,
        None => {
            return Err(AppError::Unauthorized);
        },
    };
    let hc = chars_of(h);
    let p = chars_of("Bearer ");
    if !starts_with_exec(hc.as_slice(), p.as_slice()) {
        return Err(AppError::Unauthorized);
    }
    proof {
        reveal_strlit("Bearer ");
    }
    let token = sub_chars(hc.as_slice(), 7, hc.len());
    assert(token@ =~= h@.skip(7));
    let parts = split_exec(token.as_slice(), '.');
    if parts.len() != 3 {
        return Err(AppError::Unauthorized);
    }
    assert(parts@[1]@ == split_parts(h@.skip(7), '.')[1]);
    let mid = string_of(parts[1].as_slice());
    let bytes = match decode_b64url(mid.as_str()) {
        Some(b) => b,
        None => {
            return Err(AppError::Unauthorized);
        },
    };
    let claims = match parse_token_claims(bytes.as_slice(), USER_CLAIM, ORG_CLAIM, ORG_ID_CLAIM, ORG_ROLE_CLAIM) {
        Some(c) => c,
        None => {
            return Err(AppError::Unauthorized);
        },
    };
    match claims.sub {
        Some(s) => Ok(s),
        None => Err(AppError::Unauthorized),
    }
}

/// Whether `ids` holds `s`.
pub open spec fn holds(ids: Seq<String>, s: Seq<char>) -> bool {
    exists|i: int| 0 <= i < ids.len() && #[trigger] ids[i]@ == s
}

fn holds_exec(ids: &[String], s: &str) -> (b: bool)
    ensures
        b == holds(ids@, s@),
{
    let sc = chars_of(s);
    let mut i: usize = 0;
    while i < ids.len()
        invariant
            i <= ids@.len(),
            sc@ == s@,
            forall|j: int| 0 <= j < i ==> ids@[j]@ != s@,
        decreases ids@.len() - i,
    {
        let c = chars_of(ids[i].as_str());
        if chars_eq(c.as_slice(), sc.as_slice()) {
            return true;
        }
        i = i + 1;
    }
    false
}

/// Admits a platform admin: only in cloud mode (elsewhere the endpoint
/// does not exist), with a token subject among the configured admins.
pub fn require_platform_admin(is_cloud: bool, header: Option<&str>, admins: &[String]) -> (r: Result<String, AppError>)
    ensures
        !is_cloud ==> (r matches Err(AppError::NotFound(m)) && m@ == "Not found"@),
        is_cloud && bearer_subject(opt_view(header)) is None ==> r matches Err(AppError::Unauthorized),
        is_cloud ==> match bearer_subject(opt_view(header)) {
            Some(s) => if admins@.len() > 0 && holds(admins@, s) {
                r matches Ok(x) && x@ == s
            } else {
                r matches Err(AppError::Forbidden)
            },
            None => true,
        },
{
    if !is_cloud {
        return Err(AppError::NotFound("Not found".to_owned()));
    }
    let subject = extract_bearer_subject(header)?;
    if admins.len() == 0 || !holds_exec(admins, subject.as_str()) {
        return Err(AppError::Forbidden);
    }
    Ok(subject)
}

/// The platform admins named in the setting: its `,`-separated entries,
/// trimmed, without empty ones.
pub open spec fn admin_ids_of(parts: Seq<Seq<char>>) -> Seq<Seq<char>>
    decreases parts.len(),
{
    if parts.len() == 0 {
        Seq::empty()
    } else {
        let rest = admin_ids_of(parts.drop_last());
        let t = trim(parts.last());
        if t.len() > 0 {
            rest.push(t)
        } else {
            rest
        }
    }
}

/// Reads the platform admins' user ids from their setting (none when it
/// is absent).
pub fn platform_admin_ids(raw: Option<&str>) -> (ids: Vec<String>)
    ensures
        ids@.map_values(|s: String| s@) == match raw {
            Some(r) => admin_ids_of(split_parts(r@, ',')),
            None => Seq::empty(),
        },
{
    let mut out: Vec<String> = Vec::new();
    let r = match raw {
        Some(r) => r,
        None => {
            assert(out@.map_values(|s: String| s@) =~= Seq::<Seq<char>>::empty());
            return out;
        },
    };
    let c = chars_of(r);
    let parts = split_exec(c.as_slice(), ',');
    let ghost pv = parts@.map_values(|p: Vec<char>| p@);
    let mut i: usize = 0;
    assert(pv.take(0) =~= Seq::<Seq<char>>::empty());
    assert(out@.map_values(|s: String| s@) =~= Seq::<Seq<char>>::empty());
    while i < parts.len()
        invariant
            i <= parts@.len(),
            pv == parts@.map_values(|p: Vec<char>| p@),
            out@.map_values(|s: String| s@) == admin_ids_of(pv.take(i as int)),
        decreases parts@.len() - i,
    {
        assert(pv.take(i + 1).drop_last() =~= pv.take(i as int));
        assert(pv.take(i + 1).last() == parts@[i as int]@);
        let t = trim_chars(parts[i].as_slice());
        if t.len() > 0 {
            let ghost before = out@.map_values(|s: String| s@);
            out.push(string_of(t.as_slice()));
            assert(out@.map_values(|s: String| s@) =~= before.push(t@));
        }
        i = i + 1;
    }
    assert(pv.take(i as int) =~= pv);
    out
}

} // verus!
