//! Runtime tuning of the server: queue, retry and cache limits read from
//! environment settings, each falling back to its default unless it is a
//! positive number.
use vstd::prelude::*;

use crate::routes::query::opt_string_view;
use crate::scheduler::{all_digits, digits_value};
use crate::text::{chars_eq, chars_of, lower, lower_chars, sub_chars, trim, trim_str};

verus! {

pub const DEFAULT_INGEST_QUEUE_MAX_EVENTS: usize = 100_000;
pub const DEFAULT_INGEST_DRAIN_MAX_EVENTS: usize = 5_000;
pub const DEFAULT_INGEST_DRAIN_MAX_BATCHES: usize = 128;
pub const DEFAULT_INGEST_RETRY_BASE_MS: u64 = 200;
pub const DEFAULT_INGEST_RETRY_MAX_MS: u64 = 5_000;
pub const DEFAULT_INGEST_RETRY_MAX_ATTEMPTS: u8 = 8;
pub const DEFAULT_SESSION_CACHE_MAX_ENTRIES: usize = 50_000;
pub const DEFAULT_RATE_LIMIT_MAX_KEYS: usize = 100_000;
pub const DEFAULT_ACQUISITION_CACHE_MAX_ENTRIES: usize = 10_000;
pub const DEFAULT_ACQUISITION_CACHE_TTL_SECONDS: u64 = 60;
pub const DEFAULT_COLLECT_CACHE_MAX_ENTRIES: usize = 100_000;
pub const DEFAULT_COLLECT_CACHE_TTL_SECONDS: u64 = 120;
pub const DEFAULT_EXPORT_CACHE_MAX_ENTRIES: usize = 2;
pub const DEFAULT_EXPORT_CACHE_TTL_SECONDS: u64 = 2;
pub const DEFAULT_EXPORT_CACHE_MAX_BYTES: usize = 33_554_432;
pub const DEFAULT_WEBSITE_INGEST_PEAK_EPS: usize = 10_000;
pub const DEFAULT_WEBSITE_INGEST_QUEUE_MAX_EVENTS: usize = 100_000;

/// The unsigned number a setting denotes (as `from_str` of an unsigned type
/// with largest value `limit` reads it: an optional `+` and digits).
pub open spec fn unsigned_text(s: Seq<char>, limit: nat) -> Option<nat> {
    let d = if s.len() > 0 && s[0] == '+' {
        s.skip(1)
    } else {
        s
    };
    if d.len() > 0 && all_digits(d) && digits_value(d) <= limit {
        Some(digits_value(d))
    } else {
        None
    }
}

/// A positive setting: the number it denotes when that is above zero,
/// else `default`.
pub open spec fn positive_setting(raw: Option<Seq<char>>, limit: nat, default: nat) -> nat {
    match raw {
        Some(s) => match unsigned_text(s, limit) {
            Some(v) => if v > 0 {
                v
            } else {
                default
            },
            None => default,
        },
        None => default,
    }
}

fn read_unsigned(raw: &str, limit: u64) -> (r: Option<u64>)
    ensures
        match unsigned_text(raw@, limit as nat) {
            Some(v) => r == Some(v as u64),
            None => r is None,
        },
{
    let c = chars_of(raw);
    let start: usize = if c.len() > 0 && c[0] == '+' {
        1
    } else {
        0
    };
    let d = sub_chars(c.as_slice(), start, c.len());
    assert(d@ =~= (if raw@.len() > 0 && raw@[0] == '+' {
        raw@.skip(1)
    } else {
        raw@
    }));
    crate::scheduler::read_digits(d.as_slice(), limit)
}

/// A positive `usize` setting, or `default`.
pub fn setting_usize(raw: Option<&str>, default: usize) -> (v: usize)
    ensures
        v as nat == positive_setting(
            match raw {
                Some(s) => Some(s@),
                None => None,
            },
            usize::MAX as nat,
            default as nat,
        ),
{
    match raw {
        Some(s) => match read_unsigned(s, usize::MAX as u64) {
            Some(v) => if v > 0 {
                v as usize
            } else {
                default
            },
            None => default,
        },
        None => default,
    }
}

/// A positive `u64` setting, or `default`.
pub fn setting_u64(raw: Option<&str>, default: u64) -> (v: u64)
    ensures
        v as nat == positive_setting(
            match raw {
                Some(s) => Some(s@),
                None => None,
            },
            u64::MAX as nat,
            default as nat,
        ),
{
    match raw {
        Some(s) => match read_unsigned(s, u64::MAX) {
            Some(v) => if v > 0 {
                v
            } else {
                default
            },
            None => default,
        },
        None => default,
    }
}

/// A positive `u8` setting, or `default`.
pub fn setting_u8(raw: Option<&str>, default: u8) -> (v: u8)
    ensures
        v as nat == positive_setting(
            match raw {
                Some(s) => Some(s@),
                None => None,
            },
            u8::MAX as nat,
            default as nat,
        ),
{
    match raw {
        Some(s) => match read_unsigned(s, 255) {
            Some(v) => if v > 0 {
                v as u8
            } else {
                default
            },
            None => default,
        },
        None => default,
    }
}

/// A flag setting: on when its trimmed text is `1`, `true` or `yes` in any
/// ASCII case; `default` when absent.
pub open spec fn flag_setting(raw: Option<Seq<char>>, default: bool) -> bool {
    match raw {
        Some(s) => {
            let t = lower(trim(s));
            t == "1"@ || t == "true"@ || t == "yes"@
        },
        None => default,
    }
}

fn same_as(v: &[char], lit: &str) -> (b: bool)
    ensures
        b == (v@ == lit@),
{
    let l = chars_of(lit);
    chars_eq(v, l.as_slice())
}

/// Reads a flag setting.
pub fn setting_flag(raw: Option<&str>, default: bool) -> (b: bool)
    ensures
        b == flag_setting(
            match raw {
                Some(s) => Some(s@),
                None => None,
            },
            default,
        ),
{
    match raw {
        Some(s) => {
            let t = trim_str(s);
            let l = lower_chars(t.as_slice());
            same_as(l.as_slice(), "1") || same_as(l.as_slice(), "true") || same_as(l.as_slice(), "yes")
        },
        None => default,
    }
}

/// Raw texts of the tuning settings, as the environment gives them.
pub struct RuntimeSettings {
    pub ingest_queue_max_events: Option<String>,
    pub ingest_drain_max_events: Option<String>,
    pub ingest_drain_max_batches: Option<String>,
    pub ingest_retry_base_ms: Option<String>,
    pub ingest_retry_max_ms: Option<String>,
    pub ingest_retry_max_attempts: Option<String>,
    pub session_cache_max_entries: Option<String>,
    pub rate_limiter_max_entries: Option<String>,
    pub acquisition_cache_max_entries: Option<String>,
    pub acquisition_cache_ttl_seconds: Option<String>,
    pub collect_cache_max_entries: Option<String>,
    pub collect_cache_ttl_seconds: Option<String>,
    pub export_cache_max_entries: Option<String>,
    pub export_cache_ttl_seconds: Option<String>,
    pub export_cache_max_bytes: Option<String>,
    pub website_ingest_peak_eps_default: Option<String>,
    pub website_ingest_queue_max_events_default: Option<String>,
}

/// Queue, retry and cache limits of the server.
pub struct RuntimeTuning {
    pub ingest_queue_max_events: usize,
    pub ingest_drain_max_events: usize,
    pub ingest_drain_max_batches: usize,
    pub ingest_retry_base_ms: u64,
    pub ingest_retry_max_ms: u64,
    pub ingest_retry_max_attempts: u8,
    pub session_cache_max_entries: usize,
    pub rate_limiter_max_entries: usize,
    pub acquisition_cache_max_entries: usize,
    pub acquisition_cache_ttl_seconds: u64,
    pub collect_cache_max_entries: usize,
    pub collect_cache_ttl_seconds: u64,
    pub export_cache_max_entries: usize,
    pub export_cache_ttl_seconds: u64,
    pub export_cache_max_bytes: usize,
    pub website_ingest_peak_eps_default: usize,
    pub website_ingest_queue_max_events_default: usize,
}

fn opt_str(s: &Option<String>) -> (r: Option<&str>)
    ensures
        match r {
            Some(x) => opt_string_view(*s) == Some(x@),
            None => s is None,
        },
{
    match s {
        Some(x) => Some(x.as_str()),
        None => None,
    }
}

/// Largest `usize`.
pub open spec fn usize_limit() -> nat {
    usize::MAX as nat
}

impl RuntimeTuning {
    /// Reads every limit from its setting; each one that is absent, not a
    /// number or zero takes its default.
    pub fn from_settings(s: &RuntimeSettings) -> (t: RuntimeTuning)
        ensures
            t.ingest_queue_max_events as nat == positive_setting(opt_string_view(s.ingest_queue_max_events), usize_limit(), DEFAULT_INGEST_QUEUE_MAX_EVENTS as nat),
            t.ingest_drain_max_events as nat == positive_setting(opt_string_view(s.ingest_drain_max_events), usize_limit(), DEFAULT_INGEST_DRAIN_MAX_EVENTS as nat),
            t.ingest_drain_max_batches as nat == positive_setting(opt_string_view(s.ingest_drain_max_batches), usize_limit(), DEFAULT_INGEST_DRAIN_MAX_BATCHES as nat),
            t.ingest_retry_base_ms as nat == positive_setting(opt_string_view(s.ingest_retry_base_ms), u64::MAX as nat, DEFAULT_INGEST_RETRY_BASE_MS as nat),
            t.ingest_retry_max_ms as nat == positive_setting(opt_string_view(s.ingest_retry_max_ms), u64::MAX as nat, DEFAULT_INGEST_RETRY_MAX_MS as nat),
            t.ingest_retry_max_attempts as nat == positive_setting(opt_string_view(s.ingest_retry_max_attempts), u8::MAX as nat, DEFAULT_INGEST_RETRY_MAX_ATTEMPTS as nat),
            t.session_cache_max_entries as nat == positive_setting(opt_string_view(s.session_cache_max_entries), usize_limit(), DEFAULT_SESSION_CACHE_MAX_ENTRIES as nat),
            t.rate_limiter_max_entries as nat == positive_setting(opt_string_view(s.rate_limiter_max_entries), usize_limit(), DEFAULT_RATE_LIMIT_MAX_KEYS as nat),
            t.acquisition_cache_max_entries as nat == positive_setting(opt_string_view(s.acquisition_cache_max_entries), usize_limit(), DEFAULT_ACQUISITION_CACHE_MAX_ENTRIES as nat),
            t.acquisition_cache_ttl_seconds as nat == positive_setting(opt_string_view(s.acquisition_cache_ttl_seconds), u64::MAX as nat, DEFAULT_ACQUISITION_CACHE_TTL_SECONDS as nat),
            t.collect_cache_max_entries as nat == positive_setting(opt_string_view(s.collect_cache_max_entries), usize_limit(), DEFAULT_COLLECT_CACHE_MAX_ENTRIES as nat),
            t.collect_cache_ttl_seconds as nat == positive_setting(opt_string_view(s.collect_cache_ttl_seconds), u64::MAX as nat, DEFAULT_COLLECT_CACHE_TTL_SECONDS as nat),
            t.export_cache_max_entries as nat == positive_setting(opt_string_view(s.export_cache_max_entries), usize_limit(), DEFAULT_EXPORT_CACHE_MAX_ENTRIES as nat),
            t.export_cache_ttl_seconds as nat == positive_setting(opt_string_view(s.export_cache_ttl_seconds), u64::MAX as nat, DEFAULT_EXPORT_CACHE_TTL_SECONDS as nat),
            t.export_cache_max_bytes as nat == positive_setting(opt_string_view(s.export_cache_max_bytes), usize_limit(), DEFAULT_EXPORT_CACHE_MAX_BYTES as nat),
            t.website_ingest_peak_eps_default as nat == positive_setting(opt_string_view(s.website_ingest_peak_eps_default), usize_limit(), DEFAULT_WEBSITE_INGEST_PEAK_EPS as nat),
            t.website_ingest_queue_max_events_default as nat == positive_setting(opt_string_view(s.website_ingest_queue_max_events_default), usize_limit(), DEFAULT_WEBSITE_INGEST_QUEUE_MAX_EVENTS as nat),
    {
        RuntimeTuning {
            ingest_queue_max_events: setting_usize(opt_str(&s.ingest_queue_max_events), DEFAULT_INGEST_QUEUE_MAX_EVENTS),
            ingest_drain_max_events: setting_usize(opt_str(&s.ingest_drain_max_events), DEFAULT_INGEST_DRAIN_MAX_EVENTS),
            ingest_drain_max_batches: setting_usize(opt_str(&s.ingest_drain_max_batches), DEFAULT_INGEST_DRAIN_MAX_BATCHES),
            ingest_retry_base_ms: setting_u64(opt_str(&s.ingest_retry_base_ms), DEFAULT_INGEST_RETRY_BASE_MS),
            ingest_retry_max_ms: setting_u64(opt_str(&s.ingest_retry_max_ms), DEFAULT_INGEST_RETRY_MAX_MS),
            ingest_retry_max_attempts: setting_u8(opt_str(&s.ingest_retry_max_attempts), DEFAULT_INGEST_RETRY_MAX_ATTEMPTS),
            session_cache_max_entries: setting_usize(opt_str(&s.session_cache_max_entries), DEFAULT_SESSION_CACHE_MAX_ENTRIES),
            rate_limiter_max_entries: setting_usize(opt_str(&s.rate_limiter_max_entries), DEFAULT_RATE_LIMIT_MAX_KEYS),
            acquisition_cache_max_entries: setting_usize(opt_str(&s.acquisition_cache_max_entries), DEFAULT_ACQUISITION_CACHE_MAX_ENTRIES),
            acquisition_cache_ttl_seconds: setting_u64(opt_str(&s.acquisition_cache_ttl_seconds), DEFAULT_ACQUISITION_CACHE_TTL_SECONDS),
            collect_cache_max_entries: setting_usize(opt_str(&s.collect_cache_max_entries), DEFAULT_COLLECT_CACHE_MAX_ENTRIES),
            collect_cache_ttl_seconds: setting_u64(opt_str(&s.collect_cache_ttl_seconds), DEFAULT_COLLECT_CACHE_TTL_SECONDS),
            export_cache_max_entries: setting_usize(opt_str(&s.export_cache_max_entries), DEFAULT_EXPORT_CACHE_MAX_ENTRIES),
            export_cache_ttl_seconds: setting_u64(opt_str(&s.export_cache_ttl_seconds), DEFAULT_EXPORT_CACHE_TTL_SECONDS),
            export_cache_max_bytes: setting_usize(opt_str(&s.export_cache_max_bytes), DEFAULT_EXPORT_CACHE_MAX_BYTES),
            website_ingest_peak_eps_default: setting_usize(opt_str(&s.website_ingest_peak_eps_default), DEFAULT_WEBSITE_INGEST_PEAK_EPS),
            website_ingest_queue_max_events_default: setting_usize(opt_str(&s.website_ingest_queue_max_events_default), DEFAULT_WEBSITE_INGEST_QUEUE_MAX_EVENTS),
        }
    }
}

} // verus!
