//! Session tokens: HS256 JSON Web Tokens signed with the server's secret
//! (`jsonwebtoken`), and the UTC instants they carry (`chrono`).
use vstd::prelude::*;

use crate::auth::Claims;
use crate::text::{append_str, chars_of, string_of};

verus! {

/// Earliest Unix time, in seconds, that `chrono`'s `DateTime<Utc>` holds
/// (the start of 262144 BCE-01-01).
pub const MIN_TIMESTAMP: i64 = -8334601228800;

/// Latest Unix time, in seconds, that `chrono`'s `DateTime<Utc>` holds
/// (the last second of 262142-12-31).
pub const MAX_TIMESTAMP: i64 = 8210266876799;

/// Seconds in a day.
pub const SECONDS_PER_DAY: i64 = 86400;

/// Subject of every session token.
pub const SESSION_SUBJECT: &'static str = "admin";

/// `secs` is a Unix time that `chrono` can hold.
pub open spec fn timestamp_in_range(secs: int) -> bool {
    MIN_TIMESTAMP <= secs <= MAX_TIMESTAMP
}

/// Name for the RFC 3339 text (`DateTime::<Utc>::to_rfc3339`) of the instant
/// `secs` seconds and `nanos` nanoseconds after the Unix epoch.
pub uninterp spec fn chrono_rfc3339(secs: i64, nanos: u32) -> Seq<char>;

/// Name for the HS256 token that `jsonwebtoken::encode` gives for the
/// default header and claims made of one string claim `text_name` and two
/// integer claims `int_name1` and `int_name2`, under `secret`.
pub uninterp spec fn hs256_token(
    secret: Seq<char>,
    text_name: Seq<char>,
    text: Seq<char>,
    int_name1: Seq<char>,
    int1: i64,
    int_name2: Seq<char>,
    int2: i64,
) -> Seq<char>;

/// The current instant (`chrono::Utc::now`) as Unix seconds and the
/// nanoseconds past them. Only what holds of every reading is claimed:
/// the nanoseconds are below a second and the instant is one that `chrono`
/// holds (it panics otherwise, as it does on a clock set before 1970).
#[verifier::external_body]
pub(crate) fn utc_now() -> (r: (i64, u32))
    ensures
        r.1 < 1_000_000_000,
        timestamp_in_range(r.0 as int),
{
    let now = chrono::Utc::now();
    (now.timestamp(), now.timestamp_subsec_nanos())
}

/// RFC 3339 text of an instant, through `DateTime::from_timestamp` and
/// `to_rfc3339`; named `chrono_rfc3339`.
#[verifier::external_body]
pub(crate) fn rfc3339(secs: i64, nanos: u32) -> (s: String)
    requires
        timestamp_in_range(secs as int),
        nanos < 1_000_000_000,
    ensures
        s@ == chrono_rfc3339(secs, nanos),
{
    chrono::DateTime::from_timestamp(secs, nanos).unwrap().to_rfc3339()
}

/// Claim holding a session's subject.
pub const SUBJECT_CLAIM: &'static str = "sub";

/// Claim holding a session's expiry (Unix seconds).
pub const EXPIRY_CLAIM: &'static str = "exp";

/// Claim holding a session's issue time (Unix seconds).
pub const ISSUED_AT_CLAIM: &'static str = "iat";

/// Signs the claims `{text_name: text, int_name1: int1, int_name2: int2}`
/// (a `serde_json::Map`) with HS256 under `secret` (`jsonwebtoken::encode`
/// with the default header); the token is named `hs256_token`. Claimed:
/// signing succeeds. `encode` fails only when the key's family differs from
/// the header's algorithm (here both are HMAC) or when serializing the
/// header or claims fails (a map of a string and two integers always
/// serializes), and HMAC signing takes a key of any length. Claimed besides:
/// the token is signed under `secret` as `decode` checks it, and with
/// distinct claim names its payload carries exactly the claims signed.
#[verifier::external_body]
fn sign_hs256(
    secret: &str,
    text_name: &str,
    text: &str,
    int_name1: &str,
    int1: i64,
    int_name2: &str,
    int2: i64,
) -> (r: Result<String, String>)
    ensures
        r is Ok,
        r matches Ok(t) ==> t@ == hs256_token(secret@, text_name@, text@, int_name1@, int1, int_name2@, int2),
        r matches Ok(t) ==> hs256_signed(t@, secret@),
        text_name@ != int_name1@ && text_name@ != int_name2@ && int_name1@ != int_name2@ ==> (r matches Ok(t)
            ==> hs256_claims(t@, text_name@, int_name1@, int_name2@) == Some((Some(text@), Some(int1), Some(int2)))),
{
    let mut claims = serde_json::Map::new();
    claims.insert(text_name.to_owned(), serde_json::Value::from(text));
    claims.insert(int_name1.to_owned(), serde_json::Value::from(int1));
    claims.insert(int_name2.to_owned(), serde_json::Value::from(int2));
    let key = jsonwebtoken::EncodingKey::from_secret(secret.as_bytes());
    jsonwebtoken::encode(&jsonwebtoken::Header::default(), &claims, &key).map_err(|e| e.to_string())
}

/// Name for whether the signature of `token` checks out under `secret` as
/// `jsonwebtoken::decode` checks it with the default validation: the header
/// names HS256 and the HMAC-SHA256 of the first two parts under `secret`
/// is the third part.
pub uninterp spec fn hs256_signed(token: Seq<char>, secret: Seq<char>) -> bool;

/// Name for the claims named `text_name` (as a string), `int_name1` and
/// `int_name2` (as `i64`) that `jsonwebtoken` decodes from the payload
/// (second part) of `token`, each `None` where it is absent or of another
/// type; `None` as a whole where the payload does not decode as a JSON
/// object.
pub uninterp spec fn hs256_claims(
    token: Seq<char>,
    text_name: Seq<char>,
    int_name1: Seq<char>,
    int_name2: Seq<char>,
) -> Option<(Option<Seq<char>>, Option<i64>, Option<i64>)>;

/// Checks an HS256 token under `secret` (`jsonwebtoken::decode` with the
/// default validation: signature, algorithm, and an `exp` that is not more
/// than a minute past the clock) and picks the claims named `text_name`,
/// `int_name1` and `int_name2` where they have the right type. Claimed: a
/// token that is accepted is signed under `secret` and the claims handed
/// back are those of its payload. Whether a well-signed token is accepted
/// depends on the time of the call and is not claimed.
#[verifier::external_body]
fn verify_hs256(
    token: &str,
    secret: &str,
    text_name: &str,
    int_name1: &str,
    int_name2: &str,
) -> (r: Result<(Option<String>, Option<i64>, Option<i64>), String>)
    ensures
        r matches Ok(c) ==> {
            &&& hs256_signed(token@, secret@)
            &&& hs256_claims(token@, text_name@, int_name1@, int_name2@) == Some((opt_text(c.0), c.1, c.2))
        },
{
    let key = jsonwebtoken::DecodingKey::from_secret(secret.as_bytes());
    let validation = jsonwebtoken::Validation::default();
    match jsonwebtoken::decode::<serde_json::Map<String, serde_json::Value>>(token, &key, &validation) {
        Ok(data) => Ok((
            data.claims.get(text_name).and_then(|v| v.as_str()).map(|s| s.to_owned()),
            data.claims.get(int_name1).and_then(|v| v.as_i64()),
            data.claims.get(int_name2).and_then(|v| v.as_i64()),
        )),
        Err(e) => Err(e.to_string()),
    }
}

/// The text of an optional string.
pub open spec fn opt_text(o: Option<String>) -> Option<Seq<char>> {
    match o {
        Some(s) => Some(s@),
        None => None,
    }
}

/// Expiry, in Unix seconds, of a session issued at `now_secs` for
/// `session_days` days.
pub open spec fn session_expiry(now_secs: i64, session_days: u32) -> int {
    now_secs + session_days * SECONDS_PER_DAY
}

/// A session token issued at the given instant: signed claims with subject
/// `admin`, issued at `now_secs` and expiring `session_days` days later, and
/// the RFC 3339 text of the expiry instant (which keeps the nanoseconds).
pub fn session_token_at(secret: &str, session_days: u32, now_secs: i64, now_nanos: u32) -> (r: Result<(String, String), String>)
    requires
        timestamp_in_range(session_expiry(now_secs, session_days)),
        now_nanos < 1_000_000_000,
    ensures
        match r {
            Ok((token, expires_at)) => {
                let exp = session_expiry(now_secs, session_days) as i64;
                &&& token@ == hs256_token(secret@, SUBJECT_CLAIM@, SESSION_SUBJECT@, EXPIRY_CLAIM@, exp, ISSUED_AT_CLAIM@, now_secs)
                &&& expires_at@ == chrono_rfc3339(exp, now_nanos)
                &&& hs256_signed(token@, secret@)
                &&& hs256_claims(token@, SUBJECT_CLAIM@, EXPIRY_CLAIM@, ISSUED_AT_CLAIM@) == Some(
                    (Some(SESSION_SUBJECT@), Some(exp), Some(now_secs)),
                )
            },
            Err(m) => m@.take(12) == "encode_jwt: "@,
        },
        r is Ok,
{
    proof {
        reveal_strlit("sub");
        reveal_strlit("exp");
        reveal_strlit("iat");
        assert(SUBJECT_CLAIM@ != EXPIRY_CLAIM@ && SUBJECT_CLAIM@ != ISSUED_AT_CLAIM@ && EXPIRY_CLAIM@ != ISSUED_AT_CLAIM@) by {
            assert(SUBJECT_CLAIM@[0] != EXPIRY_CLAIM@[0]);
            assert(SUBJECT_CLAIM@[0] != ISSUED_AT_CLAIM@[0]);
            assert(EXPIRY_CLAIM@[0] != ISSUED_AT_CLAIM@[0]);
        }
    }
    let exp: i64 = now_secs + (session_days as i64) * SECONDS_PER_DAY;
    match sign_hs256(secret, SUBJECT_CLAIM, SESSION_SUBJECT, EXPIRY_CLAIM, exp, ISSUED_AT_CLAIM, now_secs) {
        Ok(token) => {
            let expires_at = rfc3339(exp, now_nanos);
            Ok((token, expires_at))
        },
        Err(e) => {
            let mut m = chars_of("encode_jwt: ");
            let ghost p = m@;
            append_str(&mut m, e.as_str());
            proof {
                reveal_strlit("encode_jwt: ");
                assert(m@.take(12) =~= p);
            }
            Err(string_of(m.as_slice()))
        },
    }
}

/// What issuing a session for `session_days` days at the clock reading
/// `now_secs`, `now_nanos` gives: the token and expiry text of
/// [`session_token_at`] when the expiry is an instant that `chrono` holds,
/// and an error otherwise.
pub open spec fn session_issued(
    secret: Seq<char>,
    session_days: u32,
    now_secs: i64,
    now_nanos: u32,
    r: Result<(String, String), String>,
) -> bool {
    &&& timestamp_in_range(now_secs as int)
    &&& now_nanos < 1_000_000_000
    &&& match r {
        Ok((token, expires_at)) => {
            let exp = session_expiry(now_secs, session_days) as i64;
            &&& timestamp_in_range(session_expiry(now_secs, session_days))
            &&& token@ == hs256_token(secret, SUBJECT_CLAIM@, SESSION_SUBJECT@, EXPIRY_CLAIM@, exp, ISSUED_AT_CLAIM@, now_secs)
            &&& expires_at@ == chrono_rfc3339(exp, now_nanos)
        },
        Err(m) => {
            &&& !timestamp_in_range(session_expiry(now_secs, session_days))
            &&& m@ == "encode_jwt: expiry out of range"@
        },
    }
}

/// Issues a session token for `session_days` days from now, with the RFC
/// 3339 text of its expiry: for the clock reading taken, the session is
/// issued exactly when its expiry is an instant that `chrono` holds.
pub fn encode_jwt(secret: &str, session_days: u32) -> (r: Result<(String, String), String>)
    ensures
        exists|now_secs: i64, now_nanos: u32| #[trigger] session_issued(secret@, session_days, now_secs, now_nanos, r),
{
    let (now_secs, now_nanos) = utc_now();
    let exp: i128 = (now_secs as i128) + (session_days as i128) * 86400;
    if exp > MAX_TIMESTAMP as i128 {
        let r = Err(string_of(chars_of("encode_jwt: expiry out of range").as_slice()));
        assert(session_issued(secret@, session_days, now_secs, now_nanos, r));
        return r;
    }
    let r = session_token_at(secret, session_days, now_secs, now_nanos);
    assert(session_issued(secret@, session_days, now_secs, now_nanos, r));
    r
}

/// Checks a session token under `secret` and returns its claims. A token
/// that is returned is signed under `secret` and carries exactly these
/// `sub`, `exp` and `iat` claims; a token whose signature does not check
/// out, or whose payload lacks one of those claims, is refused. Whether a
/// well-signed token has expired depends on the clock and is not stated.
pub fn decode_jwt(token: &str, secret: &str) -> (r: Result<Claims, String>)
    ensures
        r matches Ok(c) ==> {
            &&& hs256_signed(token@, secret@)
            &&& hs256_claims(token@, SUBJECT_CLAIM@, EXPIRY_CLAIM@, ISSUED_AT_CLAIM@) == Some((Some(c.sub@), Some(c.exp), Some(c.iat)))
        },
        r matches Err(m) ==> m@.take(12) == "decode_jwt: "@,
{
    match verify_hs256(token, secret, SUBJECT_CLAIM, EXPIRY_CLAIM, ISSUED_AT_CLAIM) {
        Ok((Some(sub), Some(exp), Some(iat))) => Ok(Claims { sub, exp, iat }),
        Ok(_) => {
            let r = Err(string_of(chars_of("decode_jwt: missing claim").as_slice()));
            proof {
                reveal_strlit("decode_jwt: missing claim");
                reveal_strlit("decode_jwt: ");
            }
            assert(r->Err_0@.take(12) =~= "decode_jwt: "@);
            r
        },
        Err(e) => {
            let mut m = chars_of("decode_jwt: ");
            let ghost p = m@;
            append_str(&mut m, e.as_str());
            proof {
                reveal_strlit("decode_jwt: ");
                assert(m@.take(12) =~= p);
            }
            Err(string_of(m.as_slice()))
        },
    }
}

/// The RFC 3339 text of a session's expiry as the session endpoint shows
/// it: whole seconds, empty when `chrono` cannot hold the instant.
pub open spec fn expiry_text(exp: i64) -> Seq<char> {
    if timestamp_in_range(exp as int) {
        chrono_rfc3339(exp, 0)
    } else {
        Seq::empty()
    }
}

/// Formats a session's expiry for the session endpoint.
pub fn session_expires_at(exp: i64) -> (s: String)
    ensures
        s@ == expiry_text(exp),
{
    if MIN_TIMESTAMP <= exp && exp <= MAX_TIMESTAMP {
        rfc3339(exp, 0)
    } else {
        String::new()
    }
}

} // verus!
