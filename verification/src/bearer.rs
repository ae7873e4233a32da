//! Bearer tokens of cloud mode signed by the identity provider: where its
//! signing keys may be fetched from, which published keys are usable, and
//! the checks on a token before and during its verification.
use vstd::prelude::*;

use crate::error::AppError;
use crate::routes::query::{opt_string_view, opt_view};
use crate::text::{chars_eq, chars_of, starts_with, starts_with_exec, string_of, sub_chars, trim, trim_str};
use crate::urls::{parse_url, url_parse};

verus! {

/// Whether keys may be fetched from the URL: it must parse, and use
/// `https` unless its host is `localhost` or `127.0.0.1`.
pub open spec fn jwks_url_ok(url: Seq<char>) -> bool {
    match url_parse(url) {
        None => false,
        Some(p) => p.0 == "https"@ || p.1 == Some("localhost"@) || p.1 == Some("127.0.0.1"@),
    }
}

fn same_as(v: &[char], lit: &str) -> (b: bool)
    ensures
        b == (v@ == lit@),
{
    let l = chars_of(lit);
    chars_eq(v, l.as_slice())
}

/// Checks the URL the signing keys are fetched from.
pub fn jwks_url_allowed(url: &str) -> (b: bool)
    ensures
        b == jwks_url_ok(url@),
{
    let p = match parse_url(url) {
        Some(p) => p,
        None => {
            return false;
        },
    };
    let scheme = chars_of(p.scheme.as_str());
    if same_as(scheme.as_slice(), "https") {
        return true;
    }
    match &p.host {
        Some(h) => {
            let hc = chars_of(h.as_str());
            same_as(hc.as_slice(), "localhost") || same_as(hc.as_slice(), "127.0.0.1")
        },
        None => false,
    }
}

/// One published key, with the fields read from it where they are strings.
pub struct Jwk {
    pub kid: Option<String>,
    pub kty: Option<String>,
    pub n: Option<String>,
    pub e: Option<String>,
}

/// A key is usable when it is an RSA key with an id, modulus and exponent.
pub open spec fn usable(k: Jwk) -> bool {
    opt_string_view(k.kty) == Some("RSA"@) && k.kid is Some && k.n is Some && k.e is Some
}

/// The usable keys of a list, in order, as id, modulus and exponent.
pub open spec fn usable_keys(keys: Seq<Jwk>) -> Seq<(Seq<char>, Seq<char>, Seq<char>)>
    decreases keys.len(),
{
    if keys.len() == 0 {
        Seq::empty()
    } else {
        let rest = usable_keys(keys.drop_last());
        let k = keys.last();
        if usable(k) {
            rest.push((k.kid.unwrap()@, k.n.unwrap()@, k.e.unwrap()@))
        } else {
            rest
        }
    }
}

/// Views of key triples.
pub open spec fn triples_view(v: Seq<(String, String, String)>) -> Seq<(Seq<char>, Seq<char>, Seq<char>)> {
    v.map_values(|t: (String, String, String)| (t.0@, t.1@, t.2@))
}

fn copy(s: &String) -> (r: String)
    ensures
        r@ == s@,
{
    string_of(chars_of(s.as_str()).as_slice())
}

/// Picks the usable keys of a published list.
pub fn select_usable_keys(keys: &[Jwk]) -> (r: Vec<(String, String, String)>)
    ensures
        triples_view(r@) == usable_keys(keys@),
{
    let mut out: Vec<(String, String, String)> = Vec::new();
    let mut i: usize = 0;
    assert(keys@.take(0) =~= Seq::<Jwk>::empty());
    assert(triples_view(out@) =~= Seq::<(Seq<char>, Seq<char>, Seq<char>)>::empty());
    while i < keys.len()
        invariant
            i <= keys@.len(),
            triples_view(out@) == usable_keys(keys@.take(i as int)),
        decreases keys@.len() - i,
    {
        assert(keys@.take(i + 1).drop_last() =~= keys@.take(i as int));
        assert(keys@.take(i + 1).last() == keys@[i as int]);
        let k = &keys[i];
        let is_rsa = match &k.kty {
            Some(t) => {
                let tc = chars_of(t.as_str());
                same_as(tc.as_slice(), "RSA")
            },
            None => false,
        };
        if is_rsa && k.kid.is_some() && k.n.is_some() && k.e.is_some() {
            let ghost before = triples_view(out@);
            let t = (copy(k.kid.as_ref().unwrap()), copy(k.n.as_ref().unwrap()), copy(k.e.as_ref().unwrap()));
            out.push(t);
            assert(triples_view(out@) =~= before.push((t.0@, t.1@, t.2@)));
        }
        i = i + 1;
    }
    assert(keys@.take(i as int) =~= keys@);
    out
}

/// A required claim setting: its trimmed text, unless that is empty.
pub open spec fn claim_setting_of(raw: Option<Seq<char>>) -> Option<Seq<char>> {
    match raw {
        Some(s) => if trim(s).len() > 0 {
            Some(trim(s))
        } else {
            None
        },
        None => None,
    }
}

/// Reads the issuer or audience a token must name.
pub fn claim_setting(raw: Option<&str>) -> (r: Option<String>)
    ensures
        opt_string_view(r) == claim_setting_of(opt_view(raw)),
{
    match raw {
        Some(s) => {
            let t = trim_str(s);
            if t.len() > 0 {
                Some(string_of(t.as_slice()))
            } else {
                None
            }
        },
        None => None,
    }
}

/// Name for the header of a token as `jsonwebtoken::decode_header` reads it:
/// the name of its algorithm (as `Algorithm`'s `Debug` prints it, such as
/// `RS256`) and its key id; `None` when the token has no readable header.
pub uninterp spec fn jwt_header_of(token: Seq<char>) -> Option<(Seq<char>, Option<Seq<char>>)>;

/// Reads a token's header (`jsonwebtoken::decode_header`); named
/// `jwt_header_of`.
#[verifier::external_body]
fn token_header(token: &str) -> (r: Option<(String, Option<String>)>)
    ensures
        match r {
            Some((alg, kid)) => jwt_header_of(token@) == Some((alg@, opt_string_view(kid))),
            None => jwt_header_of(token@) is None,
        },
{
    match jsonwebtoken::decode_header(token) {
        Ok(h) => Some((format!("{:?}", h.alg), h.kid)),
        Err(_) => None,
    }
}

/// The only algorithm a bearer token may use.
pub const BEARER_ALGORITHM: &'static str = "RS256";

/// The token of an `Authorization` header: what follows `Bearer `.
pub open spec fn bearer_of(header: Option<Seq<char>>) -> Option<Seq<char>> {
    match header {
        Some(h) => if starts_with(h, "Bearer "@) {
            Some(h.skip(7))
        } else {
            None
        },
        None => None,
    }
}

/// The key id a bearer token must be checked with: the header must carry a
/// `Bearer` token whose header names RS256 and a key id.
pub open spec fn bearer_kid_of(header: Option<Seq<char>>) -> Option<(Seq<char>, Seq<char>)> {
    match bearer_of(header) {
        None => None,
        Some(t) => match jwt_header_of(t) {
            Some((alg, Some(kid))) => if alg == BEARER_ALGORITHM@ {
                Some((t, kid))
            } else {
                None
            },
            _ => None,
        },
    }
}

/// Reads the token and the id of the key that must verify it; refused
/// (401) when the header, the token's algorithm or its key id is wrong.
pub fn bearer_token_kid(authorization: Option<&str>) -> (r: Result<(String, String), AppError>)
    ensures
        match bearer_kid_of(opt_view(authorization)) {
            Some((t, kid)) => r matches Ok((x, k)) && x@ == t && k@ == kid,
            None => r matches Err(AppError::Unauthorized),
        },
{
    let h = match authorization {
        Some(h) => h,
        None => {
            return Err(AppError::Unauthorized);
        },
    };
    let hc = chars_of(h);
    let p = chars_of("Bearer ");
    if !starts_with_exec(hc.as_slice(), p.as_slice()) {
        return Err(AppError::Unauthorized);
    }
    proof {
        reveal_strlit("Bearer ");
    }
    let tc = sub_chars(hc.as_slice(), 7, hc.len());
    assert(tc@ =~= h@.skip(7));
    let token = string_of(tc.as_slice());
    match token_header(token.as_str()) {
        Some((alg, Some(kid))) => {
            let ac = chars_of(alg.as_str());
            let bc = chars_of(BEARER_ALGORITHM);
            if chars_eq(ac.as_slice(), bc.as_slice()) {
                Ok((token, kid))
            } else {
                Err(AppError::Unauthorized)
            }
        },
        _ => Err(AppError::Unauthorized),
    }
}

/// The key published under an id, if any; of keys sharing an id the last
/// one counts.
pub open spec fn key_for(keys: Seq<(Seq<char>, Seq<char>, Seq<char>)>, kid: Seq<char>) -> Option<(Seq<char>, Seq<char>)>
    decreases keys.len(),
{
    if keys.len() == 0 {
        None
    } else if keys.last().0 == kid {
        Some((keys.last().1, keys.last().2))
    } else {
        key_for(keys.drop_last(), kid)
    }
}

/// Finds the modulus and exponent of the key with the given id.
pub fn find_key(keys: &[(String, String, String)], kid: &str) -> (r: Option<(String, String)>)
    ensures
        match key_for(triples_view(keys@), kid@) {
            Some((n, e)) => r matches Some((x, y)) && x@ == n && y@ == e,
            None => r is None,
        },
{
    let k = chars_of(kid);
    let ghost kv = triples_view(keys@);
    let mut i: usize = keys.len();
    assert(kv.take(i as int) =~= kv);
    while i > 0
        invariant
            i <= keys@.len(),
            kv == triples_view(keys@),
            k@ == kid@,
            key_for(kv.take(i as int), kid@) == key_for(kv, kid@),
        decreases i,
    {
        assert(kv.take(i as int).last() == kv[i - 1]);
        assert(kv.take(i as int).drop_last() =~= kv.take(i - 1));
        let c = chars_of(keys[i - 1].0.as_str());
        if chars_eq(c.as_slice(), k.as_slice()) {
            return Some((copy(&keys[i - 1].1), copy(&keys[i - 1].2)));
        }
        i = i - 1;
    }
    None
}

/// Name for whether `jsonwebtoken::DecodingKey::from_rsa_components`
/// accepts a modulus and exponent (both must be URL-safe base64).
pub uninterp spec fn rsa_components_ok(n: Seq<char>, e: Seq<char>) -> bool;

/// Whether `DecodingKey::from_rsa_components` accepts the components;
/// named `rsa_components_ok`.
#[verifier::external_body]
fn rsa_key_accepted(n: &str, e: &str) -> (b: bool)
    ensures
        b == rsa_components_ok(n@, e@),
{
    jsonwebtoken::DecodingKey::from_rsa_components(n, e).is_ok()
}

/// Outcome of reading a published key list: its usable keys, unless one of
/// them is malformed or there is none.
pub open spec fn key_set_of(keys: Seq<Jwk>) -> Option<Seq<(Seq<char>, Seq<char>, Seq<char>)>> {
    let u = usable_keys(keys);
    if u.len() == 0 {
        None
    } else if exists|i: int| 0 <= i < u.len() && !rsa_components_ok(#[trigger] u[i].1, u[i].2) {
        None
    } else {
        Some(u)
    }
}

/// Reads a published key list; refused (401) when a usable key is
/// malformed or none is usable.
pub fn key_set(keys: &[Jwk]) -> (r: Result<Vec<(String, String, String)>, AppError>)
    ensures
        match key_set_of(keys@) {
            Some(u) => r matches Ok(v) && triples_view(v@) == u,
            None => r matches Err(AppError::Unauthorized),
        },
{
    let u = select_usable_keys(keys);
    let ghost uv = triples_view(u@);
    let mut i: usize = 0;
    while i < u.len()
        invariant
            i <= u@.len(),
            uv == triples_view(u@),
            uv == usable_keys(keys@),
            forall|k: int| 0 <= k < i ==> rsa_components_ok(#[trigger] uv[k].1, uv[k].2),
        decreases u@.len() - i,
    {
        assert(uv[i as int] == (u@[i as int].0@, u@[i as int].1@, u@[i as int].2@));
        if !rsa_key_accepted(u[i].1.as_str(), u[i].2.as_str()) {
            assert(!rsa_components_ok(uv[i as int].1, uv[i as int].2));
            return Err(AppError::Unauthorized);
        }
        i = i + 1;
    }
    if u.len() == 0 {
        return Err(AppError::Unauthorized);
    }
    Ok(u)
}

/// Name for the JSON text (`serde_json::Value::to_string`) of the claims
/// that `jsonwebtoken` decodes from the payload (second part) of `token`.
pub uninterp spec fn jwt_payload_text(token: Seq<char>) -> Seq<char>;

/// Verifies a token with the RSA key `(n, e)`
/// (`DecodingKey::from_rsa_components`, then `jsonwebtoken::decode` under a
/// `Validation` for the algorithm named `algorithm`, with the given leeway
/// in seconds, the given required claims, and `issuer` and `audience` as
/// the accepted `iss` and `aud`) and gives its claims as JSON text.
/// Claimed: a token that is accepted comes with a key that the crate
/// accepts, and the claims given are those of its payload. Whether a token
/// is accepted also depends on the clock (`exp`), so it is not claimed.
#[verifier::external_body]
fn verify_rs256(
    token: &str,
    n: &str,
    e: &str,
    algorithm: &str,
    leeway: u64,
    required: &[String],
    issuer: &str,
    audience: &str,
) -> (r: Option<String>)
    ensures
        r matches Some(c) ==> rsa_components_ok(n@, e@) && c@ == jwt_payload_text(token@),
{
    let key = jsonwebtoken::DecodingKey::from_rsa_components(n, e).ok()?;
    let alg = algorithm.parse::<jsonwebtoken::Algorithm>().ok()?;
    let mut validation = jsonwebtoken::Validation::new(alg);
    validation.leeway = leeway;
    validation.set_required_spec_claims(required);
    validation.set_issuer(&[issuer]);
    validation.set_audience(&[audience]);
    jsonwebtoken::decode::<serde_json::Value>(token, &key, &validation).ok().map(|d| d.claims.to_string())
}

/// Leeway, in seconds, granted to `exp` when a bearer token is checked.
pub const BEARER_LEEWAY_SECONDS: u64 = 30;

/// Verifies a bearer token against the published keys: the header must
/// carry an RS256 token naming a published key, and the issuer and audience
/// must be configured; the token is then checked as RS256, with a
/// thirty-second leeway, requiring `exp`, `iss` and `aud`, and the claims of
/// its payload come back as JSON text. Every refusal is a 401.
pub fn verify_bearer_claims(
    authorization: Option<&str>,
    keys: &[(String, String, String)],
    issuer: Option<&str>,
    audience: Option<&str>,
) -> (r: Result<String, AppError>)
    ensures
        bearer_kid_of(opt_view(authorization)) is None ==> r matches Err(AppError::Unauthorized),
        r matches Ok(c) ==> ({
            let bk = bearer_kid_of(opt_view(authorization));
            let key = key_for(triples_view(keys@), bk.unwrap().1);
            &&& bk is Some
            &&& key is Some
            &&& rsa_components_ok(key.unwrap().0, key.unwrap().1)
            &&& claim_setting_of(opt_view(issuer)) is Some
            &&& claim_setting_of(opt_view(audience)) is Some
            &&& c@ == jwt_payload_text(bk.unwrap().0)
        }),
        r matches Err(e) ==> e is Unauthorized,
{
    let (token, kid) = bearer_token_kid(authorization)?;
    let (n, e) = match find_key(keys, kid.as_str()) {
        Some(k) => k,
        None => {
            return Err(AppError::Unauthorized);
        },
    };
    let iss = match claim_setting(issuer) {
        Some(i) => i,
        None => {
            return Err(AppError::Unauthorized);
        },
    };
    let aud = match claim_setting(audience) {
        Some(a) => a,
        None => {
            return Err(AppError::Unauthorized);
        },
    };
    let required: Vec<String> = vec!["exp".to_owned(), "iss".to_owned(), "aud".to_owned()];
    match verify_rs256(
        token.as_str(),
        n.as_str(),
        e.as_str(),
        BEARER_ALGORITHM,
        BEARER_LEEWAY_SECONDS,
        required.as_slice(),
        iss.as_str(),
        aud.as_str(),
    ) {
        Some(claims) => Ok(claims),
        None => Err(AppError::Unauthorized),
    }
}

} // verus!
