//! Websites: how a domain given by a client is normalized and checked,
//! and the requests of the website endpoints.
use vstd::prelude::*;

use crate::error::{bad_request, bad_request_with, AppError};
use crate::routes::notifications::{read_ip_literal, std_ip_literal};
use crate::text::{
    chars_eq, chars_of, contains, contains_exec, has_char, has_char_exec, lower, lower_chars,
    string_of, strip_suffixes, strip_suffixes_exec, trim, trim_str,
};

verus! {

/// Body of `POST /api/websites`.
pub struct CreateWebsiteRequest {
    pub name: String,
    pub domain: String,
    pub timezone: Option<String>,
}

/// Body of `PUT /api/websites/:id`; absent fields stay as they are.
pub struct UpdateWebsiteRequest {
    pub name: Option<String>,
    pub domain: Option<String>,
    pub timezone: Option<String>,
}

/// Query of `GET /api/websites`.
pub struct ListWebsitesQuery {
    pub limit: Option<i64>,
    pub cursor: Option<String>,
}

/// Name for whether `url::Host::parse` accepts the text as a host.
pub uninterp spec fn url_host_parses(s: Seq<char>) -> bool;

/// `url::Host::parse(s).is_ok()`; named by [`url_host_parses`].
#[verifier::external_body]
fn host_parses(s: &str) -> (b: bool)
    ensures
        b == url_host_parses(s@),
{
    url::Host::parse(s).is_ok()
}

/// Name for whether the public suffix list finds a registrable domain in
/// the bytes (`psl::domain` gives `Some`).
pub uninterp spec fn psl_registrable(bytes: Seq<u8>) -> bool;

/// `psl::domain(bytes).is_some()`; named by [`psl_registrable`].
#[verifier::external_body]
fn has_registrable_domain(bytes: &[u8]) -> (b: bool)
    ensures
        b == psl_registrable(bytes@),
{
    psl::domain(bytes).is_some()
}

/// A domain as stored: trimmed, without trailing dots, lower-cased.
pub open spec fn domain_text(raw: Seq<char>) -> Seq<char> {
    lower(strip_suffixes(trim(raw), "."@))
}

/// Whether a domain carries a scheme, path, credentials, query, fragment
/// or port.
pub open spec fn has_url_parts(d: Seq<char>) -> bool {
    contains(d, "://"@) || has_char(d, '/') || has_char(d, '@') || has_char(d, '?') || has_char(
        d,
        '#',
    ) || has_char(d, ':')
}

/// Outcome of normalizing a client's domain: a bare host name, `localhost`
/// or an IP address is kept; otherwise it must be a host that is not a
/// public suffix.
pub open spec fn domain_verdict(raw: Seq<char>) -> Result<Seq<char>, Seq<char>> {
    let d = domain_text(raw);
    if d.len() == 0 {
        Err("domain is required"@)
    } else if has_url_parts(d) {
        Err("domain must be a hostname without scheme, path, credentials, or port"@)
    } else if d == "localhost"@ || std_ip_literal(d) is Some {
        Ok(d)
    } else if !url_host_parses(d) {
        Err("domain is invalid"@)
    } else if !psl_registrable(vstd::utf8::encode_utf8(d)) {
        Err("domain must be a registrable hostname (not a public suffix)"@)
    } else {
        Ok(d)
    }
}

fn has_lit(m: &[char], lit: &str) -> (b: bool)
    ensures
        b == contains(m@, lit@),
{
    let l = chars_of(lit);
    contains_exec(m, l.as_slice())
}

/// Normalizes and checks the domain of a website.
pub fn normalize_domain(raw: &str) -> (r: Result<String, AppError>)
    ensures
        match domain_verdict(raw@) {
            Ok(d) => r matches Ok(x) && x@ == d,
            Err(m) => bad_request_with(r, m),
        },
{
    let t = trim_str(raw);
    let dot = chars_of(".");
    let s = strip_suffixes_exec(t.as_slice(), dot.as_slice());
    let d = lower_chars(s.as_slice());
    if d.len() == 0 {
        return Err(bad_request("domain is required"));
    }
    let ds = d.as_slice();
    if has_lit(ds, "://") || has_char_exec(ds, '/') || has_char_exec(ds, '@') || has_char_exec(
        ds,
        '?',
    ) || has_char_exec(ds, '#') || has_char_exec(ds, ':') {
        return Err(bad_request("domain must be a hostname without scheme, path, credentials, or port"));
    }
    let domain = string_of(ds);
    let l = chars_of("localhost");
    if chars_eq(ds, l.as_slice()) || read_ip_literal(domain.as_str()).is_some() {
        return Ok(domain);
    }
    if !host_parses(domain.as_str()) {
        return Err(bad_request("domain is invalid"));
    }
    if !has_registrable_domain(domain.as_str().as_bytes()) {
        return Err(bad_request("domain must be a registrable hostname (not a public suffix)"));
    }
    Ok(domain)
}

impl CreateWebsiteRequest {
    /// Checks the request: a non-empty name and a valid domain; returns
    /// the normalized domain.
    pub fn validate(&self) -> (r: Result<String, AppError>)
        ensures
            self.name@.len() == 0 ==> bad_request_with(r, "name is required"@),
            self.name@.len() > 0 ==> match domain_verdict(self.domain@) {
                Ok(d) => r matches Ok(x) && x@ == d,
                Err(m) => bad_request_with(r, m),
            },
    {
        let n = chars_of(self.name.as_str());
        if n.len() == 0 {
            return Err(bad_request("name is required"));
        }
        normalize_domain(self.domain.as_str())
    }
}

impl UpdateWebsiteRequest {
    /// The domain to store, normalized, when one is given.
    pub fn normalized_domain(&self) -> (r: Result<Option<String>, AppError>)
        ensures
            match self.domain {
                None => r matches Ok(None),
                Some(raw) => match domain_verdict(raw@) {
                    Ok(d) => r matches Ok(Some(x)) && x@ == d,
                    Err(m) => bad_request_with(r, m),
                },
            },
    {
        match &self.domain {
            None => Ok(None),
            Some(raw) => {
                let d = normalize_domain(raw.as_str())?;
                Ok(Some(d))
            },
        }
    }
}

impl ListWebsitesQuery {
    /// Page size: 20 by default, clamped to `1..=100`.
    pub fn page_limit(&self) -> (l: i64)
        ensures
            l == crate::auth::key_page(self.limit, None).0,
    {
        let l = match self.limit {
            Some(x) => x,
            None => 20,
        };
        if l < 1 {
            1
        } else if l > 100 {
            100
        } else {
            l
        }
    }
}

} // verus!
