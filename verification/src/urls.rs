//! URLs given by clients (link destinations, pixel defaults): the parts
//! the library reads from `url::Url`, the checks on them, and whether a
//! host belongs to a website's domain.
use vstd::prelude::*;

use crate::error::{bad_request, bad_request_chars, bad_request_with, AppError};
use crate::text::{
    append_str, chars_eq, chars_of, ends_with, ends_with_exec, lower, lower_chars, string_of,
    strip_prefixes, strip_prefixes_exec, strip_suffixes, strip_suffixes_exec, trim, trim_str,
};

verus! {

/// The parts of a parsed URL that the library reads: scheme, host (if
/// any), user name (empty when absent), whether a password is given, and
/// the port (the scheme's default when none is written).
#[derive(Debug)]
pub struct UrlParts {
    pub scheme: String,
    pub host: Option<String>,
    pub username: String,
    pub has_password: bool,
    pub port: Option<u16>,
}

/// Abstract parts of a URL: scheme, host, user name, password present, port.
pub open spec fn parts_view(p: UrlParts) -> (Seq<char>, Option<Seq<char>>, Seq<char>, bool, Option<u16>) {
    (
        p.scheme@,
        match p.host {
            Some(h) => Some(h@),
            None => None,
        },
        p.username@,
        p.has_password,
        p.port,
    )
}

/// Name for the parts of the URL that `url::Url::parse` makes of the text
/// (`scheme()`, `host_str()`, `username()`, `password().is_some()`,
/// `port_or_known_default()`), or `None` when it refuses the text.
pub uninterp spec fn url_parse(s: Seq<char>) -> Option<(Seq<char>, Option<Seq<char>>, Seq<char>, bool, Option<u16>)>;

/// `url::Url::parse`, read through its `scheme`, `host_str`, `username`,
/// `password` and `port_or_known_default` accessors; the result is named by
/// [`url_parse`].
#[verifier::external_body]
pub(crate) fn parse_url(s: &str) -> (r: Option<UrlParts>)
    ensures
        match r {
            Some(p) => url_parse(s@) == Some(parts_view(p)),
            None => url_parse(s@) is None,
        },
{
    match url::Url::parse(s) {
        Ok(u) => Some(
            UrlParts {
                scheme: u.scheme().to_string(),
                host: u.host_str().map(|h| h.to_string()),
                username: u.username().to_string(),
                has_password: u.password().is_some(),
                port: u.port_or_known_default(),
            },
        ),
        Err(_) => None,
    }
}

/// Outcome of checking a client URL: it must parse, use `http` or
/// `https`, name a host and carry no credentials.
pub open spec fn http_url_verdict(url: Seq<char>, field: Seq<char>, invalid_msg: Seq<char>) -> Result<
    (Seq<char>, Option<Seq<char>>, Seq<char>, bool, Option<u16>),
    Seq<char>,
> {
    match url_parse(url) {
        None => Err(invalid_msg),
        Some(p) => if !(p.0 == "http"@ || p.0 == "https"@) {
            Err(field + " must use http:// or https://"@)
        } else if p.1 is None {
            Err(field + " must include a hostname"@)
        } else if p.2.len() > 0 || p.3 {
            Err(field + " cannot include credentials"@)
        } else {
            Ok(p)
        },
    }
}

fn eq_lit(v: &[char], lit: &str) -> (b: bool)
    ensures
        b == (v@ == lit@),
{
    let l = chars_of(lit);
    chars_eq(v, l.as_slice())
}

fn field_message(field: &str, rest: &str) -> (e: AppError)
    ensures
        e matches AppError::BadRequest(m) && m@ == field@ + rest@,
{
    let mut m = chars_of(field);
    append_str(&mut m, rest);
    bad_request_chars(m.as_slice())
}

/// Parses and checks a client URL named `field`; `invalid_msg` is the
/// message when it does not parse.
pub fn check_http_url(url: &str, field: &str, invalid_msg: &str) -> (r: Result<UrlParts, AppError>)
    ensures
        match http_url_verdict(url@, field@, invalid_msg@) {
            Ok(p) => r matches Ok(x) && parts_view(x) == p,
            Err(m) => bad_request_with(r, m),
        },
{
    let parts = match parse_url(url) {
        Some(p) => p,
        None => {
            return Err(bad_request(invalid_msg));
        },
    };
    let scheme = chars_of(parts.scheme.as_str());
    if !(eq_lit(scheme.as_slice(), "http") || eq_lit(scheme.as_slice(), "https")) {
        return Err(field_message(field, " must use http:// or https://"));
    }
    if parts.host.is_none() {
        return Err(field_message(field, " must include a hostname"));
    }
    let user = chars_of(parts.username.as_str());
    if user.len() > 0 || parts.has_password {
        return Err(field_message(field, " cannot include credentials"));
    }
    Ok(parts)
}

/// A website's domain as stored, reduced to a bare lower-case host name:
/// trimmed, without leading `http://`/`https://` nor trailing `/`.
pub open spec fn site_domain(domain: Seq<char>) -> Seq<char> {
    lower(strip_suffixes(strip_prefixes(strip_prefixes(trim(domain), "http://"@), "https://"@), "/"@))
}

/// Whether `host` is the website's domain or one of its subdomains
/// (compared without ASCII case).
pub open spec fn host_matches(host: Seq<char>, domain: Seq<char>) -> bool {
    let h = lower(host);
    let d = site_domain(domain);
    h == d || ends_with(h, seq!['.'] + d)
}

/// Whether a URL's host belongs to a website's domain; a URL without a
/// host belongs to none.
pub fn url_matches_website(url: &UrlParts, website_domain: &str) -> (b: bool)
    ensures
        b == match url.host {
            None => false,
            Some(h) => host_matches(h@, website_domain@),
        },
{
    let host = match &url.host {
        Some(h) => h,
        None => {
            return false;
        },
    };
    let hc = chars_of(host.as_str());
    let h = lower_chars(hc.as_slice());
    let t = trim_str(website_domain);
    let p1 = chars_of("http://");
    let a = strip_prefixes_exec(t.as_slice(), p1.as_slice());
    let p2 = chars_of("https://");
    let b = strip_prefixes_exec(a.as_slice(), p2.as_slice());
    let p3 = chars_of("/");
    let c = strip_suffixes_exec(b.as_slice(), p3.as_slice());
    let d = lower_chars(c.as_slice());
    if chars_eq(h.as_slice(), d.as_slice()) {
        return true;
    }
    let mut dotted: Vec<char> = Vec::new();
    dotted.push('.');
    crate::text::append_chars(&mut dotted, d.as_slice());
    assert(dotted@ =~= seq!['.'] + d@);
    ends_with_exec(h.as_slice(), dotted.as_slice())
}

} // verus!
