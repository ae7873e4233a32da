//! Campaign links: checks on their names and destinations, and the
//! destination a click is redirected to, with the link's UTM parameters
//! appended.
use vstd::prelude::*;

use crate::error::AppError;
use crate::routes::query::{check_name, name_verdict, opt_string_view, verdict_matches};
use crate::text::{append_chars, append_str, chars_of, has_char, has_char_exec, occurs_at, string_of};
use crate::urls::{check_http_url, host_matches, http_url_verdict, parts_view, url_matches_website, UrlParts};

verus! {

/// Longest redirect target of a campaign link, in bytes.
pub const MAX_TRACKING_URL_BYTES: usize = 2048;

/// Longest link name, in bytes.
pub const MAX_LINK_NAME_BYTES: usize = 100;

/// A campaign link as the redirect handler reads it.
#[derive(Debug)]
pub struct CampaignLink {
    pub id: String,
    pub website_id: String,
    pub name: String,
    pub slug: String,
    pub destination_url: String,
    pub utm_source: Option<String>,
    pub utm_medium: Option<String>,
    pub utm_campaign: Option<String>,
    pub utm_term: Option<String>,
    pub utm_content: Option<String>,
    pub is_active: bool,
    pub created_at: String,
    pub clicks: Option<i64>,
    pub unique_visitors: Option<i64>,
    pub conversions: Option<i64>,
}

/// Checks a link name: not blank, at most 100 bytes.
pub fn validate_name(name: &str) -> (r: Result<(), AppError>)
    ensures
        verdict_matches(
            r,
            name_verdict(
                name@,
                "name is required"@,
                MAX_LINK_NAME_BYTES,
                "name must be 100 characters or fewer"@,
            ),
        ),
{
    check_name(name, "name is required", MAX_LINK_NAME_BYTES, "name must be 100 characters or fewer")
}

/// Parses a link's destination: an `http(s)` URL with a host and no
/// credentials.
pub fn parse_destination_url(url: &str) -> (r: Result<UrlParts, AppError>)
    ensures
        match http_url_verdict(url@, "destination_url"@, "destination_url must be a valid URL"@) {
            Ok(p) => r matches Ok(x) && parts_view(x) == p,
            Err(m) => crate::error::bad_request_with(r, m),
        },
{
    check_http_url(url, "destination_url", "destination_url must be a valid URL")
}

/// Whether a destination's host is the website's domain or a subdomain.
pub fn destination_matches_website(url: &UrlParts, website_domain: &str) -> (b: bool)
    ensures
        b == match url.host {
            None => false,
            Some(h) => host_matches(h@, website_domain@),
        },
{
    url_matches_website(url, website_domain)
}

/// Bytes left as they are in a query component: ASCII letters and digits
/// and `-`, `_`, `.`, `~`.
pub open spec fn is_unreserved(b: u8) -> bool {
    (48 <= b <= 57) || (65 <= b <= 90) || (97 <= b <= 122) || b == 45 || b == 95 || b == 46 || b
        == 126
}

/// Upper-case hexadecimal digit of a value below 16.
pub open spec fn upper_hex(n: u8) -> char {
    if n < 10 {
        ((48 + n) as u32) as char
    } else {
        ((55 + n) as u32) as char
    }
}

/// Percent-encoding of bytes: unreserved bytes as themselves, every other
/// byte as `%` and two upper-case hex digits.
pub open spec fn percent_encode(bytes: Seq<u8>) -> Seq<char>
    decreases bytes.len(),
{
    if bytes.len() == 0 {
        Seq::empty()
    } else {
        let rest = percent_encode(bytes.drop_last());
        let b = bytes.last();
        if is_unreserved(b) {
            rest.push((b as u32) as char)
        } else {
            rest + seq!['%', upper_hex(b / 16), upper_hex(b % 16)]
        }
    }
}

/// Percent-encodes a query component, byte by byte of its UTF-8 form.
pub fn encode_query_component(raw: &str) -> (r: String)
    ensures
        r@ == percent_encode(vstd::utf8::encode_utf8(raw@)),
{
    let bytes = raw.as_bytes();
    let mut out: Vec<char> = Vec::new();
    let mut i: usize = 0;
    assert(bytes@.take(0) =~= Seq::<u8>::empty());
    while i < bytes.len()
        invariant
            i <= bytes@.len(),
            bytes@ == vstd::utf8::encode_utf8(raw@),
            out@ == percent_encode(bytes@.take(i as int)),
        decreases bytes@.len() - i,
    {
        let b = bytes[i];
        assert(bytes@.take(i + 1).drop_last() =~= bytes@.take(i as int));
        assert(bytes@.take(i + 1).last() == b);
        if (48 <= b && b <= 57) || (65 <= b && b <= 90) || (97 <= b && b <= 122) || b == 45 || b
            == 95 || b == 46 || b == 126 {
            out.push(b as char);
        } else {
            let hi = b / 16;
            let lo = b % 16;
            let h = if hi < 10 {
                (48u8 + hi) as char
            } else {
                (55u8 + hi) as char
            };
            let l = if lo < 10 {
                (48u8 + lo) as char
            } else {
                (55u8 + lo) as char
            };
            let ghost before = out@;
            out.push('%');
            out.push(h);
            out.push(l);
            assert(out@ =~= before + seq!['%', upper_hex(b / 16), upper_hex(b % 16)]);
        }
        i = i + 1;
    }
    assert(bytes@.take(i as int) =~= bytes@);
    string_of(out.as_slice())
}

/// A URL after appending `key=value` (value percent-encoded), with `?` or
/// `&` before it depending on whether it already has a query.
pub open spec fn appended_param(url: Seq<char>, has_query: bool, key: Seq<char>, value: Seq<char>) -> Seq<char> {
    url + seq![
        if has_query {
            '&'
        } else {
            '?'
        },
    ] + key + "="@ + percent_encode(vstd::utf8::encode_utf8(value))
}

/// Appends `key=value` to a URL; afterwards the URL has a query.
pub fn append_query_param(url: &mut String, has_query: &mut bool, key: &str, value: &str)
    ensures
        final(url)@ == appended_param(old(url)@, *old(has_query), key@, value@),
        *final(has_query),
{
    let mut v = chars_of(url.as_str());
    v.push(
        if *has_query {
            '&'
        } else {
            '?'
        },
    );
    *has_query = true;
    append_str(&mut v, key);
    append_str(&mut v, "=");
    let enc = encode_query_component(value);
    append_str(&mut v, enc.as_str());
    *url = string_of(v.as_slice());
}

/// One optional UTM parameter applied to a destination under construction
/// (its text, and whether it has a query yet).
pub open spec fn with_param(acc: (Seq<char>, bool), key: Seq<char>, value: Option<Seq<char>>) -> (
    Seq<char>,
    bool,
) {
    match value {
        None => acc,
        Some(v) => (appended_param(acc.0, acc.1, key, v), true),
    }
}

/// Where a click on `link` is sent: its destination with each UTM
/// parameter it sets appended, in the order source, medium, campaign,
/// term, content.
pub open spec fn tracking_destination(link: CampaignLink) -> Seq<char> {
    let a0 = (link.destination_url@, has_char(link.destination_url@, '?'));
    let a1 = with_param(a0, "utm_source"@, opt_string_view(link.utm_source));
    let a2 = with_param(a1, "utm_medium"@, opt_string_view(link.utm_medium));
    let a3 = with_param(a2, "utm_campaign"@, opt_string_view(link.utm_campaign));
    let a4 = with_param(a3, "utm_term"@, opt_string_view(link.utm_term));
    let a5 = with_param(a4, "utm_content"@, opt_string_view(link.utm_content));
    a5.0
}

/// One query parameter as it is written: the key, `=`, and the value
/// percent-encoded.
pub open spec fn query_param(key: Seq<char>, value: Seq<char>) -> Seq<char> {
    key + "="@ + percent_encode(vstd::utf8::encode_utf8(value))
}

/// Whether `url` holds `key=value` as a whole query parameter, right after
/// a `?` or a `&`.
pub open spec fn carries_param(url: Seq<char>, key: Seq<char>, value: Seq<char>) -> bool {
    exists|i: int|
        1 <= i && #[trigger] occurs_at(url, query_param(key, value), i) && (url[i - 1] == '?'
            || url[i - 1] == '&')
}

proof fn lemma_with_param_extends(acc: (Seq<char>, bool), key: Seq<char>, value: Option<Seq<char>>)
    ensures
        acc.0.len() <= with_param(acc, key, value).0.len(),
        with_param(acc, key, value).0.subrange(0, acc.0.len() as int) == acc.0,
{
    let out = with_param(acc, key, value).0;
    assert(out.subrange(0, acc.0.len() as int) =~= acc.0);
}

proof fn lemma_with_param_carries(acc: (Seq<char>, bool), key: Seq<char>, value: Seq<char>)
    ensures
        carries_param(with_param(acc, key, Some(value)).0, key, value),
{
    let out = with_param(acc, key, Some(value)).0;
    let i: int = acc.0.len() as int + 1;
    assert(out.subrange(i, i + query_param(key, value).len()) =~= query_param(key, value));
    assert(occurs_at(out, query_param(key, value), i));
}

proof fn lemma_carries_kept(acc: (Seq<char>, bool), key: Seq<char>, value: Option<Seq<char>>, k: Seq<char>, v: Seq<char>)
    requires
        carries_param(acc.0, k, v),
    ensures
        carries_param(with_param(acc, key, value).0, k, v),
{
    let out = with_param(acc, key, value).0;
    lemma_with_param_extends(acc, key, value);
    let i = choose|i: int|
        1 <= i && #[trigger] occurs_at(acc.0, query_param(k, v), i) && (acc.0[i - 1] == '?'
            || acc.0[i - 1] == '&');
    let n: int = query_param(k, v).len() as int;
    assert(out.subrange(i, i + n) =~= acc.0.subrange(i, i + n)) by {
        assert forall|j: int| 0 <= j < n implies #[trigger] out.subrange(i, i + n)[j]
            == acc.0.subrange(i, i + n)[j] by {
            assert(out.subrange(0, acc.0.len() as int)[i + j] == out[i + j]);
        }
    }
    assert(out[i - 1] == out.subrange(0, acc.0.len() as int)[i - 1]);
    assert(occurs_at(out, query_param(k, v), i));
}

/// Each UTM value a link sets is sent under its own key: the destination
/// holds `utm_source=<value>` for the link's source, and so on for medium,
/// campaign, term and content, each as a whole query parameter. A link that
/// sets none of them is sent to its destination unchanged.
pub proof fn lemma_destination_carries_utm(link: CampaignLink)
    ensures
        link.utm_source matches Some(v) ==> carries_param(
            tracking_destination(link),
            "utm_source"@,
            v@,
        ),
        link.utm_medium matches Some(v) ==> carries_param(
            tracking_destination(link),
            "utm_medium"@,
            v@,
        ),
        link.utm_campaign matches Some(v) ==> carries_param(
            tracking_destination(link),
            "utm_campaign"@,
            v@,
        ),
        link.utm_term matches Some(v) ==> carries_param(tracking_destination(link), "utm_term"@, v@),
        link.utm_content matches Some(v) ==> carries_param(
            tracking_destination(link),
            "utm_content"@,
            v@,
        ),
        link.utm_source is None && link.utm_medium is None && link.utm_campaign is None
            && link.utm_term is None && link.utm_content is None ==> tracking_destination(link)
            == link.destination_url@,
{
    let a0 = (link.destination_url@, has_char(link.destination_url@, '?'));
    let a1 = with_param(a0, "utm_source"@, opt_string_view(link.utm_source));
    let a2 = with_param(a1, "utm_medium"@, opt_string_view(link.utm_medium));
    let a3 = with_param(a2, "utm_campaign"@, opt_string_view(link.utm_campaign));
    let a4 = with_param(a3, "utm_term"@, opt_string_view(link.utm_term));
    let a5 = with_param(a4, "utm_content"@, opt_string_view(link.utm_content));
    assert(tracking_destination(link) == a5.0);
    if let Some(v) = link.utm_source {
        lemma_with_param_carries(a0, "utm_source"@, v@);
        lemma_carries_kept(a1, "utm_medium"@, opt_string_view(link.utm_medium), "utm_source"@, v@);
        lemma_carries_kept(a2, "utm_campaign"@, opt_string_view(link.utm_campaign), "utm_source"@, v@);
        lemma_carries_kept(a3, "utm_term"@, opt_string_view(link.utm_term), "utm_source"@, v@);
        lemma_carries_kept(a4, "utm_content"@, opt_string_view(link.utm_content), "utm_source"@, v@);
    }
    if let Some(v) = link.utm_medium {
        lemma_with_param_carries(a1, "utm_medium"@, v@);
        lemma_carries_kept(a2, "utm_campaign"@, opt_string_view(link.utm_campaign), "utm_medium"@, v@);
        lemma_carries_kept(a3, "utm_term"@, opt_string_view(link.utm_term), "utm_medium"@, v@);
        lemma_carries_kept(a4, "utm_content"@, opt_string_view(link.utm_content), "utm_medium"@, v@);
    }
    if let Some(v) = link.utm_campaign {
        lemma_with_param_carries(a2, "utm_campaign"@, v@);
        lemma_carries_kept(a3, "utm_term"@, opt_string_view(link.utm_term), "utm_campaign"@, v@);
        lemma_carries_kept(a4, "utm_content"@, opt_string_view(link.utm_content), "utm_campaign"@, v@);
    }
    if let Some(v) = link.utm_term {
        lemma_with_param_carries(a3, "utm_term"@, v@);
        lemma_carries_kept(a4, "utm_content"@, opt_string_view(link.utm_content), "utm_term"@, v@);
    }
    if let Some(v) = link.utm_content {
        lemma_with_param_carries(a4, "utm_content"@, v@);
    }
}

/// How many of a link's UTM values are set.
pub open spec fn utm_count(link: CampaignLink) -> nat {
    (if link.utm_source is Some { 1nat } else { 0nat }) + (if link.utm_medium is Some {
        1nat
    } else {
        0nat
    }) + (if link.utm_campaign is Some { 1nat } else { 0nat }) + (if link.utm_term is Some {
        1nat
    } else {
        0nat
    }) + (if link.utm_content is Some { 1nat } else { 0nat })
}

/// The separator before a parameter appended to `url`: `&` when it already
/// has a query, `?` otherwise.
pub open spec fn query_separator(url: Seq<char>) -> char {
    if has_char(url, '?') {
        '&'
    } else {
        '?'
    }
}

/// A link that sets exactly one UTM value is sent to its destination
/// followed by the separator and that one parameter under its own key.
pub proof fn lemma_destination_single_utm(link: CampaignLink)
    requires
        utm_count(link) == 1,
    ensures
        ({
            let url = link.destination_url@;
            let head = url + seq![query_separator(url)];
            &&& link.utm_source matches Some(v) ==> tracking_destination(link) == head
                + query_param("utm_source"@, v@)
            &&& link.utm_medium matches Some(v) ==> tracking_destination(link) == head
                + query_param("utm_medium"@, v@)
            &&& link.utm_campaign matches Some(v) ==> tracking_destination(link) == head
                + query_param("utm_campaign"@, v@)
            &&& link.utm_term matches Some(v) ==> tracking_destination(link) == head
                + query_param("utm_term"@, v@)
            &&& link.utm_content matches Some(v) ==> tracking_destination(link) == head
                + query_param("utm_content"@, v@)
        }),
{
    let url = link.destination_url@;
    let head = url + seq![query_separator(url)];
    if let Some(v) = link.utm_source {
        assert(tracking_destination(link) =~= head + query_param("utm_source"@, v@));
    }
    if let Some(v) = link.utm_medium {
        assert(tracking_destination(link) =~= head + query_param("utm_medium"@, v@));
    }
    if let Some(v) = link.utm_campaign {
        assert(tracking_destination(link) =~= head + query_param("utm_campaign"@, v@));
    }
    if let Some(v) = link.utm_term {
        assert(tracking_destination(link) =~= head + query_param("utm_term"@, v@));
    }
    if let Some(v) = link.utm_content {
        assert(tracking_destination(link) =~= head + query_param("utm_content"@, v@));
    }
}

fn add_param(dest: &mut String, has_query: &mut bool, key: &str, value: &Option<String>)
    ensures
        (final(dest)@, *final(has_query)) == with_param(
            (old(dest)@, *old(has_query)),
            key@,
            opt_string_view(*value),
        ),
{
    if let Some(v) = value {
        append_query_param(dest, has_query, key, v.as_str());
    }
}

/// Builds the redirect target of a campaign link.
pub fn build_tracking_destination(link: &CampaignLink) -> (r: String)
    ensures
        r@ == tracking_destination(*link),
{
    let mut destination = link.destination_url.clone();
    let d = chars_of(destination.as_str());
    let mut has_query = has_char_exec(d.as_slice(), '?');
    add_param(&mut destination, &mut has_query, "utm_source", &link.utm_source);
    add_param(&mut destination, &mut has_query, "utm_medium", &link.utm_medium);
    add_param(&mut destination, &mut has_query, "utm_campaign", &link.utm_campaign);
    add_param(&mut destination, &mut has_query, "utm_term", &link.utm_term);
    add_param(&mut destination, &mut has_query, "utm_content", &link.utm_content);
    destination
}

/// Rejects a redirect target longer than 2048 bytes.
pub fn check_tracking_url_length(destination: &str) -> (r: Result<(), AppError>)
    ensures
        r is Ok <==> crate::text::byte_len(destination@) <= MAX_TRACKING_URL_BYTES,
        r is Err ==> crate::error::bad_request_with(r, "destination_url exceeds max length"@),
{
    if destination.len() > MAX_TRACKING_URL_BYTES {
        return Err(crate::error::bad_request("destination_url exceeds max length"));
    }
    Ok(())
}

/// Public URL of a link's redirect: the server's public URL, `/l/` and
/// the slug.
pub fn link_tracking_url(public_url: &str, slug: &str) -> (r: String)
    ensures
        r@ == public_url@ + "/l/"@ + slug@,
{
    let mut v = chars_of(public_url);
    append_str(&mut v, "/l/");
    append_str(&mut v, slug);
    string_of(v.as_slice())
}

} // verus!
