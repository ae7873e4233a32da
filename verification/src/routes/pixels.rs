//! Tracking pixels: checks on their names and default URLs, the key in a
//! pixel's path, the image it answers with and the URL its hits record.
use vstd::prelude::*;

use crate::error::{bad_request, bad_request_with, AppError};
use crate::routes::query::{check_name, name_verdict, opt_string_view, verdict_matches};
use crate::text::{append_str, byte_len, chars_of, string_of, strip_suffixes, strip_suffixes_exec};
use crate::urls::{check_http_url, host_matches, http_url_verdict, parts_view, url_matches_website, UrlParts};

verus! {

/// Longest URL a pixel hit may record, in bytes.
pub const MAX_PIXEL_EVENT_URL_BYTES: usize = 2048;

/// Longest pixel name, in bytes.
pub const MAX_PIXEL_NAME_BYTES: usize = 100;

/// The bytes of the 1x1 transparent GIF that a pixel answers with.
pub open spec fn transparent_gif_bytes() -> Seq<u8> {
    seq![
        71u8, 73, 70, 56, 57, 97, 1, 0, 1, 0, 128, 0, 0, 0, 0, 0, 255, 255, 255, 33, 249, 4, 1, 0,
        0, 0, 0, 44, 0, 0, 0, 0, 1, 0, 1, 0, 0, 2, 2, 68, 1, 0, 59,
    ]
}

/// The 1x1 transparent GIF that a pixel answers with.
pub fn transparent_gif() -> (r: Vec<u8>)
    ensures
        r@ == transparent_gif_bytes(),
{
    let r: Vec<u8> = vec![
        71u8, 73, 70, 56, 57, 97, 1, 0, 1, 0, 128, 0, 0, 0, 0, 0, 255, 255, 255, 33, 249, 4, 1, 0,
        0, 0, 0, 44, 0, 0, 0, 0, 1, 0, 1, 0, 0, 2, 2, 68, 1, 0, 59,
    ];
    assert(r@ =~= transparent_gif_bytes());
    r
}

/// The answer to a recorded pixel hit: its status, headers (name and
/// value) and body.
pub struct PixelResponse {
    pub status: u16,
    pub headers: Vec<(String, String)>,
    pub body: Vec<u8>,
}

/// `Cache-Control` of a pixel's answer: never cached, so each view reaches
/// the server.
pub const PIXEL_CACHE_CONTROL: &'static str = "no-store, no-cache, must-revalidate";

/// The headers of a pixel's answer.
pub open spec fn pixel_response_headers() -> Seq<(Seq<char>, Seq<char>)> {
    seq![
        ("content-type"@, "image/gif"@),
        ("cache-control"@, PIXEL_CACHE_CONTROL@),
        ("pragma"@, "no-cache"@),
    ]
}

/// The answer to a recorded pixel hit: 200, the transparent GIF, as
/// `image/gif`, with caching turned off (`Cache-Control` and `Pragma`).
pub fn pixel_response() -> (r: PixelResponse)
    ensures
        r.status == 200,
        r.body@ == transparent_gif_bytes(),
        r.headers@.map_values(|h: (String, String)| (h.0@, h.1@)) == pixel_response_headers(),
{
    let headers: Vec<(String, String)> = vec![
        ("content-type".to_owned(), "image/gif".to_owned()),
        ("cache-control".to_owned(), PIXEL_CACHE_CONTROL.to_owned()),
        ("pragma".to_owned(), "no-cache".to_owned()),
    ];
    assert(headers@.map_values(|h: (String, String)| (h.0@, h.1@)) =~= pixel_response_headers());
    PixelResponse { status: 200, headers, body: transparent_gif() }
}

/// Checks a pixel name: not blank, at most 100 bytes.
pub fn validate_name(name: &str) -> (r: Result<(), AppError>)
    ensures
        verdict_matches(
            r,
            name_verdict(
                name@,
                "name is required"@,
                MAX_PIXEL_NAME_BYTES,
                "name must be 100 characters or fewer"@,
            ),
        ),
{
    check_name(name, "name is required", MAX_PIXEL_NAME_BYTES, "name must be 100 characters or fewer")
}

/// Parses a pixel's default URL: an `http(s)` URL with a host and no
/// credentials.
pub fn parse_default_url(url: &str) -> (r: Result<UrlParts, AppError>)
    ensures
        match http_url_verdict(url@, "default_url"@, "default_url must be valid"@) {
            Ok(p) => r matches Ok(x) && parts_view(x) == p,
            Err(m) => bad_request_with(r, m),
        },
{
    check_http_url(url, "default_url", "default_url must be valid")
}

/// Whether a default URL's host is the website's domain or a subdomain.
pub fn default_url_matches_website(url: &UrlParts, website_domain: &str) -> (b: bool)
    ensures
        b == match url.host {
            None => false,
            Some(h) => host_matches(h@, website_domain@),
        },
{
    url_matches_website(url, website_domain)
}

/// The pixel key of a request path segment: every trailing `.gif` removed.
pub fn normalize_pixel_key(raw: &str) -> (r: String)
    ensures
        r@ == strip_suffixes(raw@, ".gif"@),
{
    let c = chars_of(raw);
    let p = chars_of(".gif");
    let k = strip_suffixes_exec(c.as_slice(), p.as_slice());
    string_of(k.as_slice())
}

/// The URL a pixel hit records: the `url` query parameter, else the
/// pixel's default URL, else `pixel://` and the pixel's key.
pub open spec fn pixel_event_url_of(
    query_url: Option<Seq<char>>,
    default_url: Option<Seq<char>>,
    pixel_key: Seq<char>,
) -> Seq<char> {
    match query_url {
        Some(u) => u,
        None => match default_url {
            Some(d) => d,
            None => "pixel://"@ + pixel_key,
        },
    }
}

/// Picks the URL a pixel hit records.
pub fn pixel_event_url(query_url: Option<String>, default_url: Option<String>, pixel_key: &str) -> (r: String)
    ensures
        r@ == pixel_event_url_of(
            opt_string_view(query_url),
            opt_string_view(default_url),
            pixel_key@,
        ),
{
    match query_url {
        Some(u) => u,
        None => match default_url {
            Some(d) => d,
            None => {
                let mut v = chars_of("pixel://");
                append_str(&mut v, pixel_key);
                string_of(v.as_slice())
            },
        },
    }
}

/// Rejects a recorded URL longer than 2048 bytes.
pub fn check_event_url_length(event_url: &str) -> (r: Result<(), AppError>)
    ensures
        r is Ok <==> byte_len(event_url@) <= MAX_PIXEL_EVENT_URL_BYTES,
        r is Err ==> bad_request_with(r, "url exceeds max length"@),
{
    if event_url.len() > MAX_PIXEL_EVENT_URL_BYTES {
        return Err(bad_request("url exceeds max length"));
    }
    Ok(())
}

/// Public URL of a pixel's image: the server's public URL, `/p/`, the key
/// and `.gif`.
pub open spec fn pixel_url_of(public_url: Seq<char>, key: Seq<char>) -> Seq<char> {
    public_url + "/p/"@ + key + ".gif"@
}

/// Builds a pixel's image URL.
pub fn pixel_url(public_url: &str, pixel_key: &str) -> (r: String)
    ensures
        r@ == pixel_url_of(public_url@, pixel_key@),
{
    let mut v = chars_of(public_url);
    append_str(&mut v, "/p/");
    append_str(&mut v, pixel_key);
    append_str(&mut v, ".gif");
    string_of(v.as_slice())
}

/// HTML snippet that embeds a pixel: a hidden one-by-one image.
pub fn pixel_snippet(public_url: &str, pixel_key: &str) -> (r: String)
    ensures
        r@ == "<img src=\""@ + pixel_url_of(public_url@, pixel_key@)
            + "\" width=\"1\" height=\"1\" style=\"display:none\" alt=\"\" />"@,
{
    let mut v = chars_of("<img src=\"");
    append_str(&mut v, public_url);
    append_str(&mut v, "/p/");
    append_str(&mut v, pixel_key);
    append_str(&mut v, ".gif");
    append_str(&mut v, "\" width=\"1\" height=\"1\" style=\"display:none\" alt=\"\" />");
    string_of(v.as_slice())
}

} // verus!
