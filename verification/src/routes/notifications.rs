//! Notification targets (e-mail addresses and webhooks, which must not
//! point into private networks), time zones and delivery history.
use vstd::prelude::*;

use crate::dates::{chrono_tz_parses, timezone_parses};
use crate::error::{bad_request, bad_request_with, AppError};
use crate::routes::bot::{octets_plain, octets_plain_exec};
use crate::routes::query::{opt_string_view, opt_view};
use crate::text::{
    before_char, before_char_exec, chars_eq, chars_of, has_char, has_char_exec, lower,
    lower_chars, starts_with, string_of, sub_chars, trim, trim_str,
};
use crate::urls::{parse_url, parts_view, url_parse, UrlParts};

verus! {

/// Query of the delivery history.
pub struct NotificationHistoryQuery {
    pub limit: Option<i64>,
}

impl NotificationHistoryQuery {
    /// Number of deliveries listed: 50 by default, clamped to `1..=200`.
    pub fn page_limit(&self) -> (l: i64)
        ensures
            l == ({
                let x = match self.limit {
                    Some(v) => v,
                    None => 50,
                };
                if x < 1 {
                    1
                } else if x > 200 {
                    200
                } else {
                    x
                }
            }),
    {
        let x = match self.limit {
            Some(v) => v,
            None => 50,
        };
        if x < 1 {
            1
        } else if x > 200 {
            200
        } else {
            x
        }
    }
}

/// Checks a subscription's time zone (trimmed).
pub fn validate_timezone(timezone: &str) -> (r: Result<(), AppError>)
    ensures
        r is Ok <==> chrono_tz_parses(trim(timezone@)),
        r is Err ==> bad_request_with(r, "invalid timezone"@),
{
    let t = trim_str(timezone);
    let s = string_of(t.as_slice());
    if timezone_parses(s.as_str()) {
        Ok(())
    } else {
        Err(bad_request("invalid timezone"))
    }
}

/// Where a notification goes.
#[derive(Clone, Copy, Debug, PartialEq, Eq, Structural)]
pub enum NotificationChannel {
    Email,
    Webhook,
}

/// Whether a text is a plausible e-mail address: once trimmed, a
/// non-empty part before its first `@` and, after it, a domain holding a
/// `.` and not starting with one.
pub open spec fn email_ok(target: Seq<char>) -> bool {
    let t = trim(target);
    let local = before_char(t, '@');
    if local.len() == t.len() {
        false
    } else {
        let domain = t.skip(local.len() + 1int);
        local.len() > 0 && has_char(domain, '.') && !starts_with(domain, seq!['.'])
    }
}

/// Checks an e-mail target.
pub fn is_valid_email(target: &str) -> (b: bool)
    ensures
        b == email_ok(target@),
{
    let t = trim_str(target);
    let local = before_char_exec(t.as_slice(), '@');
    if local.len() == t.len() {
        return false;
    }
    proof {
        crate::text::lemma_before_char_len(t@, '@');
    }
    let domain = sub_chars(t.as_slice(), local.len() + 1, t.len());
    assert(domain@ =~= t@.skip(local@.len() + 1int));
    let starts_dot = domain.len() > 0 && domain[0] == '.';
    assert(starts_with(domain@, seq!['.']) == starts_dot) by {
        if domain@.len() > 0 {
            assert(domain@.subrange(0, 1) =~= seq![domain@[0]]);
            if domain@[0] != '.' {
                assert(domain@.subrange(0, 1)[0] != seq!['.'][0]);
            }
        }
    }
    local.len() > 0 && has_char_exec(domain.as_slice(), '.') && !starts_dot
}

/// Octets of an IPv4 address.
pub type Ipv4Octets = (u8, u8, u8, u8);

/// Whether an IPv4 address must not receive webhooks: private, loopback,
/// link-local, multicast, broadcast, unspecified, or in `0.0.0.0/8` (the
/// classes of the standard library's `Ipv4Addr` tests).
pub open spec fn blocked_v4(o: Ipv4Octets) -> bool {
    let (a, b, c, d) = o;
    ||| a == 10
    ||| (a == 172 && 16 <= b <= 31)
    ||| (a == 192 && b == 168)
    ||| a == 127
    ||| (a == 169 && b == 254)
    ||| (224 <= a <= 239)
    ||| (a == 255 && b == 255 && c == 255 && d == 255)
    ||| a == 0
}

/// Whether an IPv6 address (eight segments) must not receive webhooks:
/// loopback, unspecified, unique-local (`fc00::/7`), link-local
/// (`fe80::/10`), multicast (`ff00::/8`), or an IPv4-compatible or
/// IPv4-mapped address of a blocked IPv4 address.
pub open spec fn blocked_v6(s: Seq<u16>) -> bool {
    let zero6 = s[0] == 0 && s[1] == 0 && s[2] == 0 && s[3] == 0 && s[4] == 0;
    ||| (zero6 && s[5] == 0 && s[6] == 0 && s[7] == 1)
    ||| (zero6 && s[5] == 0 && s[6] == 0 && s[7] == 0)
    ||| (s[0] / 512) == 0x7e
    ||| (s[0] / 64) == 0x3fa
    ||| (s[0] / 256) == 0xff
    ||| (zero6 && (s[5] == 0 || s[5] == 0xffff) && blocked_v4(
        ((s[6] / 256) as u8, (s[6] % 256) as u8, (s[7] / 256) as u8, (s[7] % 256) as u8),
    ))
}

/// An IP address read from text.
#[derive(Debug)]
pub enum IpLiteral {
    V4(u8, u8, u8, u8),
    V6(Vec<u16>),
}

/// Name for the address that `ipnet`'s parser reads in a host name, as
/// octets (IPv4) or eight segments (IPv6), or `None` when it reads none.
pub uninterp spec fn ip_literal(s: Seq<char>) -> Option<Result<Ipv4Octets, Seq<u16>>>;

/// View of an address read from text.
pub open spec fn ip_view(ip: IpLiteral) -> Result<Ipv4Octets, Seq<u16>> {
    match ip {
        IpLiteral::V4(a, b, c, d) => Ok((a, b, c, d)),
        IpLiteral::V6(s) => Err(s@),
    }
}

/// Reads an address through `ipnet::IpNet::from_str` on the text with
/// `/32` appended: its `octets()` or `segments()`; named by
/// [`ip_literal`]. An IPv6 address has eight segments. `ipnet`'s parser
/// also takes octets with a leading zero, which [`read_ip_literal`]
/// refuses before calling it.
#[verifier::external_body]
pub(crate) fn parse_ip_literal(s: &str) -> (r: Option<IpLiteral>)
    ensures
        match r {
            Some(ip) => ip_literal(s@) == Some(ip_view(ip)),
            None => ip_literal(s@) is None,
        },
        r matches Some(IpLiteral::V6(seg)) ==> seg@.len() == 8,
{
    match format!("{s}/32").parse::<ipnet::IpNet>() {
        Ok(ipnet::IpNet::V4(n)) => {
            let [a, b, c, d] = n.addr().octets();
            Some(IpLiteral::V4(a, b, c, d))
        },
        Ok(ipnet::IpNet::V6(n)) => Some(IpLiteral::V6(n.addr().segments().to_vec())),
        Err(_) => None,
    }
}

/// The address written in a host name, read as the standard library's
/// `IpAddr` parser reads it: `ipnet`'s reading, refusing dotted-decimal
/// octets with a leading zero.
pub open spec fn std_ip_literal(s: Seq<char>) -> Option<Result<Ipv4Octets, Seq<u16>>> {
    if octets_plain(s) {
        ip_literal(s)
    } else {
        None
    }
}

/// Reads the address written in a host name, as the standard library's
/// `IpAddr` parser does.
pub fn read_ip_literal(s: &str) -> (r: Option<IpLiteral>)
    ensures
        match r {
            Some(ip) => std_ip_literal(s@) == Some(ip_view(ip)),
            None => std_ip_literal(s@) is None,
        },
        r matches Some(IpLiteral::V6(seg)) ==> seg@.len() == 8,
{
    let c = chars_of(s);
    if octets_plain_exec(c.as_slice()) {
        parse_ip_literal(s)
    } else {
        None
    }
}

/// Whether an address read from text is blocked.
pub fn is_blocked_ip(ip: &IpLiteral) -> (b: bool)
    requires
        ip matches IpLiteral::V6(s) ==> s@.len() == 8,
    ensures
        b == match ip_view(*ip) {
            Ok(o) => blocked_v4(o),
            Err(s) => blocked_v6(s),
        },
{
    match ip {
        IpLiteral::V4(a, b, c, d) => is_blocked_v4(*a, *b, *c, *d),
        IpLiteral::V6(s) => {
            let zero6 = s[0] == 0 && s[1] == 0 && s[2] == 0 && s[3] == 0 && s[4] == 0;
            (zero6 && s[5] == 0 && s[6] == 0 && s[7] == 1) || (zero6 && s[5] == 0 && s[6] == 0
                && s[7] == 0) || (s[0] / 512) == 0x7e || (s[0] / 64) == 0x3fa || (s[0] / 256)
                == 0xff || (zero6 && (s[5] == 0 || s[5] == 0xffff) && is_blocked_v4(
                (s[6] / 256) as u8,
                (s[6] % 256) as u8,
                (s[7] / 256) as u8,
                (s[7] % 256) as u8,
            ))
        },
    }
}

/// Whether an IPv4 address is blocked.
pub fn is_blocked_v4(a: u8, b: u8, c: u8, d: u8) -> (r: bool)
    ensures
        r == blocked_v4((a, b, c, d)),
{
    a == 10 || (a == 172 && 16 <= b && b <= 31) || (a == 192 && b == 168) || a == 127 || (a
        == 169 && b == 254) || (224 <= a && a <= 239) || (a == 255 && b == 255 && c == 255 && d
        == 255) || a == 0
}

/// Outcome of checking a webhook target: it must parse as a URL with an
/// `http(s)` scheme and a host that is neither `localhost` nor a blocked
/// address.
pub open spec fn webhook_verdict(target: Seq<char>) -> Result<(), Seq<char>> {
    match url_parse(target) {
        None => Err("invalid webhook target"@),
        Some(p) => if p.0 != "http"@ && p.0 != "https"@ {
            Err("webhook target must use http or https"@)
        } else {
            match p.1 {
                None => Err("webhook target missing host"@),
                Some(h) => if lower(h) == "localhost"@ {
                    Err("webhook target host is not allowed"@)
                } else {
                    match std_ip_literal(h) {
                        Some(Ok(o)) if blocked_v4(o) => Err("webhook target host is not allowed"@),
                        Some(Err(s)) if blocked_v6(s) => Err("webhook target host is not allowed"@),
                        _ => Ok(()),
                    }
                },
            }
        },
    }
}

/// Outcome of checking a notification target for its channel.
pub open spec fn target_verdict(channel: NotificationChannel, target: Seq<char>) -> Result<(), Seq<char>> {
    let t = trim(target);
    if t.len() == 0 {
        Err("target is required"@)
    } else {
        match channel {
            NotificationChannel::Email => if email_ok(t) {
                Ok(())
            } else {
                Err("invalid email target"@)
            },
            NotificationChannel::Webhook => webhook_verdict(t),
        }
    }
}

fn eq_lit(v: &[char], lit: &str) -> (b: bool)
    ensures
        b == (v@ == lit@),
{
    let l = chars_of(lit);
    chars_eq(v, l.as_slice())
}

/// Checks a notification target for its channel.
pub fn validate_target(channel: NotificationChannel, target: &str) -> (r: Result<(), AppError>)
    ensures
        match target_verdict(channel, target@) {
            Ok(()) => r is Ok,
            Err(m) => bad_request_with(r, m),
        },
{
    let t = trim_str(target);
    if t.len() == 0 {
        return Err(bad_request("target is required"));
    }
    let ts = string_of(t.as_slice());
    match channel {
        NotificationChannel::Email => {
            if !is_valid_email(ts.as_str()) {
                return Err(bad_request("invalid email target"));
            }
            Ok(())
        },
        NotificationChannel::Webhook => {
            let parts = match parse_url(ts.as_str()) {
                Some(p) => p,
                None => {
                    return Err(bad_request("invalid webhook target"));
                },
            };
            let scheme = chars_of(parts.scheme.as_str());
            if !eq_lit(scheme.as_slice(), "http") && !eq_lit(scheme.as_slice(), "https") {
                return Err(bad_request("webhook target must use http or https"));
            }
            let host = match &parts.host {
                Some(h) => h,
                None => {
                    return Err(bad_request("webhook target missing host"));
                },
            };
            let hc = chars_of(host.as_str());
            let hl = lower_chars(hc.as_slice());
            if eq_lit(hl.as_slice(), "localhost") {
                return Err(bad_request("webhook target host is not allowed"));
            }
            if let Some(ip) = read_ip_literal(host.as_str()) {
                if is_blocked_ip(&ip) {
                    return Err(bad_request("webhook target host is not allowed"));
                }
            }
            Ok(())
        },
    }
}

} // verus!
