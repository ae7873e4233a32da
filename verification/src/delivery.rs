//! Delivery of notifications: the checks on a webhook target before and
//! after its name is resolved, the SMTP settings, and the status recorded
//! for a delivery.
use vstd::prelude::*;

use crate::routes::notifications::{blocked_v4, blocked_v6, std_ip_literal, ip_view, is_blocked_ip, IpLiteral};
use crate::routes::query::opt_view;
use crate::scheduler::u64_text;
use crate::text::{chars_eq, chars_of, lower, lower_chars, string_of, trim, trim_str};
use crate::urls::{parse_url, url_parse};

verus! {

/// Outcome of the checks on a webhook target before it is resolved: the
/// trimmed text must parse as an `http(s)` URL with a host other than
/// `localhost` and a port; the host and port to resolve.
pub open spec fn webhook_delivery_verdict(target: Seq<char>) -> Result<(Seq<char>, u16), Seq<char>> {
    match url_parse(trim(target)) {
        None => Err("invalid webhook url"@),
        Some(p) => if p.0 != "http"@ && p.0 != "https"@ {
            Err("webhook url must use http or https"@)
        } else {
            match p.1 {
                None => Err("webhook url missing host"@),
                Some(h) => if lower(h) == "localhost"@ {
                    Err("webhook target host is not allowed"@)
                } else {
                    match p.4 {
                        None => Err("webhook url missing port"@),
                        Some(port) => Ok((h, port)),
                    }
                },
            }
        },
    }
}

fn same_as(v: &[char], lit: &str) -> (b: bool)
    ensures
        b == (v@ == lit@),
{
    let l = chars_of(lit);
    chars_eq(v, l.as_slice())
}

fn message(m: &str) -> (r: String)
    ensures
        r@ == m@,
{
    string_of(chars_of(m).as_slice())
}

/// Checks a webhook target before delivery and gives the host and port
/// to resolve.
pub fn webhook_delivery_target(target: &str) -> (r: Result<(String, u16), String>)
    ensures
        match webhook_delivery_verdict(target@) {
            Ok((h, port)) => r matches Ok((x, p)) && x@ == h && p == port,
            Err(m) => r matches Err(x) && x@ == m,
        },
{
    let t = trim_str(target);
    let ts = string_of(t.as_slice());
    let parts = match parse_url(ts.as_str()) {
        Some(p) => p,
        None => {
            return Err(message("invalid webhook url"));
        },
    };
    let scheme = chars_of(parts.scheme.as_str());
    if !same_as(scheme.as_slice(), "http") && !same_as(scheme.as_slice(), "https") {
        return Err(message("webhook url must use http or https"));
    }
    let host = match parts.host {
        Some(h) => h,
        None => {
            return Err(message("webhook url missing host"));
        },
    };
    let hc = chars_of(host.as_str());
    let hl = lower_chars(hc.as_slice());
    if same_as(hl.as_slice(), "localhost") {
        return Err(message("webhook target host is not allowed"));
    }
    match parts.port {
        Some(port) => Ok((host, port)),
        None => Err(message("webhook url missing port")),
    }
}

/// Whether an address may not receive webhooks.
pub open spec fn address_blocked(a: Result<(u8, u8, u8, u8), Seq<u16>>) -> bool {
    match a {
        Ok(o) => blocked_v4(o),
        Err(s) => blocked_v6(s),
    }
}

/// Outcome of the check on the addresses a webhook host resolved to:
/// there must be some, and none may be private or otherwise non-public.
pub open spec fn resolved_verdict(addrs: Seq<Result<(u8, u8, u8, u8), Seq<u16>>>) -> Result<(), Seq<char>> {
    if addrs.len() == 0 {
        Err("webhook dns resolve returned no addresses"@)
    } else if exists|i: int| 0 <= i < addrs.len() && address_blocked(#[trigger] addrs[i]) {
        Err("webhook target resolves to non-public address"@)
    } else {
        Ok(())
    }
}

/// Views of resolved addresses.
pub open spec fn addrs_view(v: Seq<IpLiteral>) -> Seq<Result<(u8, u8, u8, u8), Seq<u16>>> {
    v.map_values(|a: IpLiteral| ip_view(a))
}

/// An address as resolution gives it: IPv6 ones have eight segments.
pub open spec fn well_formed_addr(a: IpLiteral) -> bool {
    a matches IpLiteral::V6(s) ==> s@.len() == 8
}

/// Checks the addresses a webhook host resolved to.
pub fn check_resolved_addresses(addrs: &[IpLiteral]) -> (r: Result<(), String>)
    requires
        forall|i: int| 0 <= i < addrs@.len() ==> well_formed_addr(#[trigger] addrs@[i]),
    ensures
        match resolved_verdict(addrs_view(addrs@)) {
            Ok(()) => r is Ok,
            Err(m) => r matches Err(x) && x@ == m,
        },
{
    if addrs.len() == 0 {
        return Err(message("webhook dns resolve returned no addresses"));
    }
    let ghost av = addrs_view(addrs@);
    let mut i: usize = 0;
    while i < addrs.len()
        invariant
            i <= addrs@.len(),
            av == addrs_view(addrs@),
            forall|k: int| 0 <= k < addrs@.len() ==> well_formed_addr(#[trigger] addrs@[k]),
            forall|k: int| 0 <= k < i ==> !address_blocked(#[trigger] av[k]),
        decreases addrs@.len() - i,
    {
        assert(av[i as int] == ip_view(addrs@[i as int]));
        assert(well_formed_addr(addrs@[i as int]));
        if is_blocked_ip(&addrs[i]) {
            return Err(message("webhook target resolves to non-public address"));
        }
        i = i + 1;
    }
    Ok(())
}

/// Whether a host is written as an IP address (then it is not pinned to
/// its resolved addresses).
pub fn host_is_ip_address(host: &str) -> (b: bool)
    ensures
        b == std_ip_literal(host@) is Some,
{
    crate::routes::notifications::read_ip_literal(host).is_some()
}

/// Default SMTP port.
pub const DEFAULT_SMTP_PORT: u16 = 587;

/// The SMTP port setting when it reads as a port number, else 587.
pub open spec fn smtp_port_of(raw: Option<Seq<char>>) -> u16 {
    match raw {
        Some(s) => match u64_text(s) {
            Some(v) => if v <= 65535 {
                v as u16
            } else {
                DEFAULT_SMTP_PORT
            },
            None => DEFAULT_SMTP_PORT,
        },
        None => DEFAULT_SMTP_PORT,
    }
}

/// Reads the SMTP port setting.
pub fn smtp_port(raw: Option<&str>) -> (p: u16)
    ensures
        p == smtp_port_of(opt_view(raw)),
{
    match raw {
        Some(s) => match crate::scheduler::parse_u64_text(s) {
            Some(v) => if v <= 65535 {
                v as u16
            } else {
                DEFAULT_SMTP_PORT
            },
            None => DEFAULT_SMTP_PORT,
        },
        None => DEFAULT_SMTP_PORT,
    }
}

/// Sender of notification emails when none is configured.
pub const DEFAULT_SMTP_FROM: &'static str = "sparklytics@localhost";

/// Status recorded for a delivery.
#[derive(Clone, Copy, Debug, PartialEq, Eq, Structural)]
pub enum DeliveryStatus {
    Sent,
    Failed,
}

/// What is recorded of a delivery attempt: sent, or failed with its error.
pub fn delivery_record(result: Result<(), String>) -> (r: (DeliveryStatus, Option<String>))
    ensures
        match result {
            Ok(()) => r.0 == DeliveryStatus::Sent && r.1 is None,
            Err(e) => r.0 == DeliveryStatus::Failed && r.1 == Some(e),
        },
{
    match result {
        Ok(()) => (DeliveryStatus::Sent, None),
        Err(e) => (DeliveryStatus::Failed, Some(e)),
    }
}

} // verus!
