//! Clerk webhooks: which event a delivery carries, and the values taken out
//! of its payload (member role, full name, primary email).
use vstd::prelude::*;

use crate::routes::public::pairs_view;
use crate::text::{
    append_chars, chars_eq, chars_of, lower, lower_chars, starts_with, starts_with_exec, string_of,
    sub_chars, trim, trim_chars, trim_str,
};

verus! {

/// Event types of Clerk that the handler acts on; any other is ignored.
#[derive(Clone, Copy, Debug, PartialEq, Eq, Structural)]
pub enum ClerkEvent {
    OrganizationCreated,
    OrganizationUpdated,
    OrganizationDeleted,
    MembershipCreated,
    MembershipDeleted,
    UserCreated,
    UserUpdated,
    UserDeleted,
    Ignored,
}

/// Event named by a delivery's `type` field.
pub open spec fn clerk_event_of(t: Seq<char>) -> ClerkEvent {
    if t == "organization.created"@ {
        ClerkEvent::OrganizationCreated
    } else if t == "organization.updated"@ {
        ClerkEvent::OrganizationUpdated
    } else if t == "organization.deleted"@ {
        ClerkEvent::OrganizationDeleted
    } else if t == "organizationMembership.created"@ {
        ClerkEvent::MembershipCreated
    } else if t == "organizationMembership.deleted"@ {
        ClerkEvent::MembershipDeleted
    } else if t == "user.created"@ {
        ClerkEvent::UserCreated
    } else if t == "user.updated"@ {
        ClerkEvent::UserUpdated
    } else if t == "user.deleted"@ {
        ClerkEvent::UserDeleted
    } else {
        ClerkEvent::Ignored
    }
}

fn same_as(v: &[char], lit: &str) -> (b: bool)
    ensures
        b == (v@ == lit@),
{
    let l = chars_of(lit);
    chars_eq(v, l.as_slice())
}

/// Classifies a delivery by its `type` field.
pub fn clerk_event_kind(event_type: &str) -> (e: ClerkEvent)
    ensures
        e == clerk_event_of(event_type@),
{
    let t = chars_of(event_type);
    let s = t.as_slice();
    if same_as(s, "organization.created") {
        ClerkEvent::OrganizationCreated
    } else if same_as(s, "organization.updated") {
        ClerkEvent::OrganizationUpdated
    } else if same_as(s, "organization.deleted") {
        ClerkEvent::OrganizationDeleted
    } else if same_as(s, "organizationMembership.created") {
        ClerkEvent::MembershipCreated
    } else if same_as(s, "organizationMembership.deleted") {
        ClerkEvent::MembershipDeleted
    } else if same_as(s, "user.created") {
        ClerkEvent::UserCreated
    } else if same_as(s, "user.updated") {
        ClerkEvent::UserUpdated
    } else if same_as(s, "user.deleted") {
        ClerkEvent::UserDeleted
    } else {
        ClerkEvent::Ignored
    }
}

/// Role of a membership: the payload's `role` (by default `org:member`)
/// with one leading `org:` taken off.
pub open spec fn member_role_of(role: Option<Seq<char>>) -> Seq<char> {
    let raw = match role {
        Some(r) => r,
        None => "org:member"@,
    };
    if starts_with(raw, "org:"@) {
        raw.subrange(4, raw.len() as int)
    } else {
        raw
    }
}

/// Normalises the role of a membership event (`org:admin` becomes `admin`).
pub fn member_role(role: Option<&str>) -> (r: String)
    ensures
        r@ == member_role_of(match role {
            Some(x) => Some(x@),
            None => None,
        }),
{
    let raw = match role {
        Some(x) => chars_of(x),
        None => chars_of("org:member"),
    };
    let prefix = chars_of("org:");
    proof {
        reveal_strlit("org:");
        reveal_strlit("org:member");
    }
    if starts_with_exec(raw.as_slice(), prefix.as_slice()) {
        let rest = sub_chars(raw.as_slice(), 4, raw.len());
        string_of(rest.as_slice())
    } else {
        string_of(raw.as_slice())
    }
}

/// Full name of a user: first and last name, each trimmed, joined by a
/// space and trimmed again; none when that is empty.
pub open spec fn full_name_of(first: Option<Seq<char>>, last: Option<Seq<char>>) -> Option<Seq<char>> {
    let f = match first {
        Some(x) => trim(x),
        None => Seq::empty(),
    };
    let l = match last {
        Some(x) => trim(x),
        None => Seq::empty(),
    };
    let full = trim(f + seq![' '] + l);
    if full.len() == 0 {
        None
    } else {
        Some(full)
    }
}

/// Full name from a user event's `first_name` and `last_name`.
pub fn extract_full_name(first_name: Option<&str>, last_name: Option<&str>) -> (r: Option<String>)
    ensures
        match full_name_of(
            match first_name {
                Some(x) => Some(x@),
                None => None,
            },
            match last_name {
                Some(x) => Some(x@),
                None => None,
            },
        ) {
            Some(n) => r.is_some() && r.unwrap()@ == n,
            None => r.is_none(),
        },
{
    let f = match first_name {
        Some(x) => trim_str(x),
        None => Vec::new(),
    };
    let l = match last_name {
        Some(x) => trim_str(x),
        None => Vec::new(),
    };
    let mut joined = f;
    joined.push(' ');
    append_chars(&mut joined, l.as_slice());
    assert(joined@ =~= f@ + seq![' '] + l@);
    let full = trim_chars(joined.as_slice());
    if full.len() == 0 {
        None
    } else {
        Some(string_of(full.as_slice()))
    }
}

/// One entry of a user's `email_addresses`, with the fields that are strings.
pub struct EmailEntry {
    pub id: Option<String>,
    pub email_address: Option<String>,
}

/// Why a user's email could not be found.
#[derive(Clone, Copy, Debug, PartialEq, Eq, Structural)]
pub enum EmailError {
    /// The payload has no `email_addresses` list.
    MissingEmailAddresses,
    /// Neither the primary entry nor the first entry has an address.
    NoEmail,
}

/// Model of an entry: its id and address.
pub open spec fn entry_view(e: EmailEntry) -> (Option<Seq<char>>, Option<Seq<char>>) {
    (
        match e.id {
            Some(x) => Some(x@),
            None => None,
        },
        match e.email_address {
            Some(x) => Some(x@),
            None => None,
        },
    )
}

/// Whether an entry is the primary one and has an address.
pub open spec fn is_primary_with_address(e: (Option<Seq<char>>, Option<Seq<char>>), primary: Option<Seq<char>>) -> bool {
    primary.is_some() && e.0 == primary && e.1.is_some()
}

/// The email chosen: the address of the first entry that is the primary one
/// and has an address; else the first entry's address.
pub open spec fn primary_email_of(
    primary: Option<Seq<char>>,
    entries: Option<Seq<(Option<Seq<char>>, Option<Seq<char>>)>>,
) -> Result<Seq<char>, EmailError> {
    match entries {
        None => Err(EmailError::MissingEmailAddresses),
        Some(es) => if exists|i: int| 0 <= i < es.len() && is_primary_with_address(#[trigger] es[i], primary) {
            let i = choose|i: int|
                0 <= i < es.len() && is_primary_with_address(#[trigger] es[i], primary) && (forall|j: int|
                    0 <= j < i ==> !is_primary_with_address(#[trigger] es[j], primary));
            Ok(es[i].1.unwrap())
        } else if es.len() > 0 && es[0].1.is_some() {
            Ok(es[0].1.unwrap())
        } else {
            Err(EmailError::NoEmail)
        },
    }
}

/// Models of a list of entries.
pub open spec fn entries_view(v: Seq<EmailEntry>) -> Seq<(Option<Seq<char>>, Option<Seq<char>>)> {
    v.map_values(|e: EmailEntry| entry_view(e))
}

fn opt_eq(a: &Option<String>, b: &str) -> (r: bool)
    ensures
        r == (a.is_some() && a.unwrap()@ == b@),
{
    match a {
        Some(x) => {
            let xa = chars_of(x.as_str());
            let xb = chars_of(b);
            chars_eq(xa.as_slice(), xb.as_slice())
        },
        None => false,
    }
}

fn copy_opt(a: &Option<String>) -> (r: Option<String>)
    ensures
        r.is_some() == a.is_some(),
        r.is_some() ==> r.unwrap()@ == a.unwrap()@,
{
    match a {
        Some(x) => Some(string_of(chars_of(x.as_str()).as_slice())),
        None => None,
    }
}

/// Email of a user event: the primary address where the list has it,
/// else the first entry's address.
pub fn extract_primary_email(primary_id: Option<&str>, emails: Option<&Vec<EmailEntry>>) -> (r: Result<String, EmailError>)
    ensures
        match primary_email_of(
            match primary_id {
                Some(x) => Some(x@),
                None => None,
            },
            match emails {
                Some(v) => Some(entries_view(v@)),
                None => None,
            },
        ) {
            Ok(e) => r.is_ok() && r.unwrap()@ == e,
            Err(k) => r == Err::<String, EmailError>(k),
        },
{
    let ghost primary = match primary_id {
        Some(x) => Some(x@),
        None => None,
    };
    let es = match emails {
        None => {
            return Err(EmailError::MissingEmailAddresses);
        },
        Some(v) => v,
    };
    let ghost ev = entries_view(es@);
    if let Some(pid) = primary_id {
        let mut i: usize = 0;
        while i < es.len()
            invariant
                0 <= i <= es.len(),
                ev == entries_view(es@),
                primary == Some(pid@),
                primary_id == Some(pid),
                emails == Some(es),
                forall|j: int| 0 <= j < i ==> !is_primary_with_address(#[trigger] ev[j], primary),
            decreases es.len() - i,
        {
            let e = &es[i];
            assert(ev[i as int] == entry_view(es@[i as int]));
            if opt_eq(&e.id, pid) && e.email_address.is_some() {
                let addr = copy_opt(&e.email_address);
                proof {
                    assert(is_primary_with_address(ev[i as int], primary));
                    assert(0 <= i < ev.len() && is_primary_with_address(ev[i as int], primary) && (forall|j: int|
                        0 <= j < i ==> !is_primary_with_address(#[trigger] ev[j], primary)));
                    let k = choose|k: int|
                        0 <= k < ev.len() && is_primary_with_address(#[trigger] ev[k], primary) && (forall|j: int|
                            0 <= j < k ==> !is_primary_with_address(#[trigger] ev[j], primary));
                    assert(0 <= k < ev.len() && is_primary_with_address(ev[k], primary) && (forall|j: int|
                            0 <= j < k ==> !is_primary_with_address(#[trigger] ev[j], primary)));
                    if k < i {
                        assert(!is_primary_with_address(ev[k], primary));
                    }
                    if (i as int) < k {
                        assert(!is_primary_with_address(ev[i as int], primary));
                    }
                    assert(k == i);
                }
                return Ok(addr.unwrap());
            }
            proof {
                assert(!is_primary_with_address(ev[i as int], primary));
            }
            i += 1;
        }
    }
    if es.len() > 0 && es[0].email_address.is_some() {
        let addr = copy_opt(&es[0].email_address);
        Ok(addr.unwrap())
    } else {
        Err(EmailError::NoEmail)
    }
}

/// Why a delivery is answered with an error.
#[derive(Clone, Copy, Debug, PartialEq, Eq, Structural)]
pub enum WebhookFailure {
    /// No `svix-id` header.
    MissingSvixId,
    /// The Svix signature does not verify.
    InvalidSignature,
    /// The body is not JSON.
    MalformedPayload,
    /// The payload has no string `type`.
    MissingType,
    /// The Postgres pool of cloud mode is not there.
    PoolUnavailable,
    /// The configuration of cloud mode is not there.
    ConfigUnavailable,
    /// The signature verifier could not be built from the secret.
    VerifierInit,
    /// The transaction could not be begun.
    TransactionBegin,
    /// The delivery id could not be recorded.
    IdempotencyCheck,
    /// The transaction could not be committed.
    TransactionCommit,
    /// Processing the event failed; the transaction is rolled back.
    Processing,
}

/// HTTP status of a failure.
pub open spec fn failure_status(f: WebhookFailure) -> u16 {
    match f {
        WebhookFailure::MissingSvixId | WebhookFailure::InvalidSignature => 401,
        WebhookFailure::MalformedPayload | WebhookFailure::MissingType => 400,
        _ => 500,
    }
}

impl WebhookFailure {
    /// HTTP status of the answer.
    pub fn status(&self) -> (s: u16)
        ensures
            s == failure_status(*self),
    {
        match self {
            WebhookFailure::MissingSvixId | WebhookFailure::InvalidSignature => 401,
            WebhookFailure::MalformedPayload | WebhookFailure::MissingType => 400,
            _ => 500,
        }
    }

    /// Error code of the answer's body.
    pub fn code(&self) -> (c: &'static str)
        ensures
            c@ == (match failure_status(*self) {
                401 => "unauthorized"@,
                400 => "bad_request"@,
                _ => "internal_error"@,
            }),
    {
        match self {
            WebhookFailure::MissingSvixId | WebhookFailure::InvalidSignature => "unauthorized",
            WebhookFailure::MalformedPayload | WebhookFailure::MissingType => "bad_request",
            _ => "internal_error",
        }
    }

    /// Message of the answer's body.
    pub fn message(&self) -> (m: &'static str)
        ensures
            m@ == (match *self {
                WebhookFailure::MissingSvixId => "missing svix-id"@,
                WebhookFailure::InvalidSignature => "invalid signature"@,
                WebhookFailure::MalformedPayload => "malformed payload"@,
                WebhookFailure::MissingType => "missing type field"@,
                WebhookFailure::PoolUnavailable => "pool unavailable"@,
                WebhookFailure::ConfigUnavailable => "config unavailable"@,
                WebhookFailure::VerifierInit => "webhook verifier init failed"@,
                WebhookFailure::TransactionBegin => "transaction begin failed"@,
                WebhookFailure::IdempotencyCheck => "idempotency check failed"@,
                WebhookFailure::TransactionCommit => "transaction commit failed"@,
                WebhookFailure::Processing => "webhook processing failed"@,
            }),
    {
        match self {
            WebhookFailure::MissingSvixId => "missing svix-id",
            WebhookFailure::InvalidSignature => "invalid signature",
            WebhookFailure::MalformedPayload => "malformed payload",
            WebhookFailure::MissingType => "missing type field",
            WebhookFailure::PoolUnavailable => "pool unavailable",
            WebhookFailure::ConfigUnavailable => "config unavailable",
            WebhookFailure::VerifierInit => "webhook verifier init failed",
            WebhookFailure::TransactionBegin => "transaction begin failed",
            WebhookFailure::IdempotencyCheck => "idempotency check failed",
            WebhookFailure::TransactionCommit => "transaction commit failed",
            WebhookFailure::Processing => "webhook processing failed",
        }
    }
}

/// A header value that `HeaderValue::to_str` reads: tabs and visible ASCII.
pub open spec fn visible_ascii(s: Seq<char>) -> bool {
    forall|i: int| 0 <= i < s.len() ==> #[trigger] s[i] == '\t' || (' ' <= s[i] && s[i] <= '~')
}

/// The value of the first header named `name` (names compare without
/// regard to ASCII case), when it reads as text.
pub open spec fn header_text(headers: Seq<(Seq<char>, Seq<char>)>, name: Seq<char>) -> Option<Seq<char>>
    decreases headers.len(),
{
    if headers.len() == 0 {
        None
    } else if lower(headers[0].0) == name {
        if visible_ascii(headers[0].1) {
            Some(headers[0].1)
        } else {
            None
        }
    } else {
        header_text(headers.skip(1), name)
    }
}

fn visible_ascii_exec(v: &[char]) -> (b: bool)
    ensures
        b == visible_ascii(v@),
{
    let mut i: usize = 0;
    while i < v.len()
        invariant
            i <= v@.len(),
            forall|k: int| 0 <= k < i ==> #[trigger] v@[k] == '\t' || (' ' <= v@[k] && v@[k] <= '~'),
        decreases v@.len() - i,
    {
        let c = v[i];
        if !(c == '\t' || (' ' <= c && c <= '~')) {
            return false;
        }
        i = i + 1;
    }
    true
}

/// Reads a request header by its lower-case name.
pub fn header_value(headers: &[(String, String)], name: &str) -> (r: Option<String>)
    ensures
        match header_text(pairs_view(headers@), name@) {
            Some(v) => r matches Some(x) && x@ == v,
            None => r is None,
        },
{
    let n = chars_of(name);
    let ghost hv = pairs_view(headers@);
    let mut i: usize = 0;
    assert(hv.skip(0) =~= hv);
    while i < headers.len()
        invariant
            i <= headers@.len(),
            hv == pairs_view(headers@),
            n@ == name@,
            header_text(hv.skip(i as int), name@) == header_text(hv, name@),
        decreases headers@.len() - i,
    {
        let k = chars_of(headers[i].0.as_str());
        let kl = lower_chars(k.as_slice());
        assert(hv.skip(i as int)[0] == hv[i as int]);
        if chars_eq(kl.as_slice(), n.as_slice()) {
            let v = chars_of(headers[i].1.as_str());
            if visible_ascii_exec(v.as_slice()) {
                return Some(string_of(v.as_slice()));
            }
            return None;
        }
        assert(hv.skip(i as int).skip(1) =~= hv.skip(i + 1));
        i = i + 1;
    }
    assert(hv.skip(i as int).len() == 0);
    None
}

/// The signing key's text as `svix::webhooks::Webhook::new` decodes it:
/// the secret without a leading `whsec_`.
pub open spec fn svix_key_text(secret: Seq<char>) -> Seq<char> {
    if starts_with(secret, "whsec_"@) {
        secret.skip(6)
    } else {
        secret
    }
}

/// Name for whether `svix::webhooks::Webhook::new` accepts the secret (its
/// key, without a leading `whsec_`, decodes as base64 to a non-empty key).
pub uninterp spec fn svix_key_accepted(secret: Seq<char>) -> bool;

/// Whether the Svix verifier can be built from the secret
/// (`svix::webhooks::Webhook::new(..).is_ok()`), which is named by
/// [`svix_key_accepted`]. Claimed besides: an empty key is refused (it
/// decodes to no bytes, which the constructor rejects).
#[verifier::external_body]
fn svix_key_usable(secret: &str) -> (b: bool)
    ensures
        b == svix_key_accepted(secret@),
        svix_key_text(secret@).len() == 0 ==> !b,
{
    svix::webhooks::Webhook::new(secret).is_ok()
}

/// Name for whether a delivery's signature checks out under the key text
/// `key` (the secret without `whsec_`), ignoring its timestamp: what
/// `Webhook::verify_ignoring_timestamp` decides for the body and the
/// `http::HeaderMap` made of the pairs (each pair appended, pairs with an
/// invalid name or value left out): the `svix-id`, `svix-timestamp` and
/// `svix-signature` headers (or their `webhook-` forms) must be there, and
/// one `v1` signature must equal the HMAC-SHA256 under the key of the id,
/// the timestamp and the body.
pub uninterp spec fn svix_signature_ok(key: Seq<char>, headers: Seq<(Seq<char>, Seq<char>)>, body: Seq<u8>) -> bool;

/// Checks a delivery's signature (`Webhook::new` on the secret, then
/// `Webhook::verify` of the body against the headers, given as name and
/// value pairs). Claimed: a delivery that passes has a secret the
/// constructor accepts and a signature that checks out
/// ([`svix_signature_ok`]; `verify` is `verify_ignoring_timestamp` plus a
/// check of the timestamp). Whether the timestamp is within five minutes of
/// the clock is not claimed, so nothing is claimed of a refusal.
#[verifier::external_body]
fn svix_verify(secret: &str, headers: &[(String, String)], body: &[u8]) -> (ok: bool)
    ensures
        ok ==> svix_key_accepted(secret@) && svix_signature_ok(svix_key_text(secret@), pairs_view(headers@), body@),
{
    let Ok(wh) = svix::webhooks::Webhook::new(secret) else {
        return false;
    };
    let mut map = http::HeaderMap::new();
    for (k, v) in headers {
        if let (Ok(name), Ok(value)) = (http::HeaderName::from_bytes(k.as_bytes()), http::HeaderValue::from_bytes(v.as_bytes())) {
            map.append(name, value);
        }
    }
    wh.verify(body, &map).is_ok()
}

/// Authenticates a Clerk delivery: it must carry an `svix-id`, the signing
/// secret must give a verifier, and the Svix signature must verify. Which
/// signatures verify also depends on the clock (Svix's timestamp window),
/// so only that the outcome is the id or `InvalidSignature` is stated when
/// both of the first hold; an accepted delivery's signature checks out
/// under the secret for exactly these headers and body.
pub fn verify_delivery(secret: &str, headers: &[(String, String)], body: &[u8]) -> (r: Result<String, WebhookFailure>)
    ensures
        header_text(pairs_view(headers@), "svix-id"@) is None ==> r == Err::<String, WebhookFailure>(
            WebhookFailure::MissingSvixId,
        ),
        header_text(pairs_view(headers@), "svix-id"@) is Some && !svix_key_accepted(secret@) ==> r == Err::<
            String,
            WebhookFailure,
        >(WebhookFailure::VerifierInit),
        header_text(pairs_view(headers@), "svix-id"@) is Some && svix_key_accepted(secret@) ==> (r matches Ok(id)
            && header_text(pairs_view(headers@), "svix-id"@) == Some(id@)) || r == Err::<String, WebhookFailure>(
            WebhookFailure::InvalidSignature,
        ),
        header_text(pairs_view(headers@), "svix-id"@) is Some && svix_key_text(secret@).len() == 0 ==> r == Err::<
            String,
            WebhookFailure,
        >(WebhookFailure::VerifierInit),
        r matches Ok(id) ==> header_text(pairs_view(headers@), "svix-id"@) == Some(id@),
        r is Ok ==> svix_signature_ok(svix_key_text(secret@), pairs_view(headers@), body@),
{
    let id = match header_value(headers, "svix-id") {
        Some(id) => id,
        None => {
            return Err(WebhookFailure::MissingSvixId);
        },
    };
    if !svix_key_usable(secret) {
        return Err(WebhookFailure::VerifierInit);
    }
    if !svix_verify(secret, headers, body) {
        return Err(WebhookFailure::InvalidSignature);
    }
    Ok(id)
}

/// The fields of a delivery's `data` that the handlers read, each where it
/// is a string (`organization_id` is `organization.id`, `user_id` is
/// `public_user_data.user_id`); `email_addresses` where it is a list.
pub struct ClerkData {
    pub id: Option<String>,
    pub name: Option<String>,
    pub slug: Option<String>,
    pub organization_id: Option<String>,
    pub user_id: Option<String>,
    pub role: Option<String>,
    pub primary_email_address_id: Option<String>,
    pub email_addresses: Option<Vec<EmailEntry>>,
    pub first_name: Option<String>,
    pub last_name: Option<String>,
}

/// What a delivery does to tenants, members and users.
pub enum ClerkAction {
    /// Nothing (an event type the handler does not act on).
    Ignore,
    /// Insert the tenant on the free plan, unless it exists.
    CreateTenant { id: String, name: String, slug: String },
    /// Rename a tenant that is not deleted.
    UpdateTenant { id: String, name: String, slug: String },
    /// Soft-delete the tenant and revoke its API keys.
    DeleteTenant { id: String },
    /// Add the member, or set its role.
    UpsertMember { tenant_id: String, user_id: String, role: String },
    /// Remove the member.
    RemoveMember { tenant_id: String, user_id: String },
    /// Insert the user, unless it exists.
    CreateUser { id: String, email: String, full_name: Option<String> },
    /// Update the user's email and name.
    UpdateUser { id: String, email: String, full_name: Option<String> },
    /// Delete the user (and its memberships).
    DeleteUser { id: String },
}

/// Message of a missing top-level field.
pub open spec fn missing_field(field: Seq<char>) -> Seq<char> {
    "missing field '"@ + field + "' in Clerk webhook payload"@
}

/// View of an optional string.
pub open spec fn ov(s: Option<String>) -> Option<Seq<char>> {
    match s {
        Some(x) => Some(x@),
        None => None,
    }
}

/// Message of a failed email lookup.
pub open spec fn email_message(e: EmailError) -> Seq<char> {
    match e {
        EmailError::MissingEmailAddresses => "missing email_addresses"@,
        EmailError::NoEmail => "no email found in Clerk user payload"@,
    }
}

/// The email outcome of a user event's data.
pub open spec fn email_of(d: ClerkData) -> Result<Seq<char>, EmailError> {
    primary_email_of(
        ov(d.primary_email_address_id),
        match d.email_addresses {
            Some(v) => Some(entries_view(v@)),
            None => None,
        },
    )
}

/// The first missing field among the tenant fields `id`, `name`, `slug`.
pub open spec fn tenant_fields_missing(d: ClerkData) -> Option<Seq<char>> {
    if d.id is None {
        Some(missing_field("id"@))
    } else if d.name is None {
        Some(missing_field("name"@))
    } else if d.slug is None {
        Some(missing_field("slug"@))
    } else {
        None
    }
}

/// The first missing field of a membership event.
pub open spec fn member_fields_missing(d: ClerkData) -> Option<Seq<char>> {
    if d.organization_id is None {
        Some("missing organization.id"@)
    } else if d.user_id is None {
        Some("missing public_user_data.user_id"@)
    } else {
        None
    }
}

/// Why a user event cannot be applied: no `id`, or no email.
pub open spec fn user_fields_missing(d: ClerkData) -> Option<Seq<char>> {
    if d.id is None {
        Some(missing_field("id"@))
    } else {
        match email_of(d) {
            Err(e) => Some(email_message(e)),
            Ok(_) => None,
        }
    }
}

/// Why an event of the given kind cannot be applied to its data.
pub open spec fn action_failure(kind: ClerkEvent, d: ClerkData) -> Option<Seq<char>> {
    match kind {
        ClerkEvent::OrganizationCreated | ClerkEvent::OrganizationUpdated => tenant_fields_missing(d),
        ClerkEvent::OrganizationDeleted | ClerkEvent::UserDeleted => if d.id is None {
            Some(missing_field("id"@))
        } else {
            None
        },
        ClerkEvent::MembershipCreated | ClerkEvent::MembershipDeleted => member_fields_missing(d),
        ClerkEvent::UserCreated | ClerkEvent::UserUpdated => user_fields_missing(d),
        ClerkEvent::Ignored => None,
    }
}

/// `a` is what an event of the given kind does with data `d` (which has
/// every field the kind needs).
pub open spec fn action_matches(a: ClerkAction, kind: ClerkEvent, d: ClerkData) -> bool {
    match kind {
        ClerkEvent::OrganizationCreated => a matches ClerkAction::CreateTenant { id, name, slug }
            && Some(id@) == ov(d.id) && Some(name@) == ov(d.name) && Some(slug@) == ov(d.slug),
        ClerkEvent::OrganizationUpdated => a matches ClerkAction::UpdateTenant { id, name, slug }
            && Some(id@) == ov(d.id) && Some(name@) == ov(d.name) && Some(slug@) == ov(d.slug),
        ClerkEvent::OrganizationDeleted => a matches ClerkAction::DeleteTenant { id } && Some(id@) == ov(d.id),
        ClerkEvent::MembershipCreated => a matches ClerkAction::UpsertMember { tenant_id, user_id, role }
            && Some(tenant_id@) == ov(d.organization_id) && Some(user_id@) == ov(d.user_id)
            && role@ == member_role_of(ov(d.role)),
        ClerkEvent::MembershipDeleted => a matches ClerkAction::RemoveMember { tenant_id, user_id }
            && Some(tenant_id@) == ov(d.organization_id) && Some(user_id@) == ov(d.user_id),
        ClerkEvent::UserCreated => a matches ClerkAction::CreateUser { id, email, full_name }
            && Some(id@) == ov(d.id) && email_of(d) == Ok::<Seq<char>, EmailError>(email@)
            && ov(full_name) == full_name_of(ov(d.first_name), ov(d.last_name)),
        ClerkEvent::UserUpdated => a matches ClerkAction::UpdateUser { id, email, full_name }
            && Some(id@) == ov(d.id) && email_of(d) == Ok::<Seq<char>, EmailError>(email@)
            && ov(full_name) == full_name_of(ov(d.first_name), ov(d.last_name)),
        ClerkEvent::UserDeleted => a matches ClerkAction::DeleteUser { id } && Some(id@) == ov(d.id),
        ClerkEvent::Ignored => a is Ignore,
    }
}

fn required(s: &Option<String>, field: &str) -> (r: Result<String, String>)
    ensures
        match s {
            Some(x) => r matches Ok(y) && y@ == x@,
            None => r matches Err(m) && m@ == missing_field(field@),
        },
{
    match s {
        Some(x) => Ok(string_of(chars_of(x.as_str()).as_slice())),
        None => {
            let mut m = chars_of("missing field '");
            crate::text::append_str(&mut m, field);
            crate::text::append_str(&mut m, "' in Clerk webhook payload");
            Err(string_of(m.as_slice()))
        },
    }
}

fn present(s: &Option<String>, message: &str) -> (r: Result<String, String>)
    ensures
        match s {
            Some(x) => r matches Ok(y) && y@ == x@,
            None => r matches Err(m) && m@ == message@,
        },
{
    match s {
        Some(x) => Ok(string_of(chars_of(x.as_str()).as_slice())),
        None => Err(string_of(chars_of(message).as_slice())),
    }
}

fn opt_ref(s: &Option<String>) -> (r: Option<&str>)
    ensures
        match r {
            Some(x) => ov(*s) == Some(x@),
            None => s is None,
        },
{
    match s {
        Some(x) => Some(x.as_str()),
        None => None,
    }
}

fn user_email(d: &ClerkData) -> (r: Result<String, String>)
    ensures
        match email_of(*d) {
            Ok(e) => r matches Ok(x) && x@ == e,
            Err(k) => r matches Err(m) && m@ == email_message(k),
        },
{
    let emails = match &d.email_addresses {
        Some(v) => Some(v),
        None => None,
    };
    match extract_primary_email(opt_ref(&d.primary_email_address_id), emails) {
        Ok(e) => Ok(e),
        Err(EmailError::MissingEmailAddresses) => Err(string_of(chars_of("missing email_addresses").as_slice())),
        Err(EmailError::NoEmail) => Err(string_of(chars_of("no email found in Clerk user payload").as_slice())),
    }
}

/// What a delivery of the given kind does with its data; the message of the
/// first missing field when the data lacks one (the delivery then fails and
/// is rolled back).
pub fn clerk_action(kind: ClerkEvent, d: &ClerkData) -> (r: Result<ClerkAction, String>)
    ensures
        match action_failure(kind, *d) {
            Some(m) => r matches Err(x) && x@ == m,
            None => r matches Ok(a) && action_matches(a, kind, *d),
        },
{
    match kind {
        ClerkEvent::OrganizationCreated => {
            let id = required(&d.id, "id")?;
            let name = required(&d.name, "name")?;
            let slug = required(&d.slug, "slug")?;
            Ok(ClerkAction::CreateTenant { id, name, slug })
        },
        ClerkEvent::OrganizationUpdated => {
            let id = required(&d.id, "id")?;
            let name = required(&d.name, "name")?;
            let slug = required(&d.slug, "slug")?;
            Ok(ClerkAction::UpdateTenant { id, name, slug })
        },
        ClerkEvent::OrganizationDeleted => {
            let id = required(&d.id, "id")?;
            Ok(ClerkAction::DeleteTenant { id })
        },
        ClerkEvent::MembershipCreated => {
            let tenant_id = present(&d.organization_id, "missing organization.id")?;
            let user_id = present(&d.user_id, "missing public_user_data.user_id")?;
            let role = member_role(opt_ref(&d.role));
            Ok(ClerkAction::UpsertMember { tenant_id, user_id, role })
        },
        ClerkEvent::MembershipDeleted => {
            let tenant_id = present(&d.organization_id, "missing organization.id")?;
            let user_id = present(&d.user_id, "missing public_user_data.user_id")?;
            Ok(ClerkAction::RemoveMember { tenant_id, user_id })
        },
        ClerkEvent::UserCreated => {
            let id = required(&d.id, "id")?;
            let email = user_email(d)?;
            let full_name = extract_full_name(opt_ref(&d.first_name), opt_ref(&d.last_name));
            Ok(ClerkAction::CreateUser { id, email, full_name })
        },
        ClerkEvent::UserUpdated => {
            let id = required(&d.id, "id")?;
            let email = user_email(d)?;
            let full_name = extract_full_name(opt_ref(&d.first_name), opt_ref(&d.last_name));
            Ok(ClerkAction::UpdateUser { id, email, full_name })
        },
        ClerkEvent::UserDeleted => {
            let id = required(&d.id, "id")?;
            Ok(ClerkAction::DeleteUser { id })
        },
        ClerkEvent::Ignored => Ok(ClerkAction::Ignore),
    }
}

/// What a delivery does after trying to claim its `svix-id` (an insert
/// that does nothing when the id is already there): process the event,
/// answer 200 without processing a duplicate, or fail.
#[derive(Clone, Copy, Debug, PartialEq, Eq, Structural)]
pub enum ClaimOutcome {
    Process,
    AlreadyProcessed,
    Failed(WebhookFailure),
}

/// The outcome of claiming a delivery: `Some(true)` when the id was newly
/// recorded, `Some(false)` when it was there already, `None` when the
/// claim itself failed.
pub open spec fn claim_of(inserted: Option<bool>) -> ClaimOutcome {
    match inserted {
        Some(true) => ClaimOutcome::Process,
        Some(false) => ClaimOutcome::AlreadyProcessed,
        None => ClaimOutcome::Failed(WebhookFailure::IdempotencyCheck),
    }
}

/// Decides what a delivery does after claiming its `svix-id`.
pub fn claim_outcome(inserted: Option<bool>) -> (o: ClaimOutcome)
    ensures
        o == claim_of(inserted),
{
    match inserted {
        Some(true) => ClaimOutcome::Process,
        Some(false) => ClaimOutcome::AlreadyProcessed,
        None => ClaimOutcome::Failed(WebhookFailure::IdempotencyCheck),
    }
}

/// A redelivered webhook is processed once: claiming a new `svix-id`
/// processes the event and records the id, and a second delivery with the
/// same id is answered without processing.
pub proof fn lemma_redelivery_processed_once(processed: Set<Seq<char>>, svix_id: Seq<char>)
    requires
        !processed.contains(svix_id),
    ensures
        ({
            let (after_first, first_new) = crate::scheduler::ledger_step(processed, svix_id);
            let (after_second, second_new) = crate::scheduler::ledger_step(after_first, svix_id);
            &&& claim_of(Some(first_new)) == ClaimOutcome::Process
            &&& claim_of(Some(second_new)) == ClaimOutcome::AlreadyProcessed
            &&& after_second == after_first
        }),
{
    assert(processed.insert(svix_id).insert(svix_id) =~= processed.insert(svix_id));
}

/// How a delivery's transaction ends: a duplicate is answered 200 with
/// nothing changed; a processed event is committed (200) with its id
/// recorded together with its writes; a failed processor or commit rolls
/// everything back, the id included, and is answered with the failure.
#[derive(Clone, Copy, Debug, PartialEq, Eq, Structural)]
pub enum DeliveryEnd {
    Duplicate,
    Committed,
    RolledBack(WebhookFailure),
}

/// How a delivery ends, from its claim, whether its processor succeeded and
/// whether the commit succeeded.
pub open spec fn delivery_end_of(claim: ClaimOutcome, processed_ok: bool, commit_ok: bool) -> DeliveryEnd {
    match claim {
        ClaimOutcome::AlreadyProcessed => DeliveryEnd::Duplicate,
        ClaimOutcome::Failed(f) => DeliveryEnd::RolledBack(f),
        ClaimOutcome::Process => if !processed_ok {
            DeliveryEnd::RolledBack(WebhookFailure::Processing)
        } else if !commit_ok {
            DeliveryEnd::RolledBack(WebhookFailure::TransactionCommit)
        } else {
            DeliveryEnd::Committed
        },
    }
}

/// Decides how a delivery's transaction ends.
pub fn delivery_end(claim: ClaimOutcome, processed_ok: bool, commit_ok: bool) -> (e: DeliveryEnd)
    ensures
        e == delivery_end_of(claim, processed_ok, commit_ok),
{
    match claim {
        ClaimOutcome::AlreadyProcessed => DeliveryEnd::Duplicate,
        ClaimOutcome::Failed(f) => DeliveryEnd::RolledBack(f),
        ClaimOutcome::Process => {
            if !processed_ok {
                DeliveryEnd::RolledBack(WebhookFailure::Processing)
            } else if !commit_ok {
                DeliveryEnd::RolledBack(WebhookFailure::TransactionCommit)
            } else {
                DeliveryEnd::Committed
            }
        },
    }
}

/// The ids recorded after a delivery with id `svix_id`: the claim's insert
/// is kept only when the transaction commits.
pub open spec fn recorded_after(processed: Set<Seq<char>>, svix_id: Seq<char>, end: DeliveryEnd) -> Set<Seq<char>> {
    if end is Committed {
        crate::scheduler::ledger_step(processed, svix_id).0
    } else {
        processed
    }
}

/// A delivery whose processor fails leaves no trace: its id is not
/// recorded, so a redelivery of it is processed; once one succeeds the id
/// is recorded and a further redelivery is a duplicate.
pub proof fn lemma_failed_delivery_rolls_back(processed: Set<Seq<char>>, svix_id: Seq<char>)
    requires
        !processed.contains(svix_id),
    ensures
        ({
            let first = delivery_end_of(claim_of(Some(!processed.contains(svix_id))), false, true);
            let after_first = recorded_after(processed, svix_id, first);
            let second = delivery_end_of(claim_of(Some(!after_first.contains(svix_id))), true, true);
            let after_second = recorded_after(after_first, svix_id, second);
            let third = delivery_end_of(claim_of(Some(!after_second.contains(svix_id))), true, true);
            &&& first == DeliveryEnd::RolledBack(WebhookFailure::Processing)
            &&& after_first == processed
            &&& second == DeliveryEnd::Committed
            &&& after_second == processed.insert(svix_id)
            &&& third == DeliveryEnd::Duplicate
            &&& recorded_after(after_second, svix_id, third) == after_second
        }),
{
}

} // verus!
