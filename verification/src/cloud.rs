//! Cloud mode: configuration, organization roles and tenant context, and
//! the dimension filters forwarded to ClickHouse.
use vstd::prelude::*;

use crate::text::{
    append_chars, append_str, before_char, before_char_exec, chars_eq, chars_of, first_occ,
    find_exec, starts_with, starts_with_exec, string_of, sub_chars, trim, trim_str,
};
use crate::auth::{api_key_hash, first_chars, hash_api_key, key_page};

verus! {

// ---------------------------------------------------------------------------
// Dimension filters
// ---------------------------------------------------------------------------

/// Analytics dimension filters forwarded to ClickHouse; each set field
/// restricts one column to exactly that value.
pub struct ChFilters<'a> {
    pub country: Option<&'a str>,
    pub page: Option<&'a str>,
    pub referrer: Option<&'a str>,
    pub browser: Option<&'a str>,
    pub os: Option<&'a str>,
    pub device: Option<&'a str>,
    pub utm_source: Option<&'a str>,
    pub utm_medium: Option<&'a str>,
    pub utm_campaign: Option<&'a str>,
}

/// SQL condition on `col` against the named parameter `param`.
pub open spec fn filter_condition(param: Seq<char>, col: Seq<char>) -> Seq<char> {
    "AND "@ + col + " = {"@ + param + ":String}"@
}

/// Conditions and parameters built so far, with one more optional filter.
pub open spec fn filter_step(
    acc: (Seq<Seq<char>>, Seq<(Seq<char>, Seq<char>)>),
    value: Option<&str>,
    param: Seq<char>,
    col: Seq<char>,
) -> (Seq<Seq<char>>, Seq<(Seq<char>, Seq<char>)>) {
    match value {
        None => acc,
        Some(v) => (acc.0.push(filter_condition(param, col)), acc.1.push((param, v@))),
    }
}

/// Conditions and parameters of all set filters, in the order country,
/// page (`url`), referrer (`referrer_domain`), browser, os, device
/// (`device_type`), UTM source, medium, campaign.
pub open spec fn filter_parts(f: ChFilters) -> (Seq<Seq<char>>, Seq<(Seq<char>, Seq<char>)>) {
    let a0 = (Seq::<Seq<char>>::empty(), Seq::<(Seq<char>, Seq<char>)>::empty());
    let a1 = filter_step(a0, f.country, "filter_country"@, "country"@);
    let a2 = filter_step(a1, f.page, "filter_page"@, "url"@);
    let a3 = filter_step(a2, f.referrer, "filter_referrer"@, "referrer_domain"@);
    let a4 = filter_step(a3, f.browser, "filter_browser"@, "browser"@);
    let a5 = filter_step(a4, f.os, "filter_os"@, "os"@);
    let a6 = filter_step(a5, f.device, "filter_device"@, "device_type"@);
    let a7 = filter_step(a6, f.utm_source, "filter_utm_source"@, "utm_source"@);
    let a8 = filter_step(a7, f.utm_medium, "filter_utm_medium"@, "utm_medium"@);
    filter_step(a8, f.utm_campaign, "filter_utm_campaign"@, "utm_campaign"@)
}

/// The parts joined with `sep` between consecutive ones.
pub open spec fn join_with(parts: Seq<Seq<char>>, sep: Seq<char>) -> Seq<char>
    decreases parts.len(),
{
    if parts.len() == 0 {
        Seq::empty()
    } else if parts.len() == 1 {
        parts[0]
    } else {
        join_with(parts.drop_last(), sep) + sep + parts.last()
    }
}

/// Separator between the conditions of a filter clause.
pub open spec fn clause_separator() -> Seq<char> {
    "\n          "@
}

/// Views of owned key/value pairs.
pub open spec fn string_pairs_view(p: Seq<(String, String)>) -> Seq<(Seq<char>, Seq<char>)> {
    p.map_values(|kv: (String, String)| (kv.0@, kv.1@))
}

fn push_filter(
    clauses: &mut Vec<Vec<char>>,
    params: &mut Vec<(String, String)>,
    value: Option<&str>,
    param: &str,
    col: &str,
)
    ensures
        ({
            let after = filter_step(
                (old(clauses)@.map_values(|c: Vec<char>| c@), string_pairs_view(old(params)@)),
                value,
                param@,
                col@,
            );
            &&& final(clauses)@.map_values(|c: Vec<char>| c@) == after.0
            &&& string_pairs_view(final(params)@) == after.1
        }),
{
    if let Some(v) = value {
        let ghost c0 = clauses@.map_values(|c: Vec<char>| c@);
        let ghost p0 = string_pairs_view(params@);
        let mut c = chars_of("AND ");
        append_str(&mut c, col);
        append_str(&mut c, " = {");
        append_str(&mut c, param);
        append_str(&mut c, ":String}");
        clauses.push(c);
        params.push((param.to_owned(), v.to_owned()));
        assert(clauses@.map_values(|c: Vec<char>| c@) =~= c0.push(filter_condition(param@, col@)));
        assert(string_pairs_view(params@) =~= p0.push((param@, v@)));
    }
}

fn join_clauses(parts: &Vec<Vec<char>>) -> (r: String)
    ensures
        r@ == join_with(parts@.map_values(|c: Vec<char>| c@), clause_separator()),
{
    let ghost pv = parts@.map_values(|c: Vec<char>| c@);
    let mut out: Vec<char> = Vec::new();
    let mut i: usize = 0;
    assert(pv.take(0) =~= Seq::<Seq<char>>::empty());
    while i < parts.len()
        invariant
            i <= parts@.len(),
            pv == parts@.map_values(|c: Vec<char>| c@),
            out@ == join_with(pv.take(i as int), clause_separator()),
        decreases parts@.len() - i,
    {
        assert(pv.take(i + 1).drop_last() =~= pv.take(i as int));
        assert(pv.take(i + 1).last() == parts@[i as int]@);
        if i > 0 {
            append_str(&mut out, "\n          ");
        } else {
            assert(pv.take(1)[0] == parts@[0]@);
        }
        append_chars(&mut out, parts[i].as_slice());
        i = i + 1;
    }
    assert(pv.take(i as int) =~= pv);
    string_of(out.as_slice())
}

/// The parameter names of the filters, in clause order.
pub open spec fn filter_param_names() -> Seq<Seq<char>> {
    seq![
        "filter_country"@,
        "filter_page"@,
        "filter_referrer"@,
        "filter_browser"@,
        "filter_os"@,
        "filter_device"@,
        "filter_utm_source"@,
        "filter_utm_medium"@,
        "filter_utm_campaign"@,
    ]
}

/// Which filters are set, in clause order.
pub open spec fn filters_set(f: ChFilters) -> Seq<bool> {
    seq![
        f.country is Some,
        f.page is Some,
        f.referrer is Some,
        f.browser is Some,
        f.os is Some,
        f.device is Some,
        f.utm_source is Some,
        f.utm_medium is Some,
        f.utm_campaign is Some,
    ]
}

/// Number of `true` among the first `k` flags.
pub open spec fn count_set(flags: Seq<bool>, k: int) -> int
    decreases k,
{
    if k <= 0 {
        0
    } else {
        count_set(flags, k - 1) + if flags[k - 1] {
            1int
        } else {
            0
        }
    }
}

/// The names of bound parameters occur once each, and each is among the
/// first `k` filter parameter names.
pub open spec fn names_ok(params: Seq<(Seq<char>, Seq<char>)>, k: int) -> bool {
    &&& forall|i: int, j: int| 0 <= i < j < params.len() ==> params[i].0 != params[j].0
    &&& forall|i: int| #![trigger params[i]] 0 <= i < params.len() ==> exists|m: int| 0 <= m < k && #[trigger] filter_param_names()[m] == params[i].0
}

proof fn lemma_param_names_distinct()
    ensures
        forall|i: int, j: int| 0 <= i < j < 9 ==> filter_param_names()[i] != filter_param_names()[j],
{
    reveal_strlit("filter_country");
    reveal_strlit("filter_page");
    reveal_strlit("filter_referrer");
    reveal_strlit("filter_browser");
    reveal_strlit("filter_os");
    reveal_strlit("filter_device");
    reveal_strlit("filter_utm_source");
    reveal_strlit("filter_utm_medium");
    reveal_strlit("filter_utm_campaign");
    let n = filter_param_names();
    assert(n[0].len() == 14 && n[1].len() == 11 && n[2].len() == 15 && n[3].len() == 14);
    assert(n[4].len() == 9 && n[5].len() == 13 && n[6].len() == 17 && n[7].len() == 17);
    assert(n[8].len() == 19);
    assert(n[0][7] != n[3][7]);
    assert(n[6][11] != n[7][11]);
    assert forall|i: int, j: int| 0 <= i < j < 9 implies n[i] != n[j] by {
        if i == 0 && j == 3 {
            assert(n[i][7] != n[j][7]);
        } else if i == 6 && j == 7 {
            assert(n[i][11] != n[j][11]);
        } else {
            assert(n[i].len() != n[j].len());
        }
    }
}

proof fn lemma_filter_step_names(
    acc: (Seq<Seq<char>>, Seq<(Seq<char>, Seq<char>)>),
    value: Option<&str>,
    k: int,
    col: Seq<char>,
)
    requires
        0 <= k < 9,
        names_ok(acc.1, k),
        acc.0.len() == acc.1.len(),
    ensures
        names_ok(filter_step(acc, value, filter_param_names()[k], col).1, k + 1),
        filter_step(acc, value, filter_param_names()[k], col).0.len() == filter_step(
            acc,
            value,
            filter_param_names()[k],
            col,
        ).1.len(),
        filter_step(acc, value, filter_param_names()[k], col).1.len() == acc.1.len() + if value is Some {
            1int
        } else {
            0
        },
{
    lemma_param_names_distinct();
    let r = filter_step(acc, value, filter_param_names()[k], col).1;
    assert forall|i: int| #![trigger r[i]] 0 <= i < r.len() implies exists|m: int| 0 <= m < k + 1 && #[trigger] filter_param_names()[m] == r[i].0 by {
        if i < acc.1.len() {
            let m = choose|m: int| 0 <= m < k && #[trigger] filter_param_names()[m] == acc.1[i].0;
            assert(filter_param_names()[m] == r[i].0);
        } else {
            assert(filter_param_names()[k] == r[i].0);
        }
    }
    if value is Some {
        assert forall|i: int, j: int| 0 <= i < j < r.len() implies r[i].0 != r[j].0 by {
            if j == acc.1.len() {
                let m = choose|m: int| 0 <= m < k && #[trigger] filter_param_names()[m] == acc.1[i].0;
                assert(filter_param_names()[m] != filter_param_names()[k]);
            }
        }
    }
}

/// The SQL text of a filter clause depends only on which filters are set,
/// never on their values: two filter sets with the same filters set give
/// the same text, whatever the values hold (quotes, braces, SQL).
pub proof fn lemma_filter_text_ignores_values(f1: ChFilters, f2: ChFilters)
    requires
        filters_set(f1) == filters_set(f2),
    ensures
        filter_parts(f1).0 == filter_parts(f2).0,
        join_with(filter_parts(f1).0, clause_separator()) == join_with(filter_parts(f2).0, clause_separator()),
{
    let s1 = filters_set(f1);
    let s2 = filters_set(f2);
    assert(s1[0] == s2[0] && s1[1] == s2[1] && s1[2] == s2[2] && s1[3] == s2[3] && s1[4] == s2[4]
        && s1[5] == s2[5] && s1[6] == s2[6] && s1[7] == s2[7] && s1[8] == s2[8]);
}

/// A filter clause binds one parameter per set filter and one condition
/// line per parameter; the parameter names are distinct filter parameter
/// names; and each value is bound, unchanged, to its own parameter.
pub proof fn lemma_filter_params(f: ChFilters)
    ensures
        filter_parts(f).1.len() == count_set(filters_set(f), 9),
        filter_parts(f).0.len() == filter_parts(f).1.len(),
        forall|i: int, j: int|
            0 <= i < j < filter_parts(f).1.len() ==> filter_parts(f).1[i].0 != filter_parts(f).1[j].0,
        forall|i: int|
            0 <= i < filter_parts(f).1.len() ==> filter_param_names().contains(#[trigger] filter_parts(f).1[i].0),
        f.country matches Some(v) ==> filter_parts(f).1.contains(("filter_country"@, v@)),
        f.utm_campaign matches Some(v) ==> filter_parts(f).1.contains(("filter_utm_campaign"@, v@)),
{
    let n = filter_param_names();
    let a0 = (Seq::<Seq<char>>::empty(), Seq::<(Seq<char>, Seq<char>)>::empty());
    let a1 = filter_step(a0, f.country, n[0], "country"@);
    let a2 = filter_step(a1, f.page, n[1], "url"@);
    let a3 = filter_step(a2, f.referrer, n[2], "referrer_domain"@);
    let a4 = filter_step(a3, f.browser, n[3], "browser"@);
    let a5 = filter_step(a4, f.os, n[4], "os"@);
    let a6 = filter_step(a5, f.device, n[5], "device_type"@);
    let a7 = filter_step(a6, f.utm_source, n[6], "utm_source"@);
    let a8 = filter_step(a7, f.utm_medium, n[7], "utm_medium"@);
    let a9 = filter_step(a8, f.utm_campaign, n[8], "utm_campaign"@);
    assert(a9 == filter_parts(f));
    lemma_filter_step_names(a0, f.country, 0, "country"@);
    lemma_filter_step_names(a1, f.page, 1, "url"@);
    lemma_filter_step_names(a2, f.referrer, 2, "referrer_domain"@);
    lemma_filter_step_names(a3, f.browser, 3, "browser"@);
    lemma_filter_step_names(a4, f.os, 4, "os"@);
    lemma_filter_step_names(a5, f.device, 5, "device_type"@);
    lemma_filter_step_names(a6, f.utm_source, 6, "utm_source"@);
    lemma_filter_step_names(a7, f.utm_medium, 7, "utm_medium"@);
    lemma_filter_step_names(a8, f.utm_campaign, 8, "utm_campaign"@);
    let fs = filters_set(f);
    assert(count_set(fs, 9) == a9.1.len()) by {
        reveal_with_fuel(count_set, 10);
    }
    assert forall|i: int| 0 <= i < a9.1.len() implies n.contains(#[trigger] a9.1[i].0) by {
        let m = choose|m: int| 0 <= m < 9 && #[trigger] n[m] == a9.1[i].0;
        assert(n[m] == a9.1[i].0);
    }
    if let Some(v) = f.country {
        assert(a1.1[0] == (n[0], v@));
        assert(a9.1[0] == a1.1[0]);
    }
    if let Some(v) = f.utm_campaign {
        assert(a9.1.last() == (n[8], v@));
        assert(a9.1[a9.1.len() - 1] == (n[8], v@));
    }
}

impl<'a> ChFilters<'a> {
    /// The filter clause and its named parameters: one
    /// `AND col = {param:String}` line per set filter (joined by a newline
    /// and indentation), and the `(param, value)` pairs to bind.
    pub fn filter_clause(&self) -> (r: (String, Vec<(String, String)>))
        ensures
            r.0@ == join_with(filter_parts(*self).0, clause_separator()),
            string_pairs_view(r.1@) == filter_parts(*self).1,
    {
        let mut clauses: Vec<Vec<char>> = Vec::new();
        let mut params: Vec<(String, String)> = Vec::new();
        assert(clauses@.map_values(|c: Vec<char>| c@) =~= Seq::<Seq<char>>::empty());
        assert(string_pairs_view(params@) =~= Seq::<(Seq<char>, Seq<char>)>::empty());
        push_filter(&mut clauses, &mut params, self.country, "filter_country", "country");
        push_filter(&mut clauses, &mut params, self.page, "filter_page", "url");
        push_filter(&mut clauses, &mut params, self.referrer, "filter_referrer", "referrer_domain");
        push_filter(&mut clauses, &mut params, self.browser, "filter_browser", "browser");
        push_filter(&mut clauses, &mut params, self.os, "filter_os", "os");
        push_filter(&mut clauses, &mut params, self.device, "filter_device", "device_type");
        push_filter(&mut clauses, &mut params, self.utm_source, "filter_utm_source", "utm_source");
        push_filter(&mut clauses, &mut params, self.utm_medium, "filter_utm_medium", "utm_medium");
        push_filter(
            &mut clauses,
            &mut params,
            self.utm_campaign,
            "filter_utm_campaign",
            "utm_campaign",
        );
        (join_clauses(&clauses), params)
    }
}

// ---------------------------------------------------------------------------
// Configuration
// ---------------------------------------------------------------------------

/// Settings that cloud mode cannot start without.
#[derive(Debug)]
pub struct CloudConfig {
    pub clerk_secret_key: String,
    pub clerk_webhook_signing_secret: String,
    pub database_url: String,
    pub clickhouse_url: String,
    pub clickhouse_user: String,
    pub clickhouse_password: String,
}

/// Message naming a required setting that is missing.
pub open spec fn missing_setting_message(name: Seq<char>) -> Seq<char> {
    name + " is required in cloud mode"@
}

/// `r` failed naming the missing setting `name`.
pub open spec fn failed_with<T>(r: Result<T, String>, name: Seq<char>) -> bool {
    match r {
        Err(m) => m@ == missing_setting_message(name),
        Ok(_) => false,
    }
}

fn require(value: Option<String>, name: &str) -> (r: Result<String, String>)
    ensures
        match value {
            Some(v) => r == Ok::<String, String>(v),
            None => r matches Err(m) && m@ == missing_setting_message(name@),
        },
{
    match value {
        Some(v) => Ok(v),
        None => {
            let mut m = chars_of(name);
            append_str(&mut m, " is required in cloud mode");
            Err(string_of(m.as_slice()))
        },
    }
}

impl CloudConfig {
    /// Builds the configuration from the values of `CLERK_SECRET_KEY`,
    /// `CLERK_WEBHOOK_SIGNING_SECRET`, `DATABASE_URL`, `CLICKHOUSE_URL`,
    /// `CLICKHOUSE_USER` and `CLICKHOUSE_PASSWORD`, in that order; the first
    /// one missing is named in the error (`<NAME> is required in cloud
    /// mode`). Reading the environment, and the panic with that message that
    /// cloud mode's start-up makes of the error, stand outside the library:
    /// this library's functions do not panic.
    pub fn from_values(
        clerk_secret_key: Option<String>,
        clerk_webhook_signing_secret: Option<String>,
        database_url: Option<String>,
        clickhouse_url: Option<String>,
        clickhouse_user: Option<String>,
        clickhouse_password: Option<String>,
    ) -> (r: Result<CloudConfig, String>)
        ensures
            clerk_secret_key is None ==> failed_with(r, "CLERK_SECRET_KEY"@),
            clerk_secret_key is Some && clerk_webhook_signing_secret is None ==> failed_with(r, "CLERK_WEBHOOK_SIGNING_SECRET"@),
            clerk_secret_key is Some && clerk_webhook_signing_secret is Some && database_url is None
                ==> failed_with(r, "DATABASE_URL"@),
            clerk_secret_key is Some && clerk_webhook_signing_secret is Some && database_url is Some
                && clickhouse_url is None ==> failed_with(r, "CLICKHOUSE_URL"@),
            clerk_secret_key is Some && clerk_webhook_signing_secret is Some && database_url is Some
                && clickhouse_url is Some && clickhouse_user is None ==> failed_with(r, "CLICKHOUSE_USER"@),
            clerk_secret_key is Some && clerk_webhook_signing_secret is Some && database_url is Some
                && clickhouse_url is Some && clickhouse_user is Some && clickhouse_password is None
                ==> failed_with(r, "CLICKHOUSE_PASSWORD"@),
            r matches Ok(c) ==> (Some(c.clerk_secret_key) == clerk_secret_key && Some(
                c.clerk_webhook_signing_secret,
            ) == clerk_webhook_signing_secret && Some(c.database_url) == database_url && Some(
                c.clickhouse_url,
            ) == clickhouse_url && Some(c.clickhouse_user) == clickhouse_user && Some(
                c.clickhouse_password,
            ) == clickhouse_password),
            (clerk_secret_key is Some && clerk_webhook_signing_secret is Some && database_url
                is Some && clickhouse_url is Some && clickhouse_user is Some
                && clickhouse_password is Some) ==> r is Ok,
    {
        let clerk_secret_key = require(clerk_secret_key, "CLERK_SECRET_KEY")?;
        let clerk_webhook_signing_secret = require(
            clerk_webhook_signing_secret,
            "CLERK_WEBHOOK_SIGNING_SECRET",
        )?;
        let database_url = require(database_url, "DATABASE_URL")?;
        let clickhouse_url = require(clickhouse_url, "CLICKHOUSE_URL")?;
        let clickhouse_user = require(clickhouse_user, "CLICKHOUSE_USER")?;
        let clickhouse_password = require(clickhouse_password, "CLICKHOUSE_PASSWORD")?;
        Ok(
            CloudConfig {
                clerk_secret_key,
                clerk_webhook_signing_secret,
                database_url,
                clickhouse_url,
                clickhouse_user,
                clickhouse_password,
            },
        )
    }
}

// ---------------------------------------------------------------------------
// Tenant context
// ---------------------------------------------------------------------------

/// Role within an organization.
#[derive(Clone, Copy, Debug, PartialEq, Eq, Structural)]
pub enum OrgRole {
    Admin,
    Member,
    Viewer,
}

/// Role named by a claim: `admin`/`org:admin`, `viewer`/`org:viewer`, and
/// member for anything else.
pub open spec fn role_of(s: Seq<char>) -> OrgRole {
    if s == "admin"@ || s == "org:admin"@ {
        OrgRole::Admin
    } else if s == "viewer"@ || s == "org:viewer"@ {
        OrgRole::Viewer
    } else {
        OrgRole::Member
    }
}

fn eq_lit(v: &[char], lit: &str) -> (b: bool)
    ensures
        b == (v@ == lit@),
{
    let l = chars_of(lit);
    chars_eq(v, l.as_slice())
}

impl OrgRole {
    /// Reads a role claim.
    pub fn from_str(s: &str) -> (r: OrgRole)
        ensures
            r == role_of(s@),
    {
        let c = chars_of(s);
        if eq_lit(c.as_slice(), "admin") || eq_lit(c.as_slice(), "org:admin") {
            OrgRole::Admin
        } else if eq_lit(c.as_slice(), "viewer") || eq_lit(c.as_slice(), "org:viewer") {
            OrgRole::Viewer
        } else {
            OrgRole::Member
        }
    }
}

/// Who is calling in cloud mode: organization (the tenant), user, role.
#[derive(Debug)]
pub struct TenantContext {
    pub tenant_id: String,
    pub user_id: String,
    pub role: OrgRole,
}

/// Why a request has no tenant context.
#[derive(Debug)]
pub enum TenantError {
    Unauthenticated,
    Forbidden(String),
}

impl TenantError {
    /// Status, error code and message of the response to the rejection.
    pub fn response(&self) -> (r: (u16, &'static str, String))
        ensures
            match self {
                TenantError::Unauthenticated => r.0 == 401 && r.1@ == "unauthorized"@ && r.2@
                    == "Unauthorized"@,
                TenantError::Forbidden(m) => r.0 == 403 && r.1@ == "forbidden"@ && r.2@ == m@,
            },
    {
        match self {
            TenantError::Unauthenticated => (401, "unauthorized", "Unauthorized".to_owned()),
            TenantError::Forbidden(m) => (403, "forbidden", m.clone()),
        }
    }
}

/// The claims a tenant context is read from: the user (`sub`, when a
/// string) and the organization (`o`, when an object) with its `id` and
/// `rol` (each when a string), as [`parse_token_claims`] reads them.
pub struct TokenClaims {
    pub sub: Option<String>,
    pub org: Option<OrgClaims>,
}

/// The organization claim of a token.
pub struct OrgClaims {
    pub id: Option<String>,
    pub rol: Option<String>,
}

/// Abstract view of [`TokenClaims`].
pub open spec fn claims_view(c: TokenClaims) -> (Option<Seq<char>>, Option<(Option<Seq<char>>, Option<Seq<char>>)>) {
    (
        match c.sub {
            Some(s) => Some(s@),
            None => None,
        },
        match c.org {
            Some(o) => Some(
                (
                    match o.id {
                        Some(s) => Some(s@),
                        None => None,
                    },
                    match o.rol {
                        Some(s) => Some(s@),
                        None => None,
                    },
                ),
            ),
            None => None,
        },
    )
}

/// Name for what `base64`'s URL-safe, unpadded engine decodes the text
/// to, or `None` when it refuses the text.
pub uninterp spec fn b64url_decode(s: Seq<char>) -> Option<Seq<u8>>;

/// `URL_SAFE_NO_PAD.decode`; the result is named by [`b64url_decode`].
#[verifier::external_body]
pub(crate) fn decode_b64url(s: &str) -> (r: Option<Vec<u8>>)
    ensures
        match r {
            Some(b) => b64url_decode(s@) == Some(b@),
            None => b64url_decode(s@) is None,
        },
{
    base64::Engine::decode(&base64::engine::general_purpose::URL_SAFE_NO_PAD, s).ok()
}

/// Claim naming the user of a token.
pub const USER_CLAIM: &'static str = "sub";

/// Claim holding a token's organization.
pub const ORG_CLAIM: &'static str = "o";

/// Member of the organization claim holding its id.
pub const ORG_ID_CLAIM: &'static str = "id";

/// Member of the organization claim holding the member's role.
pub const ORG_ROLE_CLAIM: &'static str = "rol";

/// Name for what `serde_json::from_slice` finds in the bytes, read through
/// `get`, `as_str` and `as_object`: the member `user_key` (when a string)
/// and the member `org_key` (when an object) with its members `id_key` and
/// `role_key` (each when a string); `None` when the bytes are not JSON.
pub uninterp spec fn json_claims(
    bytes: Seq<u8>,
    user_key: Seq<char>,
    org_key: Seq<char>,
    id_key: Seq<char>,
    role_key: Seq<char>,
) -> Option<(Option<Seq<char>>, Option<(Option<Seq<char>>, Option<Seq<char>>)>)>;

/// `serde_json::from_slice` into a JSON value, read through `get`,
/// `as_str` and `as_object` into [`TokenClaims`]; named by [`json_claims`].
#[verifier::external_body]
pub(crate) fn parse_token_claims(
    bytes: &[u8],
    user_key: &str,
    org_key: &str,
    id_key: &str,
    role_key: &str,
) -> (r: Option<TokenClaims>)
    ensures
        match r {
            Some(c) => json_claims(bytes@, user_key@, org_key@, id_key@, role_key@) == Some(claims_view(c)),
            None => json_claims(bytes@, user_key@, org_key@, id_key@, role_key@) is None,
        },
{
    let v: serde_json::Value = serde_json::from_slice(bytes).ok()?;
    Some(
        TokenClaims {
            sub: v.get(user_key).and_then(|x| x.as_str()).map(|x| x.to_string()),
            org: v.get(org_key).and_then(|x| x.as_object()).map(
                |o| OrgClaims {
                    id: o.get(id_key).and_then(|x| x.as_str()).map(|x| x.to_string()),
                    rol: o.get(role_key).and_then(|x| x.as_str()).map(|x| x.to_string()),
                },
            ),
        },
    )
}

/// The second `.`-separated part of a token (its payload), if it has one.
pub open spec fn token_payload(token: Seq<char>) -> Option<Seq<char>> {
    let i = first_occ(token, seq!['.']);
    if i < 0 {
        None
    } else {
        Some(before_char(token.skip(i + 1), '.'))
    }
}

/// Message when a token names no organization.
pub open spec fn org_required_message() -> Seq<char> {
    "Organization context required"@
}

/// Tenant context of an `Authorization` header: `Bearer ` and a token
/// whose payload decodes to claims with a user and an organization id.
pub open spec fn tenant_of(header: Option<Seq<char>>) -> Result<
    (Seq<char>, Seq<char>, OrgRole),
    Option<Seq<char>>,
> {
    match header {
        None => Err(None),
        Some(h) => if !starts_with(h, "Bearer "@) {
            Err(None)
        } else {
            let token = h.skip("Bearer "@.len() as int);
            match token_payload(token) {
                None => Err(None),
                Some(p) => match b64url_decode(p) {
                    None => Err(None),
                    Some(bytes) => match json_claims(bytes, USER_CLAIM@, ORG_CLAIM@, ORG_ID_CLAIM@, ORG_ROLE_CLAIM@) {
                        None => Err(None),
                        Some(c) => match c.0 {
                            None => Err(None),
                            Some(user) => match c.1 {
                                None => Err(Some(org_required_message())),
                                Some(org) => match org.0 {
                                    None => Err(Some(org_required_message())),
                                    Some(tenant) => Ok(
                                        (
                                            tenant,
                                            user,
                                            match org.1 {
                                                Some(r) => role_of(r),
                                                None => OrgRole::Member,
                                            },
                                        ),
                                    ),
                                },
                            },
                        },
                    },
                },
            }
        },
    }
}

/// Reads the tenant context of a cloud-mode request from its
/// `Authorization` header. The token's signature is checked upstream;
/// only its payload is read here.
pub fn tenant_from_authorization(header: Option<&str>) -> (r: Result<TenantContext, TenantError>)
    ensures
        match tenant_of(
            match header {
                Some(h) => Some(h@),
                None => None,
            },
        ) {
            Ok((t, u, role)) => r matches Ok(c) && c.tenant_id@ == t && c.user_id@ == u && c.role
                == role,
            Err(None) => r matches Err(TenantError::Unauthenticated),
            Err(Some(m)) => r matches Err(TenantError::Forbidden(x)) && x@ == m,
        },
{
    let h = match header {
        Some(h) => h,
        None => {
            return Err(TenantError::Unauthenticated);
        },
    };
    let hc = chars_of(h);
    let prefix = chars_of("Bearer ");
    if !starts_with_exec(hc.as_slice(), prefix.as_slice()) {
        return Err(TenantError::Unauthenticated);
    }
    let token = sub_chars(hc.as_slice(), prefix.len(), hc.len());
    assert(token@ =~= h@.skip("Bearer "@.len() as int));
    let dot = ['.'];
    assert(dot@ =~= seq!['.']);
    let i = match find_exec(token.as_slice(), &dot) {
        Some(i) => i,
        None => {
            return Err(TenantError::Unauthenticated);
        },
    };
    proof {
        let k = choose|k: int| crate::text::is_first_occ(token@, seq!['.'], k);
        assert(crate::text::occurs_at(token@, seq!['.'], k));
    }
    let rest = sub_chars(token.as_slice(), i + 1, token.len());
    assert(rest@ =~= token@.skip(i + 1));
    let payload = before_char_exec(rest.as_slice(), '.');
    let ps = string_of(payload.as_slice());
    let bytes = match decode_b64url(ps.as_str()) {
        Some(b) => b,
        None => {
            return Err(TenantError::Unauthenticated);
        },
    };
    let claims = match parse_token_claims(bytes.as_slice(), USER_CLAIM, ORG_CLAIM, ORG_ID_CLAIM, ORG_ROLE_CLAIM) {
        Some(c) => c,
        None => {
            return Err(TenantError::Unauthenticated);
        },
    };
    let user_id = match claims.sub {
        Some(s) => s,
        None => {
            return Err(TenantError::Unauthenticated);
        },
    };
    let org = match claims.org {
        Some(o) => o,
        None => {
            return Err(TenantError::Forbidden("Organization context required".to_owned()));
        },
    };
    let tenant_id = match org.id {
        Some(s) => s,
        None => {
            return Err(TenantError::Forbidden("Organization context required".to_owned()));
        },
    };
    let role = match &org.rol {
        Some(r) => OrgRole::from_str(r.as_str()),
        None => OrgRole::Member,
    };
    Ok(TenantContext { tenant_id, user_id, role })
}

// ---------------------------------------------------------------------------
// Analytics queries
// ---------------------------------------------------------------------------

/// Query of the cloud `stats` endpoint.
pub struct CloudStatsQuery {
    pub start_date: Option<String>,
    pub end_date: Option<String>,
    pub timezone: Option<String>,
    pub filter_country: Option<String>,
    pub filter_page: Option<String>,
    pub filter_referrer: Option<String>,
    pub filter_browser: Option<String>,
    pub filter_os: Option<String>,
    pub filter_device: Option<String>,
    pub filter_utm_source: Option<String>,
    pub filter_utm_medium: Option<String>,
    pub filter_utm_campaign: Option<String>,
}

/// Query of the cloud `pageviews` endpoint.
pub struct CloudPageviewsQuery {
    pub start_date: Option<String>,
    pub end_date: Option<String>,
    pub granularity: Option<String>,
    pub timezone: Option<String>,
    pub filter_country: Option<String>,
    pub filter_page: Option<String>,
    pub filter_referrer: Option<String>,
    pub filter_browser: Option<String>,
    pub filter_os: Option<String>,
    pub filter_device: Option<String>,
    pub filter_utm_source: Option<String>,
    pub filter_utm_medium: Option<String>,
    pub filter_utm_campaign: Option<String>,
}

/// Query of the cloud `metrics` endpoint (`type` is the metric).
pub struct CloudMetricsQuery {
    pub start_date: Option<String>,
    pub end_date: Option<String>,
    pub metric_type: Option<String>,
    pub limit: Option<i64>,
    pub offset: Option<i64>,
    pub filter_country: Option<String>,
    pub filter_page: Option<String>,
    pub filter_referrer: Option<String>,
    pub filter_browser: Option<String>,
    pub filter_os: Option<String>,
    pub filter_device: Option<String>,
    pub filter_utm_source: Option<String>,
    pub filter_utm_medium: Option<String>,
    pub filter_utm_campaign: Option<String>,
}

/// Borrowed view of an optional owned string.
pub open spec fn borrowed(o: Option<String>, b: Option<&str>) -> bool {
    match (o, b) {
        (None, None) => true,
        (Some(s), Some(t)) => s@ == t@,
        _ => false,
    }
}

fn as_deref(o: &Option<String>) -> (r: Option<&str>)
    ensures
        borrowed(*o, r),
{
    match o {
        Some(s) => Some(s.as_str()),
        None => None,
    }
}

/// Filters that pass each set query filter through unchanged.
pub open spec fn filters_from(
    f: ChFilters,
    country: Option<String>,
    page: Option<String>,
    referrer: Option<String>,
    browser: Option<String>,
    os: Option<String>,
    device: Option<String>,
    utm_source: Option<String>,
    utm_medium: Option<String>,
    utm_campaign: Option<String>,
) -> bool {
    &&& borrowed(country, f.country)
    &&& borrowed(page, f.page)
    &&& borrowed(referrer, f.referrer)
    &&& borrowed(browser, f.browser)
    &&& borrowed(os, f.os)
    &&& borrowed(device, f.device)
    &&& borrowed(utm_source, f.utm_source)
    &&& borrowed(utm_medium, f.utm_medium)
    &&& borrowed(utm_campaign, f.utm_campaign)
}

impl CloudStatsQuery {
    /// The dimension filters of the query.
    pub fn filters(&self) -> (f: ChFilters<'_>)
        ensures
            filters_from(
                f,
                self.filter_country,
                self.filter_page,
                self.filter_referrer,
                self.filter_browser,
                self.filter_os,
                self.filter_device,
                self.filter_utm_source,
                self.filter_utm_medium,
                self.filter_utm_campaign,
            ),
    {
        ChFilters {
            country: as_deref(&self.filter_country),
            page: as_deref(&self.filter_page),
            referrer: as_deref(&self.filter_referrer),
            browser: as_deref(&self.filter_browser),
            os: as_deref(&self.filter_os),
            device: as_deref(&self.filter_device),
            utm_source: as_deref(&self.filter_utm_source),
            utm_medium: as_deref(&self.filter_utm_medium),
            utm_campaign: as_deref(&self.filter_utm_campaign),
        }
    }

    /// The query's time zone, UTC by default.
    pub fn timezone_or_utc(&self) -> (tz: &str)
        ensures
            match self.timezone {
                Some(t) => tz@ == t@,
                None => tz@ == "UTC"@,
            },
    {
        match &self.timezone {
            Some(t) => t.as_str(),
            None => "UTC",
        }
    }
}

impl CloudPageviewsQuery {
    /// The dimension filters of the query.
    pub fn filters(&self) -> (f: ChFilters<'_>)
        ensures
            filters_from(
                f,
                self.filter_country,
                self.filter_page,
                self.filter_referrer,
                self.filter_browser,
                self.filter_os,
                self.filter_device,
                self.filter_utm_source,
                self.filter_utm_medium,
                self.filter_utm_campaign,
            ),
    {
        ChFilters {
            country: as_deref(&self.filter_country),
            page: as_deref(&self.filter_page),
            referrer: as_deref(&self.filter_referrer),
            browser: as_deref(&self.filter_browser),
            os: as_deref(&self.filter_os),
            device: as_deref(&self.filter_device),
            utm_source: as_deref(&self.filter_utm_source),
            utm_medium: as_deref(&self.filter_utm_medium),
            utm_campaign: as_deref(&self.filter_utm_campaign),
        }
    }
}

/// Page of a cloud metrics listing: limit 10 by default, clamped to
/// `1..=100`; offset 0 by default, never negative.
pub open spec fn metrics_page(limit: Option<i64>, offset: Option<i64>) -> (i64, i64) {
    let l = match limit {
        Some(x) => x,
        None => 10,
    };
    let o = match offset {
        Some(x) => x,
        None => 0,
    };
    (if l < 1 {
        1
    } else if l > 100 {
        100
    } else {
        l
    }, if o < 0 {
        0
    } else {
        o
    })
}

fn clamp_i64(x: i64, lo: i64, hi: i64) -> (r: i64)
    requires
        lo <= hi,
    ensures
        r == (if x < lo {
            lo
        } else if x > hi {
            hi
        } else {
            x
        }),
{
    if x < lo {
        lo
    } else if x > hi {
        hi
    } else {
        x
    }
}

impl CloudMetricsQuery {
    /// The dimension filters of the query.
    pub fn filters(&self) -> (f: ChFilters<'_>)
        ensures
            filters_from(
                f,
                self.filter_country,
                self.filter_page,
                self.filter_referrer,
                self.filter_browser,
                self.filter_os,
                self.filter_device,
                self.filter_utm_source,
                self.filter_utm_medium,
                self.filter_utm_campaign,
            ),
    {
        ChFilters {
            country: as_deref(&self.filter_country),
            page: as_deref(&self.filter_page),
            referrer: as_deref(&self.filter_referrer),
            browser: as_deref(&self.filter_browser),
            os: as_deref(&self.filter_os),
            device: as_deref(&self.filter_device),
            utm_source: as_deref(&self.filter_utm_source),
            utm_medium: as_deref(&self.filter_utm_medium),
            utm_campaign: as_deref(&self.filter_utm_campaign),
        }
    }

    /// The metric asked for; the parameter is required.
    pub fn required_metric_type(&self) -> (r: Result<&str, crate::error::AppError>)
        ensures
            match self.metric_type {
                Some(t) => r matches Ok(x) && x@ == t@,
                None => crate::error::bad_request_with(r, "type parameter is required"@),
            },
    {
        match &self.metric_type {
            Some(t) => Ok(t.as_str()),
            None => Err(crate::error::bad_request("type parameter is required")),
        }
    }

    /// Limit and offset of the listing.
    pub fn page(&self) -> (r: (i64, i64))
        ensures
            r == metrics_page(self.limit, self.offset),
    {
        let l = match self.limit {
            Some(x) => x,
            None => 10,
        };
        let o = match self.offset {
            Some(x) => x,
            None => 0,
        };
        (clamp_i64(l, 1, 100), if o < 0 {
            0
        } else {
            o
        })
    }
}

/// Date range of a cloud query: each bound parsed as `YYYY-MM-DD` (without
/// trimming), else the six days before `today` and `today`.
pub open spec fn cloud_dates(start: Option<Seq<char>>, end: Option<Seq<char>>, today: i32) -> (i32, i32) {
    (
        match start {
            Some(s) => match crate::dates::chrono_parse_ymd(s) {
                Some(d) => d,
                None => (today - 6) as i32,
            },
            None => (today - 6) as i32,
        },
        match end {
            Some(s) => match crate::dates::chrono_parse_ymd(s) {
                Some(d) => d,
                None => today,
            },
            None => today,
        },
    )
}

/// Resolves a cloud query's date range against `today`.
pub fn parse_dates_at(start: Option<&str>, end: Option<&str>, today: i32) -> (r: (i32, i32))
    requires
        crate::dates::MIN_DAY + 6 <= today,
    ensures
        r == cloud_dates(
            crate::routes::query::opt_view(start),
            crate::routes::query::opt_view(end),
            today,
        ),
{
    let s = match start {
        Some(x) => match crate::dates::parse_ymd(x) {
            Some(d) => d,
            None => today - 6,
        },
        None => today - 6,
    };
    let e = match end {
        Some(x) => match crate::dates::parse_ymd(x) {
            Some(d) => d,
            None => today,
        },
        None => today,
    };
    (s, e)
}

/// Resolves a cloud query's date range against today's UTC date.
pub fn parse_dates(start: Option<&str>, end: Option<&str>) -> (r: (i32, i32))
    ensures
        exists|today: i32|
            crate::dates::EPOCH_EVE_DAY <= today <= crate::dates::MAX_DAY && r == #[trigger] cloud_dates(
                crate::routes::query::opt_view(start),
                crate::routes::query::opt_view(end),
                today,
            ),
{
    let today = crate::dates::today_utc();
    parse_dates_at(start, end, today)
}

// ---------------------------------------------------------------------------
// Websites and API keys of a tenant
// ---------------------------------------------------------------------------

/// Query of the cloud website listing.
pub struct CloudListWebsitesQuery {
    pub limit: Option<i64>,
}

impl CloudListWebsitesQuery {
    /// Page size: 20 by default, clamped to `1..=100`.
    pub fn page_limit(&self) -> (l: i64)
        ensures
            l == key_page(self.limit, None).0,
    {
        let l = match self.limit {
            Some(x) => x,
            None => 20,
        };
        clamp_i64(l, 1, 100)
    }
}

/// Body of the cloud website creation.
pub struct CloudCreateWebsiteBody {
    pub name: String,
    pub domain: String,
    pub timezone: Option<String>,
}

/// Body of the cloud website update; absent fields stay as they are.
pub struct CloudUpdateWebsiteBody {
    pub name: Option<String>,
    pub domain: Option<String>,
    pub timezone: Option<String>,
}

/// A website about to be created: trimmed name and domain, and the time
/// zone (UTC by default).
#[derive(Debug)]
pub struct NewCloudWebsite {
    pub name: String,
    pub domain: String,
    pub timezone: String,
}

impl CloudCreateWebsiteBody {
    /// Checks the body: name and domain must not be blank.
    pub fn validate(&self) -> (r: Result<NewCloudWebsite, crate::error::AppError>)
        ensures
            (trim(self.name@).len() == 0 || trim(self.domain@).len() == 0)
                ==> crate::error::bad_request_with(r, "name and domain are required"@),
            !(trim(self.name@).len() == 0 || trim(self.domain@).len() == 0) ==> (r matches Ok(w)
                && w.name@ == trim(self.name@) && w.domain@ == trim(self.domain@) && w.timezone@
                == match self.timezone {
                Some(t) => t@,
                None => "UTC"@,
            }),
    {
        let n = trim_str(self.name.as_str());
        let d = trim_str(self.domain.as_str());
        if n.len() == 0 || d.len() == 0 {
            return Err(crate::error::bad_request("name and domain are required"));
        }
        let tz = match &self.timezone {
            Some(t) => t.clone(),
            None => "UTC".to_owned(),
        };
        Ok(
            NewCloudWebsite {
                name: string_of(n.as_slice()),
                domain: string_of(d.as_slice()),
                timezone: tz,
            },
        )
    }
}

/// Snippet that loads the tracker for a website.
pub open spec fn tracking_snippet_of(public_url: Seq<char>, website_id: Seq<char>) -> Seq<char> {
    "<script defer src=\""@ + public_url + "/s.js\" data-website-id=\""@ + website_id
        + "\"></script>"@
}

/// Builds the tracking snippet of a website.
pub fn tracking_snippet(public_url: &str, website_id: &str) -> (r: String)
    ensures
        r@ == tracking_snippet_of(public_url@, website_id@),
{
    let mut v = chars_of("<script defer src=\"");
    append_str(&mut v, public_url);
    append_str(&mut v, "/s.js\" data-website-id=\"");
    append_str(&mut v, website_id);
    append_str(&mut v, "\"></script>");
    string_of(v.as_slice())
}

/// ASCII letters and digits.
pub open spec fn is_alphanumeric(c: char) -> bool {
    ('0' <= c && c <= '9') || ('a' <= c && c <= 'z') || ('A' <= c && c <= 'Z')
}

/// One character drawn by `rand::distributions::Alphanumeric` (an ASCII
/// letter or digit) from the thread-local generator.
#[verifier::external_body]
fn random_alphanumeric() -> (c: char)
    ensures
        is_alphanumeric(c),
{
    char::from(rand::Rng::sample(&mut rand::thread_rng(), rand::distributions::Alphanumeric))
}

/// `n` random ASCII letters and digits.
pub fn random_alphanumerics(n: usize) -> (r: Vec<char>)
    ensures
        r@.len() == n,
        forall|i: int| 0 <= i < n ==> is_alphanumeric(#[trigger] r@[i]),
{
    let mut v: Vec<char> = Vec::new();
    let mut k: usize = 0;
    while k < n
        invariant
            k <= n,
            v@.len() == k,
            forall|i: int| 0 <= i < k ==> is_alphanumeric(#[trigger] v@[i]),
        decreases n - k,
    {
        v.push(random_alphanumeric());
        k = k + 1;
    }
    v
}

/// A new record id: `prefix` and ten random letters and digits.
pub fn new_record_id(prefix: &str) -> (id: String)
    ensures
        id@.len() == prefix@.len() + 10,
        id@.take(prefix@.len() as int) == prefix@,
        forall|i: int| prefix@.len() <= i < id@.len() ==> is_alphanumeric(#[trigger] id@[i]),
{
    let mut v = chars_of(prefix);
    let tail = random_alphanumerics(10);
    let ghost p = v@;
    append_chars(&mut v, tail.as_slice());
    assert(v@.take(p.len() as int) =~= p);
    assert forall|i: int| prefix@.len() <= i < v@.len() implies is_alphanumeric(#[trigger] v@[i]) by {
        assert(v@[i] == tail@[i - p.len()]);
    }
    string_of(v.as_slice())
}

/// Query of the cloud API key listing.
pub struct ListKeysQuery {
    pub limit: Option<i64>,
    pub offset: Option<i64>,
}

/// Body of the cloud API key creation.
pub struct CreateKeyRequest {
    pub name: String,
}

impl ListKeysQuery {
    /// Limit (20 by default, clamped to `1..=100`) and offset (0 by
    /// default, never negative) of the listing.
    pub fn page(&self) -> (r: (i64, i64))
        ensures
            r == key_page(self.limit, self.offset),
    {
        let l = match self.limit {
            Some(x) => x,
            None => 20,
        };
        let o = match self.offset {
            Some(x) => x,
            None => 0,
        };
        (clamp_i64(l, 1, 100), if o < 0 {
            0
        } else {
            o
        })
    }
}

/// A cloud API key just generated: the raw key (shown once), its stored
/// hash, its display prefix and the record id.
#[derive(Debug)]
pub struct GeneratedCloudKey {
    pub raw_key: String,
    pub hash: String,
    pub prefix: String,
    pub id: String,
    pub name: String,
}

impl CreateKeyRequest {
    /// Checks the name and generates the key: `spk_live_` and 32 random
    /// letters and digits, its hex SHA-256, its first 20 characters, and
    /// an id `key_` with ten random letters and digits.
    pub fn generate(&self) -> (r: Result<GeneratedCloudKey, crate::error::AppError>)
        ensures
            trim(self.name@).len() == 0 ==> crate::error::bad_request_with(r, "name is required"@),
            trim(self.name@).len() > 0 ==> (r matches Ok(k) && k.name@ == trim(self.name@)
                && k.raw_key@.len() == "spk_live_"@.len() + 32 && k.raw_key@.take(
                "spk_live_"@.len() as int,
            ) == "spk_live_"@ && k.hash@ == api_key_hash(k.raw_key@) && k.prefix@ == first_chars(
                k.raw_key@,
                20,
            ) && k.id@.len() == "key_"@.len() + 10 && k.id@.take("key_"@.len() as int)
                == "key_"@),
    {
        let n = trim_str(self.name.as_str());
        if n.len() == 0 {
            return Err(crate::error::bad_request("name is required"));
        }
        let mut v = chars_of("spk_live_");
        let ghost base = v@;
        let suffix = random_alphanumerics(32);
        append_chars(&mut v, suffix.as_slice());
        assert(v@.take(base.len() as int) =~= base);
        let raw_key = string_of(v.as_slice());
        let hash = hash_api_key(raw_key.as_str());
        let cut: usize = if v.len() <= 20 {
            v.len()
        } else {
            20
        };
        let p = sub_chars(v.as_slice(), 0, cut);
        assert(p@ =~= first_chars(v@, 20));
        let id = new_record_id("key_");
        Ok(
            GeneratedCloudKey {
                raw_key,
                hash,
                prefix: string_of(p.as_slice()),
                id,
                name: string_of(n.as_slice()),
            },
        )
    }
}

/// The hash under which a cloud API key is looked up; keys without the
/// `spk_live_` prefix are not looked up at all.
pub fn cloud_key_lookup_hash(raw_key: &str) -> (r: Option<String>)
    ensures
        starts_with(raw_key@, "spk_live_"@) ==> (r matches Some(h) && h@ == api_key_hash(raw_key@)),
        !starts_with(raw_key@, "spk_live_"@) ==> r is None,
{
    let c = chars_of(raw_key);
    let p = chars_of("spk_live_");
    if !starts_with_exec(c.as_slice(), p.as_slice()) {
        return None;
    }
    Some(hash_api_key(raw_key))
}

} // verus!
