//! Local authentication: password policy, session cookies, API keys and
//! the pagination of the key listing.
use vstd::prelude::*;

use crate::error::{bad_request, bad_request_with, AppError};
use crate::ratelimit::{decimal, u64_decimal};
use crate::text::{
    append_chars, append_str, before_char, before_char_exec, chars_of, starts_with,
    starts_with_exec, string_of, sub_chars, trim, trim_chars, trim_str,
};

verus! {

/// Body of `POST /api/auth/setup`.
pub struct SetupRequest {
    pub password: String,
}

/// Body of `POST /api/auth/login`.
pub struct LoginRequest {
    pub password: String,
}

/// Body of `PUT /api/auth/password`.
pub struct ChangePasswordRequest {
    pub current_password: String,
    pub new_password: String,
}

/// Query of `GET /api/auth/keys`.
pub struct ListKeysQuery {
    pub limit: Option<i64>,
    pub offset: Option<i64>,
}

/// Body of `POST /api/auth/keys`.
pub struct CreateKeyRequest {
    pub name: String,
}

/// Claims carried by a session token.
pub struct Claims {
    pub sub: String,
    pub exp: i64,
    pub iat: i64,
}

/// How a request was authenticated, attached to the request once checked.
pub struct AuthContext {
    pub auth_type: String,
    pub api_key_id: Option<String>,
}

/// Deployment flavour, which decides the prefix of generated API keys.
#[derive(Clone, Copy, Debug, PartialEq, Eq, Structural)]
pub enum AppMode {
    SelfHosted,
    Cloud,
}

// ---------------------------------------------------------------------------
// Password policy
// ---------------------------------------------------------------------------

/// Minimum password length, in characters.
pub const MIN_PASSWORD_CHARS: usize = 12;

/// What the password policy says of `password`: `Ok` or the message of
/// the first rule it breaks.
pub open spec fn password_verdict(password: Seq<char>) -> Result<(), Seq<char>> {
    if trim(password).len() == 0 {
        Err("password cannot be empty or whitespace-only"@)
    } else if password.len() < MIN_PASSWORD_CHARS {
        Err("password must be at least 12 characters"@)
    } else {
        Ok(())
    }
}

/// Checks a new password: not blank, at least 12 characters long.
pub fn validate_password_strength(password: &str) -> (r: Result<(), String>)
    ensures
        match password_verdict(password@) {
            Ok(()) => r is Ok,
            Err(msg) => r matches Err(m) && m@ == msg,
        },
{
    let t = trim_str(password);
    if t.len() == 0 {
        return Err("password cannot be empty or whitespace-only".to_owned());
    }
    if chars_of(password).len() < MIN_PASSWORD_CHARS {
        return Err("password must be at least 12 characters".to_owned());
    }
    Ok(())
}

// ---------------------------------------------------------------------------
// Session cookies
// ---------------------------------------------------------------------------

/// Name of the session cookie, with its `=`.
pub open spec fn session_prefix() -> Seq<char> {
    "spk_session="@
}

/// The `Secure` attribute when the server runs behind HTTPS.
pub open spec fn secure_suffix(https: bool) -> Seq<char> {
    if https {
        "; Secure"@
    } else {
        ""@
    }
}

/// `Set-Cookie` value that stores a session token for `session_days` days.
pub open spec fn session_cookie(token: Seq<char>, https: bool, session_days: u32) -> Seq<char> {
    session_prefix() + token + "; HttpOnly; SameSite=Strict; Path=/; Max-Age="@ + decimal(
        (session_days as nat) * 86400,
    ) + secure_suffix(https)
}

/// `Set-Cookie` value that clears the session cookie.
pub open spec fn cleared_cookie(https: bool) -> Seq<char> {
    "spk_session=; HttpOnly; SameSite=Strict; Path=/; Max-Age=0"@ + secure_suffix(https)
}

fn push_secure(v: &mut Vec<char>, https: bool)
    ensures
        final(v)@ == old(v)@ + secure_suffix(https),
{
    if https {
        append_str(v, "; Secure");
    } else {
        append_str(v, "");
    }
}

/// Builds the session cookie issued at login.
pub fn build_session_cookie(token: &str, https: bool, session_days: u32) -> (r: String)
    ensures
        r@ == session_cookie(token@, https, session_days),
{
    let mut v = chars_of("spk_session=");
    append_str(&mut v, token);
    append_str(&mut v, "; HttpOnly; SameSite=Strict; Path=/; Max-Age=");
    let secs: u64 = (session_days as u64) * 86400;
    let d = u64_decimal(secs);
    append_chars(&mut v, d.as_slice());
    push_secure(&mut v, https);
    string_of(v.as_slice())
}

/// Builds the cookie that ends a session at logout.
pub fn clear_session_cookie(https: bool) -> (r: String)
    ensures
        r@ == cleared_cookie(https),
{
    let mut v = chars_of("spk_session=; HttpOnly; SameSite=Strict; Path=/; Max-Age=0");
    push_secure(&mut v, https);
    string_of(v.as_slice())
}

/// The session token of a `Cookie` header: the value of the first
/// `;`-separated pair that, trimmed, starts with `spk_session=`.
pub open spec fn session_token(header: Seq<char>) -> Option<Seq<char>>
    decreases header.len(),
{
    let seg = before_char(header, ';');
    let t = trim(seg);
    if starts_with(t, session_prefix()) {
        Some(t.skip(session_prefix().len() as int))
    } else if seg.len() < header.len() {
        session_token(header.skip(seg.len() + 1int))
    } else {
        None
    }
}

/// A session cookie as the server sets it reads back as the token it
/// stores, for every token without `;` that does not end in whitespace
/// (session tokens are base64url text with dots).
pub proof fn lemma_session_cookie_reads_back(token: Seq<char>, https: bool, session_days: u32)
    requires
        !crate::text::has_char(token, ';'),
        token.len() == 0 || !crate::text::is_ws(token.last()),
    ensures
        session_token(session_cookie(token, https, session_days)) == Some(token),
{
    reveal_strlit("spk_session=");
    reveal_strlit("; HttpOnly; SameSite=Strict; Path=/; Max-Age=");
    let p = session_prefix();
    let rest = "; HttpOnly; SameSite=Strict; Path=/; Max-Age="@ + decimal((session_days as nat) * 86400)
        + secure_suffix(https);
    let c = session_cookie(token, https, session_days);
    assert(c =~= p + token + rest);
    let l: int = (p.len() + token.len()) as int;
    assert(c[l] == ';');
    assert forall|j: int| 0 <= j < l implies c[j] != ';' by {
        if j < p.len() {
            assert(c[j] == p[j]);
        } else {
            assert(c[j] == token[j - p.len()]);
            if token[j - p.len()] == ';' {
                assert(crate::text::has_char(token, ';'));
            }
        }
    }
    crate::text::lemma_before_char_at(c, ';', l);
    let seg = c.take(l);
    assert(seg =~= p + token);
    assert(seg[0] == 's');
    if token.len() > 0 {
        assert(seg.last() == token.last());
    } else {
        assert(seg.last() == '=');
    }
    crate::text::lemma_trim_unchanged(seg);
    assert(starts_with(seg, p)) by {
        assert(seg.subrange(0, p.len() as int) =~= p);
    }
    assert(seg.skip(p.len() as int) =~= token);
}

/// Finds the session token in a `Cookie` header.
pub fn session_token_from_cookie(header: &str) -> (r: Option<String>)
    ensures
        match session_token(header@) {
            Some(t) => r matches Some(x) && x@ == t,
            None => r is None,
        },
{
    let prefix = chars_of("spk_session=");
    let mut rest = chars_of(header);
    loop
        invariant
            prefix@ == session_prefix(),
            session_token(rest@) == session_token(header@),
        decreases rest@.len(),
    {
        let seg = before_char_exec(rest.as_slice(), ';');
        let t = trim_chars(seg.as_slice());
        proof {
            crate::text::lemma_before_char_len(rest@, ';');
        }
        if starts_with_exec(t.as_slice(), prefix.as_slice()) {
            let tok = sub_chars(t.as_slice(), prefix.len(), t.len());
            assert(tok@ =~= t@.skip(session_prefix().len() as int));
            return Some(string_of(tok.as_slice()));
        }
        if seg.len() < rest.len() {
            let next = sub_chars(rest.as_slice(), seg.len() + 1, rest.len());
            assert(next@ =~= rest@.skip(seg@.len() + 1int));
            rest = next;
        } else {
            return None;
        }
    }
}

// ---------------------------------------------------------------------------
// Key listing
// ---------------------------------------------------------------------------

/// Page size and offset of a key listing: the limit defaults to 20 and is
/// clamped to `1..=100`; the offset defaults to 0 and is never negative.
pub open spec fn key_page(limit: Option<i64>, offset: Option<i64>) -> (i64, i64) {
    let l = match limit {
        Some(x) => x,
        None => 20,
    };
    let o = match offset {
        Some(x) => x,
        None => 0,
    };
    (if l < 1 {
        1
    } else if l > 100 {
        100
    } else {
        l
    }, if o < 0 {
        0
    } else {
        o
    })
}

/// Resolves the page of a key listing.
pub fn list_keys_page(query: &ListKeysQuery) -> (r: (i64, i64))
    ensures
        r == key_page(query.limit, query.offset),
{
    let l = match query.limit {
        Some(x) => x,
        None => 20,
    };
    let o = match query.offset {
        Some(x) => x,
        None => 0,
    };
    let limit = if l < 1 {
        1
    } else if l > 100 {
        100
    } else {
        l
    };
    let offset = if o < 0 {
        0
    } else {
        o
    };
    (limit, offset)
}

/// Whether rows remain after the page `offset..offset + limit` of `total`.
pub fn keys_have_more(offset: i64, limit: i64, total: i64) -> (b: bool)
    requires
        i64::MIN <= offset + limit <= i64::MAX,
    ensures
        b == (offset + limit < total),
{
    offset + limit < total
}

/// Rejects an API key with an empty name.
pub fn validate_key_name(name: &str) -> (r: Result<(), crate::error::AppError>)
    ensures
        name@.len() == 0 ==> crate::error::bad_request_with(r, "name is required"@),
        name@.len() > 0 ==> r is Ok,
{
    let c = chars_of(name);
    if c.len() == 0 {
        return Err(crate::error::bad_request("name is required"));
    }
    Ok(())
}

// ---------------------------------------------------------------------------
// API keys
// ---------------------------------------------------------------------------

/// SHA-256 digest of a byte string, as `sha2::Sha256::digest` computes it.
pub uninterp spec fn sha256(bytes: Seq<u8>) -> Seq<u8>;

/// `sha2::Sha256::digest` over `bytes`; the result is the 32-byte digest,
/// named by [`sha256`].
#[verifier::external_body]
fn sha256_digest(bytes: &[u8]) -> (d: Vec<u8>)
    ensures
        d@ == sha256(bytes@),
        d@.len() == 32,
{
    <sha2::Sha256 as sha2::Digest>::digest(bytes).to_vec()
}

/// Lower-case hexadecimal digit of a value below 16.
pub open spec fn hex_digit(n: u8) -> char {
    if n < 10 {
        ((48 + n) as u32) as char
    } else {
        ((87 + n) as u32) as char
    }
}

/// Lower-case hexadecimal text of a byte string, two digits per byte,
/// high nibble first.
pub open spec fn hex_of(bytes: Seq<u8>) -> Seq<char>
    decreases bytes.len(),
{
    if bytes.len() == 0 {
        Seq::empty()
    } else {
        hex_of(bytes.drop_last()) + seq![
            hex_digit(bytes.last() / 16),
            hex_digit(bytes.last() % 16),
        ]
    }
}

/// Length of [`hex_of`].
pub proof fn lemma_hex_len(bytes: Seq<u8>)
    ensures
        hex_of(bytes).len() == 2 * bytes.len(),
    decreases bytes.len(),
{
    if bytes.len() > 0 {
        lemma_hex_len(bytes.drop_last());
    }
}

/// `hex::encode`: the lower-case hexadecimal text of `bytes`, two digits
/// per byte, high nibble first.
#[verifier::external_body]
fn hex_encode(bytes: &[u8]) -> (s: String)
    ensures
        s@ == hex_of(bytes@),
{
    hex::encode(bytes)
}

/// `rand::RngCore::fill_bytes` on the thread-local generator: sixteen
/// bytes of which nothing is promised.
#[verifier::external_body]
fn random_bytes16() -> (b: Vec<u8>)
    ensures
        b@.len() == 16,
{
    let mut buf = [0u8; 16];
    rand::RngCore::fill_bytes(&mut rand::thread_rng(), &mut buf);
    buf.to_vec()
}

/// `rand::Rng::gen_range(0..36)` on the thread-local generator.
#[verifier::external_body]
fn random_below_36() -> (n: u8)
    ensures
        n < 36,
{
    rand::Rng::gen_range(&mut rand::thread_rng(), 0u8..36u8)
}

/// Stored hash of an API key: hex SHA-256 of its UTF-8 bytes.
pub open spec fn api_key_hash(raw: Seq<char>) -> Seq<char> {
    hex_of(sha256(vstd::utf8::encode_utf8(raw)))
}

/// Hashes an API key with SHA-256, as hex.
pub fn hash_api_key(raw_key: &str) -> (h: String)
    ensures
        h@ == api_key_hash(raw_key@),
        h@.len() == 64,
{
    let d = sha256_digest(raw_key.as_bytes());
    proof {
        lemma_hex_len(d@);
    }
    hex_encode(d.as_slice())
}

/// Prefix of generated keys for each deployment flavour.
pub open spec fn key_base(mode: AppMode) -> Seq<char> {
    match mode {
        AppMode::SelfHosted => "spk_selfhosted_"@,
        AppMode::Cloud => "spk_live_"@,
    }
}

/// The first `n` characters of `s` (all of them when it is shorter).
pub open spec fn first_chars(s: Seq<char>, n: nat) -> Seq<char> {
    if s.len() <= n {
        s
    } else {
        s.take(n as int)
    }
}

/// Generates an API key for `mode`: `(raw key, hash, display prefix)`.
/// The raw key is the mode's prefix followed by 32 hex digits of random
/// bytes; the display prefix is its first 20 characters.
pub fn generate_api_key(mode: AppMode) -> (r: (String, String, String))
    ensures
        exists|b: Seq<u8>| b.len() == 16 && r.0@ == key_base(mode) + #[trigger] hex_of(b),
        r.1@ == api_key_hash(r.0@),
        r.2@ == first_chars(r.0@, 20),
{
    let buf = random_bytes16();
    let random_part = hex_encode(buf.as_slice());
    let mut v = match mode {
        AppMode::SelfHosted => chars_of("spk_selfhosted_"),
        AppMode::Cloud => chars_of("spk_live_"),
    };
    append_str(&mut v, random_part.as_str());
    let raw_key = string_of(v.as_slice());
    let hash = hash_api_key(raw_key.as_str());
    let n: usize = if v.len() <= 20 {
        v.len()
    } else {
        20
    };
    let p = sub_chars(v.as_slice(), 0, n);
    assert(p@ =~= first_chars(v@, 20));
    let prefix = string_of(p.as_slice());
    assert(hex_of(buf@) == random_part@);
    (raw_key, hash, prefix)
}

/// Characters of generated key ids: ASCII digits and lower-case letters.
pub open spec fn is_id_char(c: char) -> bool {
    ('0' <= c && c <= '9') || ('a' <= c && c <= 'z')
}

/// Generates a key id: `key_` followed by ten random characters from
/// `0-9a-z`.
pub fn generate_key_id() -> (id: String)
    ensures
        id@.len() == "key_"@.len() + 10,
        id@.take("key_"@.len() as int) == "key_"@,
        forall|i: int| "key_"@.len() <= i < id@.len() ==> is_id_char(#[trigger] id@[i]),
{
    let mut v = chars_of("key_");
    let ghost base = v@;
    let mut k: usize = 0;
    while k < 10
        invariant
            base == "key_"@,
            k <= 10,
            v@.len() == base.len() + k,
            v@.take(base.len() as int) == base,
            forall|i: int| base.len() <= i < v@.len() ==> is_id_char(#[trigger] v@[i]),
        decreases 10 - k,
    {
        let idx = random_below_36();
        let c = if idx < 10 {
            (48u8 + idx) as char
        } else {
            (87u8 + idx) as char
        };
        let ghost old_v = v@;
        v.push(c);
        assert(v@.take(base.len() as int) =~= old_v.take(base.len() as int));
        k = k + 1;
    }
    string_of(v.as_slice())
}

// ---------------------------------------------------------------------------
// Password hashing
// ---------------------------------------------------------------------------

/// Argon2 memory cost below which `argon2::Params::new` refuses (in KiB).
pub const MIN_ARGON2_MEMORY_KB: u32 = 8;

/// Variant of Argon2 used for passwords.
pub const ARGON2_ALGORITHM: &'static str = "argon2id";

/// Argon2 version used for passwords (1.3).
pub const ARGON2_VERSION: u32 = 0x13;

/// Passes over memory when hashing a password.
pub const ARGON2_TIME_COST: u32 = 3;

/// Lanes used when hashing a password.
pub const ARGON2_LANES: u32 = 1;

/// Length of a password hash's output, in bytes.
pub const ARGON2_OUTPUT_BYTES: usize = 32;

/// Sixteen bytes from the operating system's random source
/// (`RngCore::fill_bytes` of the `OsRng` that `argon2` re-exports), the
/// salt length that `SaltString::generate` draws.
#[verifier::external_body]
fn random_salt() -> (b: Vec<u8>)
    ensures
        b@.len() == 16,
{
    let mut buf = [0u8; 16];
    argon2::password_hash::rand_core::RngCore::fill_bytes(&mut argon2::password_hash::rand_core::OsRng, &mut buf);
    buf.to_vec()
}

/// The UTF-8 encoding of a password is short enough for Argon2
/// (`argon2::MAX_PWD_LEN`, 2^32 - 1 bytes).
pub open spec fn argon2_password_fits(password: Seq<char>) -> bool {
    vstd::utf8::encode_utf8(password).len() <= 0xFFFF_FFFF
}

/// The names `argon2::Algorithm` parses.
pub open spec fn argon2_algorithm_name(a: Seq<char>) -> bool {
    a == "argon2d"@ || a == "argon2i"@ || a == "argon2id"@
}

/// Costs that `argon2::Params::new` accepts: memory of at least 8 KiB and
/// 8 KiB per lane, at least one pass, at least one lane, and an output of
/// 4 to 2^32 - 1 bytes.
pub open spec fn argon2_params_ok(m_cost: u32, t_cost: u32, p_cost: u32, output_len: usize) -> bool {
    &&& m_cost >= MIN_ARGON2_MEMORY_KB
    &&& m_cost >= 8 * p_cost
    &&& t_cost >= 1
    &&& p_cost >= 1
    &&& 4 <= output_len <= 0xFFFF_FFFF
}

/// `PasswordHasher::hash_password` with the Argon2 variant named
/// `algorithm` (`Algorithm::from_str`), the version `version`
/// (`Version::try_from`), `Params::new(m_cost, t_cost, p_cost,
/// Some(output_len))` and the salt `SaltString::encode_b64` makes of `salt`,
/// in PHC string form. Claimed: costs that `Params::new` refuses give an
/// error; a hash it gives verifies the same password
/// (`PasswordVerifier::verify_password` hashes again with the algorithm,
/// version, parameters and salt written in the PHC string and compares the
/// outputs); and hashing succeeds for a known variant and version,
/// accepted costs with an output of 10 to 64 bytes (what `Output` holds),
/// a password that fits and a salt of 8 to 48 bytes. In the source,
/// `encode_b64` fails only past 64 characters (48 bytes), and hashing fails
/// only on a password over `MAX_PWD_LEN`, a decoded salt under 8 bytes, or
/// output, parameter or memory sizes that these conditions and the buffer
/// it allocates already meet. The memory of `m_cost` KiB is allocated by
/// the crate; a failed allocation aborts the process rather than
/// returning. `p_cost` is bounded so that `Params::new`'s `p_cost * 8`
/// cannot overflow.
#[verifier::external_body]
fn argon2_hash(
    password: &str,
    algorithm: &str,
    version: u32,
    m_cost: u32,
    t_cost: u32,
    p_cost: u32,
    output_len: usize,
    salt: &[u8],
) -> (r: Result<String, String>)
    requires
        p_cost <= 0xFF_FFFF,
    ensures
        !argon2_params_ok(m_cost, t_cost, p_cost, output_len) ==> r is Err,
        argon2_algorithm_name(algorithm@) && (version == 0x10 || version == 0x13) && argon2_params_ok(
            m_cost,
            t_cost,
            p_cost,
            output_len,
        ) && 10 <= output_len <= 64 && argon2_password_fits(password@) && 8 <= salt@.len() <= 48 ==> r is Ok,
        r matches Ok(h) ==> argon2_matches(password@, h@),
{
    let alg = algorithm.parse::<argon2::Algorithm>().map_err(|e| e.to_string())?;
    let ver = argon2::Version::try_from(version).map_err(|e| e.to_string())?;
    let params = argon2::Params::new(m_cost, t_cost, p_cost, Some(output_len)).map_err(|e| e.to_string())?;
    let salt = argon2::password_hash::SaltString::encode_b64(salt).map_err(|e| e.to_string())?;
    let hasher = argon2::Argon2::new(alg, ver, params);
    let hash = argon2::PasswordHasher::hash_password(&hasher, password.as_bytes(), &salt);
    hash.map(|h| h.to_string()).map_err(|e| e.to_string())
}

/// Hashes a password with Argon2id (version 1.3, three passes, one lane,
/// 32-byte output) and a fresh random salt; `m_cost` is the memory cost in
/// KiB. A memory cost under 8 KiB is refused; any other gives a hash (for a
/// password Argon2 can take), and a hash that is given verifies the
/// password it was made from.
pub fn hash_password(password: &str, m_cost: u32) -> (r: Result<String, String>)
    ensures
        m_cost < MIN_ARGON2_MEMORY_KB ==> r is Err,
        m_cost >= MIN_ARGON2_MEMORY_KB && argon2_password_fits(password@) ==> r is Ok,
        r matches Ok(h) ==> argon2_matches(password@, h@),
{
    let salt = random_salt();
    argon2_hash(
        password,
        ARGON2_ALGORITHM,
        ARGON2_VERSION,
        m_cost,
        ARGON2_TIME_COST,
        ARGON2_LANES,
        ARGON2_OUTPUT_BYTES,
        salt.as_slice(),
    )
}

/// Whether `password` matches the stored Argon2 `hash` (PHC string), as
/// `argon2::Argon2::default().verify_password` decides; a hash that
/// `PasswordHash::new` cannot parse matches nothing.
pub uninterp spec fn argon2_matches(password: Seq<char>, hash: Seq<char>) -> bool;

/// Name for whether `argon2::PasswordHash::new` parses the text as a PHC
/// hash string.
pub uninterp spec fn phc_hash_parses(hash: Seq<char>) -> bool;

/// `PasswordHash::new` then `PasswordVerifier::verify_password` with the
/// default Argon2 instance; `false` when the hash does not parse (named by
/// [`phc_hash_parses`]).
#[verifier::external_body]
fn argon2_verify(password: &str, hash: &str) -> (b: bool)
    ensures
        b == argon2_matches(password@, hash@),
        !phc_hash_parses(hash@) ==> !b,
{
    match argon2::PasswordHash::new(hash) {
        Ok(parsed) => argon2::PasswordVerifier::verify_password(
            &argon2::Argon2::default(),
            password.as_bytes(),
            &parsed,
        ).is_ok(),
        Err(_) => false,
    }
}

/// Checks a password against its stored Argon2 hash; a text that is not a
/// PHC hash string matches no password.
pub fn verify_password(password: &str, hash: &str) -> (b: bool)
    ensures
        b == argon2_matches(password@, hash@),
        !phc_hash_parses(hash@) ==> !b,
{
    argon2_verify(password, hash)
}

// ---------------------------------------------------------------------------
// Authentication flows
// ---------------------------------------------------------------------------

/// How the dashboard is protected.
pub enum AuthMode {
    /// A fixed password given in the configuration.
    Password(String),
    /// A password set once through the setup endpoint and stored hashed.
    Local,
    /// No authentication (`none` in the configuration).
    Disabled,
}

/// Seconds a client waits after too many failed logins.
pub const LOGIN_RATE_LIMIT_RETRY_AFTER_SECONDS: u64 = 900;

/// The mode's name as the status endpoint reports it, and whether setup is
/// still required; without authentication the endpoint does not exist.
pub fn auth_status_view(mode: &AuthMode, admin_configured: bool) -> (r: Result<(&'static str, bool), AppError>)
    ensures
        match mode {
            AuthMode::Password(_) => r matches Ok((m, s)) && m@ == "password"@ && !s,
            AuthMode::Local => r matches Ok((m, s)) && m@ == "local"@ && s == !admin_configured,
            AuthMode::Disabled => r matches Err(AppError::NotFound(m)) && m@ == "Not found"@,
        },
{
    match mode {
        AuthMode::Password(_) => Ok(("password", false)),
        AuthMode::Local => Ok(("local", !admin_configured)),
        AuthMode::Disabled => Err(AppError::NotFound("Not found".to_owned())),
    }
}

/// Name of the mode in the session endpoint's answer.
pub fn auth_mode_name(mode: &AuthMode) -> (m: &'static str)
    ensures
        m@ == match mode {
            AuthMode::Password(_) => "password"@,
            AuthMode::Local => "local"@,
            AuthMode::Disabled => "none"@,
        },
{
    match mode {
        AuthMode::Password(_) => "password",
        AuthMode::Local => "local",
        AuthMode::Disabled => "none",
    }
}

/// Checks a first-run setup: only in local mode, only once, and only with a
/// password that meets the policy.
pub fn setup_check(mode: &AuthMode, admin_configured: bool, password: &str) -> (r: Result<(), AppError>)
    ensures
        !(mode is Local) ==> bad_request_with(r, "setup only available in local mode"@),
        mode is Local && admin_configured ==> r matches Err(AppError::Gone),
        mode is Local && !admin_configured ==> match password_verdict(password@) {
            Ok(()) => r is Ok,
            Err(m) => bad_request_with(r, m),
        },
{
    match mode {
        AuthMode::Local => {},
        _ => {
            return Err(bad_request("setup only available in local mode"));
        },
    }
    if admin_configured {
        return Err(AppError::Gone);
    }
    match validate_password_strength(password) {
        Ok(()) => Ok(()),
        Err(m) => Err(AppError::BadRequest(m)),
    }
}

/// What a login attempt leads to.
pub enum LoginDecision {
    /// Refused before any password is checked.
    Reject(AppError),
    /// The password is wrong: record a failed attempt and answer 401.
    RecordFailure,
    /// The password is right: record a success and issue a session.
    Grant,
}

/// Decides a login: a client over the failure limit is told to retry
/// later; a fixed password is compared as it is; a stored password is
/// checked against its Argon2 hash, and is required to exist.
pub fn login_decision(rate_allowed: bool, mode: &AuthMode, password: &str, stored_hash: Option<&str>) -> (d: LoginDecision)
    ensures
        !rate_allowed ==> (d matches LoginDecision::Reject(AppError::RateLimitedWithRetry { retry_after_seconds })
            && retry_after_seconds == LOGIN_RATE_LIMIT_RETRY_AFTER_SECONDS),
        rate_allowed ==> match mode {
            AuthMode::Password(pw) => if password@ == pw@ {
                d is Grant
            } else {
                d is RecordFailure
            },
            AuthMode::Local => match stored_hash {
                None => d matches LoginDecision::Reject(AppError::SetupRequired),
                Some(h) => if argon2_matches(password@, h@) {
                    d is Grant
                } else {
                    d is RecordFailure
                },
            },
            AuthMode::Disabled => d matches LoginDecision::Reject(AppError::NotFound(m)) && m@ == "Auth not enabled"@,
        },
{
    if !rate_allowed {
        return LoginDecision::Reject(
            AppError::RateLimitedWithRetry { retry_after_seconds: LOGIN_RATE_LIMIT_RETRY_AFTER_SECONDS },
        );
    }
    match mode {
        AuthMode::Password(pw) => {
            let a = chars_of(password);
            let b = chars_of(pw.as_str());
            if crate::text::chars_eq(a.as_slice(), b.as_slice()) {
                LoginDecision::Grant
            } else {
                LoginDecision::RecordFailure
            }
        },
        AuthMode::Local => match stored_hash {
            None => LoginDecision::Reject(AppError::SetupRequired),
            Some(h) => if verify_password(password, h) {
                LoginDecision::Grant
            } else {
                LoginDecision::RecordFailure
            },
        },
        AuthMode::Disabled => LoginDecision::Reject(AppError::NotFound("Auth not enabled".to_owned())),
    }
}

/// Checks a password change: only in local mode (a fixed password cannot
/// be changed), with a stored password, the right current password and a
/// new password that meets the policy.
pub fn change_password_check(
    mode: &AuthMode,
    stored_hash: Option<&str>,
    current_password: &str,
    new_password: &str,
) -> (r: Result<(), AppError>)
    ensures
        mode is Password ==> r matches Err(AppError::MethodNotAllowed),
        mode is Disabled ==> (r matches Err(AppError::NotFound(m)) && m@ == "Auth not enabled"@),
        mode is Local ==> match stored_hash {
            None => r matches Err(AppError::SetupRequired),
            Some(h) => if !argon2_matches(current_password@, h@) {
                r matches Err(AppError::Unauthorized)
            } else {
                match password_verdict(new_password@) {
                    Ok(()) => r is Ok,
                    Err(m) => bad_request_with(r, m),
                }
            },
        },
{
    match mode {
        AuthMode::Local => {},
        AuthMode::Password(_) => {
            return Err(AppError::MethodNotAllowed);
        },
        AuthMode::Disabled => {
            return Err(AppError::NotFound("Auth not enabled".to_owned()));
        },
    }
    let h = match stored_hash {
        Some(h) => h,
        None => {
            return Err(AppError::SetupRequired);
        },
    };
    if !verify_password(current_password, h) {
        return Err(AppError::Unauthorized);
    }
    match validate_password_strength(new_password) {
        Ok(()) => Ok(()),
        Err(m) => Err(AppError::BadRequest(m)),
    }
}

/// What the authentication layer does with a request.
pub enum AuthGate {
    /// Local mode without a password yet: 403 `setup_required`.
    SetupRequired,
    /// Whether a password is set could not be read: 500.
    CheckFailed,
    /// An API key on a route that takes the session cookie only: 403.
    ApiKeysForbidden,
    /// Look the API key up by this hash.
    LookupApiKey(String),
    /// Check this session token against the JWT secret.
    CheckSession(String),
    /// No credentials: 401.
    Unauthorized,
}

/// Decides how a request is authenticated. In local mode a missing
/// password comes first; then a `Bearer` API key (refused on cookie-only
/// routes); then the session cookie.
pub fn auth_gate(
    mode: &AuthMode,
    admin_configured: Option<bool>,
    authorization: Option<&str>,
    cookie: Option<&str>,
    cookie_only: bool,
) -> (g: AuthGate)
    ensures
        mode is Local && admin_configured == Some(false) ==> g is SetupRequired,
        mode is Local && admin_configured is None ==> g is CheckFailed,
        !(mode is Local && admin_configured != Some(true)) ==> match authorization {
            Some(a) if starts_with(a@, "Bearer "@) => if cookie_only {
                g is ApiKeysForbidden
            } else {
                g matches AuthGate::LookupApiKey(h) && h@ == api_key_hash(a@.skip(7))
            },
            _ => match cookie {
                Some(c) => match session_token(c@) {
                    Some(t) => g matches AuthGate::CheckSession(x) && x@ == t,
                    None => g is Unauthorized,
                },
                None => g is Unauthorized,
            },
        },
{
    if let AuthMode::Local = mode {
        match admin_configured {
            Some(false) => {
                return AuthGate::SetupRequired;
            },
            None => {
                return AuthGate::CheckFailed;
            },
            Some(true) => {},
        }
    }
    if let Some(a) = authorization {
        let ac = chars_of(a);
        let p = chars_of("Bearer ");
        if starts_with_exec(ac.as_slice(), p.as_slice()) {
            if cookie_only {
                return AuthGate::ApiKeysForbidden;
            }
            proof {
                reveal_strlit("Bearer ");
            }
            let token = sub_chars(ac.as_slice(), 7, ac.len());
            assert(token@ =~= a@.skip(7));
            let ts = string_of(token.as_slice());
            return AuthGate::LookupApiKey(hash_api_key(ts.as_str()));
        }
    }
    match cookie {
        Some(c) => match session_token_from_cookie(c) {
            Some(t) => AuthGate::CheckSession(t),
            None => AuthGate::Unauthorized,
        },
        None => AuthGate::Unauthorized,
    }
}

/// What follows the lookup of an API key or the check of a session token.
pub enum AuthOutcome {
    /// The request goes on, authenticated so.
    Authenticated(AuthContext),
    /// 401 `unauthorized`; a failed API key does not fall back to the cookie.
    Unauthorized,
    /// The lookup itself failed: 500.
    LookupFailed,
}

/// The outcome of looking an API key up by its hash: `Ok(Some(id))` for a
/// key found, `Ok(None)` for none, `Err(())` when the lookup failed. A found
/// key authenticates the request as `api_key` with the key's id; a key
/// that is not found is refused outright.
pub fn api_key_outcome(found: Result<Option<String>, ()>) -> (r: AuthOutcome)
    ensures
        match found {
            Ok(Some(id)) => r matches AuthOutcome::Authenticated(ctx) && ctx.auth_type@ == "api_key"@
                && opt_text_of(ctx.api_key_id) == Some(id@),
            Ok(None) => r is Unauthorized,
            Err(()) => r is LookupFailed,
        },
{
    match found {
        Ok(Some(id)) => AuthOutcome::Authenticated(
            AuthContext { auth_type: "api_key".to_owned(), api_key_id: Some(id) },
        ),
        Ok(None) => AuthOutcome::Unauthorized,
        Err(()) => AuthOutcome::LookupFailed,
    }
}

/// The outcome of checking a session token: a token that decodes under the
/// secret authenticates the request as `cookie`; no secret, or a token that
/// does not decode, gives 401. Whether a well-signed token has expired
/// depends on the clock; only that an accepted token is signed under the
/// secret and carries its claims is stated.
pub fn session_outcome(token: &str, jwt_secret: Option<&str>) -> (r: AuthOutcome)
    ensures
        jwt_secret is None ==> r is Unauthorized,
        r matches AuthOutcome::Authenticated(ctx) ==> (ctx.auth_type@ == "cookie"@ && ctx.api_key_id is None
            && (jwt_secret matches Some(secret) && crate::jwt::hs256_signed(token@, secret@) && (
        crate::jwt::hs256_claims(
            token@,
            crate::jwt::SUBJECT_CLAIM@,
            crate::jwt::EXPIRY_CLAIM@,
            crate::jwt::ISSUED_AT_CLAIM@,
        ) matches Some((Some(_), Some(_), Some(_)))))),
        !(r is LookupFailed),
{
    match jwt_secret {
        Some(secret) => match crate::jwt::decode_jwt(token, secret) {
            Ok(_) => AuthOutcome::Authenticated(AuthContext { auth_type: "cookie".to_owned(), api_key_id: None }),
            Err(_) => AuthOutcome::Unauthorized,
        },
        None => AuthOutcome::Unauthorized,
    }
}

/// The text of an optional string.
pub open spec fn opt_text_of(o: Option<String>) -> Option<Seq<char>> {
    match o {
        Some(s) => Some(s@),
        None => None,
    }
}

/// What the setup check says of a first-run setup.
pub enum SetupVerdict {
    /// The password may be stored.
    Allowed,
    /// Not in local mode: 400.
    NotLocal,
    /// A password is stored already: 410.
    AlreadyDone,
    /// The password breaks the policy: 400 with this message.
    Weak(Seq<char>),
}

/// The setup check on the state (whether a password is stored).
pub open spec fn setup_verdict(mode: AuthMode, configured: bool, password: Seq<char>) -> SetupVerdict {
    if !(mode is Local) {
        SetupVerdict::NotLocal
    } else if configured {
        SetupVerdict::AlreadyDone
    } else {
        match password_verdict(password) {
            Ok(()) => SetupVerdict::Allowed,
            Err(m) => SetupVerdict::Weak(m),
        }
    }
}

/// Runs a first-run setup against the stored admin password hash: a setup
/// the check allows hashes the password and stores the hash (a hash that
/// verifies the password), unless hashing fails (500, nothing stored); any
/// other setup is refused as the check says and stores nothing.
pub fn setup_admin(stored: &mut Option<String>, mode: &AuthMode, password: &str, m_cost: u32) -> (r: Result<(), AppError>)
    ensures
        match setup_verdict(*mode, old(stored).is_some(), password@) {
            SetupVerdict::NotLocal => bad_request_with(r, "setup only available in local mode"@) && *final(stored) == *old(stored),
            SetupVerdict::AlreadyDone => r matches Err(AppError::Gone) && *final(stored) == *old(stored),
            SetupVerdict::Weak(m) => bad_request_with(r, m) && *final(stored) == *old(stored),
            SetupVerdict::Allowed => (r is Ok && (*final(stored) matches Some(h) && argon2_matches(password@, h@)))
                || ((r matches Err(AppError::Internal(_))) && *final(stored) == *old(stored)),
        },
        setup_verdict(*mode, old(stored).is_some(), password@) == SetupVerdict::Allowed && m_cost >= MIN_ARGON2_MEMORY_KB
            && argon2_password_fits(password@) ==> r is Ok,
{
    setup_check(mode, stored.is_some(), password)?;
    match hash_password(password, m_cost) {
        Ok(h) => {
            *stored = Some(h);
            Ok(())
        },
        Err(e) => Err(AppError::Internal(e)),
    }
}

/// Setup happens once: a first setup in local mode with a password that
/// meets the policy is allowed, and once a password is stored every later
/// setup, whatever its password, is refused as already done (410) and so
/// stores nothing; a first setup with a weak password is refused and
/// leaves setup open.
pub proof fn lemma_setup_only_once(mode: AuthMode, first: Seq<char>, later: Seq<char>)
    requires
        mode is Local,
    ensures
        password_verdict(first) is Ok ==> setup_verdict(mode, false, first) == SetupVerdict::Allowed,
        setup_verdict(mode, true, later) == SetupVerdict::AlreadyDone,
        password_verdict(first) is Err ==> setup_verdict(mode, false, first) is Weak,
{
}

/// A fresh session-signing secret: the hex text of 32 random bytes.
pub fn fresh_jwt_secret() -> (s: String)
    ensures
        exists|b: Seq<u8>| b.len() == 32 && s@ == #[trigger] hex_of(b),
{
    let mut bytes = random_bytes16();
    let mut more = random_bytes16();
    bytes.append(&mut more);
    hex_encode(bytes.as_slice())
}

/// Changes the admin password against the stored hash and the session
/// secret. A change the check allows stores a hash of the new password
/// (which verifies it) and replaces the session secret with a fresh random
/// one, so that sessions signed under the old secret are no longer checked
/// against it; hashing failure (500) changes nothing. A change the check
/// refuses (wrong current password: 401, among others) changes nothing.
pub fn change_password(
    stored_hash: &mut Option<String>,
    jwt_secret: &mut String,
    mode: &AuthMode,
    current_password: &str,
    new_password: &str,
    m_cost: u32,
) -> (r: Result<(), AppError>)
    ensures
        (mode is Local && (*old(stored_hash) matches Some(h) && !argon2_matches(current_password@, h@))) ==> (r matches Err(
            AppError::Unauthorized,
        )),
        r is Err ==> *final(stored_hash) == *old(stored_hash) && final(jwt_secret)@ == old(jwt_secret)@,
        r is Ok ==> (mode is Local && (*old(stored_hash) matches Some(h) && argon2_matches(current_password@, h@))
            && password_verdict(new_password@) is Ok),
        r is Ok ==> (*final(stored_hash) matches Some(h) && argon2_matches(new_password@, h@)),
        r is Ok ==> exists|b: Seq<u8>| b.len() == 32 && final(jwt_secret)@ == #[trigger] hex_of(b),
        mode is Local && (*old(stored_hash) matches Some(h) && argon2_matches(current_password@, h@)) && password_verdict(
            new_password@,
        ) is Ok && m_cost >= MIN_ARGON2_MEMORY_KB && argon2_password_fits(new_password@) ==> r is Ok,
{
    let current: Option<&str> = match stored_hash {
        Some(h) => Some(h.as_str()),
        None => None,
    };
    change_password_check(mode, current, current_password, new_password)?;
    let h = match hash_password(new_password, m_cost) {
        Ok(h) => h,
        Err(e) => {
            return Err(AppError::Internal(e));
        },
    };
    *stored_hash = Some(h);
    *jwt_secret = fresh_jwt_secret();
    Ok(())
}

} // verus!
