use sparklytics_server::auth::{
    build_session_cookie, clear_session_cookie, generate_api_key, generate_key_id,
    hash_api_key, keys_have_more, list_keys_page, session_token_from_cookie,
    validate_key_name, validate_password_strength, verify_password, hash_password, AppMode,
    ListKeysQuery,
};

#[test]
fn rejects_whitespace_only_password() {
    let result = validate_password_strength("            ");
    assert!(result.is_err());
}

#[test]
fn rejects_short_password() {
    let result = validate_password_strength("short");
    assert!(result.is_err());
}

#[test]
fn accepts_valid_password() {
    let result = validate_password_strength("strong_password_123");
    assert!(result.is_ok());
}

#[test]
fn password_messages_name_the_broken_rule() {
    assert_eq!(
        validate_password_strength("   ").unwrap_err(),
        "password cannot be empty or whitespace-only"
    );
    assert_eq!(
        validate_password_strength("elevenchars").unwrap_err(),
        "password must be at least 12 characters"
    );
    assert!(validate_password_strength("twelve chars").is_ok());
}

#[test]
fn generate_selfhosted_key_uses_selfhosted_prefix() {
    let (raw_key, hash, prefix) = generate_api_key(AppMode::SelfHosted);
    assert!(raw_key.starts_with("spk_selfhosted_"));
    assert_eq!(prefix.len(), 20);
    assert_eq!(hash.len(), 64);
}

#[test]
fn generate_cloud_key_uses_live_prefix() {
    let (raw_key, hash, prefix) = generate_api_key(AppMode::Cloud);
    assert!(raw_key.starts_with("spk_live_"));
    assert_eq!(prefix.len(), 20);
    assert_eq!(hash.len(), 64);
}

#[test]
fn generated_key_hash_and_prefix_follow_the_raw_key() {
    let (raw_key, hash, prefix) = generate_api_key(AppMode::SelfHosted);
    assert_eq!(raw_key.len(), "spk_selfhosted_".len() + 32);
    assert_eq!(hash, hash_api_key(&raw_key));
    assert_eq!(prefix, raw_key.chars().take(20).collect::<String>());
}

#[test]
fn hash_api_key_is_hex_sha256() {
    assert_eq!(
        hash_api_key("abc"),
        "ba7816bf8f01cfea414140de5dae2223b00361a396177a9cb410ff61f20015ad"
    );
    assert_ne!(hash_api_key("abc"), "abc");
}

#[test]
fn key_id_has_prefix_and_ten_base36_chars() {
    let id = generate_key_id();
    assert!(id.starts_with("key_"));
    assert_eq!(id.len(), 14);
    assert!(id[4..]
        .chars()
        .all(|c| c.is_ascii_digit() || c.is_ascii_lowercase()));
}

#[test]
fn session_cookie_format() {
    assert_eq!(
        build_session_cookie("tok", false, 7),
        "spk_session=tok; HttpOnly; SameSite=Strict; Path=/; Max-Age=604800"
    );
    assert_eq!(
        build_session_cookie("tok", true, 1),
        "spk_session=tok; HttpOnly; SameSite=Strict; Path=/; Max-Age=86400; Secure"
    );
    assert_eq!(
        clear_session_cookie(true),
        "spk_session=; HttpOnly; SameSite=Strict; Path=/; Max-Age=0; Secure"
    );
    assert_eq!(
        clear_session_cookie(false),
        "spk_session=; HttpOnly; SameSite=Strict; Path=/; Max-Age=0"
    );
}

#[test]
fn session_token_found_among_cookies() {
    assert_eq!(
        session_token_from_cookie("theme=dark;  spk_session=abc.def ; other=1"),
        Some("abc.def".to_string())
    );
    assert_eq!(session_token_from_cookie("theme=dark"), None);
    assert_eq!(session_token_from_cookie(""), None);
    assert_eq!(
        session_token_from_cookie("spk_session=first; spk_session=second"),
        Some("first".to_string())
    );
}

#[test]
fn cookie_built_at_login_is_read_back() {
    let cookie = build_session_cookie("the.token", true, 30);
    assert_eq!(
        session_token_from_cookie(&cookie),
        Some("the.token".to_string())
    );
}

#[test]
fn key_listing_page_is_clamped() {
    let q = ListKeysQuery { limit: None, offset: None };
    assert_eq!(list_keys_page(&q), (20, 0));
    let q = ListKeysQuery { limit: Some(500), offset: Some(-3) };
    assert_eq!(list_keys_page(&q), (100, 0));
    let q = ListKeysQuery { limit: Some(0), offset: Some(40) };
    assert_eq!(list_keys_page(&q), (1, 40));
    assert!(keys_have_more(0, 20, 21));
    assert!(!keys_have_more(0, 20, 20));
}

#[test]
fn key_name_must_not_be_empty() {
    assert!(validate_key_name("").is_err());
    assert!(validate_key_name(" ").is_ok());
}

#[test]
fn argon2_hash_round_trip() {
    let hash = hash_password("correct horse battery", 8).expect("hash");
    assert!(hash.starts_with("$argon2id$"));
    assert!(verify_password("correct horse battery", &hash));
    assert!(!verify_password("wrong", &hash));
    assert!(!verify_password("anything", "not a phc string"));
    assert!(hash_password("x", 7).is_err());
}

#[test]
fn password_length_counts_characters() {
    assert!(validate_password_strength("ééééééé").is_err());
    assert!(validate_password_strength("éééééééééééé").is_ok());
}
