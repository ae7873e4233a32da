use sparklytics_server::routes::export::{build_csv, ExportRow};
use base64::Engine;
use chrono::Datelike;
use sparklytics_server::auth::{
    auth_gate, auth_mode_name, auth_status_view, change_password_check, hash_password,
    hash_api_key, login_decision, setup_check, AuthGate, AuthMode, LoginDecision,
};
use sparklytics_server::bearer::{
    bearer_token_kid, claim_setting, find_key, jwks_url_allowed, key_set, select_usable_keys,
    verify_bearer_claims, Jwk,
};
use sparklytics_server::billing::{BillingGate, BillingOutcome, NullBillingGate};
use sparklytics_server::clickhouse::{
    ch_datetime, metric_value_expr, metrics_has_more, metrics_plan, pageviews_granularity,
    period_basics_sql, stats_periods, PERIOD_BASICS_SQL_HEAD,
};
use sparklytics_server::cloud::{ChFilters, CloudConfig};
use sparklytics_server::delivery::{
    check_resolved_addresses, delivery_record, host_is_ip_address, smtp_port,
    webhook_delivery_target, DeliveryStatus,
};
use sparklytics_server::error::AppError;
use sparklytics_server::jwt::{decode_jwt, encode_jwt, session_expires_at, session_token_at};
use sparklytics_server::routes::attribution::{parse_date_range, parse_model, AttributionModel};
use sparklytics_server::routes::collect::{Event, GeoInfo};
use sparklytics_server::routes::compare::{
    active_or_default_range, default_previous_period_range, describe_comparison, mode_slug,
    parse_compare_date, CompareMode,
};
use sparklytics_server::routes::funnels::client_bucket_key;
use sparklytics_server::routes::limits::{
    OverrideAction, TenantLimitOverride, UpdatePlanLimitRequest, UpdateTenantOverrideRequest,
};
use sparklytics_server::routes::links::{link_tracking_url, CampaignLink};
use sparklytics_server::routes::notifications::IpLiteral;
use sparklytics_server::routes::pixels::{pixel_snippet, pixel_url};
use sparklytics_server::routes::share::share_filter;
use sparklytics_server::routes::tracking::{
    link_click_event, pixel_view_event, TrackingHit, TrackingPixel,
};
use sparklytics_server::routes::websites::normalize_domain;
use sparklytics_server::session_cache::SessionCache;
use sparklytics_server::sessions::{SessionAccumulators, SessionStep};
use sparklytics_server::tuning::{
    setting_flag, setting_u8, setting_usize, RuntimeSettings, RuntimeTuning,
};
use sparklytics_server::bot::{ActivityTracker, BotPolicyInput, BotPolicyMode, BotReason};
use sparklytics_server::routes::bot::{recompute_event_classification, BotMatchType};
use sparklytics_server::routes::limits::platform_admin_ids;
use sparklytics_server::ttl_cache::TtlCache;
use sparklytics_server::wal::cursor_from_text;
use sparklytics_server::webhook::{
    clerk_action, clerk_event_kind, extract_full_name, extract_primary_email, header_value,
    member_role, verify_delivery, ClerkAction, ClerkData, ClerkEvent, EmailEntry, EmailError,
    WebhookFailure,
};

fn day(y: i32, m: u32, d: u32) -> i32 {
    chrono::NaiveDate::from_ymd_opt(y, m, d).expect("date").num_days_from_ce()
}

fn message(e: &AppError) -> String {
    match e {
        AppError::BadRequest(m) => m.clone(),
        AppError::NotFound(m) => m.clone(),
        other => format!("{other:?}"),
    }
}

fn pairs(v: &[(&str, &str)]) -> Vec<(String, String)> {
    v.iter().map(|(k, x)| (k.to_string(), x.to_string())).collect()
}

// ---------------------------------------------------------------------------
// Billing and cloud configuration
// ---------------------------------------------------------------------------

#[test]
fn test_null_billing_gate_always_allows() {
    let gate = NullBillingGate;
    assert_eq!(gate.check("org_any"), BillingOutcome::Allowed);
    assert_eq!(gate.check("org_abc123"), BillingOutcome::Allowed);
    assert_eq!(gate.check(""), BillingOutcome::Allowed);
}

fn config_or_panic(values: [Option<&str>; 6]) -> CloudConfig {
    let v: Vec<Option<String>> = values.iter().map(|x| x.map(|s| s.to_string())).collect();
    match CloudConfig::from_values(
        v[0].clone(),
        v[1].clone(),
        v[2].clone(),
        v[3].clone(),
        v[4].clone(),
        v[5].clone(),
    ) {
        Ok(c) => c,
        Err(m) => panic!("{m}"),
    }
}

#[test]
#[should_panic(expected = "CLERK_SECRET_KEY is required in cloud mode")]
fn test_missing_clerk_secret_panics() {
    config_or_panic([None, None, None, None, None, None]);
}

#[test]
#[should_panic(expected = "DATABASE_URL is required in cloud mode")]
fn test_missing_database_url_panics() {
    config_or_panic([
        Some("sk_test"),
        Some("whsec_test"),
        None,
        Some("http://localhost:8123"),
        Some("ch"),
        Some("pw"),
    ]);
}

// ---------------------------------------------------------------------------
// Attribution and websites
// ---------------------------------------------------------------------------

#[test]
fn parse_model_defaults_to_last_touch() {
    assert!(matches!(parse_model(None), Ok(AttributionModel::LastTouch)));
}

#[test]
fn parse_model_rejects_invalid() {
    assert!(parse_model(Some("bad")).is_err());
}

#[test]
fn parse_date_range_rejects_invalid_start_date() {
    let result = parse_date_range(Some("2026-13-01"), Some("2026-02-20"), None);
    assert!(result.is_err());
}

#[test]
fn normalize_domain_rejects_public_suffix() {
    assert!(normalize_domain("com").is_err());
    assert!(normalize_domain("co.uk").is_err());
}

#[test]
fn normalize_domain_accepts_registrable_domain() {
    let normalized = normalize_domain("Example.COM").expect("domain");
    assert_eq!(normalized, "example.com");
}

// ---------------------------------------------------------------------------
// Clerk webhooks
// ---------------------------------------------------------------------------

#[test]
fn clerk_event_types_are_recognized() {
    assert_eq!(clerk_event_kind("organization.created"), ClerkEvent::OrganizationCreated);
    assert_eq!(clerk_event_kind("organizationMembership.deleted"), ClerkEvent::MembershipDeleted);
    assert_eq!(clerk_event_kind("user.updated"), ClerkEvent::UserUpdated);
    assert_eq!(clerk_event_kind("session.created"), ClerkEvent::Ignored);
    assert_eq!(clerk_event_kind("USER.CREATED"), ClerkEvent::Ignored);
}

#[test]
fn membership_role_drops_org_prefix_and_defaults_to_member() {
    assert_eq!(member_role(Some("org:admin")), "admin");
    assert_eq!(member_role(Some("viewer")), "viewer");
    assert_eq!(member_role(None), "member");
    assert_eq!(member_role(Some("org:org:x")), "org:x");
}

#[test]
fn full_name_joins_trimmed_parts() {
    assert_eq!(extract_full_name(Some(" Ada "), Some(" Lovelace ")), Some("Ada Lovelace".to_string()));
    assert_eq!(extract_full_name(Some("Ada"), None), Some("Ada".to_string()));
    assert_eq!(extract_full_name(None, Some("Byron")), Some("Byron".to_string()));
    assert_eq!(extract_full_name(Some("  "), None), None);
    assert_eq!(extract_full_name(None, None), None);
}

fn entry(id: Option<&str>, addr: Option<&str>) -> EmailEntry {
    EmailEntry { id: id.map(|s| s.to_string()), email_address: addr.map(|s| s.to_string()) }
}

#[test]
fn primary_email_is_preferred_then_first() {
    let list = vec![entry(Some("e1"), Some("a@x.io")), entry(Some("e2"), Some("b@x.io"))];
    assert_eq!(extract_primary_email(Some("e2"), Some(&list)), Ok("b@x.io".to_string()));
    assert_eq!(extract_primary_email(Some("zz"), Some(&list)), Ok("a@x.io".to_string()));
    assert_eq!(extract_primary_email(None, Some(&list)), Ok("a@x.io".to_string()));
    let without = vec![entry(Some("e1"), None), entry(Some("e2"), Some("b@x.io"))];
    assert_eq!(extract_primary_email(Some("e1"), Some(&without)), Err(EmailError::NoEmail));
    assert_eq!(extract_primary_email(Some("e1"), None), Err(EmailError::MissingEmailAddresses));
    assert_eq!(extract_primary_email(None, Some(&Vec::new())), Err(EmailError::NoEmail));
}

#[test]
fn webhook_failures_map_to_responses() {
    assert_eq!(WebhookFailure::MissingSvixId.status(), 401);
    assert_eq!(WebhookFailure::MissingSvixId.message(), "missing svix-id");
    assert_eq!(WebhookFailure::InvalidSignature.code(), "unauthorized");
    assert_eq!(WebhookFailure::MissingType.status(), 400);
    assert_eq!(WebhookFailure::MalformedPayload.code(), "bad_request");
    assert_eq!(WebhookFailure::TransactionCommit.status(), 500);
    assert_eq!(WebhookFailure::TransactionCommit.message(), "transaction commit failed");
    assert_eq!(WebhookFailure::Processing.code(), "internal_error");
}

#[test]
fn header_lookup_ignores_case_and_takes_first() {
    let h = pairs(&[("Svix-Id", "msg_1"), ("svix-id", "msg_2"), ("x", "caf\u{e9}")]);
    assert_eq!(header_value(&h, "svix-id"), Some("msg_1".to_string()));
    assert_eq!(header_value(&h, "x"), None);
    assert_eq!(header_value(&h, "missing"), None);
}

#[test]
fn delivery_verification_checks_id_secret_and_signature() {
    let body = br#"{"type":"user.deleted","data":{"id":"user_1"}}"#;
    let secret = "whsec_C2FVsBQIhrscChlQIMV+b5sSYspob7oD";
    assert_eq!(verify_delivery(secret, &[], body), Err(WebhookFailure::MissingSvixId));
    let h = pairs(&[("svix-id", "msg_1")]);
    assert_eq!(verify_delivery("whsec_", &h, body), Err(WebhookFailure::VerifierInit));
    let now = std::time::SystemTime::now()
        .duration_since(std::time::UNIX_EPOCH)
        .expect("clock")
        .as_secs() as i64;
    let wh = svix::webhooks::Webhook::new(secret).expect("secret");
    let sig = wh.sign("msg_1", now, body).expect("sign");
    let ts = now.to_string();
    let good = pairs(&[("svix-id", "msg_1"), ("svix-timestamp", &ts), ("svix-signature", &sig)]);
    assert_eq!(verify_delivery(secret, &good, body), Ok("msg_1".to_string()));
    let bad = pairs(&[("svix-id", "msg_1"), ("svix-timestamp", &ts), ("svix-signature", "v1,AAAA")]);
    assert_eq!(verify_delivery(secret, &bad, body), Err(WebhookFailure::InvalidSignature));
}

fn data() -> ClerkData {
    ClerkData {
        id: None,
        name: None,
        slug: None,
        organization_id: None,
        user_id: None,
        role: None,
        primary_email_address_id: None,
        email_addresses: None,
        first_name: None,
        last_name: None,
    }
}

#[test]
fn clerk_actions_follow_the_event_type() {
    let mut d = data();
    d.id = Some("org_1".into());
    d.name = Some("Acme".into());
    assert_eq!(
        clerk_action(ClerkEvent::OrganizationCreated, &d).err(),
        Some("missing field 'slug' in Clerk webhook payload".to_string())
    );
    d.slug = Some("acme".into());
    match clerk_action(ClerkEvent::OrganizationUpdated, &d) {
        Ok(ClerkAction::UpdateTenant { id, name, slug }) => {
            assert_eq!((id.as_str(), name.as_str(), slug.as_str()), ("org_1", "Acme", "acme"));
        },
        _ => panic!("expected an update"),
    }
    assert!(matches!(clerk_action(ClerkEvent::Ignored, &data()), Ok(ClerkAction::Ignore)));
    assert_eq!(
        clerk_action(ClerkEvent::OrganizationDeleted, &data()).err(),
        Some("missing field 'id' in Clerk webhook payload".to_string())
    );

    let mut m = data();
    assert_eq!(
        clerk_action(ClerkEvent::MembershipCreated, &m).err(),
        Some("missing organization.id".to_string())
    );
    m.organization_id = Some("org_1".into());
    assert_eq!(
        clerk_action(ClerkEvent::MembershipDeleted, &m).err(),
        Some("missing public_user_data.user_id".to_string())
    );
    m.user_id = Some("user_1".into());
    match clerk_action(ClerkEvent::MembershipCreated, &m) {
        Ok(ClerkAction::UpsertMember { tenant_id, user_id, role }) => {
            assert_eq!((tenant_id.as_str(), user_id.as_str(), role.as_str()), ("org_1", "user_1", "member"));
        },
        _ => panic!("expected a member"),
    }

    let mut u = data();
    u.id = Some("user_1".into());
    assert_eq!(
        clerk_action(ClerkEvent::UserCreated, &u).err(),
        Some("missing email_addresses".to_string())
    );
    u.email_addresses = Some(vec![]);
    assert_eq!(
        clerk_action(ClerkEvent::UserUpdated, &u).err(),
        Some("no email found in Clerk user payload".to_string())
    );
    u.email_addresses = Some(vec![entry(Some("e1"), Some("ada@x.io"))]);
    u.first_name = Some("Ada".into());
    match clerk_action(ClerkEvent::UserCreated, &u) {
        Ok(ClerkAction::CreateUser { id, email, full_name }) => {
            assert_eq!(id, "user_1");
            assert_eq!(email, "ada@x.io");
            assert_eq!(full_name, Some("Ada".to_string()));
        },
        _ => panic!("expected a user"),
    }
}

// ---------------------------------------------------------------------------
// Session tokens
// ---------------------------------------------------------------------------

#[test]
fn session_token_carries_subject_and_expiry() {
    let (token, expires_at) = session_token_at("secret", 7, 1_700_000_000, 0).expect("token");
    assert_eq!(expires_at, "2023-11-21T22:13:20+00:00");
    let mut v = jsonwebtoken::Validation::default();
    v.validate_exp = false;
    let data = jsonwebtoken::decode::<serde_json::Value>(
        &token,
        &jsonwebtoken::DecodingKey::from_secret(b"secret"),
        &v,
    )
    .expect("decodes");
    assert_eq!(data.claims["sub"], "admin");
    assert_eq!(data.claims["iat"], 1_700_000_000i64);
    assert_eq!(data.claims["exp"], 1_700_604_800i64);
}

#[test]
fn session_token_keeps_subsecond_expiry_text() {
    let (_, expires_at) = session_token_at("s", 1, 0, 500_000_000).expect("token");
    assert_eq!(expires_at, "1970-01-02T00:00:00.500+00:00");
}

#[test]
fn issued_session_decodes_with_its_secret_only() {
    let (token, _) = encode_jwt("secret-a", 1).expect("token");
    let claims = decode_jwt(&token, "secret-a").expect("claims");
    assert_eq!(claims.sub, "admin");
    assert_eq!(claims.exp - claims.iat, 86_400);
    assert!(decode_jwt(&token, "secret-b").is_err());
    assert!(decode_jwt("not.a.token", "secret-a").is_err());
}

#[test]
fn session_expiry_text_for_session_endpoint() {
    assert_eq!(session_expires_at(0), "1970-01-01T00:00:00+00:00");
    assert_eq!(session_expires_at(i64::MAX), "");
}

// ---------------------------------------------------------------------------
// Authentication flows
// ---------------------------------------------------------------------------

#[test]
fn status_reports_mode_and_setup() {
    assert_eq!(auth_status_view(&AuthMode::Password("pw".into()), false).ok(), Some(("password", false)));
    assert_eq!(auth_status_view(&AuthMode::Local, false).ok(), Some(("local", true)));
    assert_eq!(auth_status_view(&AuthMode::Local, true).ok(), Some(("local", false)));
    assert!(matches!(auth_status_view(&AuthMode::Disabled, true), Err(AppError::NotFound(_))));
    assert_eq!(auth_mode_name(&AuthMode::Disabled), "none");
}

#[test]
fn setup_only_once_in_local_mode() {
    let e = setup_check(&AuthMode::Password("x".into()), false, "long enough pw").unwrap_err();
    assert_eq!(message(&e), "setup only available in local mode");
    assert!(matches!(setup_check(&AuthMode::Local, true, "long enough pw"), Err(AppError::Gone)));
    let e = setup_check(&AuthMode::Local, false, "short").unwrap_err();
    assert_eq!(message(&e), "password must be at least 12 characters");
    assert!(setup_check(&AuthMode::Local, false, "long enough pw").is_ok());
}

#[test]
fn login_decisions() {
    assert!(matches!(
        login_decision(false, &AuthMode::Local, "pw", None),
        LoginDecision::Reject(AppError::RateLimitedWithRetry { retry_after_seconds: 900 })
    ));
    let fixed = AuthMode::Password("correct horse".into());
    assert!(matches!(login_decision(true, &fixed, "correct horse", None), LoginDecision::Grant));
    assert!(matches!(login_decision(true, &fixed, "wrong", None), LoginDecision::RecordFailure));
    assert!(matches!(
        login_decision(true, &AuthMode::Local, "pw", None),
        LoginDecision::Reject(AppError::SetupRequired)
    ));
    let hash = hash_password("a strong password", 8).expect("hash");
    assert!(matches!(
        login_decision(true, &AuthMode::Local, "a strong password", Some(&hash)),
        LoginDecision::Grant
    ));
    assert!(matches!(
        login_decision(true, &AuthMode::Local, "another password", Some(&hash)),
        LoginDecision::RecordFailure
    ));
    match login_decision(true, &AuthMode::Disabled, "pw", None) {
        LoginDecision::Reject(AppError::NotFound(m)) => assert_eq!(m, "Auth not enabled"),
        _ => panic!("expected not found"),
    }
}

#[test]
fn password_change_checks() {
    let hash = hash_password("current password", 8).expect("hash");
    assert!(matches!(
        change_password_check(&AuthMode::Password("x".into()), None, "a", "b"),
        Err(AppError::MethodNotAllowed)
    ));
    assert!(matches!(
        change_password_check(&AuthMode::Local, None, "a", "b"),
        Err(AppError::SetupRequired)
    ));
    assert!(matches!(
        change_password_check(&AuthMode::Local, Some(&hash), "wrong password", "new long password"),
        Err(AppError::Unauthorized)
    ));
    let e = change_password_check(&AuthMode::Local, Some(&hash), "current password", "   ").unwrap_err();
    assert_eq!(message(&e), "password cannot be empty or whitespace-only");
    assert!(change_password_check(&AuthMode::Local, Some(&hash), "current password", "new long password").is_ok());
}

#[test]
fn auth_gate_order() {
    assert!(matches!(auth_gate(&AuthMode::Local, Some(false), None, None, false), AuthGate::SetupRequired));
    assert!(matches!(auth_gate(&AuthMode::Local, None, None, None, false), AuthGate::CheckFailed));
    assert!(matches!(
        auth_gate(&AuthMode::Local, Some(true), Some("Bearer spk_x"), None, true),
        AuthGate::ApiKeysForbidden
    ));
    match auth_gate(&AuthMode::Password("p".into()), None, Some("Bearer spk_x"), None, false) {
        AuthGate::LookupApiKey(h) => assert_eq!(h, hash_api_key("spk_x")),
        _ => panic!("expected a key lookup"),
    }
    match auth_gate(&AuthMode::Local, Some(true), Some("Basic abc"), Some("a=1; spk_session=tok"), false) {
        AuthGate::CheckSession(t) => assert_eq!(t, "tok"),
        _ => panic!("expected a session check"),
    }
    assert!(matches!(
        auth_gate(&AuthMode::Disabled, None, None, Some("a=1"), false),
        AuthGate::Unauthorized
    ));
}

// ---------------------------------------------------------------------------
// Tenant limits
// ---------------------------------------------------------------------------

#[test]
fn plan_limits_must_be_positive() {
    let e = UpdatePlanLimitRequest { peak_events_per_sec: 0, monthly_event_limit: 0 }.validate().unwrap_err();
    assert_eq!(message(&e), "peak_events_per_sec must be > 0");
    let e = UpdatePlanLimitRequest { peak_events_per_sec: 5, monthly_event_limit: 0 }.validate().unwrap_err();
    assert_eq!(message(&e), "monthly_event_limit must be > 0");
    assert!(UpdatePlanLimitRequest { peak_events_per_sec: 5, monthly_event_limit: 9 }.validate().is_ok());
}

#[test]
fn tenant_override_merges_with_stored_values() {
    let stored = Some(TenantLimitOverride { peak_events_per_sec: Some(50), monthly_event_limit: Some(1000) });
    let clear = UpdateTenantOverrideRequest { peak_events_per_sec: None, monthly_event_limit: None, clear: Some(true) };
    assert_eq!(clear.immediate_action().ok(), Some(Some(OverrideAction::Clear)));
    let empty = UpdateTenantOverrideRequest { peak_events_per_sec: None, monthly_event_limit: None, clear: None };
    assert_eq!(message(&empty.immediate_action().unwrap_err()), "at least one override field must be provided");

    let peak_only = UpdateTenantOverrideRequest { peak_events_per_sec: Some(Some(80)), monthly_event_limit: None, clear: Some(false) };
    assert_eq!(peak_only.immediate_action().ok(), Some(None));
    assert_eq!(
        peak_only.action(stored).ok(),
        Some(OverrideAction::Upsert(TenantLimitOverride { peak_events_per_sec: Some(80), monthly_event_limit: Some(1000) }))
    );
    let null_both = UpdateTenantOverrideRequest { peak_events_per_sec: Some(None), monthly_event_limit: Some(None), clear: None };
    assert_eq!(null_both.action(stored).ok(), Some(OverrideAction::Clear));
    let null_peak = UpdateTenantOverrideRequest { peak_events_per_sec: Some(None), monthly_event_limit: None, clear: None };
    assert_eq!(null_peak.action(None).ok(), Some(OverrideAction::Clear));
    let zero = UpdateTenantOverrideRequest { peak_events_per_sec: None, monthly_event_limit: Some(Some(0)), clear: None };
    assert_eq!(message(&zero.action(stored).unwrap_err()), "monthly_event_limit must be > 0");
}

// ---------------------------------------------------------------------------
// Tracking hits
// ---------------------------------------------------------------------------

fn hit() -> TrackingHit {
    TrackingHit {
        client_ip: "203.0.113.9".into(),
        user_agent: "Mozilla/5.0".into(),
        visitor_id: "v1".into(),
        referrer_url: Some("https://news.example/".into()),
        referrer_domain: Some("news.example".into()),
        language: Some("en".into()),
        geo: Some(GeoInfo { country: Some("DE".into()), region: None, city: Some("Berlin".into()) }),
        ua: None,
        now_us: 1_000,
    }
}

fn pixel(active: bool) -> TrackingPixel {
    TrackingPixel {
        id: "px_1".into(),
        website_id: "site_1".into(),
        pixel_key: "key1".into(),
        default_url: None,
        is_active: active,
    }
}

#[test]
fn pixel_hit_records_one_event() {
    let q = pairs(&[("url", "https://shop.example/?utm_source=nl&x=1"), ("", "dropped")]);
    let e = pixel_view_event(Some(&pixel(true)), &q, &hit()).expect("event");
    assert_eq!(e.url, "https://shop.example/?utm_source=nl&x=1");
    assert_eq!(e.event_name.as_deref(), Some("pixel_view"));
    assert_eq!(e.event_type, "event");
    assert_eq!(e.utm_source.as_deref(), Some("nl"));
    assert_eq!(e.pixel_id.as_deref(), Some("px_1"));
    assert_eq!(e.website_id, "site_1");
    assert_eq!(e.session_id, "__pending__");
    assert_eq!(e.country.as_deref(), Some("DE"));
    assert_eq!(e.city.as_deref(), Some("Berlin"));
    assert_eq!(e.browser, None);
    assert_eq!(e.created_at_us, 1_000);
    assert_eq!(
        e.event_data.as_deref(),
        Some(r#"{"pixel_id":"px_1","pixel_key":"key1","query":{"url":"https://shop.example/?utm_source=nl&x=1"},"url":"https://shop.example/?utm_source=nl&x=1"}"#)
    );
    assert_eq!(e.id.len(), 36);
    assert_eq!(e.id.as_bytes()[14], b'4');
    assert_eq!(e.id.as_bytes()[8], b'-');
}

#[test]
fn pixel_hit_defaults_and_refusals() {
    let e = pixel_view_event(Some(&pixel(true)), &[], &hit()).expect("event");
    assert_eq!(e.url, "pixel://key1");
    assert!(matches!(pixel_view_event(Some(&pixel(false)), &[], &hit()), Err(AppError::NotFound(_))));
    assert!(matches!(pixel_view_event(None, &[], &hit()), Err(AppError::NotFound(_))));
    let many: Vec<(String, String)> = (0..33).map(|i| (format!("k{i}"), "v".to_string())).collect();
    let err = pixel_view_event(Some(&pixel(true)), &many, &hit()).unwrap_err();
    assert_eq!(message(&err), "too many query parameters");
    let long = "x".repeat(2100);
    let err = pixel_view_event(Some(&pixel(true)), &pairs(&[("url", &long)]), &hit()).unwrap_err();
    assert_eq!(message(&err), "url exceeds max length");
    let wide: Vec<(String, String)> = (0..20).map(|i| (format!("key{i}"), "v".repeat(250))).collect();
    assert!(matches!(pixel_view_event(Some(&pixel(true)), &wide, &hit()), Err(AppError::PayloadTooLarge)));
}

fn link(active: bool) -> CampaignLink {
    CampaignLink {
        id: "lnk_1".into(),
        website_id: "site_1".into(),
        name: "Sample".into(),
        slug: "abc123".into(),
        destination_url: "https://example.com/pricing".into(),
        utm_source: Some("newsletter".into()),
        utm_medium: None,
        utm_campaign: Some("spring launch".into()),
        utm_term: None,
        utm_content: None,
        is_active: active,
        created_at: "2026-01-01T00:00:00Z".into(),
        clicks: None,
        unique_visitors: None,
        conversions: None,
    }
}

#[test]
fn link_click_redirects_with_link_utm() {
    let (e, location) = link_click_event(Some(&link(true)), &pairs(&[("ref", "tw")]), &hit()).expect("click");
    assert_eq!(location, "https://example.com/pricing?utm_source=newsletter&utm_campaign=spring%20launch");
    assert_eq!(e.url, location);
    assert_eq!(e.event_name.as_deref(), Some("link_click"));
    assert_eq!(e.utm_source.as_deref(), Some("newsletter"));
    assert_eq!(e.utm_campaign.as_deref(), Some("spring launch"));
    assert_eq!(e.link_id.as_deref(), Some("lnk_1"));
    assert_eq!(e.pixel_id, None);
    assert_eq!(
        e.event_data.as_deref(),
        Some(r#"{"destination_url":"https://example.com/pricing?utm_source=newsletter&utm_campaign=spring%20launch","link_id":"lnk_1","query":{"ref":"tw"},"slug":"abc123"}"#)
    );
    let err = link_click_event(Some(&link(false)), &[], &hit()).unwrap_err();
    assert_eq!(message(&err), "Campaign link not found");
}

#[test]
fn public_urls_of_links_and_pixels() {
    assert_eq!(link_tracking_url("https://a.io", "abc"), "https://a.io/l/abc");
    assert_eq!(pixel_url("https://a.io", "k1"), "https://a.io/p/k1.gif");
    assert_eq!(
        pixel_snippet("https://a.io", "k1"),
        r#"<img src="https://a.io/p/k1.gif" width="1" height="1" style="display:none" alt="" />"#
    );
    let f = share_filter(10, 20, true);
    assert_eq!((f.start_date, f.end_date, f.include_bots), (10, 20, true));
    assert!(f.timezone.is_none() && f.filter_country.is_none());
}

// ---------------------------------------------------------------------------
// Comparison ranges
// ---------------------------------------------------------------------------

#[test]
fn previous_period_has_same_length_and_ends_before_start() {
    let r = default_previous_period_range(day(2026, 2, 10), day(2026, 2, 20));
    assert_eq!(r.comparison_end, day(2026, 2, 9));
    assert_eq!(r.comparison_start, day(2026, 1, 30));
    assert_eq!(r.mode, CompareMode::PreviousPeriod);
    assert_eq!(mode_slug(&r.mode), "previous_period");
    let same = active_or_default_range(Some(&r), 0, 0);
    assert_eq!(same, r);
    let one_day = default_previous_period_range(day(2026, 3, 1), day(2026, 3, 1));
    assert_eq!((one_day.comparison_start, one_day.comparison_end), (day(2026, 2, 28), day(2026, 2, 28)));
}

#[test]
fn comparison_dates_and_description() {
    assert_eq!(parse_compare_date(" 2026-01-05 ", "compare_start_date").ok(), Some(day(2026, 1, 5)));
    let e = parse_compare_date("bad", "compare_end_date").unwrap_err();
    assert_eq!(message(&e), "invalid compare_end_date (expected YYYY-MM-DD)");
    let r = default_previous_period_range(day(2026, 2, 10), day(2026, 2, 20));
    let d = describe_comparison(Some(&r)).expect("described");
    assert_eq!(d.mode, "previous_period");
    assert_eq!(d.primary_range, ("2026-02-10".to_string(), "2026-02-20".to_string()));
    assert_eq!(d.comparison_range, ("2026-01-30".to_string(), "2026-02-09".to_string()));
    assert!(describe_comparison(None).is_none());
    assert_eq!(mode_slug(&CompareMode::NoComparison), "none");
}

// ---------------------------------------------------------------------------
// Runtime settings
// ---------------------------------------------------------------------------

#[test]
fn settings_fall_back_unless_positive() {
    assert_eq!(setting_usize(Some("+42"), 7), 42);
    assert_eq!(setting_usize(Some("0"), 7), 7);
    assert_eq!(setting_usize(Some(" 5"), 7), 7);
    assert_eq!(setting_usize(None, 7), 7);
    assert_eq!(setting_u8(Some("300"), 8), 8);
    assert_eq!(setting_u8(Some("255"), 8), 255);
    assert!(setting_flag(Some(" YES "), false));
    assert!(setting_flag(Some("1"), false));
    assert!(!setting_flag(Some("no"), true));
    assert!(setting_flag(None, true));
}

#[test]
fn tuning_defaults() {
    let mut s = RuntimeSettings {
        ingest_queue_max_events: None,
        ingest_drain_max_events: None,
        ingest_drain_max_batches: None,
        ingest_retry_base_ms: None,
        ingest_retry_max_ms: None,
        ingest_retry_max_attempts: None,
        session_cache_max_entries: None,
        rate_limiter_max_entries: None,
        acquisition_cache_max_entries: None,
        acquisition_cache_ttl_seconds: None,
        collect_cache_max_entries: None,
        collect_cache_ttl_seconds: None,
        export_cache_max_entries: None,
        export_cache_ttl_seconds: None,
        export_cache_max_bytes: None,
        website_ingest_peak_eps_default: None,
        website_ingest_queue_max_events_default: None,
    };
    let t = RuntimeTuning::from_settings(&s);
    assert_eq!(t.ingest_queue_max_events, 100_000);
    assert_eq!(t.ingest_retry_max_attempts, 8);
    assert_eq!(t.export_cache_max_bytes, 32 * 1024 * 1024);
    assert_eq!(t.website_ingest_peak_eps_default, 10_000);
    s.ingest_drain_max_batches = Some("16".into());
    s.ingest_retry_base_ms = Some("-1".into());
    let t = RuntimeTuning::from_settings(&s);
    assert_eq!(t.ingest_drain_max_batches, 16);
    assert_eq!(t.ingest_retry_base_ms, 200);
}

// ---------------------------------------------------------------------------
// Session resolution and the session cache
// ---------------------------------------------------------------------------

fn event(website: &str, visitor: &str, session: &str, at: i64, score: i32) -> Event {
    Event {
        id: "e".into(),
        website_id: website.into(),
        tenant_id: None,
        session_id: session.into(),
        visitor_id: visitor.into(),
        event_type: "pageview".into(),
        url: "/".into(),
        referrer_url: None,
        referrer_domain: None,
        event_name: None,
        event_data: None,
        country: None,
        region: None,
        city: None,
        browser: None,
        browser_version: None,
        os: None,
        os_version: None,
        device_type: None,
        screen: None,
        language: None,
        utm_source: None,
        utm_medium: None,
        utm_campaign: None,
        utm_term: None,
        utm_content: None,
        link_id: None,
        pixel_id: None,
        source_ip: None,
        user_agent: None,
        is_bot: score >= 70,
        bot_score: score,
        bot_reason: None,
        created_at_us: at,
    }
}

#[test]
fn batch_events_share_their_visitors_session() {
    let mut acc = SessionAccumulators::new();
    let mut done = event("s", "v", "sess_0", 5, 0);
    assert_eq!(acc.step(&mut done), SessionStep::Skip);
    let mut a = event("s", "v", "__pending__", 10, 0);
    assert_eq!(acc.step(&mut a), SessionStep::NeedsSession);
    acc.open_for(&mut a, "sess_1".into(), true);
    assert_eq!(a.session_id, "sess_1");
    let mut b = event("s", "v", "", 30, 80);
    assert_eq!(acc.step(&mut b), SessionStep::Joined);
    assert_eq!(b.session_id, "sess_1");
    let mut c = event("s", "v", "__pending__", 20, 10);
    assert_eq!(acc.step(&mut c), SessionStep::Joined);
    let mut other = event("s", "w", "__pending__", 15, 0);
    assert_eq!(acc.step(&mut other), SessionStep::NeedsSession);
    acc.open_for(&mut other, "sess_2".into(), false);
    let effects = acc.effects();
    assert_eq!(effects.len(), 2);
    assert_eq!(effects[0].session_id, "sess_1");
    assert_eq!(effects[0].additional_pageviews, 2);
    assert_eq!(effects[0].last_seen_at_us, 30);
    assert_eq!(effects[0].bot_score, 80);
    assert!(effects[0].is_bot);
    assert_eq!(effects[1].additional_pageviews, 1);
}

#[test]
fn cached_sessions_expire_after_thirty_minutes() {
    let mut cache = SessionCache::new(2);
    cache.put("s", "v", "sess_1", 0);
    assert_eq!(cache.get("s", "v", 1_800_999_999), Some("sess_1".to_string()));
    assert_eq!(cache.get("s", "v", 1_800_999_999 + 1_801_000_000), None);
    assert_eq!(cache.get("s", "v", 0), None);
    assert_eq!(cache.get("s", "other", 0), None);
}

#[test]
fn full_cache_drops_expired_sessions_first() {
    let mut cache = SessionCache::new(2);
    cache.put("s", "old", "a", 0);
    cache.put("s", "recent", "b", 3_000_000_000);
    cache.put("s", "new", "c", 3_500_000_000);
    assert_eq!(cache.entries.len(), 2);
    assert_eq!(cache.get("s", "old", 3_500_000_000), None);
    assert_eq!(cache.get("s", "recent", 3_500_000_000), Some("b".to_string()));
    assert_eq!(cache.get("s", "new", 3_500_000_000), Some("c".to_string()));
    cache.put("s", "recent", "b2", 3_600_000_000);
    assert_eq!(cache.get("s", "recent", 3_600_000_000), Some("b2".to_string()));
    assert_eq!(cache.entries.len(), 2);
}

// ---------------------------------------------------------------------------
// ClickHouse queries
// ---------------------------------------------------------------------------

fn no_filters() -> ChFilters<'static> {
    ChFilters {
        country: None,
        page: None,
        referrer: None,
        browser: None,
        os: None,
        device: None,
        utm_source: None,
        utm_medium: None,
        utm_campaign: None,
    }
}

#[test]
fn clickhouse_ranges_and_breakdowns() {
    assert_eq!(ch_datetime(day(2026, 2, 10)), "2026-02-10 00:00:00.000");
    let ((s, e), (ps, pe)) = stats_periods(day(2026, 2, 10), day(2026, 2, 20));
    assert_eq!(s, "2026-02-10 00:00:00.000");
    assert_eq!(e, "2026-02-21 00:00:00.000");
    assert_eq!(ps, "2026-01-30 00:00:00.000");
    assert_eq!(pe, "2026-02-10 00:00:00.000");
    assert_eq!(metric_value_expr("country"), ("if(isNull(country), '(unknown)', country)", false));
    assert_eq!(metric_value_expr("whatever"), ("url", true));
    assert_eq!(pageviews_granularity(Some("hour")), ("hour", "toStartOfHour"));
    assert_eq!(pageviews_granularity(Some("week")), ("day", "toStartOfDay"));
    assert!(metrics_has_more(0, 10, 11));
    assert!(!metrics_has_more(10, 10, 20));
    assert_eq!(period_basics_sql("AND x"), format!("{PERIOD_BASICS_SQL_HEAD}AND x"));
}

#[test]
fn metrics_plan_binds_range_filters_and_page() {
    let mut f = no_filters();
    f.country = Some("DE");
    let p = metrics_plan("t1", "w1", day(2026, 2, 10), day(2026, 2, 11), "page", 25, 50, &f);
    assert!(p.data_sql.starts_with("SELECT url AS value, uniq(visitor_id) AS visitors, countIf(event_type = 'pageview') AS pageviews\n"));
    assert!(p.data_sql.contains("AND country = {filter_country:String}"));
    assert!(p.data_sql.contains("ORDER BY pageviews DESC"));
    assert!(p.count_sql.starts_with("SELECT uniq(url) AS total\n"));
    assert_eq!(
        p.count_params,
        pairs(&[
            ("tenant_id", "t1"),
            ("website_id", "w1"),
            ("start", "2026-02-10 00:00:00.000"),
            ("end", "2026-02-12 00:00:00.000"),
            ("filter_country", "DE"),
        ])
    );
    assert_eq!(p.data_params.len(), 7);
    assert_eq!(p.data_params[5], ("limit".to_string(), "25".to_string()));
    assert_eq!(p.data_params[6], ("offset".to_string(), "50".to_string()));
    let q = metrics_plan("t1", "w1", day(2026, 2, 10), day(2026, 2, 11), "os", 10, 0, &no_filters());
    assert!(q.data_sql.contains("ORDER BY visitors DESC"));
    assert!(!q.data_sql.contains("pageviews"));
    let r = metrics_plan("t1", "w1", day(2026, 2, 10), day(2026, 2, 11), "page", 10, 0, &no_filters());
    assert_eq!(
        r.data_sql,
        "SELECT url AS value, uniq(visitor_id) AS visitors, countIf(event_type = 'pageview') AS pageviews\n         FROM sparklytics.events\n         WHERE tenant_id = {tenant_id:String}\n           AND website_id = {website_id:String}\n           AND created_at >= {start:DateTime64(3)}\n           AND created_at < {end:DateTime64(3)}\n           \n         GROUP BY value\n         ORDER BY pageviews DESC\n         LIMIT {limit:UInt32} OFFSET {offset:UInt32}"
    );
    assert_eq!(
        r.count_sql,
        "SELECT uniq(url) AS total\n         FROM sparklytics.events\n         WHERE tenant_id = {tenant_id:String}\n           AND website_id = {website_id:String}\n           AND created_at >= {start:DateTime64(3)}\n           AND created_at < {end:DateTime64(3)}\n           "
    );
}

// ---------------------------------------------------------------------------
// Notification delivery
// ---------------------------------------------------------------------------

#[test]
fn webhook_targets_before_resolution() {
    assert_eq!(webhook_delivery_target(" https://hooks.example.com/x "), Ok(("hooks.example.com".to_string(), 443)));
    assert_eq!(webhook_delivery_target("http://hooks.example.com:8080/x"), Ok(("hooks.example.com".to_string(), 8080)));
    assert_eq!(webhook_delivery_target("ftp://x.example"), Err("webhook url must use http or https".to_string()));
    assert_eq!(webhook_delivery_target("http://LocalHost/x"), Err("webhook target host is not allowed".to_string()));
    assert_eq!(webhook_delivery_target("not a url"), Err("invalid webhook url".to_string()));
}

#[test]
fn webhook_addresses_after_resolution() {
    assert_eq!(check_resolved_addresses(&[]), Err("webhook dns resolve returned no addresses".to_string()));
    assert_eq!(
        check_resolved_addresses(&[IpLiteral::V4(93, 184, 216, 34), IpLiteral::V4(10, 0, 0, 1)]),
        Err("webhook target resolves to non-public address".to_string())
    );
    assert_eq!(
        check_resolved_addresses(&[IpLiteral::V6(vec![0, 0, 0, 0, 0, 0xffff, 0x7f00, 1])]),
        Err("webhook target resolves to non-public address".to_string())
    );
    assert_eq!(check_resolved_addresses(&[IpLiteral::V4(93, 184, 216, 34)]), Ok(()));
    assert!(host_is_ip_address("127.0.0.1"));
    assert!(host_is_ip_address("::1"));
    assert!(!host_is_ip_address("example.com"));
}

#[test]
fn smtp_settings_and_delivery_records() {
    assert_eq!(smtp_port(Some("2525")), 2525);
    assert_eq!(smtp_port(Some("99999")), 587);
    assert_eq!(smtp_port(None), 587);
    assert_eq!(delivery_record(Ok(())), (DeliveryStatus::Sent, None));
    assert_eq!(delivery_record(Err("boom".into())), (DeliveryStatus::Failed, Some("boom".to_string())));
}

// ---------------------------------------------------------------------------
// Bearer tokens of the identity provider
// ---------------------------------------------------------------------------

#[test]
fn jwks_urls() {
    assert!(jwks_url_allowed("https://id.example/.well-known/jwks.json"));
    assert!(jwks_url_allowed("http://localhost:3000/jwks"));
    assert!(jwks_url_allowed("http://127.0.0.1/jwks"));
    assert!(!jwks_url_allowed("http://id.example/jwks"));
    assert!(!jwks_url_allowed("jwks"));
}

fn jwk(kid: Option<&str>, kty: &str, n: &str) -> Jwk {
    Jwk { kid: kid.map(|s| s.to_string()), kty: Some(kty.to_string()), n: Some(n.to_string()), e: Some("AQAB".to_string()) }
}

#[test]
fn published_keys_are_filtered() {
    let keys = vec![jwk(Some("k1"), "RSA", "AQAB"), jwk(Some("k2"), "EC", "AQAB"), jwk(None, "RSA", "AQAB")];
    let usable = select_usable_keys(&keys);
    assert_eq!(usable, vec![("k1".to_string(), "AQAB".to_string(), "AQAB".to_string())]);
    assert_eq!(key_set(&keys).ok(), Some(usable.clone()));
    assert!(matches!(key_set(&[jwk(Some("k1"), "RSA", "!!not base64!!")]), Err(AppError::Unauthorized)));
    assert!(matches!(key_set(&[jwk(Some("k2"), "EC", "AQAB")]), Err(AppError::Unauthorized)));
    let dup = vec![
        ("k".to_string(), "n1".to_string(), "e1".to_string()),
        ("k".to_string(), "n2".to_string(), "e2".to_string()),
    ];
    assert_eq!(find_key(&dup, "k"), Some(("n2".to_string(), "e2".to_string())));
    assert_eq!(find_key(&dup, "x"), None);
    assert_eq!(claim_setting(Some("  https://iss  ")), Some("https://iss".to_string()));
    assert_eq!(claim_setting(Some("   ")), None);
}

fn token_with_header(header: &str) -> String {
    let h = base64::engine::general_purpose::URL_SAFE_NO_PAD.encode(header.as_bytes());
    format!("{h}.e30.c2ln")
}

#[test]
fn bearer_tokens_need_rs256_and_a_key_id() {
    let t = token_with_header(r#"{"alg":"RS256","kid":"k1","typ":"JWT"}"#);
    let header = format!("Bearer {t}");
    assert_eq!(bearer_token_kid(Some(&header)).ok(), Some((t.clone(), "k1".to_string())));
    let hs = format!("Bearer {}", token_with_header(r#"{"alg":"HS256","kid":"k1"}"#));
    assert!(matches!(bearer_token_kid(Some(&hs)), Err(AppError::Unauthorized)));
    let no_kid = format!("Bearer {}", token_with_header(r#"{"alg":"RS256"}"#));
    assert!(matches!(bearer_token_kid(Some(&no_kid)), Err(AppError::Unauthorized)));
    assert!(matches!(bearer_token_kid(Some(&t)), Err(AppError::Unauthorized)));
    let keys = vec![("k2".to_string(), "AQAB".to_string(), "AQAB".to_string())];
    assert!(matches!(verify_bearer_claims(Some(&header), &keys, Some("iss"), Some("aud")), Err(AppError::Unauthorized)));
}

// ---------------------------------------------------------------------------
// Funnel rate-limit buckets
// ---------------------------------------------------------------------------

#[test]
fn client_buckets_prefer_addresses() {
    assert_eq!(client_bucket_key(&pairs(&[("X-Real-IP", " 10.0.0.1 ")])), "10.0.0.1");
    assert_eq!(
        client_bucket_key(&pairs(&[("x-real-ip", "nope"), ("x-forwarded-for", "203.0.113.5, 10.0.0.1")])),
        "203.0.113.5"
    );
    let auth = client_bucket_key(&pairs(&[("authorization", "Bearer abc")]));
    assert!(auth.starts_with("auth:"));
    assert_eq!(auth.len(), 21);
    let ua = client_bucket_key(&pairs(&[("user-agent", "curl")]));
    assert!(ua.starts_with("ua:"));
    assert_eq!(client_bucket_key(&pairs(&[("user-agent", "   ")])), "anonymous");
    assert_eq!(client_bucket_key(&[]), "anonymous");
}

// ---------------------------------------------------------------------------
// Expiring caches, start-up cursor, admins, recompute
// ---------------------------------------------------------------------------

#[test]
fn cache_hits_only_before_expiry() {
    let mut c: TtlCache<u32> = TtlCache::new();
    c.insert("a", 1, 100);
    assert_eq!(c.lookup("a", 50), Some(&1));
    assert_eq!(c.lookup("b", 50), None);
    assert_eq!(c.lookup("a", 100), None);
    assert_eq!(c.entries.len(), 0);
    c.insert("a", 1, 100);
    c.insert("a", 2, 300);
    assert_eq!(c.entries.len(), 1);
    assert_eq!(c.lookup("a", 200), Some(&2));
}

#[test]
fn full_cache_drops_expired_then_soonest() {
    let mut c: TtlCache<&str> = TtlCache::new();
    c.insert("a", "a", 10);
    c.insert("b", "b", 200);
    c.insert("c", "c", 300);
    c.evict(3, 50);
    let mut keys: Vec<&str> = c.entries.iter().map(|e| e.key.as_str()).collect();
    keys.sort();
    assert_eq!(keys, vec!["b", "c"]);
    c.insert("d", "d", 250);
    c.evict(2, 60);
    let keys: Vec<&str> = c.entries.iter().map(|e| e.key.as_str()).collect();
    assert_eq!(keys, vec!["c"]);
    c.evict(0, 0);
    assert!(c.entries.is_empty());
    let mut s: TtlCache<u8> = TtlCache::new();
    for (i, k) in ["k1", "k2", "k3", "k4"].iter().enumerate() {
        s.store(k, i as u8, 1_000, 500, 3);
        assert!(s.entries.len() <= 3);
    }
    assert_eq!(s.lookup("k4", 1_200), Some(&3));
}

#[test]
fn wal_cursor_read_at_start_up() {
    assert_eq!(cursor_from_text(Some(" 42\n"), 100), 42);
    assert_eq!(cursor_from_text(Some("500"), 100), 100);
    assert_eq!(cursor_from_text(Some("x"), 100), 0);
    assert_eq!(cursor_from_text(None, 100), 0);
}

#[test]
fn platform_admins_from_setting() {
    assert_eq!(platform_admin_ids(Some(" u1, ,u2,")), vec!["u1".to_string(), "u2".to_string()]);
    assert!(platform_admin_ids(Some(" , ")).is_empty());
    assert!(platform_admin_ids(None).is_empty());
}

#[test]
fn recompute_applies_lists_then_classifies() {
    let policy = BotPolicyInput { mode: BotPolicyMode::Balanced, threshold_score: 70 };
    let mut t = ActivityTracker::new();
    let block = vec![(BotMatchType::IpExact, "198.51.100.7".to_string())];
    let c = recompute_event_classification(
        &mut t, 0, "s", "v", "/", Some("198.51.100.7"), Some("Mozilla/5.0"), &policy, &block, &[],
    );
    assert!(c.is_bot);
    assert_eq!(c.bot_score, 100);
    assert_eq!(c.bot_reason, Some(BotReason::Blocklist));
    let c = recompute_event_classification(&mut t, 0, "s", "v", "/", None, None, &policy, &block, &[]);
    assert!(!c.is_bot);
    let c = recompute_event_classification(
        &mut t, 0, "s", "w", "/", None, Some("curl/8.0"), &policy, &[], &[],
    );
    assert!(c.is_bot);
    assert_eq!(c.bot_reason, Some(BotReason::UaSignature));
}

#[test]
fn session_with_unreachable_expiry_is_refused() {
    let err = encode_jwt("secret", u32::MAX).expect_err("out of range");
    assert_eq!(err, "encode_jwt: expiry out of range");
}

#[test]
fn refused_session_token_names_the_decoder() {
    match decode_jwt("not.a.token", "secret") {
        Ok(_) => panic!("a malformed token was accepted"),
        Err(err) => assert!(err.starts_with("decode_jwt: ")),
    }
}

#[test]
fn export_writes_header_and_rows() {
    let empty = build_csv(&[]).expect("csv");
    assert_eq!(
        String::from_utf8(empty).unwrap(),
        "id,website_id,event_type,url,referrer_domain,event_name,country,browser,os,device_type,language,utm_source,utm_medium,utm_campaign,created_at\n"
    );
    let row = ExportRow {
        id: "e1".to_string(),
        website_id: "w".to_string(),
        event_type: "pageview".to_string(),
        url: "=cmd".to_string(),
        referrer_domain: None,
        event_name: Some("a,b".to_string()),
        country: None,
        browser: None,
        os: None,
        device_type: None,
        language: None,
        utm_source: None,
        utm_medium: None,
        utm_campaign: None,
        created_at: "2026-01-01".to_string(),
    };
    let out = String::from_utf8(build_csv(&[row]).expect("csv")).unwrap();
    let second = out.lines().nth(1).unwrap();
    assert_eq!(second, "e1,w,pageview,'=cmd,,\"a,b\",,,,,,,,,2026-01-01");
}
