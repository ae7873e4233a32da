use base64::Engine;
use sparklytics_server::cloud::{
    cloud_key_lookup_hash, new_record_id, parse_dates_at, tracking_snippet,
    tenant_from_authorization, ChFilters, CloudConfig, CloudCreateWebsiteBody,
    CloudListWebsitesQuery, CloudMetricsQuery, CloudStatsQuery, CreateKeyRequest, ListKeysQuery,
    OrgRole, TenantError,
};
use sparklytics_server::auth::hash_api_key;

fn token_with(payload: &str) -> String {
    let p = base64::engine::general_purpose::URL_SAFE_NO_PAD.encode(payload.as_bytes());
    format!("Bearer hdr.{p}.sig")
}

#[test]
fn filter_clause_lists_set_filters_in_order() {
    let f = ChFilters {
        country: Some("DE"),
        page: None,
        referrer: None,
        browser: Some("Firefox"),
        os: None,
        device: None,
        utm_source: None,
        utm_medium: None,
        utm_campaign: None,
    };
    let (clause, params) = f.filter_clause();
    assert_eq!(
        clause,
        "AND country = {filter_country:String}\n          AND browser = {filter_browser:String}"
    );
    assert_eq!(
        params,
        vec![
            ("filter_country".to_string(), "DE".to_string()),
            ("filter_browser".to_string(), "Firefox".to_string())
        ]
    );
}

#[test]
fn filter_clause_empty_without_filters() {
    let f = ChFilters {
        country: None,
        page: None,
        referrer: None,
        browser: None,
        os: None,
        device: None,
        utm_source: None,
        utm_medium: None,
        utm_campaign: None,
    };
    let (clause, params) = f.filter_clause();
    assert_eq!(clause, "");
    assert!(params.is_empty());
}

#[test]
fn cloud_config_names_first_missing_setting() {
    let s = |x: &str| Some(x.to_string());
    let err = CloudConfig::from_values(None, None, None, None, None, None).err().expect("missing");
    assert_eq!(err, "CLERK_SECRET_KEY is required in cloud mode");
    let err = CloudConfig::from_values(s("sk_test"), s("whsec_test"), None, s("http://localhost:8123"), s("ch"), s("pw"))
        .err()
        .expect("missing");
    assert_eq!(err, "DATABASE_URL is required in cloud mode");
    let cfg = CloudConfig::from_values(s("a"), s("b"), s("c"), s("d"), s("e"), s("f")).expect("config");
    assert_eq!(cfg.clickhouse_password, "f");
}

#[test]
fn org_roles() {
    assert_eq!(OrgRole::from_str("org:admin"), OrgRole::Admin);
    assert_eq!(OrgRole::from_str("viewer"), OrgRole::Viewer);
    assert_eq!(OrgRole::from_str("owner"), OrgRole::Member);
}

#[test]
fn tenant_context_from_token() {
    let h = token_with(r#"{"sub":"user_abc","o":{"id":"org_xyz","slg":"acme","rol":"admin"}}"#);
    let ctx = tenant_from_authorization(Some(&h)).expect("tenant");
    assert_eq!(ctx.tenant_id, "org_xyz");
    assert_eq!(ctx.user_id, "user_abc");
    assert_eq!(ctx.role, OrgRole::Admin);

    let h = token_with(r#"{"sub":"user_abc","o":{"id":"org_xyz"}}"#);
    assert_eq!(tenant_from_authorization(Some(&h)).expect("tenant").role, OrgRole::Member);

    let h = token_with(r#"{"sub":"user_abc"}"#);
    match tenant_from_authorization(Some(&h)) {
        Err(TenantError::Forbidden(m)) => assert_eq!(m, "Organization context required"),
        other => panic!("unexpected: {other:?}"),
    }
    assert!(matches!(tenant_from_authorization(None), Err(TenantError::Unauthenticated)));
    assert!(matches!(tenant_from_authorization(Some("Basic abc")), Err(TenantError::Unauthenticated)));
    assert!(matches!(tenant_from_authorization(Some("Bearer nodots")), Err(TenantError::Unauthenticated)));
}

#[test]
fn tenant_error_responses() {
    assert_eq!(TenantError::Unauthenticated.response(), (401, "unauthorized", "Unauthorized".to_string()));
    assert_eq!(
        TenantError::Forbidden("no".to_string()).response(),
        (403, "forbidden", "no".to_string())
    );
}

#[test]
fn cloud_dates_default_to_last_week() {
    let today = 739000;
    assert_eq!(parse_dates_at(None, None, today), (today - 6, today));
    assert_eq!(parse_dates_at(Some("bad"), Some("2026/01/01"), today), (today - 6, today));
}

#[test]
fn cloud_query_helpers() {
    let q = CloudStatsQuery {
        start_date: None,
        end_date: None,
        timezone: None,
        filter_country: Some("US".to_string()),
        filter_page: None,
        filter_referrer: None,
        filter_browser: None,
        filter_os: None,
        filter_device: None,
        filter_utm_source: None,
        filter_utm_medium: None,
        filter_utm_campaign: Some("x".to_string()),
    };
    assert_eq!(q.timezone_or_utc(), "UTC");
    let f = q.filters();
    assert_eq!(f.country, Some("US"));
    assert_eq!(f.utm_campaign, Some("x"));
    let m = CloudMetricsQuery {
        start_date: None,
        end_date: None,
        metric_type: None,
        limit: Some(1000),
        offset: Some(-1),
        filter_country: None,
        filter_page: None,
        filter_referrer: None,
        filter_browser: None,
        filter_os: None,
        filter_device: None,
        filter_utm_source: None,
        filter_utm_medium: None,
        filter_utm_campaign: None,
    };
    assert!(m.required_metric_type().is_err());
    assert_eq!(m.page(), (100, 0));
    assert_eq!(CloudListWebsitesQuery { limit: None }.page_limit(), 20);
    assert_eq!(ListKeysQuery { limit: Some(0), offset: None }.page(), (1, 0));
}

#[test]
fn cloud_website_creation_checks() {
    let body = CloudCreateWebsiteBody { name: " Site ".to_string(), domain: "  ".to_string(), timezone: None };
    assert!(body.validate().is_err());
    let body = CloudCreateWebsiteBody { name: " Site ".to_string(), domain: "a.com".to_string(), timezone: None };
    let w = body.validate().expect("valid");
    assert_eq!((w.name.as_str(), w.domain.as_str(), w.timezone.as_str()), ("Site", "a.com", "UTC"));
    assert_eq!(
        tracking_snippet("https://a.io", "site_1"),
        r#"<script defer src="https://a.io/s.js" data-website-id="site_1"></script>"#
    );
    let id = new_record_id("site_");
    assert_eq!(id.len(), 15);
    assert!(id[5..].chars().all(|c| c.is_ascii_alphanumeric()));
}

#[test]
fn cloud_keys() {
    assert!(CreateKeyRequest { name: "  ".to_string() }.generate().is_err());
    let k = CreateKeyRequest { name: " ci ".to_string() }.generate().expect("key");
    assert!(k.raw_key.starts_with("spk_live_"));
    assert_eq!(k.raw_key.len(), 41);
    assert_eq!(k.hash, hash_api_key(&k.raw_key));
    assert_eq!(k.prefix, k.raw_key[..20]);
    assert_eq!(k.name, "ci");
    assert!(k.id.starts_with("key_"));
    assert_eq!(cloud_key_lookup_hash("spk_selfhosted_x"), None);
    assert_eq!(cloud_key_lookup_hash(&k.raw_key), Some(k.hash.clone()));
}
