use sparklytics_server::bot::BotClassification;
use sparklytics_server::routes::collect::{build_event, CollectContext, CollectPayload};
use sparklytics_server::routes::funnels::{fingerprint_key, hash_fingerprint};
use sparklytics_server::error::retry_after_header;
use sparklytics_server::webhook::{claim_outcome, ClaimOutcome, WebhookFailure};
use chrono::Datelike;
use sparklytics_server::auth::{api_key_outcome, session_outcome, AuthOutcome};
use sparklytics_server::cloud::ChFilters;
use sparklytics_server::countmap::CountMap;
use sparklytics_server::error::AppError;
use sparklytics_server::ingest::{DrainAfterFailure, DrainState, QueuedBatch};
use sparklytics_server::jwt::encode_jwt;
use sparklytics_server::routes::bot::canonical_ip;
use sparklytics_server::routes::collect::{check_websites_known, extract_client_ip};
use sparklytics_server::routes::compare::default_previous_period_range;
use sparklytics_server::routes::notifications::read_ip_literal;
use sparklytics_server::routes::pixels::pixel_response;
use sparklytics_server::routes::reports::{
    build_analytics_context, check_metric_type, check_report_metric_type, DateRangeType,
};
use sparklytics_server::routes::tracking::{
    count_distinct_keys, pixel_view_event, TrackingHit, TrackingPixel,
};
use sparklytics_server::scheduler::DeliveryLedger;

fn day(y: i32, m: u32, d: u32) -> i32 {
    chrono::NaiveDate::from_ymd_opt(y, m, d).expect("date").num_days_from_ce()
}

fn pairs(v: &[(&str, &str)]) -> Vec<(String, String)> {
    v.iter().map(|(k, v)| (k.to_string(), v.to_string())).collect()
}

const METRIC_TYPES: &[&str] = &["page", "referrer", "country", "browser", "os", "device"];

#[test]
fn previous_period_shift_matches_primary_length() {
    let range = default_previous_period_range(day(2026, 2, 10), day(2026, 2, 20));
    assert_eq!(range.comparison_end, day(2026, 2, 9));
    assert_eq!(range.comparison_start, day(2026, 1, 30));
}

fn metrics_context(metric_type: Option<&str>) -> Result<(i32, i32, Option<String>), AppError> {
    build_analytics_context(
        DateRangeType::Relative,
        Some(30),
        None,
        None,
        Some("UTC"),
        true,
        metric_type,
        METRIC_TYPES,
    )
}

#[test]
fn metrics_requires_metric_type() {
    let err = metrics_context(None).expect_err("missing metric type should fail");
    assert!(matches!(err, AppError::BadRequest(_)));
}

#[test]
fn metrics_rejects_unknown_metric_type() {
    let err = metrics_context(Some("bogus")).expect_err("unknown metric type should fail");
    assert!(matches!(err, AppError::BadRequest(m) if m == "invalid metric type: bogus"));
}

#[test]
fn analytics_context_checks_zone_range_and_metric() {
    let (s, e, tz) = metrics_context(Some("page")).expect("context");
    assert_eq!(e - s, 29);
    assert_eq!(tz.as_deref(), Some("UTC"));
    let bad_zone = build_analytics_context(DateRangeType::Relative, None, None, None, Some("Mars/Base"), false, None, METRIC_TYPES);
    assert!(matches!(bad_zone, Err(AppError::BadRequest(m)) if m == "invalid timezone"));
    let abs = build_analytics_context(
        DateRangeType::Absolute,
        None,
        Some("2026-01-01"),
        Some("2026-01-31"),
        None,
        false,
        None,
        METRIC_TYPES,
    )
    .expect("absolute");
    assert_eq!((abs.0, abs.1, abs.2), (day(2026, 1, 1), day(2026, 1, 31), None));
}

#[test]
fn metric_type_checks() {
    assert!(check_metric_type("page", METRIC_TYPES).is_ok());
    assert!(check_report_metric_type(false, None, METRIC_TYPES).is_ok());
    assert!(check_report_metric_type(true, Some("os"), METRIC_TYPES).is_ok());
}

#[test]
fn addresses_with_leading_zero_octets_are_refused() {
    assert_eq!(canonical_ip("10.0.0.1").as_deref(), Some("10.0.0.1"));
    assert_eq!(canonical_ip("010.0.0.1"), None);
    assert_eq!(canonical_ip("1.2.3.04"), None);
    assert_eq!(canonical_ip("::ffff:010.0.0.1"), None);
    assert_eq!(canonical_ip("0012::1").as_deref(), Some("12::1"));
    assert_eq!(canonical_ip("0.0.0.0").as_deref(), Some("0.0.0.0"));
    assert!(read_ip_literal("127.0.0.1").is_some());
    assert!(read_ip_literal("0127.0.0.1").is_none());
    assert_eq!(extract_client_ip(Some("010.0.0.1"), None, &[]), "unknown");
    assert_eq!(extract_client_ip(Some("10.0.0.1, 1.1.1.1"), None, &[]), "10.0.0.1");
}

#[test]
fn unknown_website_is_not_found() {
    let ids = vec!["a".to_string(), "b".to_string(), "c".to_string()];
    assert!(check_websites_known(&ids, &[true, true, true]).is_ok());
    match check_websites_known(&ids, &[true, false, false]) {
        Err(AppError::NotFound(m)) => assert_eq!(m, "Unknown website_id: b"),
        _ => panic!("expected not found"),
    }
}

#[test]
fn pixel_answer_is_an_uncached_gif() {
    let r = pixel_response();
    assert_eq!(r.status, 200);
    assert_eq!(&r.body[0..6], b"GIF89a");
    assert_eq!(r.body.len(), 43);
    assert_eq!(
        r.headers,
        pairs(&[
            ("content-type", "image/gif"),
            ("cache-control", "no-store, no-cache, must-revalidate"),
            ("pragma", "no-cache"),
        ])
    );
}

fn hit() -> TrackingHit {
    TrackingHit {
        client_ip: "203.0.113.5".into(),
        user_agent: "Mozilla/5.0".into(),
        visitor_id: "v1".into(),
        referrer_url: None,
        referrer_domain: None,
        language: None,
        geo: None,
        ua: None,
        now_us: 1_000,
    }
}

#[test]
fn repeated_query_keys_keep_the_last_value() {
    let pixel = TrackingPixel {
        id: "px_1".into(),
        website_id: "site_1".into(),
        pixel_key: "key1".into(),
        default_url: None,
        is_active: true,
    };
    let q = pairs(&[("url", "https://a.example/"), ("x", "1"), ("url", "https://b.example/"), ("x", &"y".repeat(300))]);
    let e = pixel_view_event(Some(&pixel), &q, &hit()).expect("event");
    assert_eq!(e.url, "https://b.example/");
    assert_eq!(
        e.event_data.as_deref(),
        Some(r#"{"pixel_id":"px_1","pixel_key":"key1","query":{"url":"https://b.example/"},"url":"https://b.example/"}"#)
    );
    let same_key: Vec<(String, String)> = (0..40).map(|i| ("k".to_string(), format!("{i}"))).collect();
    assert_eq!(count_distinct_keys(&same_key), 1);
    assert!(pixel_view_event(Some(&pixel), &same_key, &hit()).is_ok());
}

#[test]
fn api_key_lookup_decides_the_request() {
    match api_key_outcome(Ok(Some("key_1".to_string()))) {
        AuthOutcome::Authenticated(ctx) => {
            assert_eq!(ctx.auth_type, "api_key");
            assert_eq!(ctx.api_key_id.as_deref(), Some("key_1"));
        }
        _ => panic!("expected authenticated"),
    }
    assert!(matches!(api_key_outcome(Ok(None)), AuthOutcome::Unauthorized));
    assert!(matches!(api_key_outcome(Err(())), AuthOutcome::LookupFailed));
    let (token, _) = encode_jwt("s3cret", 1).expect("token");
    match session_outcome(&token, Some("s3cret")) {
        AuthOutcome::Authenticated(ctx) => {
            assert_eq!(ctx.auth_type, "cookie");
            assert!(ctx.api_key_id.is_none());
        }
        _ => panic!("expected authenticated"),
    }
    assert!(matches!(session_outcome(&token, Some("other")), AuthOutcome::Unauthorized));
    assert!(matches!(session_outcome(&token, None), AuthOutcome::Unauthorized));
}

#[test]
fn delivery_is_recorded_once_per_key() {
    let mut ledger = DeliveryLedger::new();
    assert!(!ledger.contains("idem:test-key"));
    assert!(ledger.record("idem:test-key"));
    assert!(!ledger.record("idem:test-key"));
    assert!(ledger.contains("idem:test-key"));
}

fn batch(start: u64, end: u64, retries: u32) -> QueuedBatch {
    QueuedBatch {
        wal_start_offset: start,
        wal_end_offset: end,
        retries,
        event_count: 1,
        website_event_counts: vec![("site".to_string(), 1)],
    }
}

#[test]
fn failed_persist_requeues_batches_in_order() {
    let mut state = DrainState {
        queue: vec![batch(30, 40, 0)],
        wal_cursor: 10,
        queued_events: 3,
        website_queue: CountMap::new(),
    };
    let after = state.persist_failed(vec![batch(10, 20, 0), batch(20, 30, 2)], 100, 5_000, 5, true);
    assert_eq!(after, DrainAfterFailure::RetryAfter(800));
    let spans: Vec<(u64, u32)> = state.queue.iter().map(|b| (b.wal_start_offset, b.retries)).collect();
    assert_eq!(spans, vec![(10, 3), (20, 3), (30, 0)]);
    assert_eq!(state.wal_cursor, 10);
    assert_eq!(state.queued_events, 3);
    let stop = state.persist_failed(vec![batch(10, 20, 0)], 100, 5_000, 5, false);
    assert_eq!(stop, DrainAfterFailure::Stop);
    let exhausted = state.persist_failed(vec![batch(10, 20, 4)], 100, 5_000, 5, true);
    assert_eq!(exhausted, DrainAfterFailure::ExhaustedWait(5_000));
}

fn filters<'a>(country: Option<&'a str>, os: Option<&'a str>) -> ChFilters<'a> {
    ChFilters {
        country,
        page: None,
        referrer: None,
        browser: None,
        os,
        device: None,
        utm_source: None,
        utm_medium: None,
        utm_campaign: None,
    }
}

#[test]
fn filter_sql_never_holds_values() {
    let (a, pa) = filters(Some("DE"), Some("Linux")).filter_clause();
    let (b, pb) = filters(Some("x' OR 1=1 --"), Some("{evil:String}")).filter_clause();
    assert_eq!(a, b);
    assert!(!b.contains("OR 1=1"));
    assert_eq!(pa.len(), 2);
    assert_eq!(pb[0], ("filter_country".to_string(), "x' OR 1=1 --".to_string()));
    assert_eq!(pb[1].0, "filter_os");
}

#[test]
fn retry_after_header_carries_the_delay() {
    assert_eq!(
        retry_after_header(&AppError::IngestOverloaded { retry_after_seconds: 30 }),
        Some(("retry-after".to_string(), "30".to_string()))
    );
    assert_eq!(retry_after_header(&AppError::NotFound("x".into())), None);
}

#[test]
fn duplicate_webhook_delivery_is_not_processed() {
    let mut seen = DeliveryLedger::new();
    assert_eq!(claim_outcome(Some(seen.record("msg_1"))), ClaimOutcome::Process);
    assert_eq!(claim_outcome(Some(seen.record("msg_1"))), ClaimOutcome::AlreadyProcessed);
    assert_eq!(claim_outcome(None), ClaimOutcome::Failed(WebhookFailure::IdempotencyCheck));
}

#[test]
fn persisted_batches_leave_the_accounting() {
    let site: Vec<char> = "site".chars().collect();
    let mut website_queue = CountMap::new();
    website_queue.insert(&site, 3);
    let mut state = DrainState { queue: vec![batch(30, 40, 0)], wal_cursor: 10, queued_events: 3, website_queue };
    state.persist_succeeded(&vec![batch(10, 20, 1), batch(20, 30, 0)]);
    assert_eq!(state.wal_cursor, 30);
    assert_eq!(state.queued_events, 1);
    assert_eq!(state.website_queue.get(&site), Some(1));
    assert_eq!(state.queue.len(), 1);
    state.persist_succeeded(&vec![batch(30, 40, 0), batch(40, 50, 0)]);
    assert_eq!(state.queued_events, 0);
    assert_eq!(state.website_queue.get(&site), None);
}

#[test]
fn fingerprint_is_prefix_and_sixteen_hex_digits() {
    assert_eq!(hash_fingerprint("ua", 0xabc), "ua:0000000000000abc");
    assert_eq!(hash_fingerprint("auth", u64::MAX), "auth:ffffffffffffffff");
    let k = fingerprint_key("ua", "Mozilla/5.0");
    assert_eq!(k, fingerprint_key("ua", "Mozilla/5.0"));
    assert_eq!(k.len(), 19);
    assert!(k.starts_with("ua:"));
}

#[test]
fn drain_takes_the_contiguous_selected_prefix() {
    let mut state = DrainState {
        queue: vec![batch(10, 20, 0), batch(20, 30, 0), batch(40, 50, 0), batch(50, 60, 0)],
        wal_cursor: 10,
        queued_events: 4,
        website_queue: CountMap::new(),
    };
    let taken = state.take_drain_batches(3, 100);
    let spans: Vec<u64> = taken.iter().map(|b| b.wal_start_offset).collect();
    assert_eq!(spans, vec![10, 20]);
    let left: Vec<u64> = state.queue.iter().map(|b| b.wal_start_offset).collect();
    assert_eq!(left, vec![40, 50]);
    let none = state.take_drain_batches(3, 100);
    assert!(none.is_empty());
    assert_eq!(state.queue.len(), 2);
    let mut state2 = DrainState { queue: vec![batch(10, 20, 0), batch(20, 30, 0)], wal_cursor: 10, queued_events: 2, website_queue: CountMap::new() };
    assert_eq!(state2.take_drain_batches(3, 1).len(), 1);
}

#[test]
fn collected_event_takes_the_server_visitor_id() {
    let p = CollectPayload {
        website_id: "site_1".into(),
        event_type: "pageview".into(),
        url: "https://example.com/?utm_source=x".into(),
        referrer: None,
        event_name: None,
        event_data: None,
        visitor_id: Some("client-chosen".into()),
        screen: None,
        screen_width: Some(1280),
        screen_height: Some(720),
        language: None,
        utm_source: None,
        utm_medium: None,
        utm_campaign: None,
        utm_term: None,
        utm_content: None,
    };
    let ctx = CollectContext {
        client_ip: "203.0.113.5".into(),
        user_agent: "Mozilla/5.0".into(),
        server_visitor_id: "0123456789abcdef".into(),
        geo: None,
        ua: None,
        base_now_us: 1_000,
    };
    let c = BotClassification { is_bot: false, bot_score: 0, bot_reason: None };
    let e = build_event(p, 2, &ctx, "evt-1".into(), None, c);
    assert_eq!(e.visitor_id, "0123456789abcdef");
    assert_eq!(e.created_at_us, 1_002);
    assert_eq!(e.screen.as_deref(), Some("1280x720"));
    assert_eq!(e.utm_source.as_deref(), Some("x"));
}
