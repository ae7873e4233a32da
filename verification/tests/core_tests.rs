use sparklytics_server::bot::shard_of_hash;
use sparklytics_server::bot::{
    activity_shard_index, classify_event, normalize_path, policy_threshold, score_signals,
    ua_signature_score, ActivityTracker, BotClassification, BotOverrideDecision, BotPolicyInput,
    BotPolicyMode, BotReason, ACTIVITY_SHARDS,
};
use sparklytics_server::countmap::CountMap;
use sparklytics_server::error::AppError;
use sparklytics_server::ingest::{
    contiguous_prefix_len, count_events_by_tenant, count_events_by_website,
    event_needs_session_resolution, hash_user_agent, release_ingest_capacity,
    release_website_queue_capacity, reserve_ingest_capacity, reserve_website_queue_capacity,
};
use sparklytics_server::ratelimit::{check_rate_limit, check_rate_limit_with_max, SlidingWindowLimiter};

const SEC: u64 = 1_000_000_000;

fn balanced() -> BotPolicyInput {
    BotPolicyInput { mode: BotPolicyMode::Balanced, threshold_score: 70 }
}

#[test]
fn ua_signature_flags_crawlers() {
    assert_eq!(ua_signature_score("Mozilla/5.0 (compatible; Googlebot/2.1)"), Some(90));
    assert_eq!(ua_signature_score("curl/8.0"), Some(90));
    assert_eq!(ua_signature_score("Mozilla/5.0 (Windows NT 10.0) Firefox/120.0"), None);
}

#[test]
fn score_signals_sums_weights_against_threshold() {
    let c = score_signals(true, false, false, false, &balanced());
    assert_eq!(c, BotClassification { is_bot: true, bot_score: 90, bot_reason: Some(BotReason::UaSignature) });
    let c = score_signals(false, true, true, false, &balanced());
    assert_eq!(c.bot_score, 65);
    assert!(!c.is_bot);
    assert_eq!(c.bot_reason, None);
    let c = score_signals(false, true, true, true, &balanced());
    assert_eq!(c.bot_score, 100);
    assert_eq!(c.bot_reason, Some(BotReason::BurstRate));
}

#[test]
fn policy_threshold_is_clamped() {
    assert_eq!(policy_threshold(&BotPolicyInput { mode: BotPolicyMode::Strict, threshold_score: -5 }), 0);
    assert_eq!(policy_threshold(&BotPolicyInput { mode: BotPolicyMode::Strict, threshold_score: 500 }), 100);
    assert_eq!(policy_threshold(&balanced()), 70);
}

#[test]
fn reason_labels() {
    assert_eq!(BotReason::PathSweep.label(), "path_sweep");
    assert_eq!(BotReason::HeaderAnomaly.label(), "header_anomaly");
}

#[test]
fn normalize_path_drops_query_and_lowercases() {
    assert_eq!(normalize_path("https://Example.com/Pricing?x=1").iter().collect::<String>(), "/pricing");
    assert_eq!(normalize_path("").iter().collect::<String>(), "/");
}

#[test]
fn override_decides_alone() {
    let mut t = ActivityTracker::new();
    let c = classify_event(
        &mut t, 0, "site", "v", "/", "Googlebot", true, true, &balanced(),
        Some(BotOverrideDecision::ForceHuman),
    );
    assert!(!c.is_bot);
    assert_eq!(c.bot_reason, Some(BotReason::Allowlist));
    let c = classify_event(
        &mut t, 0, "site", "v", "/", "Firefox", true, true, &balanced(),
        Some(BotOverrideDecision::ForceBot),
    );
    assert!(c.is_bot);
    assert_eq!(c.bot_reason, Some(BotReason::Blocklist));
}

#[test]
fn burst_of_requests_is_flagged() {
    let mut t = ActivityTracker::new();
    let mut last = None;
    for i in 0..45u64 {
        last = Some(classify_event(
            &mut t, i * 10_000_000, "site", "v", "/home", "Mozilla/5.0 Firefox", false, true,
            &BotPolicyInput { mode: BotPolicyMode::Strict, threshold_score: 60 }, None,
        ));
    }
    let c = last.expect("classified");
    assert!(c.is_bot);
    assert_eq!(c.bot_score, 65);
}

#[test]
fn shard_index_in_range() {
    assert!(activity_shard_index("site", "visitor") < ACTIVITY_SHARDS);
}

#[test]
fn rate_limit_admits_sixty_per_minute() {
    let mut l = SlidingWindowLimiter::new(1000);
    for i in 0..60u64 {
        assert!(check_rate_limit(&mut l, "1.2.3.4", i));
    }
    assert!(!check_rate_limit(&mut l, "1.2.3.4", 60));
    assert!(check_rate_limit(&mut l, "5.6.7.8", 60));
    assert!(check_rate_limit(&mut l, "1.2.3.4", 61 * SEC));
}

#[test]
fn rate_limit_keys_include_the_limit() {
    let mut l = SlidingWindowLimiter::new(1000);
    assert!(check_rate_limit_with_max(&mut l, "c", 1, 0));
    assert!(!check_rate_limit_with_max(&mut l, "c", 1, 1));
    assert!(check_rate_limit_with_max(&mut l, "c", 2, 1));
}

#[test]
fn ingest_capacity_grant_and_release() {
    assert_eq!(reserve_ingest_capacity(90, 100, 20), 10);
    assert_eq!(reserve_ingest_capacity(100, 100, 5), 0);
    assert_eq!(reserve_ingest_capacity(0, 100, 0), 0);
    assert_eq!(release_ingest_capacity(10, 4), 6);
    assert_eq!(release_ingest_capacity(3, 4), 0);
    let granted = reserve_ingest_capacity(40, 100, 25);
    assert_eq!(release_ingest_capacity(40 + granted, granted), 40);
}

#[test]
fn events_are_counted_per_key() {
    let ids = vec!["a".to_string(), "b".to_string(), "a".to_string()];
    let mut counts = count_events_by_website(&ids);
    counts.sort();
    assert_eq!(counts, vec![("a".to_string(), 2), ("b".to_string(), 1)]);
    let tenants = vec![Some("t".to_string()), None, Some("t".to_string())];
    let counts = count_events_by_tenant(&tenants);
    assert_eq!(counts, vec![("t".to_string(), 2)]);
}

#[test]
fn contiguous_batches_from_cursor() {
    assert_eq!(contiguous_prefix_len(5, &[(5, 8), (8, 9), (10, 12)]), 2);
    assert_eq!(contiguous_prefix_len(0, &[(1, 2)]), 0);
    assert_eq!(contiguous_prefix_len(0, &[]), 0);
}

#[test]
fn pending_sessions_need_resolution() {
    assert!(event_needs_session_resolution(""));
    assert!(event_needs_session_resolution("__pending__"));
    assert!(!event_needs_session_resolution("sess_1"));
}

#[test]
fn user_agent_hash_is_fnv1a() {
    assert_eq!(hash_user_agent(""), 14695981039346656037);
    assert_eq!(hash_user_agent("a"), 0xaf63dc4c8601ec8c);
}

#[test]
fn website_queue_reserve_then_release_restores_counts() {
    let mut queue = CountMap::new();
    let ids = vec!["s1".to_string(), "s2".to_string(), "s1".to_string()];
    let r = reserve_website_queue_capacity(&mut queue, &ids, None, 10);
    assert_eq!(r.accepted, vec![true, true, true]);
    assert_eq!(r.dropped, 0);
    assert_eq!(queue.get(&['s', '1']), Some(2));
    release_website_queue_capacity(&mut queue, &r.website_event_counts);
    assert_eq!(queue.get(&['s', '1']), None);
    assert_eq!(queue.len(), 0);
}

#[test]
fn website_queue_caps_drop_events() {
    let mut queue = CountMap::new();
    let mut caps = CountMap::new();
    caps.insert(&['s', '1'], 1);
    let ids = vec!["s1".to_string(), "s1".to_string(), "s2".to_string()];
    let r = reserve_website_queue_capacity(&mut queue, &ids, Some(&caps), 5);
    assert_eq!(r.accepted, vec![true, false, true]);
    assert_eq!(r.dropped, 1);
}

#[test]
fn error_responses() {
    let r = AppError::NotFound("Website not found".to_string()).response();
    assert_eq!(r.status, 404);
    assert_eq!(r.message, "Website not found");
    let r = AppError::QueryTimeout { retry_after_seconds: 2 }.response();
    assert_eq!(r.status, 503);
    assert_eq!(r.retry_after_seconds, Some(2));
    let r = AppError::BadRequest("x".to_string()).response();
    assert_eq!((r.status, r.code), (400, "validation_error"));
}

#[test]
fn shard_of_hash_takes_the_remainder() {
    assert_eq!(shard_of_hash(0), 0);
    assert_eq!(shard_of_hash(33), 1);
    assert_eq!(shard_of_hash(ACTIVITY_SHARDS as u64 * 7 + 5), 5);
}

#[test]
fn activity_shard_index_is_stable_for_a_visitor() {
    let a = activity_shard_index("site", "visitor");
    let b = activity_shard_index("site", "visitor");
    assert_eq!(a, b);
    let mut seen = std::collections::HashSet::new();
    for i in 0..200 {
        seen.insert(activity_shard_index("site", &format!("visitor-{i}")));
    }
    assert!(seen.len() > 1);
}
