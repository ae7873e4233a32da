use sparklytics_server::auth::{change_password, setup_admin, verify_password, AuthMode};
use sparklytics_server::jwt::{decode_jwt, encode_jwt};
use sparklytics_server::error::{error_body, AppError};
use sparklytics_server::ratelimit::{check_rate_limit_with_max, SlidingWindowLimiter};
use sparklytics_server::routes::collect::trusted_proxy_cidrs;
use sparklytics_server::wal::{encode_wal_record, replay_log, ReplayedRecord};
use sparklytics_server::webhook::{delivery_end, ClaimOutcome, DeliveryEnd, WebhookFailure};

#[test]
fn first_requests_in_a_window_are_admitted() {
    let mut limiter = SlidingWindowLimiter::new(100);
    let base: u64 = 1_000_000_000_000;
    let verdicts: Vec<bool> = (0..5u64)
        .map(|i| check_rate_limit_with_max(&mut limiter, "203.0.113.5", 3, base + i * 1_000_000_000))
        .collect();
    assert_eq!(verdicts, vec![true, true, true, false, false]);
    assert!(check_rate_limit_with_max(&mut limiter, "198.51.100.1", 3, base + 5_000_000_000));
    assert!(check_rate_limit_with_max(&mut limiter, "203.0.113.5", 3, base + 61_000_000_000));
}

#[test]
fn trusted_proxies_split_on_commas_and_whitespace() {
    let nets = trusted_proxy_cidrs(Some("10.0.0.0/8 192.168.0.0/16,  172.16.0.0/12\tbogus"));
    assert_eq!(nets, vec!["10.0.0.0/8", "192.168.0.0/16", "172.16.0.0/12"]);
    assert!(trusted_proxy_cidrs(None).is_empty());
}

#[test]
fn error_body_is_the_json_envelope() {
    assert_eq!(
        error_body(&AppError::NotFound("Website not found".into())),
        r#"{"error":{"code":"not_found","field":null,"message":"Website not found"}}"#
    );
    assert_eq!(
        error_body(&AppError::Unauthorized),
        r#"{"error":{"code":"unauthorized","field":null,"message":"Unauthorized"}}"#
    );
}

fn log_of(payloads: &[&[u8]]) -> Vec<u8> {
    let mut log = Vec::new();
    for p in payloads {
        log.extend(encode_wal_record(p).expect("record"));
    }
    log
}

#[test]
fn replay_takes_skips_and_cuts() {
    let mut log = log_of(&[b"[1,2]", b"[]", b"oops", b"[3]"]);
    let full = log.len() as u64;
    let r = replay_log(&log, 0, full, 0, 100);
    assert_eq!(
        r.records,
        vec![
            ReplayedRecord { wal_start_offset: 0, wal_end_offset: 9, event_count: 2 },
            ReplayedRecord { wal_start_offset: 23, wal_end_offset: 30, event_count: 1 },
        ]
    );
    assert_eq!(r.cursor, 23);
    assert_eq!(r.truncate_at, None);
    let skipped_first = replay_log(&log, 0, full, 0, 1);
    assert_eq!(skipped_first.records.len(), 1);
    assert_eq!(skipped_first.records[0].wal_start_offset, 23);
    assert_eq!(skipped_first.cursor, 23);
    let stopped = replay_log(&log, 0, full, 2, 3);
    assert!(stopped.records.is_empty());
    assert_eq!(stopped.cursor, 0);
    log.extend([9, 0, 0, 0, b'[']);
    let cut = replay_log(&log, 0, log.len() as u64, 0, 100);
    assert_eq!(cut.truncate_at, Some(full));
    let at_bound = replay_log(&log, 9, 9, 0, 100);
    assert!(at_bound.records.is_empty());
    assert_eq!(at_bound.cursor, 9);
}

#[test]
fn failed_delivery_rolls_back() {
    assert_eq!(delivery_end(ClaimOutcome::Process, true, true), DeliveryEnd::Committed);
    assert_eq!(
        delivery_end(ClaimOutcome::Process, false, true),
        DeliveryEnd::RolledBack(WebhookFailure::Processing)
    );
    assert_eq!(
        delivery_end(ClaimOutcome::Process, true, false),
        DeliveryEnd::RolledBack(WebhookFailure::TransactionCommit)
    );
    assert_eq!(delivery_end(ClaimOutcome::AlreadyProcessed, true, true), DeliveryEnd::Duplicate);
}

#[test]
fn setup_happens_once() {
    let mut stored: Option<String> = None;
    assert!(matches!(setup_admin(&mut stored, &AuthMode::Local, "short", 8), Err(AppError::BadRequest(_))));
    assert!(stored.is_none());
    assert!(setup_admin(&mut stored, &AuthMode::Local, "a strong password", 8).is_ok());
    let h = stored.clone().expect("stored");
    assert!(verify_password("a strong password", &h));
    assert!(!verify_password("another password", &h));
    assert!(matches!(setup_admin(&mut stored, &AuthMode::Local, "another strong one", 8), Err(AppError::Gone)));
    assert_eq!(stored.as_deref(), Some(h.as_str()));
    assert!(!verify_password("a strong password", ""));
    let mut none: Option<String> = None;
    assert!(matches!(setup_admin(&mut none, &AuthMode::Disabled, "a strong password", 8), Err(AppError::BadRequest(_))));
}

#[test]
fn password_change_rotates_the_session_secret() {
    let mut stored: Option<String> = None;
    setup_admin(&mut stored, &AuthMode::Local, "current password", 8).expect("setup");
    let mut secret = "old-secret".to_string();
    let (token, _) = encode_jwt(&secret, 1).expect("token");
    assert!(decode_jwt(&token, &secret).is_ok());
    assert!(matches!(
        change_password(&mut stored, &mut secret, &AuthMode::Local, "wrong password", "brand new password", 8),
        Err(AppError::Unauthorized)
    ));
    assert_eq!(secret, "old-secret");
    change_password(&mut stored, &mut secret, &AuthMode::Local, "current password", "brand new password", 8)
        .expect("change");
    assert_eq!(secret.len(), 64);
    assert!(decode_jwt(&token, &secret).is_err());
    let h = stored.expect("stored");
    assert!(verify_password("brand new password", &h));
    assert!(!verify_password("current password", &h));
}
