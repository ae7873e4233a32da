use chrono::Datelike;
use sparklytics_server::error::AppError;
use sparklytics_server::routes::links::{
    build_tracking_destination, destination_matches_website, encode_query_component,
    parse_destination_url, CampaignLink,
};
use sparklytics_server::routes::pixels::{
    normalize_pixel_key, parse_default_url, pixel_event_url, transparent_gif,
};
use sparklytics_server::routes::public::{check_event_data_size, keep_public_param};
use sparklytics_server::routes::query::{
    parse_defaulted_date_range_lenient, parse_optional_bool, parse_required_date_range,
    validate_date_span,
};
use sparklytics_server::routes::reports::{
    normalize_timezone, parse_absolute_range, parse_relative_range, relative_window, validate_name,
};
use sparklytics_server::routes::retention::{
    map_retention_backend_error, parse_granularity, retention_request, validate_max_periods,
    RetentionGranularity, RetentionParams,
};

fn day(y: i32, m: u32, d: u32) -> i32 {
    chrono::NaiveDate::from_ymd_opt(y, m, d)
        .expect("date")
        .num_days_from_ce()
}

fn today() -> i32 {
    chrono::Utc::now().date_naive().num_days_from_ce()
}

fn bad_request_message(e: AppError) -> String {
    match e {
        AppError::BadRequest(m) => m,
        other => panic!("expected a bad request, got {other:?}"),
    }
}

#[test]
fn parse_optional_bool_accepts_common_variants() {
    assert_eq!(
        parse_optional_bool(Some("true"), "include_bots").expect("bool"),
        Some(true)
    );
    assert_eq!(
        parse_optional_bool(Some("0"), "include_bots").expect("bool"),
        Some(false)
    );
    assert_eq!(
        parse_optional_bool(None, "include_bots").expect("bool"),
        None
    );
}

#[test]
fn parse_optional_bool_rejects_invalid_values() {
    assert!(parse_optional_bool(Some("yes"), "include_bots").is_err());
}

#[test]
fn parse_optional_bool_trims_and_ignores_case() {
    assert_eq!(parse_optional_bool(Some(" FALSE "), "x").expect("bool"), Some(false));
    assert_eq!(
        bad_request_message(parse_optional_bool(Some("on"), "include_bots").unwrap_err()),
        "include_bots must be one of: true, false, 1, 0"
    );
}

#[test]
fn parse_required_date_range_rejects_reversed_bounds() {
    let result = parse_required_date_range(Some("2026-01-05"), Some("2026-01-01"));
    assert!(result.is_err());
}

#[test]
fn validate_date_span_rejects_large_ranges() {
    let start = day(2026, 1, 1);
    let end = day(2026, 4, 15);
    assert!(validate_date_span(start, end, 90, "date range").is_err());
}

#[test]
fn date_span_message_counts_both_ends() {
    let start = day(2026, 1, 1);
    let end = day(2026, 4, 15);
    assert_eq!(
        bad_request_message(validate_date_span(start, end, 90, "date range").unwrap_err()),
        "date range too large: 105 days (max 90)"
    );
    assert!(validate_date_span(start, start + 89, 90, "date range").is_ok());
}

#[test]
fn parse_defaulted_lenient_rejects_reversed_bounds() {
    let result = parse_defaulted_date_range_lenient(Some("2026-01-05"), Some("2026-01-01"), 6);
    assert!(result.is_err());
}

#[test]
fn parse_defaulted_lenient_ignores_invalid_date_format() {
    let result = parse_defaulted_date_range_lenient(Some("bad-date"), None, 6);
    assert!(result.is_ok());
}

#[test]
fn relative_range_rejects_out_of_bounds() {
    assert!(parse_relative_range(Some(0), None).is_err());
    assert!(parse_relative_range(Some(366), None).is_err());
}

#[test]
fn absolute_range_rejects_inverted_dates() {
    let err = parse_absolute_range(Some("2026-02-10"), Some("2026-02-01"));
    assert!(err.is_err());
}

#[test]
fn absolute_range_accepts_valid_dates() {
    let (start, end) = parse_absolute_range(Some("2026-02-01"), Some("2026-02-10"))
        .expect("valid absolute range");
    assert_eq!(start, day(2026, 2, 1));
    assert_eq!(end, day(2026, 2, 10));
}

#[test]
fn absolute_range_messages() {
    assert_eq!(
        bad_request_message(parse_absolute_range(None, Some("2026-02-10")).unwrap_err()),
        "start_date is required for absolute range"
    );
    assert_eq!(
        bad_request_message(parse_absolute_range(Some("2026-02-01"), None).unwrap_err()),
        "end_date is required for absolute range"
    );
    assert_eq!(
        bad_request_message(parse_absolute_range(Some("nope"), Some("2026-02-10")).unwrap_err()),
        "invalid start_date (expected YYYY-MM-DD)"
    );
}

#[test]
fn relative_range_resolves_expected_window() {
    let before = today();
    let (start, end) = parse_relative_range(Some(2), None).expect("valid relative range");
    let after = today();
    assert!(end == before || end == after);
    assert_eq!(start, end - 1);
}

#[test]
fn relative_window_defaults_to_thirty_days() {
    let t = day(2026, 3, 31);
    assert_eq!(relative_window(None, t).expect("window"), (day(2026, 3, 2), t));
    assert_eq!(
        bad_request_message(relative_window(Some(400), t).unwrap_err()),
        "relative_days must be between 1 and 365"
    );
}

#[test]
fn relative_range_rejects_invalid_timezone() {
    let err = parse_relative_range(Some(7), Some("Mars/Base"));
    assert!(err.is_err());
}

#[test]
fn report_timezone_is_trimmed_and_checked() {
    assert_eq!(normalize_timezone(None).expect("tz"), None);
    assert_eq!(normalize_timezone(Some("  ")).expect("tz"), None);
    assert_eq!(
        normalize_timezone(Some(" Europe/Berlin ")).expect("tz"),
        Some("Europe/Berlin".to_string())
    );
    assert!(normalize_timezone(Some("Mars/Base")).is_err());
}

#[test]
fn validate_name_rejects_empty_and_too_long() {
    assert!(validate_name("").is_err());
    let long_name = "x".repeat(101);
    assert!(validate_name(&long_name).is_err());
}

#[test]
fn validate_name_accepts_limit_length() {
    assert!(validate_name(&"x".repeat(100)).is_ok());
    assert_eq!(
        bad_request_message(validate_name("   ").unwrap_err()),
        "name must not be empty"
    );
}

#[test]
fn timeout_marker_maps_to_query_timeout() {
    let app_error = map_retention_backend_error("retention_query_timeout");
    match app_error {
        AppError::QueryTimeout {
            retry_after_seconds,
        } => assert_eq!(retry_after_seconds, 2),
        other => panic!("unexpected error mapping: {other:?}"),
    }
}

#[test]
fn backend_errors_map_to_client_or_internal() {
    assert_eq!(
        bad_request_message(map_retention_backend_error("query failed: invalid_date_boundary")),
        "invalid timezone"
    );
    match map_retention_backend_error("disk full") {
        AppError::Internal(m) => assert_eq!(m, "disk full"),
        other => panic!("unexpected error mapping: {other:?}"),
    }
}

#[test]
fn granularity_and_periods() {
    assert_eq!(parse_granularity(None).expect("g"), RetentionGranularity::Week);
    assert_eq!(parse_granularity(Some(" day ")).expect("g"), RetentionGranularity::Day);
    assert!(parse_granularity(Some("year")).is_err());
    assert!(validate_max_periods(RetentionGranularity::Day, 30).is_ok());
    assert_eq!(
        bad_request_message(validate_max_periods(RetentionGranularity::Week, 13).unwrap_err()),
        "max_periods must be between 1 and 12 for weekly granularity"
    );
}

fn retention_params() -> RetentionParams {
    RetentionParams {
        start_date: Some("2026-01-01".to_string()),
        end_date: Some("2026-01-31".to_string()),
        timezone: None,
        cohort_granularity: None,
        max_periods: None,
        filter_country: None,
        filter_page: None,
        filter_referrer: None,
        filter_browser: None,
        filter_os: None,
        filter_device: None,
        filter_language: None,
        filter_utm_source: None,
        filter_utm_medium: None,
        filter_utm_campaign: None,
        filter_region: None,
        filter_city: None,
        filter_hostname: None,
    }
}

#[test]
fn retention_request_checks_in_order() {
    let req = retention_request(retention_params()).expect("request");
    assert_eq!(req.granularity, RetentionGranularity::Week);
    assert_eq!(req.max_periods, 8);
    assert_eq!((req.start_date, req.end_date), (day(2026, 1, 1), day(2026, 1, 31)));
    assert_eq!(req.filters.len(), 13);

    let mut p = retention_params();
    p.filter_page = Some("  ".to_string());
    p.filter_city = Some("x".repeat(200));
    assert_eq!(
        bad_request_message(retention_request(p).err().expect("error")),
        "filter_page cannot be empty when provided"
    );

    let mut p = retention_params();
    p.filter_city = Some(" Paris ".to_string());
    let req = retention_request(p).expect("request");
    assert_eq!(req.filters[11], Some("Paris".to_string()));

    let mut p = retention_params();
    p.start_date = None;
    assert_eq!(
        bad_request_message(retention_request(p).err().expect("error")),
        "start_date is required"
    );
}

#[test]
fn normalize_pixel_key_strips_gif_suffix() {
    assert_eq!(normalize_pixel_key("px_abc.gif"), "px_abc");
    assert_eq!(normalize_pixel_key("px_abc"), "px_abc");
}

#[test]
fn normalize_pixel_key_strips_repeated_suffix() {
    assert_eq!(normalize_pixel_key("px.gif.gif"), "px");
    assert_eq!(normalize_pixel_key(".gif"), "");
}

#[test]
fn parse_default_url_rejects_non_http() {
    let result = parse_default_url("ftp://example.com/file");
    assert!(result.is_err());
}

#[test]
fn transparent_gif_has_valid_header() {
    assert_eq!(&transparent_gif()[0..6], b"GIF89a");
}

#[test]
fn transparent_gif_is_complete() {
    let gif = transparent_gif();
    assert_eq!(gif.len(), 43);
    assert_eq!(gif[gif.len() - 1], 59);
}

#[test]
fn pixel_event_url_prefers_query_then_default() {
    assert_eq!(
        pixel_event_url(Some("https://a.test/".to_string()), Some("https://b.test/".to_string()), "k"),
        "https://a.test/"
    );
    assert_eq!(pixel_event_url(None, Some("https://b.test/".to_string()), "k"), "https://b.test/");
    assert_eq!(pixel_event_url(None, None, "px_1"), "pixel://px_1");
}

fn sample_link() -> CampaignLink {
    CampaignLink {
        id: "lnk_1".to_string(),
        website_id: "site_1".to_string(),
        name: "Sample".to_string(),
        slug: "abc123".to_string(),
        destination_url: "https://example.com/pricing".to_string(),
        utm_source: Some("newsletter".to_string()),
        utm_medium: Some("email".to_string()),
        utm_campaign: Some("spring launch".to_string()),
        utm_term: None,
        utm_content: None,
        is_active: true,
        created_at: "2026-01-01T00:00:00Z".to_string(),
        clicks: None,
        unique_visitors: None,
        conversions: None,
    }
}

#[test]
fn parse_destination_url_rejects_non_http_scheme() {
    let result = parse_destination_url("javascript:alert(1)");
    assert!(result.is_err());
}

#[test]
fn destination_matches_subdomain() {
    let parsed = parse_destination_url("https://app.example.com/path").expect("url");
    assert!(destination_matches_website(&parsed, "example.com"));
}

#[test]
fn destination_checks_host_and_credentials() {
    let parsed = parse_destination_url("https://notexample.com/").expect("url");
    assert!(!destination_matches_website(&parsed, "example.com"));
    let parsed = parse_destination_url("https://Example.com/").expect("url");
    assert!(destination_matches_website(&parsed, " https://example.com/ "));
    assert_eq!(
        bad_request_message(parse_destination_url("https://u:p@example.com/").unwrap_err()),
        "destination_url cannot include credentials"
    );
    assert_eq!(
        bad_request_message(parse_destination_url("not a url").unwrap_err()),
        "destination_url must be a valid URL"
    );
}

#[test]
fn build_tracking_destination_encodes_spaces() {
    let destination = build_tracking_destination(&sample_link());
    assert!(destination.contains("utm_source=newsletter"));
    assert!(destination.contains("utm_medium=email"));
    assert!(destination.contains("utm_campaign=spring%20launch"));
}

#[test]
fn tracking_destination_exact_text() {
    let mut link = sample_link();
    link.destination_url = "https://example.com/p?x=1".to_string();
    link.utm_medium = None;
    assert_eq!(
        build_tracking_destination(&link),
        "https://example.com/p?x=1&utm_source=newsletter&utm_campaign=spring%20launch"
    );
}

#[test]
fn query_component_encoding() {
    assert_eq!(encode_query_component("a-b_c.d~e"), "a-b_c.d~e");
    assert_eq!(encode_query_component("a b&c"), "a%20b%26c");
    assert_eq!(encode_query_component("é"), "%C3%A9");
}

#[test]
fn public_query_is_sanitized() {
    assert!(!keep_public_param("", "v"));
    assert!(keep_public_param("k", "v"));
    assert!(!keep_public_param(&"k".repeat(65), "v"));
    assert!(!keep_public_param("v", &"x".repeat(257)));
    assert!(keep_public_param("z", &"x".repeat(256)));
    assert!(check_event_data_size(4096).is_ok());
    assert!(matches!(check_event_data_size(4097), Err(AppError::PayloadTooLarge)));
}
