use notion_cli::api::client::{
    bearer_value, network_kind, parse_retry_after, request_url, response_kind, retry_decision, retry_wait, CappedBody, ClientConfig,
    ResponseKind, MAX_RESPONSE_BYTES,
};
use notion_cli::api::error::ApiError;
use notion_cli::api::pagination::collect_step;
use notion_cli::cli::comment::comments_page_step;
use notion_cli::cli::user::{users_page_step, UserKind};
use notion_cli::config::NotionToken;
use notion_cli::observability::otel::install;

#[test]
fn retry_policy() {
    assert_eq!(retry_wait(1, Some(5)), Some(5));
    assert_eq!(retry_wait(2, None), Some(1));
    assert_eq!(retry_wait(1, Some(120)), Some(30));
    assert_eq!(retry_wait(3, Some(1)), None);
}

#[test]
fn retry_after_header() {
    assert_eq!(parse_retry_after(Some("12")), Some(12));
    assert_eq!(parse_retry_after(Some("+5")), Some(5));
    assert_eq!(parse_retry_after(Some(" 5")), None);
    assert_eq!(parse_retry_after(Some("Wed, 21 Oct 2015 07:28:00 GMT")), None);
    assert_eq!(parse_retry_after(Some("")), None);
    assert_eq!(parse_retry_after(None), None);
    assert_eq!(parse_retry_after(Some("18446744073709551616")), None);
}

#[test]
fn status_handling() {
    assert_eq!(response_kind(429), ResponseKind::RateLimited);
    assert_eq!(response_kind(200), ResponseKind::Success);
    assert_eq!(response_kind(204), ResponseKind::Success);
    assert_eq!(response_kind(404), ResponseKind::Failure);
    assert_eq!(response_kind(302), ResponseKind::Failure);
}

#[test]
fn capped_body() {
    assert!(matches!(CappedBody::start(4, Some(5)), Err(ApiError::BodyTooLarge { limit_bytes: 4 })));
    let mut b = CappedBody::start(4, Some(4)).unwrap();
    b.push_chunk(&[1, 2]).unwrap();
    assert!(matches!(b.push_chunk(&[3, 4, 5]), Err(ApiError::BodyTooLarge { limit_bytes: 4 })));
    b.push_chunk(&[3, 4]).unwrap();
    assert_eq!(b.into_bytes(), vec![1, 2, 3, 4]);
}

#[test]
fn defaults_and_headers() {
    let c = ClientConfig::default();
    assert_eq!(c.base_url, "https://api.notion.com");
    assert_eq!(c.connect_timeout, std::time::Duration::from_secs(10));
    assert_eq!(c.total_timeout, std::time::Duration::from_secs(60));
    assert_eq!(c.max_response_bytes, MAX_RESPONSE_BYTES);
    assert_eq!(c.rate_limit_per_sec, 3);
    assert_eq!(request_url("https://api.notion.com", "/search"), "https://api.notion.com/v1/search");
    assert_eq!(bearer_value(&NotionToken::new("ntn_x".to_string())), "Bearer ntn_x");
    assert_eq!(network_kind(true, true, false, false), "timeout");
    assert_eq!(network_kind(false, true, true, false), "connect");
    assert_eq!(network_kind(false, false, true, true), "decode");
    assert_eq!(network_kind(false, false, false, true), "body");
    assert_eq!(network_kind(false, false, false, false), "other");
}

#[test]
fn token_never_shown() {
    let t = NotionToken::new("ntn_1234567".to_string());
    assert_eq!(t.prefix(), "ntn_");
    assert_eq!(t.debug_text(), "NotionToken(ntn_…)");
    assert_eq!(t.display_text(), "");
    assert_eq!(NotionToken::new("ab".to_string()).prefix(), "ab");
}

#[test]
fn collection_steps() {
    let s = collect_step(&vec![true, false, true, true], 0, Some(2), true, false, true, Some("c".to_string()));
    assert_eq!(s.take, vec![0, 2]);
    assert!(s.next.is_none());
    let s = collect_step(&vec![true, true], 0, None, true, false, true, Some("c".to_string()));
    assert_eq!(s.take, vec![0, 1]);
    assert_eq!(s.next.as_deref(), Some("c"));
    let s = collect_step(&vec![true, true], 0, None, true, true, true, Some("c".to_string()));
    assert!(s.next.is_none());
    // A limit of zero still takes the first item: the cap is checked after taking.
    let s = collect_step(&vec![false, true, true], 0, Some(0), true, false, true, Some("c".to_string()));
    assert_eq!(s.take, vec![1]);
    assert!(s.next.is_none());
}

#[test]
fn user_and_comment_pages() {
    let kinds = vec![UserKind::Person, UserKind::Bot, UserKind::Bot, UserKind::Person];
    let s = users_page_step(&kinds, true, false, 0, None, false, true, Some("n".to_string()));
    assert_eq!(s.take, vec![1, 2]);
    assert_eq!(s.next.as_deref(), Some("n"));
    let s = users_page_step(&kinds, false, true, 1, Some(2), false, true, Some("n".to_string()));
    assert_eq!(s.take, vec![0]);
    assert!(s.next.is_none());
    let s = users_page_step(&kinds, false, false, 0, None, false, false, Some("n".to_string()));
    assert_eq!(s.take, vec![0, 1, 2, 3]);
    assert!(s.next.is_none());

    let s = comments_page_step(3, 0, Some(2), false, true, Some("n".to_string()));
    assert_eq!(s.take, vec![0, 1]);
    assert!(s.next.is_none());
    // Streamed or kept, comments already emitted count toward the limit.
    let s = comments_page_step(3, 1, Some(2), false, true, Some("n".to_string()));
    assert_eq!(s.take, vec![0]);
    assert!(s.next.is_none());
    let s = comments_page_step(3, 0, Some(5), false, true, Some("n".to_string()));
    assert_eq!(s.take, vec![0, 1, 2]);
    assert_eq!(s.next.as_deref(), Some("n"));
}

#[test]
fn telemetry_bootstrap_succeeds() {
    assert!(install(None).is_ok());
    assert!(install(Some("http://localhost:4317")).is_ok());
}

#[test]
fn only_rate_limits_are_retried() {
    let limited = |s: Option<u64>| -> Result<serde_json::Value, ApiError> { Err(ApiError::RateLimited { retry_after: s }) };
    assert_eq!(retry_decision(1, &limited(Some(5))), Some(5));
    assert_eq!(retry_decision(2, &limited(None)), Some(1));
    assert_eq!(retry_decision(1, &limited(Some(100))), Some(30));
    assert_eq!(retry_decision(3, &limited(Some(5))), None);
    let server: Result<serde_json::Value, ApiError> = Err(ApiError::ServerError { status: 502, message: String::new() });
    assert_eq!(retry_decision(1, &server), None);
    assert_eq!(retry_decision(1, &Ok(serde_json::Value::Null)), None);
}
