use notion_cli::api::error::{classify_error, server_error_hint, validation_hint, ApiError, NotionErrorBody};
use notion_cli::cli::error::CliError;

fn validation(code: &str, message: &str) -> ApiError {
    ApiError::Validation { code: code.to_string(), message: message.to_string() }
}

#[test]
fn wiki_data_source_hint() {
    let e = validation("validation_error", "Can't add data sources to a wiki.");
    let s = e.message();
    assert!(s.contains("hint:"), "got: {s}");
    assert!(s.contains("existing data source"), "got: {s}");
}

#[test]
fn missing_property_hint() {
    let e = validation("validation_error", "Foo is not a property that exists.");
    assert!(e.message().contains("notion-cli ds get"));
}

#[test]
fn object_not_found_suggests_sharing() {
    let e = validation("object_not_found", "Could not find page.");
    assert!(e.message().contains("Connections"));
}

#[test]
fn unknown_code_no_hint() {
    let e = validation("validation_error", "Totally novel failure.");
    let s = e.message();
    assert!(!s.contains("hint:"), "should not add hint: {s}");
}

#[test]
fn validation_message_exact_without_hint() {
    let e = validation("validation_error", "Totally novel failure.");
    assert_eq!(e.message(), "Notion validation error [validation_error]: Totally novel failure.");
}

#[test]
fn validation_message_with_hint_line() {
    let e = validation("validation_error", "Parent is ARCHIVED and cannot be edited");
    assert_eq!(
        e.message(),
        "Notion validation error [validation_error]: Parent is ARCHIVED and cannot be edited\n  → hint: Parent page/database is archived or in trash. Restore it in Notion UI before writing."
    );
}

#[test]
fn hint_rules_in_order() {
    assert!(validation_hint("validation_error", "expected number, got string").unwrap().contains("type mismatch"));
    assert!(validation_hint("x", "Cannot move page here").unwrap().starts_with("Page moves require"));
    assert!(validation_hint("x", "block type cannot be updated").unwrap().contains("Delete and re-append"));
    assert_eq!(validation_hint("x", "nothing to see"), None);
}

#[test]
fn server_hints() {
    assert!(server_error_hint(403, "Workspace token needed").unwrap().contains("OAuth user token"));
    assert!(server_error_hint(404, "property not found").unwrap().starts_with("Property ID"));
    assert_eq!(server_error_hint(500, "boom"), None);
}

#[test]
fn other_messages() {
    assert_eq!(ApiError::RateLimited { retry_after: Some(7) }.message(), "rate limited (retry after Some(7)s)");
    assert_eq!(ApiError::RateLimited { retry_after: None }.message(), "rate limited (retry after Nones)");
    assert_eq!(
        ApiError::ServerError { status: 502, message: "bad gateway".to_string() }.message(),
        "Notion server error (HTTP 502): bad gateway"
    );
    assert_eq!(
        ApiError::BodyTooLarge { limit_bytes: 10485760 }.message(),
        "response body exceeded cap of 10485760 bytes"
    );
    assert_eq!(
        ApiError::network("timeout", "slow".to_string()).message(),
        "network error (timeout): slow"
    );
    assert!(ApiError::Unauthorized.message().starts_with("request unauthorized"));
    assert!(ApiError::NotFound.message().starts_with("resource not found"));
}

#[test]
fn json_error_message_prefix() {
    let err = serde_json::from_str::<serde_json::Value>("{").unwrap_err();
    let e = ApiError::Json(err);
    assert!(e.message().starts_with("malformed JSON response: "));
    assert!(e.message().len() > "malformed JSON response: ".len());
}

#[test]
fn classify_by_status() {
    let body = NotionErrorBody { code: Some("validation_error".to_string()), message: Some("bad".to_string()) };
    match classify_error(400, Some(body), b"{}") {
        ApiError::Validation { code, message } => {
            assert_eq!(code, "validation_error");
            assert_eq!(message, "bad");
        }
        other => panic!("unexpected {other:?}"),
    }
    assert!(matches!(classify_error(401, None, b""), ApiError::Unauthorized));
    assert!(matches!(classify_error(404, None, b""), ApiError::NotFound));
    match classify_error(503, None, b"down for maintenance") {
        ApiError::ServerError { status, message } => {
            assert_eq!(status, 503);
            assert_eq!(message, "down for maintenance");
        }
        other => panic!("unexpected {other:?}"),
    }
    match classify_error(409, None, b"conflict") {
        ApiError::Validation { code, message } => {
            assert_eq!(code, "http_409");
            assert_eq!(message, "conflict");
        }
        other => panic!("unexpected {other:?}"),
    }
    // Other statuses keep their own code even when the body names one.
    let body = NotionErrorBody { code: Some("restricted_resource".to_string()), message: None };
    match classify_error(403, Some(body), b"nope") {
        ApiError::Validation { code, message } => {
            assert_eq!(code, "http_403");
            assert_eq!(message, "nope");
        }
        other => panic!("unexpected {other:?}"),
    }
}

#[test]
fn classify_lossy_body() {
    match classify_error(500, None, &[0x66, 0xff, 0x6f]) {
        ApiError::ServerError { message, .. } => assert_eq!(message, "f\u{fffd}o"),
        other => panic!("unexpected {other:?}"),
    }
}

#[test]
fn exit_codes_are_stable() {
    assert_eq!(CliError::Api(ApiError::Unauthorized).exit_code(), 10);
    assert_eq!(CliError::Api(validation("a", "b")).exit_code(), 2);
    assert_eq!(CliError::Api(ApiError::RateLimited { retry_after: None }).exit_code(), 4);
    assert_eq!(CliError::Api(ApiError::NotFound).exit_code(), 3);
    assert_eq!(CliError::Api(ApiError::BodyTooLarge { limit_bytes: 1 }).exit_code(), 3);
    assert_eq!(CliError::Api(ApiError::ServerError { status: 500, message: String::new() }).exit_code(), 3);
    assert_eq!(CliError::Api(ApiError::network("other", String::new())).exit_code(), 3);
    let json = serde_json::from_str::<serde_json::Value>("]").unwrap_err();
    assert_eq!(CliError::Api(ApiError::Json(json)).exit_code(), 65);
    assert_eq!(CliError::Validation(String::new()).exit_code(), 2);
    assert_eq!(CliError::Config(String::new()).exit_code(), 10);
    assert_eq!(CliError::Usage(String::new()).exit_code(), 64);
    let io = std::io::Error::new(std::io::ErrorKind::Other, "disk");
    assert_eq!(CliError::Io(io).exit_code(), 74);
    let json = serde_json::from_str::<serde_json::Value>("]").unwrap_err();
    assert_eq!(CliError::Json(json).exit_code(), 65);
}

#[test]
fn cli_error_messages() {
    assert_eq!(CliError::Validation("x".to_string()).message(), "validation error: x");
    assert_eq!(CliError::Config("y".to_string()).message(), "config error: y");
    assert_eq!(CliError::Usage("z".to_string()).message(), "usage error: z");
    let io = std::io::Error::new(std::io::ErrorKind::Other, "disk full");
    assert_eq!(CliError::Io(io).message(), "io error: disk full");
    assert!(CliError::Api(ApiError::NotFound).message().starts_with("resource not found"));
}

#[test]
fn hints_are_single_lines() {
    let messages = [
        "Can't add data sources to a wiki",
        "Foo is not a property that exists",
        "parent is archived",
        "expected number, got text",
        "block type cannot be updated",
        "Target data source not shared with integration",
        "Cannot create database under wiki",
        "Property name conflicts with synced content",
        "Cannot move page",
    ];
    for m in messages {
        let h = validation_hint("validation_error", m).unwrap();
        assert!(!h.contains('\n'), "{h}");
        let full = validation("validation_error", m).message();
        assert_eq!(full.lines().count(), 2, "{full}");
    }
    assert!(!validation_hint("object_not_found", "x").unwrap().contains('\n'));
    assert!(!server_error_hint(403, "workspace").unwrap().contains('\n'));
    assert!(!server_error_hint(404, "not found").unwrap().contains('\n'));
}

#[test]
fn server_error_message_carries_hint() {
    let e = ApiError::ServerError { status: 500, message: "filter_properties invalid (404)".to_string() };
    let h = server_error_hint(500, "filter_properties invalid (404)").unwrap();
    assert_eq!(e.message(), format!("Notion server error (HTTP 500): filter_properties invalid (404)\n  → hint: {h}"));
    let e = ApiError::ServerError { status: 403, message: "Workspace access denied".to_string() };
    assert!(e.message().contains("OAuth user token"), "got: {}", e.message());
    let e = ApiError::ServerError { status: 503, message: "unavailable".to_string() };
    assert_eq!(e.message(), "Notion server error (HTTP 503): unavailable");
}

#[test]
fn hints_ignore_case_and_code() {
    let m = "Foo is not a property that exists.";
    let upper = m.to_ascii_uppercase();
    assert_eq!(validation_hint("validation_error", m), validation_hint("validation_error", &upper));
    assert_eq!(validation_hint("validation_error", m), validation_hint("conflict_error", m));
    assert_eq!(validation_hint("validation_error", "novel"), None);
    assert!(validation_hint("object_not_found", "novel").is_some());
    assert_eq!(server_error_hint(403, "WORKSPACE denied"), server_error_hint(403, "workspace denied"));
}
