use notion_cli::api::version::NOTION_API_VERSION;
use notion_cli::output::{output_value, stream_end, stream_error, stream_item, wrap_untrusted, Output, StreamFrame};

#[test]
fn envelope_fields() {
    let content = serde_json::Value::String("hello".to_string());
    let e = wrap_untrusted(content.clone());
    assert_eq!(e.source, "notion");
    assert_eq!(e.trust, "untrusted");
    assert_eq!(e.api_version, NOTION_API_VERSION);
    assert_eq!(e.content, content);
}

#[test]
fn raw_skips_envelope() {
    let v = serde_json::Value::Bool(true);
    assert!(matches!(output_value(true, v.clone()), Output::Raw(x) if x == v));
    assert!(matches!(output_value(false, v.clone()), Output::Enveloped(e) if e.content == v && e.trust == "untrusted"));
}

#[test]
fn stream_frames() {
    assert!(matches!(stream_item(serde_json::Value::Null), StreamFrame::Item { content } if content.is_null()));
    assert!(matches!(stream_end(None), StreamFrame::End { cursor: None }));
    assert!(matches!(stream_end(Some("c")), StreamFrame::End { cursor: Some(c) } if c == "c"));
    assert!(matches!(
        stream_error(Some("k"), "api_error", "boom"),
        StreamFrame::Error { at_cursor: Some(a), code, message } if a == "k" && code == "api_error" && message == "boom"
    ));
}
