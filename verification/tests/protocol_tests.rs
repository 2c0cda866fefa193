use pipeup::protocol::connection_url;
use pipeup::{StreamConfig, StreamError, StreamSession};

#[test]
fn handshake_adopts_stream_id() {
    let mut s = StreamSession::new();
    let r = s.open_from_reply("{\"streamId\":\"abc123\"}");
    assert_eq!(r.unwrap(), "abc123");
}

#[test]
fn handshake_falls_back_to_snake_case() {
    let mut s = StreamSession::new();
    let r = s.open_from_reply("{\"stream_id\":\"xyz\"}");
    assert_eq!(r.unwrap(), "xyz");
}

#[test]
fn handshake_checks_camel_case_first() {
    let mut s = StreamSession::new();
    let r = s.open_from_reply("{\"streamId\":\"first\",\"stream_id\":\"second\"}");
    assert_eq!(r.unwrap(), "first");
}

#[test]
fn handshake_error_field_is_protocol_error() {
    let mut s = StreamSession::new();
    let r = s.open_from_reply("{\"error\":\"unauthorized\"}");
    match r {
        Err(StreamError::Protocol(m)) => assert_eq!(m, "unauthorized"),
        other => panic!("expected protocol error, got {other:?}"),
    }
    // The session stays unopened: no line may be framed.
    assert!(matches!(s.line_message("x"), Err(StreamError::NotOpened)));
}

#[test]
fn handshake_malformed_reply_is_protocol_error() {
    let mut s = StreamSession::new();
    let r = s.open_from_reply("not json at all");
    match r {
        Err(StreamError::Protocol(m)) => assert_eq!(m, "not json at all"),
        other => panic!("expected protocol error, got {other:?}"),
    }
}

#[test]
fn handshake_non_string_fields_are_rejected() {
    let mut s = StreamSession::new();
    let r = s.open_from_reply("{\"streamId\":42}");
    match r {
        Err(StreamError::Protocol(m)) => assert_eq!(m, "{\"streamId\":42}"),
        other => panic!("expected protocol error, got {other:?}"),
    }
}

#[test]
fn messages_require_an_opened_session() {
    let s = StreamSession::new();
    assert!(matches!(s.line_message("hello"), Err(StreamError::NotOpened)));
    assert!(matches!(s.end_message(), Err(StreamError::NotOpened)));
}

#[test]
fn line_message_shape() {
    let mut s = StreamSession::new();
    s.open_from_reply("{\"streamId\":\"s1\"}").unwrap();
    let m = s.line_message("hello").unwrap();
    assert_eq!(m, "{\"type\": \"line\", \"stream_id\": \"s1\", \"content\": \"hello\"}");
}

#[test]
fn line_message_escapes_content() {
    let mut s = StreamSession::new();
    s.open_from_reply("{\"streamId\":\"s1\"}").unwrap();
    let m = s.line_message("a\"b\\c").unwrap();
    assert_eq!(
        m,
        "{\"type\": \"line\", \"stream_id\": \"s1\", \"content\": \"a\\\"b\\\\c\"}"
    );
}

#[test]
fn line_message_is_valid_json() {
    let mut s = StreamSession::new();
    s.open_from_reply("{\"streamId\":\"s9\"}").unwrap();
    let m = s.line_message("tab\there").unwrap();
    let v: serde_json::Value = serde_json::from_str(&m).unwrap();
    assert_eq!(v.get("type").and_then(|f| f.as_str()), Some("line"));
    assert_eq!(v.get("stream_id").and_then(|f| f.as_str()), Some("s9"));
    assert_eq!(v.get("content").and_then(|f| f.as_str()), Some("tab\there"));
}

#[test]
fn end_message_shape() {
    let mut s = StreamSession::new();
    s.open_from_reply("{\"stream_id\":\"s2\"}").unwrap();
    let m = s.end_message().unwrap();
    assert_eq!(m, "{\"type\": \"end_stream\", \"stream_id\": \"s2\"}");
}

#[test]
fn connection_url_without_description() {
    let config = StreamConfig { name: "demo".to_string(), description: None };
    let url = connection_url("ws://localhost:3001", "abc", &config);
    assert_eq!(url, "ws://localhost:3001/api/stream/ws?token=abc&name=demo");
}

#[test]
fn connection_url_trims_trailing_slashes() {
    let config = StreamConfig { name: "demo".to_string(), description: None };
    let url = connection_url("ws://localhost:3001//", "t", &config);
    assert_eq!(url, "ws://localhost:3001/api/stream/ws?token=t&name=demo");
}

#[test]
fn connection_url_encodes_name_and_description() {
    let config = StreamConfig {
        name: "my stream".to_string(),
        description: Some("a/b c".to_string()),
    };
    let url = connection_url("ws://h", "tok", &config);
    assert_eq!(
        url,
        "ws://h/api/stream/ws?token=tok&name=my%20stream&description=a%2Fb%20c"
    );
}
