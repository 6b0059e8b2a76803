use relay::client::{
    api_error, bearer_header, chat_completions_url, completion_status_error, is_success,
    network_error, parse_sse_event, sse_chunk_of, stream_status_error, PartialToolCalls, SseBuffer,
    SseLine, StreamEvent,
};
use relay::error::RelayError;
use relay::json::{parse_json_value, JsonValue};

fn delta_line(delta: &str) -> String {
    format!("{{\"choices\":[{{\"index\":0,\"delta\":{delta},\"finish_reason\":null}}]}}")
}

#[test]
fn content_and_reasoning_events() {
    let mut p = PartialToolCalls::new();
    let line = delta_line("{\"content\":\"Hi\"}");
    assert!(matches!(parse_sse_event(&line, &mut p), Ok(Some(StreamEvent::Content(t))) if t == "Hi"));
    let line = delta_line("{\"content\":\"\",\"reasoning_content\":\"hmm\"}");
    assert!(matches!(parse_sse_event(&line, &mut p), Ok(Some(StreamEvent::Reasoning(t))) if t == "hmm"));
    let line = "{\"choices\":[{\"message\":{\"content\":\"x\"}}]}";
    assert!(matches!(parse_sse_event(line, &mut p), Ok(None)));
    assert!(matches!(parse_sse_event("{}", &mut p), Ok(None)));
}

#[test]
fn tool_calls_are_assembled_across_chunks() {
    let mut p = PartialToolCalls::new();
    let c1 = delta_line(
        "{\"tool_calls\":[{\"index\":0,\"id\":\"call_1\",\"type\":\"function\",\"function\":{\"name\":\"shell\",\"arguments\":\"{\\\"comm\"}}]}",
    );
    assert!(matches!(parse_sse_event(&c1, &mut p), Ok(None)));
    let c2 = delta_line("{\"tool_calls\":[{\"index\":0,\"function\":{\"arguments\":\"and\\\": \\\"ls\\\"}\"}}]}");
    assert!(matches!(parse_sse_event(&c2, &mut p), Ok(None)));
    let c3 = "{\"choices\":[{\"index\":0,\"delta\":{},\"finish_reason\":\"tool_calls\"}]}";
    match parse_sse_event(c3, &mut p) {
        Ok(Some(StreamEvent::ToolCall { id, name, args })) => {
            assert_eq!(id, "call_1");
            assert_eq!(name, "shell");
            assert_eq!(args, "{\"command\": \"ls\"}");
        }
        other => panic!("unexpected {other:?}"),
    }
    assert!(p.entries.is_empty());
}

#[test]
fn finish_and_usage_events() {
    let mut p = PartialToolCalls::new();
    let c = "{\"choices\":[{\"delta\":{},\"finish_reason\":\"length\"}]}";
    assert!(matches!(parse_sse_event(c, &mut p), Ok(Some(StreamEvent::Warning(w))) if w == "response truncated (max_tokens)"));
    let c = "{\"choices\":[{\"delta\":{}}],\"usage\":{\"prompt_tokens\":10,\"total_tokens\":15}}";
    assert!(matches!(
        parse_sse_event(c, &mut p),
        Ok(Some(StreamEvent::Usage { prompt_tokens: 10, completion_tokens: 0, total_tokens: 15 }))
    ));
    let c = "{\"choices\":[{\"delta\":{}}],\"usage\":{\"total_tokens\":15}}";
    assert!(matches!(parse_sse_event(c, &mut p), Ok(None)));
    let c = "{\"choices\":[{\"delta\":{},\"finish_reason\":\"tool_calls\"}]}";
    assert!(matches!(parse_sse_event(c, &mut p), Ok(None)));
}

#[test]
fn chunk_fields_are_read_from_json() {
    let v = parse_json_value(
        "{\"choices\":[{\"delta\":{\"content\":\"a\",\"reasoning_content\":\"b\"},\"finish_reason\":\"stop\"}],\"usage\":{\"prompt_tokens\":1,\"completion_tokens\":2,\"total_tokens\":3}}",
    )
    .unwrap();
    let c = sse_chunk_of(&v);
    assert!(c.has_delta);
    assert_eq!(c.content.as_deref(), Some("a"));
    assert_eq!(c.reasoning.as_deref(), Some("b"));
    assert!(c.tool_calls.is_none());
    assert_eq!(c.finish_reason.as_deref(), Some("stop"));
    let u = c.usage.unwrap();
    assert_eq!((u.prompt_tokens, u.completion_tokens, u.total_tokens), (Some(1), Some(2), Some(3)));
    assert!(matches!(parse_json_value("[1, -2, \"x\", null, true]"), Ok(JsonValue::Array(a)) if a.len() == 5
        && matches!(a[0], JsonValue::Number(Some(1)))
        && matches!(a[1], JsonValue::Number(None))
        && matches!(&a[2], JsonValue::Text(t) if t == "x")
        && matches!(a[3], JsonValue::Null)
        && matches!(a[4], JsonValue::Bool(true))));
}

#[test]
fn unparsable_chunk_is_an_api_error() {
    let mut p = PartialToolCalls::new();
    match parse_sse_event("{bad", &mut p) {
        Err(RelayError::Api { status, message, body }) => {
            assert_eq!(status, 0);
            assert!(message.starts_with("parse SSE: "));
            assert_eq!(body.as_deref(), Some("{bad"));
        }
        other => panic!("unexpected {other:?}"),
    }
}

#[test]
fn sse_lines_are_split_and_classified() {
    let mut b = SseBuffer::new();
    b.push_text("data: {\"a\":1}\n\n: keep-alive\ndata: [DO");
    assert!(matches!(b.next_line(), Some(SseLine::Data(d)) if d == "{\"a\":1}"));
    assert!(matches!(b.next_line(), Some(SseLine::Skip)));
    assert!(matches!(b.next_line(), Some(SseLine::Skip)));
    assert!(b.next_line().is_none());
    b.push_text("NE]\r\n");
    assert!(matches!(b.next_line(), Some(SseLine::Done)));
    assert!(b.buffer.is_empty());
}

#[test]
fn request_helpers() {
    assert_eq!(chat_completions_url("https://api.deepseek.com/"), "https://api.deepseek.com/chat/completions");
    assert_eq!(chat_completions_url("https://x.org/v1"), "https://x.org/v1/chat/completions");
    assert_eq!(bearer_header("sk-1"), "Bearer sk-1");
    assert!(is_success(200) && is_success(299) && !is_success(300) && !is_success(199));
}

#[test]
fn status_errors() {
    assert!(matches!(stream_status_error(401), Some(RelayError::Auth(m)) if m == "invalid API key"));
    assert!(matches!(stream_status_error(429), Some(RelayError::RateLimit(m)) if m == "rate limited"));
    assert!(stream_status_error(500).is_none());
    assert!(matches!(completion_status_error(429, "later".to_string()), RelayError::RateLimit(m) if m == "later"));
    assert!(matches!(completion_status_error(401, String::new()), RelayError::Auth(_)));
    assert!(matches!(api_error(503, "b".to_string()), RelayError::Api { status: 503, .. }));
    assert!(matches!(network_error(true, "x".to_string()), RelayError::Network(m) if m == "request timed out"));
    assert!(matches!(network_error(false, "refused".to_string()), RelayError::Network(m) if m == "refused"));
}

#[test]
fn retries_only_for_passing_failures() {
    let net = RelayError::Network("down".to_string());
    assert!(relay::client::should_retry(&net, 0, 3));
    assert!(relay::client::should_retry(&net, 1, 3));
    assert!(!relay::client::should_retry(&net, 2, 3));
    assert!(relay::client::should_retry(&RelayError::RateLimit("x".into()), 0, 3));
    assert!(relay::client::should_retry(&api_error(502, String::new()), 0, 3));
    assert!(!relay::client::should_retry(&api_error(400, String::new()), 0, 3));
    assert!(!relay::client::should_retry(&RelayError::Auth("k".into()), 0, 3));
    assert!(!relay::client::should_retry(&net, 0, 0));
}
