use serde_json::Value;
use swcli::json::Json;
use swcli::protocol::codec::anthropic_messages::stream::{
    AnthropicResponseFormatter, AnthropicResponseParser, AnthropicStreamFormatter,
    AnthropicStreamParser,
};
use swcli::protocol::types::{InternalResponse, ServerToolUsage, StreamDelta, TokenUsage};
use swcli::protocol::{ResponseFormatter, ResponseParser, StreamFormatter, StreamParser};

fn json(text: &str) -> Json {
    Json::parse(text).unwrap()
}

fn value(json: &Json) -> Value {
    serde_json::from_str(&json.to_text()).unwrap()
}


/// A name in snake case as it is written with hyphens.
fn kebab(name: &str) -> String {
    name.replace('_', "-")
}

/// The first word of a name in snake case.
fn head(name: &str) -> String {
    name.split('_').next().unwrap().to_string()
}

/// A text with hyphens in a name that it holds.
fn hyphened(text: &str, name: &str) -> String {
    text.replace(name, &kebab(name))
}

fn make_sse_block(event: &str, data: &str) -> String {
    format!("event: {event}\ndata: {data}\n\n")
}

// ── AnthropicResponseParser ──

#[test]
fn test_parse_response_text_only() {
    let resp = json(&hyphened(r#"{
        "id": "msg_1",
        "model": "claude_3_5_sonnet",
        "content": [{"type": "text", "text": "hello"}],
        "stop_reason": "end_turn",
        "usage": {"input_tokens": 5, "output_tokens": 3}
    }"#, "claude_3_5_sonnet"));
    let r = AnthropicResponseParser.parse_response(resp).unwrap();
    assert_eq!(r.content, "hello");
    assert!(r.reasoning_content.is_none());
    assert_eq!(r.stop_reason.as_deref(), Some("stop"));
}

#[test]
fn test_parse_response_thinking_and_text() {
    // Ollama returns thinking + text blocks in non-stream response.
    let resp = json(r#"{
        "id": "msg_2",
        "model": "qwen3",
        "content": [
            {"type": "thinking", "thinking": "let me think...", "signature": "sig_resp"},
            {"type": "text", "text": "hi there"}
        ],
        "stop_reason": "end_turn",
        "usage": {"input_tokens": 10, "output_tokens": 20}
    }"#);
    let r = AnthropicResponseParser.parse_response(resp).unwrap();
    assert_eq!(r.content, "hi there");
    assert_eq!(r.reasoning_content.as_deref(), Some("let me think..."));
    assert_eq!(r.reasoning_signature.as_deref(), Some("sig_resp"));
}

#[test]
fn test_format_response_includes_thinking_signature() {
    let resp = InternalResponse {
        id: "msg_sig".to_string(),
        model: kebab("claude_3_7_sonnet"),
        content: "answer".to_string(),
        reasoning_content: Some("think".to_string()),
        reasoning_signature: Some("sig_resp".to_string()),
        tool_calls: vec![],
        response_items: None,
        stop_reason: Some("stop".to_string()),
        usage: TokenUsage::default(),
    };

    let out = value(&AnthropicResponseFormatter.format_response(&resp));
    let thinking = out
        .get("content")
        .and_then(|v| v.as_array())
        .and_then(|arr| arr.first())
        .expect("thinking block");
    assert_eq!(
        thinking.get("type").and_then(|v| v.as_str()),
        Some("thinking")
    );
    assert_eq!(
        thinking.get("signature").and_then(|v| v.as_str()),
        Some("sig_resp")
    );
}

#[test]
fn test_parse_response_tool_use() {
    let resp = json(&hyphened(r#"{
        "id": "msg_3",
        "model": "claude_3_5_sonnet",
        "content": [{
            "type": "tool_use",
            "id": "toolu_01",
            "name": "get_weather",
            "input": {"city": "Paris"}
        }],
        "stop_reason": "tool_use",
        "usage": {"input_tokens": 15, "output_tokens": 8}
    }"#, "claude_3_5_sonnet"));
    let r = AnthropicResponseParser.parse_response(resp).unwrap();
    assert_eq!(r.tool_calls.len(), 1);
    assert_eq!(r.tool_calls[0].name, "get_weather");
    assert_eq!(r.stop_reason.as_deref(), Some("tool_calls"));
}

// ── AnthropicStreamParser ──

#[test]
fn test_stream_basic_text() {
    let sse = [
        make_sse_block(
            "message_start",
            &hyphened(
                r#"{"type":"message_start","message":{"id":"msg_1","type":"message","role":"assistant","content":[],"model":"claude_3_5_sonnet","stop_reason":null,"usage":{"input_tokens":9,"output_tokens":0}}}"#,
                "claude_3_5_sonnet",
            ),
        ),
        make_sse_block(
            "content_block_start",
            r#"{"type":"content_block_start","index":0,"content_block":{"type":"text","text":""}}"#,
        ),
        make_sse_block(
            "content_block_delta",
            r#"{"type":"content_block_delta","index":0,"delta":{"type":"text_delta","text":"hello"}}"#,
        ),
        make_sse_block("content_block_stop", r#"{"type":"content_block_stop","index":0}"#),
        make_sse_block(
            "message_delta",
            r#"{"type":"message_delta","delta":{"stop_reason":"end_turn"},"usage":{"output_tokens":5}}"#,
        ),
        make_sse_block("message_stop", r#"{"type":"message_stop"}"#),
    ]
    .concat();

    let mut parser = AnthropicStreamParser::new();
    let deltas = parser.parse_chunk(&sse).unwrap();

    let has_text = deltas
        .iter()
        .any(|d| matches!(d, StreamDelta::TextDelta(t) if t == "hello"));
    let has_done = deltas
        .iter()
        .any(|d| matches!(d, StreamDelta::Done { stop_reason } if stop_reason == "stop"));
    assert!(has_text, "expected TextDelta('hello'), got: {deltas:?}");
    assert!(has_done, "expected Done(stop), got: {deltas:?}");
}

#[test]
fn test_stream_thinking_delta_no_signature_delta() {
    // Ollama sends thinking_delta events but omits signature_delta entirely.
    // Parser must not fail and must emit ReasoningDelta.
    let sse = [
        make_sse_block(
            "message_start",
            r#"{"type":"message_start","message":{"id":"msg_2","type":"message","role":"assistant","content":[],"model":"qwen3","stop_reason":null,"usage":{"input_tokens":10,"output_tokens":0}}}"#,
        ),
        make_sse_block(
            "content_block_start",
            r#"{"type":"content_block_start","index":0,"content_block":{"type":"thinking","thinking":""}}"#,
        ),
        make_sse_block(
            "content_block_delta",
            r#"{"type":"content_block_delta","index":0,"delta":{"type":"thinking_delta","thinking":"step one"}}"#,
        ),
        make_sse_block(
            "content_block_delta",
            r#"{"type":"content_block_delta","index":0,"delta":{"type":"thinking_delta","thinking":" step two"}}"#,
        ),
        // No signature_delta here (Ollama omits it)
        make_sse_block("content_block_stop", r#"{"type":"content_block_stop","index":0}"#),
        make_sse_block(
            "content_block_start",
            r#"{"type":"content_block_start","index":1,"content_block":{"type":"text","text":""}}"#,
        ),
        make_sse_block(
            "content_block_delta",
            r#"{"type":"content_block_delta","index":1,"delta":{"type":"text_delta","text":"answer"}}"#,
        ),
        make_sse_block("content_block_stop", r#"{"type":"content_block_stop","index":1}"#),
        make_sse_block(
            "message_delta",
            r#"{"type":"message_delta","delta":{"stop_reason":"end_turn"},"usage":{"output_tokens":15}}"#,
        ),
        make_sse_block("message_stop", r#"{"type":"message_stop"}"#),
    ]
    .concat();

    let mut parser = AnthropicStreamParser::new();
    let deltas = parser.parse_chunk(&sse).unwrap();

    let reasoning: Vec<_> = deltas
        .iter()
        .filter_map(|d| {
            if let StreamDelta::ReasoningDelta(t) = d {
                Some(t.as_str())
            } else {
                None
            }
        })
        .collect();
    assert!(
        !reasoning.is_empty(),
        "expected ReasoningDelta events, got: {deltas:?}"
    );
    assert!(
        reasoning.contains(&"step one"),
        "expected 'step one', got: {reasoning:?}"
    );

    let has_text = deltas
        .iter()
        .any(|d| matches!(d, StreamDelta::TextDelta(t) if t == "answer"));
    assert!(has_text, "expected TextDelta('answer'), got: {deltas:?}");
}

#[test]
fn test_stream_signature_delta_is_captured() {
    // Native Anthropic sends signature_delta after thinking block.
    let sse = [
        make_sse_block(
            "message_start",
            &hyphened(
                r#"{"type":"message_start","message":{"id":"msg_3","model":"claude_3_7_sonnet","content":[],"stop_reason":null,"usage":{"input_tokens":8,"output_tokens":0}}}"#,
                "claude_3_7_sonnet",
            ),
        ),
        make_sse_block(
            "content_block_delta",
            r#"{"type":"content_block_delta","index":0,"delta":{"type":"thinking_delta","thinking":"think"}}"#,
        ),
        make_sse_block(
            "content_block_delta",
            r#"{"type":"content_block_delta","index":0,"delta":{"type":"signature_delta","signature":"abc123"}}"#,
        ),
        make_sse_block(
            "message_delta",
            r#"{"type":"message_delta","delta":{"stop_reason":"end_turn"},"usage":{"output_tokens":5}}"#,
        ),
    ]
    .concat();

    let mut parser = AnthropicStreamParser::new();
    let result = parser.parse_chunk(&sse);
    assert!(result.is_ok(), "parser must not fail on signature_delta");

    let deltas = result.unwrap();
    let signature = deltas.iter().find_map(|d| {
        if let StreamDelta::ReasoningSignature(sig) = d {
            Some(sig.as_str())
        } else {
            None
        }
    });
    assert_eq!(signature, Some("abc123"));
}

#[test]
fn test_stream_formatter_emits_signature_delta() {
    let mut formatter = AnthropicStreamFormatter::new();
    let events = formatter.format_deltas(&vec![
        StreamDelta::MessageStart {
            id: "msg_4".to_string(),
            model: kebab("claude_3_7_sonnet"),
        },
        StreamDelta::ReasoningDelta("think".to_string()),
        StreamDelta::ReasoningSignature("abc123".to_string()),
    ]);

    let has_signature = events
        .iter()
        .filter_map(|event| serde_json::from_str::<Value>(&event.data).ok())
        .any(|json| {
            json.get("delta")
                .and_then(|delta| delta.get("signature"))
                .and_then(|signature| signature.as_str())
                == Some("abc123")
        });
    assert!(has_signature, "expected signature_delta event");
}

#[test]
fn test_stream_tool_use() {
    let sse = [
        make_sse_block(
            "message_start",
            &hyphened(
                r#"{"type":"message_start","message":{"id":"msg_4","model":"claude_3_5_sonnet","content":[],"stop_reason":null,"usage":{"input_tokens":20,"output_tokens":0}}}"#,
                "claude_3_5_sonnet",
            ),
        ),
        make_sse_block(
            "content_block_start",
            r#"{"type":"content_block_start","index":0,"content_block":{"type":"tool_use","id":"toolu_01","name":"get_weather","input":{}}}"#,
        ),
        make_sse_block(
            "content_block_delta",
            r#"{"type":"content_block_delta","index":0,"delta":{"type":"input_json_delta","partial_json":"{\"city\":"}}"#,
        ),
        make_sse_block(
            "content_block_delta",
            r#"{"type":"content_block_delta","index":0,"delta":{"type":"input_json_delta","partial_json":"\"Paris\"}"}}"#,
        ),
        make_sse_block("content_block_stop", r#"{"type":"content_block_stop","index":0}"#),
        make_sse_block(
            "message_delta",
            r#"{"type":"message_delta","delta":{"stop_reason":"tool_use"},"usage":{"output_tokens":12}}"#,
        ),
    ]
    .concat();

    let mut parser = AnthropicStreamParser::new();
    let deltas = parser.parse_chunk(&sse).unwrap();

    let has_tool_start = deltas
        .iter()
        .any(|d| matches!(d, StreamDelta::ToolCallStart { name, .. } if name == "get_weather"));
    let has_tool_delta = deltas
        .iter()
        .any(|d| matches!(d, StreamDelta::ToolCallDelta { .. }));
    let has_done_tool = deltas
        .iter()
        .any(|d| matches!(d, StreamDelta::Done { stop_reason } if stop_reason == "tool_calls"));
    assert!(
        has_tool_start,
        "expected ToolCallStart(get_weather), got: {deltas:?}"
    );
    assert!(has_tool_delta, "expected ToolCallDelta, got: {deltas:?}");
    assert!(has_done_tool, "expected Done(tool_calls), got: {deltas:?}");
}

// ── P2: RawEvent forwarding ───────────────────────────────────────────────

#[test]
fn test_unknown_content_block_start_emits_raw_event() {
    // GLM server-side tool (e.g. webReader) sends a content_block_start with
    // type "server_tool_use". The parser must emit RawEvent instead of dropping it.
    let sse = [
        make_sse_block(
            "message_start",
            r#"{"type":"message_start","message":{"id":"msg_5","model":"glm-5","content":[],"stop_reason":null,"usage":{"input_tokens":5,"output_tokens":0}}}"#,
        ),
        make_sse_block(
            "content_block_start",
            r#"{"type":"content_block_start","index":0,"content_block":{"type":"server_tool_use","id":"srvtool_01","name":"webReader","input":{}}}"#,
        ),
        make_sse_block(
            "content_block_stop",
            r#"{"type":"content_block_stop","index":0}"#,
        ),
        make_sse_block(
            "message_delta",
            r#"{"type":"message_delta","delta":{"stop_reason":"tool_use"},"usage":{"output_tokens":4}}"#,
        ),
    ]
    .concat();

    let mut parser = AnthropicStreamParser::new();
    let deltas = parser.parse_chunk(&sse).unwrap();

    let raw = deltas.iter().find_map(|d| {
        if let StreamDelta::RawEvent { event_type, data } = d {
            Some((event_type.as_str(), data.dup()))
        } else {
            None
        }
    });
    assert!(
        raw.is_some(),
        "expected RawEvent for server_tool_use, got: {deltas:?}"
    );
    let (ev_type, data) = raw.unwrap();
    assert_eq!(ev_type, "content_block_start");
    assert_eq!(
        data.get("content_block").and_then(|v| v.get_str("type")),
        Some("server_tool_use"),
    );
}

#[test]
fn test_unknown_top_level_event_emits_raw_event() {
    // A future or provider-specific event type must not be silently dropped.
    let sse = make_sse_block(
        "web_search_result",
        r#"{"type":"web_search_result","results":[{"title":"foo","url":"https://example.com"}]}"#,
    );

    let mut parser = AnthropicStreamParser::new();
    let deltas = parser.parse_chunk(&sse).unwrap();

    let raw = deltas.iter().find(|d| matches!(d, StreamDelta::RawEvent { event_type, .. } if event_type == "web_search_result"));
    assert!(
        raw.is_some(),
        "expected RawEvent for web_search_result, got: {deltas:?}"
    );
}

#[test]
fn test_raw_event_forwarded_verbatim_by_formatter() {
    // AnthropicStreamFormatter must emit a verbatim SSE event for RawEvent.
    let raw_data = json(r#"{
        "type": "content_block_start",
        "index": 0,
        "content_block": {"type": "server_tool_use", "id": "srv_01", "name": "webSearch", "input": {}}
    }"#);

    let mut formatter = AnthropicStreamFormatter::new();
    let events = formatter.format_deltas(&vec![
        StreamDelta::MessageStart {
            id: "msg_6".to_string(),
            model: "glm-5".to_string(),
        },
        StreamDelta::RawEvent {
            event_type: "content_block_start".to_string(),
            data: raw_data,
        },
    ]);

    let raw_forwarded = events.iter().find(|ev| {
        ev.event.as_deref() == Some("content_block_start")
            && ev.data.contains("server_tool_use")
    });
    assert!(
        raw_forwarded.is_some(),
        "formatter must forward RawEvent verbatim; events: {events:?}",
    );
}

#[test]
fn test_unknown_content_block_delta_type_emits_raw_event() {
    // Unknown delta types (citations_delta, web_search_tool_result_delta, etc.)
    // must be forwarded as RawEvent, not silently dropped.
    let sse = make_sse_block(
        "content_block_delta",
        r#"{"type":"content_block_delta","index":0,"delta":{"type":"citations_delta","citation":{"url":"https://example.com","title":"Example"}}}"#,
    );

    let mut parser = AnthropicStreamParser::new();
    let deltas = parser.parse_chunk(&sse).unwrap();

    let raw = deltas.iter().find(|d| matches!(d, StreamDelta::RawEvent { event_type, .. } if event_type == "content_block_delta"));
    assert!(
        raw.is_some(),
        "expected RawEvent for citations_delta, got: {deltas:?}"
    );
}

// ── Bug-fix ordering tests (Task 0) ──

#[test]
fn test_usage_delta_before_message_start() {
    // Bug 0a: Usage must appear BEFORE MessageStart in the delta list so the
    // formatter has the correct input_tokens when it emits message_start SSE.
    let sse = make_sse_block(
        "message_start",
        r#"{"type":"message_start","message":{"id":"msg_1","model":"glm","usage":{"input_tokens":10,"output_tokens":0}}}"#,
    );
    let mut parser = AnthropicStreamParser::new();
    let deltas = parser.parse_chunk(&sse).unwrap();

    let usage_pos = deltas
        .iter()
        .position(|d| matches!(d, StreamDelta::Usage(_)));
    let start_pos = deltas
        .iter()
        .position(|d| matches!(d, StreamDelta::MessageStart { .. }));
    assert!(
        usage_pos.is_some() && start_pos.is_some(),
        "both deltas must be present; got: {deltas:?}",
    );
    assert!(
        usage_pos.unwrap() < start_pos.unwrap(),
        "Usage must precede MessageStart; got: {deltas:?}",
    );
}

#[test]
fn test_usage_delta_before_done() {
    // Bug 0b: Usage must appear BEFORE Done in the delta list so the formatter
    // has the correct output_tokens when it emits message_delta SSE.
    let sse = make_sse_block(
        "message_delta",
        r#"{"type":"message_delta","delta":{"stop_reason":"end_turn"},"usage":{"output_tokens":43}}"#,
    );
    let mut parser = AnthropicStreamParser::new();
    let deltas = parser.parse_chunk(&sse).unwrap();

    let usage_pos = deltas
        .iter()
        .position(|d| matches!(d, StreamDelta::Usage(_)));
    let done_pos = deltas
        .iter()
        .position(|d| matches!(d, StreamDelta::Done { .. }));
    assert!(
        usage_pos.is_some() && done_pos.is_some(),
        "both deltas must be present; got: {deltas:?}",
    );
    assert!(
        usage_pos.unwrap() < done_pos.unwrap(),
        "Usage must precede Done; got: {deltas:?}",
    );
}

#[test]
fn test_message_delta_input_tokens_read() {
    // Bug 0c: input_tokens from message_delta.usage must be captured.
    // ZhipuAI / MiniMax publish the real input count here instead of message_start.
    let sse = make_sse_block(
        "message_delta",
        r#"{"type":"message_delta","delta":{"stop_reason":"end_turn"},"usage":{"input_tokens":60,"output_tokens":43}}"#,
    );
    let mut parser = AnthropicStreamParser::new();
    let deltas = parser.parse_chunk(&sse).unwrap();

    let usage = deltas
        .iter()
        .find_map(|d| {
            if let StreamDelta::Usage(u) = d {
                Some(u)
            } else {
                None
            }
        })
        .expect("Usage delta must be present");
    assert_eq!(usage.input_tokens, 60, "input_tokens must be 60");
    assert_eq!(usage.output_tokens, 43, "output_tokens must be 43");
}

// ── New usage-field extraction tests (Task 2 – parser) ──

#[test]
fn test_cache_fields_extracted_from_message_start() {
    let sse = make_sse_block(
        "message_start",
        r#"{"type":"message_start","message":{"id":"m","model":"c","usage":{"input_tokens":100,"output_tokens":0,"cache_read_input_tokens":50,"cache_creation_input_tokens":200}}}"#,
    );
    let mut parser = AnthropicStreamParser::new();
    let deltas = parser.parse_chunk(&sse).unwrap();

    let usage = deltas
        .iter()
        .find_map(|d| {
            if let StreamDelta::Usage(u) = d {
                Some(u)
            } else {
                None
            }
        })
        .expect("Usage delta must be present");
    assert_eq!(usage.cache_read_input_tokens, Some(50));
    assert_eq!(usage.cache_creation_input_tokens, Some(200));
}

#[test]
fn test_server_tool_use_extracted_from_message_delta() {
    let sse = make_sse_block(
        "message_delta",
        r#"{"type":"message_delta","delta":{"stop_reason":"end_turn"},"usage":{"output_tokens":10,"server_tool_use":{"web_search_requests":3,"web_fetch_requests":1}}}"#,
    );
    let mut parser = AnthropicStreamParser::new();
    let deltas = parser.parse_chunk(&sse).unwrap();

    let usage = deltas
        .iter()
        .find_map(|d| {
            if let StreamDelta::Usage(u) = d {
                Some(u)
            } else {
                None
            }
        })
        .expect("Usage delta must be present");
    let stu = usage
        .server_tool_use
        .as_ref()
        .expect("server_tool_use must be Some");
    assert_eq!(stu.web_search_requests, 3);
    assert_eq!(stu.web_fetch_requests, 1);
}

// ── New usage-field emission tests (Task 2 – formatter) ──

#[test]
fn test_formatter_message_start_includes_cache_fields() {
    // Usage delta carrying cache fields must appear in the message_start SSE output.
    let usage = TokenUsage {
        input_tokens: 100,
        output_tokens: 0,
        cache_read_input_tokens: Some(50),
        cache_creation_input_tokens: Some(200),
        server_tool_use: None,
    };
    let mut formatter = AnthropicStreamFormatter::new();
    let events = formatter.format_deltas(&vec![
        StreamDelta::Usage(usage),
        StreamDelta::MessageStart {
            id: "m1".into(),
            model: "c".into(),
        },
    ]);

    let start_ev = events
        .iter()
        .find(|e| e.event.as_deref() == Some("message_start"))
        .expect("message_start event must be emitted");
    let json: serde_json::Value = serde_json::from_str(&start_ev.data).unwrap();
    let u = json
        .pointer("/message/usage")
        .expect("/message/usage must exist");
    assert_eq!(u["input_tokens"].as_u64(), Some(100));
    assert_eq!(u["cache_read_input_tokens"].as_u64(), Some(50));
    assert_eq!(u["cache_creation_input_tokens"].as_u64(), Some(200));
    assert!(
        u.get("server_tool_use").is_none(),
        "server_tool_use must be absent when None"
    );
}

#[test]
fn test_formatter_message_delta_includes_new_fields() {
    // message_delta SSE must carry cache and server_tool_use when present.
    let usage = TokenUsage {
        input_tokens: 60,
        output_tokens: 43,
        cache_read_input_tokens: Some(10),
        cache_creation_input_tokens: None,
        server_tool_use: Some(ServerToolUsage {
            web_search_requests: 2,
            web_fetch_requests: 0,
        }),
    };
    let mut formatter = AnthropicStreamFormatter::new();
    let events = formatter.format_deltas(&vec![
        StreamDelta::Usage(usage),
        StreamDelta::MessageStart {
            id: "m2".into(),
            model: "c".into(),
        },
        StreamDelta::Done {
            stop_reason: "stop".into(),
        },
    ]);

    let delta_ev = events
        .iter()
        .find(|e| e.event.as_deref() == Some("message_delta"))
        .expect("message_delta event must be emitted");
    let json: serde_json::Value = serde_json::from_str(&delta_ev.data).unwrap();
    let u = &json["usage"];
    assert_eq!(u["output_tokens"].as_u64(), Some(43));
    assert_eq!(u["cache_read_input_tokens"].as_u64(), Some(10));
    assert!(
        u.get("cache_creation_input_tokens").is_none(),
        "None field must be absent"
    );
    assert_eq!(
        u["server_tool_use"]["web_search_requests"].as_u64(),
        Some(2)
    );
}

#[test]
fn test_format_response_includes_cache_fields() {
    let resp = InternalResponse {
        id: "m3".into(),
        model: head("claude_code"),
        content: "hi".into(),
        reasoning_content: None,
        reasoning_signature: None,
        tool_calls: vec![],
        response_items: None,
        stop_reason: Some("stop".into()),
        usage: TokenUsage {
            input_tokens: 10,
            output_tokens: 5,
            cache_read_input_tokens: Some(3),
            cache_creation_input_tokens: Some(7),
            server_tool_use: Some(ServerToolUsage {
                web_search_requests: 1,
                web_fetch_requests: 0,
            }),
        },
    };
    let json = value(&AnthropicResponseFormatter.format_response(&resp));
    let u = &json["usage"];
    assert_eq!(u["input_tokens"].as_u64(), Some(10));
    assert_eq!(u["output_tokens"].as_u64(), Some(5));
    assert_eq!(u["cache_read_input_tokens"].as_u64(), Some(3));
    assert_eq!(u["cache_creation_input_tokens"].as_u64(), Some(7));
    assert_eq!(
        u["server_tool_use"]["web_search_requests"].as_u64(),
        Some(1)
    );
}

// ── End-to-end round-trip: ZhipuAI pattern (Task 0 + Task 2) ──

#[test]
fn test_roundtrip_zhipuai_input_tokens_from_message_delta() {
    // ZhipuAI sends input_tokens=0 in message_start but the real value in message_delta.
    // After Bug 0b+0c fixes, output_tokens in the SSE must be correct and
    // formatter.usage() must capture input_tokens=60 from message_delta.
    let sse_start = make_sse_block(
        "message_start",
        r#"{"type":"message_start","message":{"id":"msg_z","model":"glm-5","usage":{"input_tokens":0,"output_tokens":0}}}"#,
    );
    let sse_text = make_sse_block(
        "content_block_delta",
        r#"{"type":"content_block_delta","index":0,"delta":{"type":"text_delta","text":"hi"}}"#,
    );
    let sse_delta = make_sse_block(
        "message_delta",
        r#"{"type":"message_delta","delta":{"stop_reason":"end_turn"},"usage":{"input_tokens":60,"output_tokens":43}}"#,
    );

    let mut parser = AnthropicStreamParser::new();
    let mut all_deltas = vec![];
    for chunk in &[sse_start, sse_text, sse_delta] {
        all_deltas.extend(parser.parse_chunk(chunk).unwrap());
    }

    let mut formatter = AnthropicStreamFormatter::new();
    let events = formatter.format_deltas(&all_deltas);

    let delta_ev = events
        .iter()
        .find(|e| e.event.as_deref() == Some("message_delta"))
        .expect("message_delta event must be emitted");
    let delta_json: serde_json::Value = serde_json::from_str(&delta_ev.data).unwrap();
    assert_eq!(
        delta_json["usage"]["output_tokens"].as_u64(),
        Some(43),
        "output_tokens must be 43 (Bug 0b: Usage before Done)",
    );

    // formatter.usage() must reflect input_tokens from message_delta (Bug 0c)
    assert_eq!(
        formatter.usage().input_tokens,
        60,
        "input_tokens=60 from message_delta must be captured in formatter state",
    );
}

#[test]
fn blocks_are_written_one_after_the_other() {
    let call = |index: usize, id: &str| StreamDelta::ToolCallStart {
        index,
        id: id.to_string(),
        name: "f".to_string(),
    };
    let mut formatter = AnthropicStreamFormatter::new();
    let events = formatter.format_deltas(&vec![
        StreamDelta::MessageStart { id: "m".to_string(), model: "x".to_string() },
        StreamDelta::ReasoningDelta("why".to_string()),
        StreamDelta::ReasoningSignature("sig".to_string()),
        StreamDelta::TextDelta("so".to_string()),
        StreamDelta::TextDelta(" ".to_string()),
        call(0, "a"),
        StreamDelta::ToolCallDelta { index: 0, arguments: "{}".to_string() },
        call(1, "b"),
        StreamDelta::ToolCallDelta { index: 1, arguments: "{".to_string() },
        StreamDelta::Usage(TokenUsage::default()),
        StreamDelta::ToolCallDelta { index: 1, arguments: "}".to_string() },
        StreamDelta::TextDelta("end".to_string()),
        StreamDelta::ReasoningDelta("again".to_string()),
        StreamDelta::Done { stop_reason: "stop".to_string() },
    ]);
    let names: Vec<&str> = events.iter().map(|e| e.event.as_deref().unwrap()).collect();
    assert_eq!(names[0], "message_start");
    assert_eq!(names.iter().filter(|n| **n == "message_start").count(), 1);
    assert_eq!(names[names.len() - 2..], ["message_delta", "message_stop"]);

    let mut open: Option<u64> = None;
    let mut next: u64 = 0;
    for (event, name) in events.iter().zip(&names) {
        let data: Value = serde_json::from_str(&event.data).unwrap();
        let index = data["index"].as_u64();
        match *name {
            "content_block_start" => {
                assert_eq!((open, index), (None, Some(next)));
                open = index;
            }
            "content_block_delta" => assert!(open.is_some() && open == index),
            "content_block_stop" => {
                assert!(open.is_some() && open == index);
                open = None;
                next += 1;
            }
            _ => assert_eq!(index, None),
        }
    }
    assert_eq!((open, next), (None, 6));
}
