use swcli::json::Json;
use swcli::protocol::codec::openai_responses::parser::{
    ResponsesResponseParser, ResponsesStreamParser,
};
use swcli::protocol::codec::openai_responses::stream::ResponsesStreamFormatter;
use swcli::protocol::ir::stream::StreamDelta;
use swcli::protocol::traits::{ResponseDecoder, StreamResponseDecoder, StreamResponseEncoder};

fn json(text: &str) -> Json {
    Json::parse(text).unwrap()
}


fn sse_event(event: &str, data: &str) -> String {
    format!("event: {event}\ndata: {data}\n\n")
}

fn sse_data(data: &str) -> String {
    format!("data: {data}\n\n")
}

// ── ResponsesResponseParser ──

#[test]
fn test_parse_response_message_output() {
    let resp = json(r#"{
        "id": "resp_1",
        "model": "gpt-4o",
        "status": "completed",
        "output": [
            {
                "type": "message",
                "id": "msg_1",
                "status": "completed",
                "role": "assistant",
                "content": [{"type": "output_text", "text": "hello"}]
            }
        ],
        "usage": {"input_tokens": 5, "output_tokens": 3}
    }"#);
    let r = ResponsesResponseParser.parse_response(resp).unwrap();
    assert_eq!(r.content, "hello");
    assert_eq!(r.stop_reason.as_deref(), Some("completed"));
    assert_eq!(r.usage.prompt_tokens, 5);
}

#[test]
fn test_parse_response_with_encrypted_content_plaintext() {
    // Ollama's Responses API returns reasoning as plaintext in encrypted_content field.
    // The parser must not fail, and should extract text from the content array.
    let resp = json(r#"{
        "id": "resp_2",
        "model": "qwen3",
        "status": "completed",
        "output": [
            {
                "type": "reasoning",
                "id": "rs_1",
                "summary": [{"type": "summary_text", "text": "thinking..."}],
                "encrypted_content": "plaintext-not-base64"
            },
            {
                "type": "message",
                "id": "msg_1",
                "status": "completed",
                "role": "assistant",
                "content": [{"type": "output_text", "text": "answer"}]
            }
        ],
        "usage": {"input_tokens": 10, "output_tokens": 20}
    }"#);
    let result = ResponsesResponseParser.parse_response(resp);
    assert!(
        result.is_ok(),
        "parser must not fail on plaintext encrypted_content"
    );
    let r = result.unwrap();
    assert_eq!(r.content, "answer");
}

#[test]
fn test_parse_response_function_call_output() {
    let resp = json(r#"{
        "id": "resp_3",
        "model": "gpt-4o",
        "status": "completed",
        "output": [
            {
                "type": "function_call",
                "id": "fc_1",
                "call_id": "call_abc",
                "name": "get_weather",
                "arguments": "{\"city\":\"Paris\"}"
            }
        ],
        "usage": {"input_tokens": 15, "output_tokens": 10}
    }"#);
    let r = ResponsesResponseParser.parse_response(resp).unwrap();
    assert_eq!(r.tool_calls.len(), 1);
    assert_eq!(r.tool_calls[0].id, "call_abc");
    assert_eq!(r.tool_calls[0].name, "get_weather");
}

// ── ResponsesStreamParser ──

#[test]
fn test_stream_output_text_delta() {
    let sse = [
        sse_event(
            "response.created",
            r#"{"type":"response.created","response":{"id":"resp_1","model":"gpt-4o","status":"in_progress"}}"#,
        ),
        sse_event(
            "response.output_text.delta",
            r#"{"type":"response.output_text.delta","item_id":"msg_1","output_index":0,"content_index":0,"delta":"hello"}"#,
        ),
        sse_event(
            "response.completed",
            r#"{"type":"response.completed","response":{"id":"resp_1","model":"gpt-4o","status":"completed","output":[],"usage":{"input_tokens":5,"output_tokens":3}}}"#,
        ),
    ]
    .concat();

    let mut parser = ResponsesStreamParser::new();
    let deltas = parser.parse_chunk(&sse).unwrap();

    let has_text = deltas
        .iter()
        .any(|d| matches!(d, StreamDelta::TextDelta(t) if t == "hello"));
    let has_done = deltas
        .iter()
        .any(|d| matches!(d, StreamDelta::Done { .. }));
    assert!(has_text, "expected TextDelta('hello'), got: {deltas:?}");
    assert!(has_done, "expected Done, got: {deltas:?}");
}

#[test]
fn test_stream_reasoning_summary_text_delta() {
    // Ollama sends response.reasoning_summary_text.delta for reasoning content.
    // This event must be handled independently and produce ReasoningDelta — NOT TextDelta.
    let sse = [
        sse_event(
            "response.created",
            r#"{"type":"response.created","response":{"id":"resp_2","model":"qwen3","status":"in_progress"}}"#,
        ),
        sse_event(
            "response.reasoning_summary_text.delta",
            r#"{"type":"response.reasoning_summary_text.delta","item_id":"rs_1","output_index":1,"summary_index":0,"delta":"thinking step"}"#,
        ),
        sse_event(
            "response.output_text.delta",
            r#"{"type":"response.output_text.delta","item_id":"msg_1","output_index":0,"content_index":0,"delta":"answer text"}"#,
        ),
        sse_event(
            "response.completed",
            r#"{"type":"response.completed","response":{"id":"resp_2","model":"qwen3","status":"completed","output":[],"usage":{"input_tokens":10,"output_tokens":20}}}"#,
        ),
    ]
    .concat();

    let mut parser = ResponsesStreamParser::new();
    let deltas = parser.parse_chunk(&sse).unwrap();

    let reasoning: Vec<_> = deltas
        .iter()
        .filter_map(|d| {
            if let StreamDelta::ThinkingDelta(t) = d {
                Some(t.as_str())
            } else {
                None
            }
        })
        .collect();
    assert!(
        reasoning.contains(&"thinking step"),
        "response.reasoning_summary_text.delta must produce ThinkingDelta, got: {deltas:?}"
    );

    let text: Vec<_> = deltas
        .iter()
        .filter_map(|d| {
            if let StreamDelta::TextDelta(t) = d {
                Some(t.as_str())
            } else {
                None
            }
        })
        .collect();
    assert!(
        text.contains(&"answer text"),
        "response.output_text.delta must produce TextDelta, got: {deltas:?}"
    );
}

#[test]
fn test_stream_done_sentinel() {
    let sse = sse_data("[DONE]");
    let mut parser = ResponsesStreamParser::new();
    let deltas = parser.parse_chunk(&sse).unwrap();
    let has_done = deltas
        .iter()
        .any(|d| matches!(d, StreamDelta::Done { .. }));
    assert!(
        has_done,
        "expected Done on [DONE] sentinel, got: {deltas:?}"
    );
}

// ── streams cut anywhere, and what is written ──

#[test]
fn responses_stream_means_the_same_however_it_is_cut() {
    let whole = [
        sse_event(
            "response.created",
            r#"{"type":"response.created","response":{"id":"resp_1","model":"m"}}"#,
        ),
        sse_event(
            "response.output_text.delta",
            r#"{"type":"response.output_text.delta","delta":"hello"}"#,
        ),
        sse_event(
            "response.completed",
            r#"{"type":"response.completed","response":{"id":"resp_1","status":"completed"}}"#,
        ),
    ]
    .concat();
    let read = |pieces: &[&str]| {
        let mut parser = ResponsesStreamParser::new();
        let mut deltas = Vec::new();
        for piece in pieces {
            deltas.extend(parser.parse_chunk(piece).unwrap());
        }
        deltas.extend(parser.finish().unwrap());
        format!("{deltas:?}")
    };
    let expected = read(&[&whole]);
    for cut in 0..whole.len() {
        let (a, b) = whole.split_at(cut);
        assert_eq!(read(&[a, b]), expected, "cut at {cut}");
    }
}

#[test]
fn written_stream_begins_and_completes_once() {
    let mut formatter = ResponsesStreamFormatter::with_ids("resp_1", "msg_1");
    let deltas = vec![
        StreamDelta::MessageStart { id: "x".to_string(), model: "m".to_string() },
        StreamDelta::TextDelta("hel".to_string()),
        StreamDelta::TextDelta("lo".to_string()),
        StreamDelta::Done { stop_reason: "stop".to_string() },
        StreamDelta::Done { stop_reason: "stop".to_string() },
    ];
    let mut events = formatter.format_deltas(&deltas);
    events.extend(formatter.format_done());
    events.extend(formatter.format_done());
    let named = |name: &str| events.iter().filter(|e| e.event.as_deref() == Some(name)).count();
    assert_eq!(named("response.created"), 1);
    assert_eq!(named("response.output_text.delta"), 2);
    assert_eq!(named("response.completed"), 1);
    let done = events
        .iter()
        .find(|e| e.event.as_deref() == Some("response.output_text.done"))
        .unwrap();
    let done = json(&done.data);
    assert_eq!(done.get_str("text"), Some("hello"));
}

#[test]
fn a_default_formatter_begins_a_response() {
    let mut formatter = ResponsesStreamFormatter::default();
    let events = formatter.format_deltas(&vec![StreamDelta::MessageStart {
        id: "r".to_string(),
        model: "m".to_string(),
    }]);
    assert_eq!(events[0].event.as_deref(), Some("response.created"));
}
