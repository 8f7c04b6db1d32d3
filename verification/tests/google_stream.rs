use serde_json::Value;
use swcli::json::Json;
use swcli::protocol::codec::google_generative::stream::{
    GoogleResponseFormatter, GoogleResponseParser, GoogleStreamFormatter, GoogleStreamParser,
};
use swcli::protocol::ir::stream::StreamDelta;
use swcli::protocol::traits::{
    ResponseDecoder, ResponseEncoder, StreamResponseDecoder, StreamResponseEncoder,
};

fn json(text: &str) -> Json {
    Json::parse(text).unwrap()
}

fn value(json: &Json) -> Value {
    serde_json::from_str(&json.to_text()).unwrap()
}


#[test]
fn parse_and_format_response_preserves_inline_data_part() {
    let upstream = json(r#"{
        "candidates": [{
            "content": {
                "role": "model",
                "parts": [{
                    "inlineData": {
                        "mimeType": "image/png",
                        "data": "iVBORw0KGgoAAAANSUhEUgA"
                    }
                }]
            },
            "finishReason": "STOP"
        }],
        "usageMetadata": {
            "promptTokenCount": 24,
            "candidatesTokenCount": 1120,
            "totalTokenCount": 1144
        },
        "modelVersion": "gemini-3.1-flash-image-preview"
    }"#);

    let parsed = GoogleResponseParser.parse_response(upstream).unwrap();
    let formatted = value(&GoogleResponseFormatter.format_response(&parsed));

    assert_eq!(
        formatted["candidates"][0]["content"]["parts"][0]["inlineData"]["mimeType"],
        "image/png"
    );
    assert_eq!(
        formatted["candidates"][0]["content"]["parts"][0]["inlineData"]["data"],
        "iVBORw0KGgoAAAANSUhEUgA"
    );
    assert_eq!(formatted["usageMetadata"]["promptTokenCount"], 24);
    assert_eq!(formatted["usageMetadata"]["candidatesTokenCount"], 1120);
}

#[test]
fn parse_and_format_response_preserves_future_parts_and_metadata() {
    let upstream = json(r#"{
        "candidates": [{
            "content": {
                "role": "model",
                "futureContentField": {"keep": true},
                "parts": [
                    {"text": "hello", "futureTextField": 7},
                    {"futurePart": {"foo": "bar"}}
                ]
            },
            "finishReason": "STOP",
            "futureCandidateField": {"rank": 1}
        }],
        "usageMetadata": {
            "promptTokenCount": 24,
            "candidatesTokenCount": 1120,
            "totalTokenCount": 1144,
            "trafficType": "ON_DEMAND",
            "promptTokensDetails": [{"modality": "TEXT", "tokenCount": 24}],
            "candidatesTokensDetails": [{"modality": "IMAGE", "tokenCount": 1120}]
        },
        "modelVersion": "gemini-3.1-flash-image-preview",
        "responseId": "resp-future",
        "futureTopLevelField": {"trace": "abc"}
    }"#);

    let parsed = GoogleResponseParser.parse_response(upstream).unwrap();
    let formatted = value(&GoogleResponseFormatter.format_response(&parsed));

    assert_eq!(
        formatted["candidates"][0]["content"]["parts"][0]["futureTextField"],
        7
    );
    assert_eq!(
        formatted["candidates"][0]["content"]["parts"][1]["futurePart"]["foo"],
        "bar"
    );
    assert_eq!(
        formatted["candidates"][0]["content"]["futureContentField"]["keep"],
        true
    );
    assert_eq!(
        formatted["candidates"][0]["futureCandidateField"]["rank"],
        1
    );
    assert_eq!(formatted["futureTopLevelField"]["trace"], "abc");
    assert_eq!(formatted["usageMetadata"]["trafficType"], "ON_DEMAND");
    assert_eq!(
        formatted["usageMetadata"]["candidatesTokensDetails"][0]["modality"],
        "IMAGE"
    );
}

#[test]
fn stream_parser_and_formatter_preserve_inline_data_part() {
    let raw = format!(
        "data: {}\n\n",
        r#"{"candidates":[{"content":{"role":"model","parts":[{"inlineData":{"mimeType":"image/png","data":"iVBORw0KGgoAAAANSUhEUgAABY+yvQxDX"}}]},"finishReason":"STOP"}],"usageMetadata":{"promptTokenCount":24,"candidatesTokenCount":1120,"totalTokenCount":1144},"modelVersion":"gemini-3.1-flash-image-preview"}"#
    );

    let mut parser = GoogleStreamParser::new();
    let deltas = parser.parse_chunk(&raw).unwrap();
    let mut formatter = GoogleStreamFormatter::new();
    let events = formatter.format_deltas(&deltas);

    let image_event = events
        .iter()
        .map(|event| serde_json::from_str::<Value>(&event.data).unwrap())
        .find(|value| {
            value["candidates"][0]["content"]["parts"]
                .as_array()
                .is_some_and(|parts| parts.iter().any(|part| part.get("inlineData").is_some()))
        })
        .expect("expected an SSE event containing the inlineData part");

    assert_eq!(
        image_event["candidates"][0]["content"]["parts"][0]["inlineData"]["mimeType"],
        "image/png"
    );
    assert_eq!(
        image_event["candidates"][0]["content"]["parts"][0]["inlineData"]["data"],
        "iVBORw0KGgoAAAANSUhEUgAABY+yvQxDX"
    );

    let usage_event = events
        .iter()
        .map(|event| serde_json::from_str::<Value>(&event.data).unwrap())
        .find(|value| value.get("usageMetadata").is_some())
        .expect("expected terminal usage event");
    assert_eq!(usage_event["usageMetadata"]["promptTokenCount"], 24);
    assert_eq!(usage_event["usageMetadata"]["candidatesTokenCount"], 1120);
}

#[test]
fn stream_parser_and_formatter_preserve_future_part_and_usage_details() {
    let chunk = json(r#"{
        "candidates": [{
            "content": {
                "role": "model",
                "parts": [{"futurePart": {"foo": "bar"}}]
            },
            "finishReason": "STOP"
        }],
        "usageMetadata": {
            "promptTokenCount": 24,
            "candidatesTokenCount": 1120,
            "totalTokenCount": 1144,
            "trafficType": "ON_DEMAND",
            "candidatesTokensDetails": [{"modality": "IMAGE", "tokenCount": 1120}]
        },
        "modelVersion": "gemini-3.1-flash-image-preview",
        "responseId": "stream-future"
    }"#);
    let raw = format!("data: {}\n\n", chunk.to_text());

    let mut parser = GoogleStreamParser::new();
    let deltas = parser.parse_chunk(&raw).unwrap();
    let mut formatter = GoogleStreamFormatter::new();
    let events = formatter.format_deltas(&deltas);

    let future_part_event = events
        .iter()
        .map(|event| serde_json::from_str::<Value>(&event.data).unwrap())
        .find(|value| {
            value["candidates"][0]["content"]["parts"]
                .as_array()
                .is_some_and(|parts| parts.iter().any(|part| part.get("futurePart").is_some()))
        })
        .expect("expected an SSE event containing the future part");
    assert_eq!(
        future_part_event["candidates"][0]["content"]["parts"][0]["futurePart"]["foo"],
        "bar"
    );

    let usage_event = events
        .iter()
        .map(|event| serde_json::from_str::<Value>(&event.data).unwrap())
        .find(|value| value.get("usageMetadata").is_some())
        .expect("expected terminal usage event");
    assert_eq!(usage_event["usageMetadata"]["trafficType"], "ON_DEMAND");
    assert_eq!(
        usage_event["usageMetadata"]["candidatesTokensDetails"][0]["modality"],
        "IMAGE"
    );
    assert_eq!(usage_event["responseId"], "stream-future");
}

#[test]
fn stream_parser_extracts_usage_from_non_sse_generate_content_response() {
    let raw = json(r#"{
        "candidates": [{
            "content": {
                "parts": [{
                    "text": "{\n \"\n}",
                    "thoughtSignature": "EtpxCtdxAQtnKrzuYidcoegpuXXkuA=="
                }],
                "role": "model"
            },
            "finishReason": "STOP",
            "index": 0
        }],
        "modelVersion": "gemini-3.5-flash",
        "responseId": "Q90OarbFKsXM-sAPuOH-8AE",
        "usageMetadata": {
            "candidatesTokenCount": 1408,
            "promptTokenCount": 10996,
            "promptTokensDetails": [{
                "modality": "TEXT",
                "tokenCount": 10996
            }],
            "serviceTier": "standard",
            "thoughtsTokenCount": 4649,
            "totalTokenCount": 17053
        }
    }"#)
    .to_text();

    let mut parser = GoogleStreamParser::new();
    let initial = parser.parse_chunk(&raw).unwrap();
    assert!(
        initial.is_empty(),
        "bare JSON should be completed by finish"
    );

    let deltas = parser.finish().unwrap();
    let usage = deltas
        .iter()
        .find_map(|delta| match delta {
            StreamDelta::Usage(usage) => Some(usage),
            _ => None,
        })
        .expect("non-SSE streamGenerateContent response should emit usage");

    assert_eq!(usage.prompt_tokens, 10996);
    assert_eq!(usage.completion_tokens, 6057);
    assert_eq!(usage.total_tokens, 17053);
    assert!(deltas.iter().any(|delta| matches!(
        delta,
        StreamDelta::Done { stop_reason } if stop_reason == "stop"
    )));
}
