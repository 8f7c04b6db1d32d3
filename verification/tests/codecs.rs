use serde_json::Value;
use swcli::json::{Fields, Json};
use swcli::models::ResolvedModel;
use swcli::protocol::codec::anthropic_messages::decoder::AnthropicDecoder;
use swcli::protocol::codec::anthropic_messages::encoder::{
    anthropic_budget_tokens, anthropic_effort, map_tool_choice_for_anthropic,
    normalize_anthropic_tool_id, validate_anthropic_payload, AnthropicEncoder,
};
use swcli::protocol::codec::anthropic_messages::types::{
    AnthropicContent, AnthropicContentBlock, AnthropicMessage, AnthropicRaw, AnthropicRequest,
    AnthropicSystem, AnthropicThinking, AnthropicTool,
};
use swcli::protocol::codec::google_generative::decoder::GoogleDecoder;
use swcli::protocol::codec::google_generative::encoder::{sanitize_gemini_schema, GoogleEncoder};
use swcli::protocol::codec::google_generative::types::{
    GoogleContent, GoogleFunctionCall, GoogleFunctionResponse, GooglePart, GoogleRequest,
};
use swcli::protocol::codec::openai_compatible::decoder::{parse_data_url_source, OpenAIDecoder};
use swcli::protocol::codec::openai_compatible::embeddings::{
    parse_usage, EmbeddingsDecoder, EmbeddingsEncoder,
};
use swcli::protocol::codec::openai_compatible::encoder::OpenAIEncoder;
use swcli::protocol::codec::openai_compatible::history::normalize_messages_for_openai;
use swcli::protocol::codec::openai_compatible::types::{
    OpenAIContent, OpenAIMessage, OpenAIRequest, StopToken, TokenBias,
};
use swcli::protocol::codec::openai_responses::decoder::ResponsesDecoder;
use swcli::protocol::codec::openai_responses::encoder::ResponsesEncoder;
use swcli::protocol::codec::openai_responses::formatter::ResponsesResponseFormatter;
use swcli::protocol::ids::{
    anthropic_messages_2023_06_01, google_generate_content_v1beta, openai_chat_completions_v1,
    openai_responses_v1,
};
use swcli::protocol::ir::cache::CacheControl;
use swcli::protocol::ir::error::{AiError, AiErrorKind};
use swcli::protocol::ir::request::{
    AiRequest, ContentBlock, MediaSource, Message, MessageContent, ReasoningEffort, Role, ToolCall,
    ToolChoice, ToolSpec,
};
use swcli::protocol::ir::response::AiResponse;
use swcli::protocol::ir::schema::SchemaObject;
use swcli::protocol::ir::stream::StreamDelta;
use swcli::protocol::provider::{Provider, ProviderProtocols};
use swcli::protocol::traits::{EndpointHandler, RequestDecoder, RequestEncoder};
use swcli::protocol::types::{InternalRequest, InternalResponse, ResponseItem, TokenUsage};
use swcli::protocol::{EgressEncoder, IngressDecoder, ResponseFormatter};
use swcli::provider::WireProtocol;
use swcli::router::{codex_models_response, response_deltas, router_path, RouterPath};

fn json(text: &str) -> Json {
    Json::parse(text).unwrap()
}

fn value(json: &Json) -> Value {
    serde_json::from_str(&json.to_text()).unwrap()
}

fn expect(text: &str) -> Value {
    serde_json::from_str(text).unwrap()
}

fn text(role: Role, text: &str) -> Message {
    Message {
        role,
        content: MessageContent::Text(text.to_string()),
        tool_calls: None,
        tool_call_id: None,
        meta: None,
    }
}

fn calling(said: &str, ids: &[&str]) -> Message {
    let calls: Vec<ToolCall> = ids
        .iter()
        .map(|id| ToolCall {
            id: id.to_string(),
            name: "lookup".to_string(),
            arguments: r#"{"q":1}"#.to_string(),
        })
        .collect();
    Message { tool_calls: Some(calls), ..text(Role::Assistant, said) }
}

fn answer(id: Option<&str>, said: &str) -> Message {
    Message { tool_call_id: id.map(String::from), ..text(Role::Tool, said) }
}

// ── Chat Completions ──

fn openai_message(role: &str, content: &str) -> OpenAIMessage {
    OpenAIMessage {
        role: role.to_string(),
        content: Some(OpenAIContent::Text(content.to_string())),
        tool_calls: None,
        tool_call_id: None,
        name: None,
        refusal: None,
        extra: Fields::new(),
    }
}

fn openai_request(messages: Vec<OpenAIMessage>) -> OpenAIRequest {
    OpenAIRequest {
        model: "gpt-4o".to_string(),
        messages,
        stream: true,
        temperature: None,
        max_tokens: None,
        max_completion_tokens: None,
        top_p: None,
        frequency_penalty: None,
        presence_penalty: None,
        seed: None,
        stop: None,
        n: None,
        logit_bias: None,
        tools: None,
        tool_choice: None,
        parallel_tool_calls: None,
        stream_options: None,
        response_format: None,
        modalities: None,
        audio: None,
        prediction: None,
        reasoning_effort: None,
        service_tier: None,
        user: None,
        extra: Fields::new(),
    }
}

#[test]
fn reads_chat_requests() {
    let mut wire = openai_request(vec![
        openai_message("developer", "be brief"),
        openai_message("user", "hi"),
    ]);
    wire.max_tokens = Some(10);
    wire.max_completion_tokens = Some(20);
    wire.stop = Some(StopToken::Single("END".to_string()));
    wire.reasoning_effort = Some("high".to_string());
    wire.tools = Some(vec![
        json(r#"{"type":"function","function":{"name":"f","description":"d"}}"#),
        json(r#"{"type":"web_search"}"#),
    ]);
    wire.tool_choice = Some(json(r#"{"type":"function","function":{"name":"f"}}"#));
    wire.user = Some("me".to_string());
    wire.extra.insert("custom", json("7"));

    let req = OpenAIDecoder.decode_request(&wire).unwrap();
    assert_eq!(req.messages.len(), 2);
    assert_eq!(req.messages[0].role, Role::System);
    assert_eq!(req.generation.max_tokens, Some(20));
    assert_eq!(req.generation.stop, Some(vec!["END".to_string()]));
    assert_eq!(req.reasoning.effort, Some(ReasoningEffort::High));
    let tools = req.tools.as_ref().unwrap();
    assert_eq!(tools.len(), 1);
    assert_eq!(tools[0].name, "f");
    assert_eq!(value(&tools[0].parameters), expect("{}"));
    assert!(matches!(req.tool_choice.as_ref(), Some(ToolChoice::Named { name }) if name == "f"));
    assert!(req.meta.source_protocol.unwrap().same(&openai_chat_completions_v1()));

    let (body, headers) = OpenAIEncoder.encode_request(&req).unwrap();
    assert!(headers.is_empty());
    assert_eq!(
        value(&body),
        expect(
            r#"{
                "model": "gpt-4o",
                "messages": [
                    {"role": "system", "content": "be brief"},
                    {"role": "user", "content": "hi"}
                ],
                "stream": true,
                "stream_options": {"include_usage": true},
                "max_tokens": 20,
                "tools": [{
                    "type": "function",
                    "function": {"name": "f", "description": "d", "parameters": {}}
                }],
                "tool_choice": {"type": "function", "function": {"name": "f"}},
                "stop": "END",
                "reasoning_effort": "high",
                "user": "me",
                "custom": 7
            }"#
        )
    );
    assert_eq!(OpenAIEncoder.egress_path("gpt-4o", true), "/v1/chat/completions");
}

#[test]
fn keeps_the_bias_of_tokens() {
    let mut wire = openai_request(vec![openai_message("user", "go")]);
    let bias = |token: &str, bias: &str| TokenBias {
        token: token.to_string(),
        bias: bias.to_string(),
    };
    wire.logit_bias = Some(vec![bias("50256", "-100.0"), bias("7", "0.5")]);
    let req = OpenAIDecoder.decode_request(&wire).unwrap();
    let (body, _) = OpenAIEncoder.encode_request(&req).unwrap();
    assert_eq!(value(&body)["logit_bias"], expect(r#"{"50256": -100.0, "7": 0.5}"#));
}

#[test]
fn refuses_unknown_roles() {
    let wire = openai_request(vec![openai_message("critic", "no")]);
    let err = OpenAIDecoder.decode_request(&wire).unwrap_err();
    assert_eq!(err.to_string(), "unknown role: critic");
}

#[test]
fn takes_data_urls_apart() {
    let source = parse_data_url_source("data:image/png;base64,AAAA");
    assert!(matches!(
        &source,
        MediaSource::Base64 { media_type, data } if media_type == "image/png" && data == "AAAA"
    ));
    let source = parse_data_url_source("data:image/png,raw");
    assert!(matches!(&source, MediaSource::Url(u) if u == "data:image/png,raw"));
}

// ── the shape of a conversation ──

fn outline(messages: &[Message]) -> Vec<String> {
    messages
        .iter()
        .map(|m| {
            let calls: Vec<&str> = match &m.tool_calls {
                Some(calls) => calls.iter().map(|c| c.id.as_str()).collect(),
                None => Vec::new(),
            };
            let said = m.content.to_text();
            match m.role {
                Role::Tool => format!("answer {}", m.tool_call_id.as_deref().unwrap()),
                Role::Assistant => format!("says '{said}' calls {}", calls.join(",")),
                _ => format!("asks '{said}'"),
            }
        })
        .collect()
}

#[test]
fn brings_calls_before_their_answers() {
    let talk = vec![
        text(Role::User, "go"),
        calling("both", &["a", "b"]),
        answer(Some("a"), "1"),
        answer(Some("b"), "2"),
        calling("", &["left"]),
    ];
    let out = normalize_messages_for_openai(&talk, "tool");
    assert_eq!(
        outline(&out),
        vec![
            "asks 'go'",
            "says 'both' calls ",
            "says '' calls a",
            "answer a",
            "says '' calls b",
            "answer b",
        ]
    );
}

#[test]
fn makes_up_calls_and_tells_doubles_apart() {
    let talk = vec![
        answer(None, "unasked"),
        calling("", &["x"]),
        answer(Some("x"), "1"),
        calling("", &["x"]),
        answer(Some("x"), "2"),
    ];
    let out = normalize_messages_for_openai(&talk, "tool");
    assert_eq!(
        outline(&out),
        vec![
            "says '' calls call_enc_1",
            "answer call_enc_1",
            "says '' calls x",
            "answer x",
            "says '' calls x_dup2",
            "answer x_dup2",
        ]
    );
    assert_eq!(out[0].tool_calls.as_ref().unwrap()[0].name, "tool");
    assert_eq!(out[0].tool_calls.as_ref().unwrap()[0].arguments, "{}");
}

#[test]
fn keeps_the_other_messages_in_their_order() {
    let talk = vec![
        text(Role::System, "be brief"),
        text(Role::User, "one"),
        text(Role::Assistant, ""),
        calling("", &["lost"]),
        text(Role::User, ""),
        text(Role::Assistant, "so"),
        text(Role::User, "two"),
    ];
    let out = normalize_messages_for_openai(&talk, "tool");
    assert_eq!(
        outline(&out),
        vec!["asks 'be brief'", "asks 'one'", "asks ''", "says 'so' calls ", "asks 'two'"]
    );
    assert_eq!(out[0].role, Role::System);
}

// ── Messages ──

fn anthropic_request(messages: Vec<AnthropicMessage>, raw: &str) -> AnthropicRequest {
    AnthropicRequest {
        model: "m".to_string(),
        max_tokens: 100,
        messages,
        system: None,
        stream: false,
        temperature: None,
        top_p: None,
        top_k: None,
        tools: None,
        tool_choice: None,
        thinking: None,
        container: None,
        service_tier: None,
        context_management: None,
        metadata: None,
        stop_sequences: None,
        raw: AnthropicRaw { messages: json(raw), system: None, tools: None, thinking: None },
    }
}

#[test]
fn reads_messages_requests() {
    let mut wire = anthropic_request(
        vec![
            AnthropicMessage {
                role: "user".to_string(),
                content: AnthropicContent::Text("weather?".to_string()),
            },
            AnthropicMessage {
                role: "assistant".to_string(),
                content: AnthropicContent::Blocks(vec![AnthropicContentBlock::ToolUse {
                    id: "toolu_1".to_string(),
                    name: "weather".to_string(),
                    input: json(r#"{"city":"Paris"}"#),
                    cache_control: None,
                }]),
            },
            AnthropicMessage {
                role: "user".to_string(),
                content: AnthropicContent::Blocks(vec![AnthropicContentBlock::ToolResult {
                    tool_use_id: "toolu_1".to_string(),
                    content: Some(json(r#""sunny""#)),
                    cache_control: None,
                }]),
            },
        ],
        "[]",
    );
    wire.system = Some(AnthropicSystem::Text("be brief".to_string()));
    wire.thinking =
        Some(AnthropicThinking { kind: "enabled".to_string(), budget_tokens: Some(2048) });
    wire.tools = Some(vec![AnthropicTool {
        name: "weather".to_string(),
        description: None,
        input_schema: Some(json(r#"{"type":"object"}"#)),
        tool_type: None,
        cache_control: None,
    }]);
    wire.tool_choice = Some(json(r#"{"type":"any"}"#));

    let req = AnthropicDecoder.decode_request(&wire).unwrap();
    assert_eq!(req.messages[0].role, Role::System);
    assert_eq!(req.messages[0].content.to_text(), "be brief");
    let calls = req.messages[2].tool_calls.as_ref().unwrap();
    assert_eq!(calls[0].id, "toolu_1");
    assert_eq!(calls[0].arguments, r#"{"city":"Paris"}"#);
    assert_eq!(req.messages[3].role, Role::Tool);
    assert_eq!(req.messages[3].tool_call_id.as_deref(), Some("toolu_1"));
    assert_eq!(req.generation.max_tokens, Some(100));
    assert!(req.reasoning.enabled);
    assert_eq!(req.reasoning.budget_tokens, Some(2048));
    assert!(matches!(req.tool_choice, Some(ToolChoice::Required)));
    assert!(req.meta.source_protocol.unwrap().same(&anthropic_messages_2023_06_01()));
}

#[test]
fn refuses_unknown_roles_of_messages() {
    let wire = anthropic_request(
        vec![AnthropicMessage {
            role: "critic".to_string(),
            content: AnthropicContent::Text("no".to_string()),
        }],
        "[]",
    );
    assert!(AnthropicDecoder.decode_request(&wire).is_err());
}

#[test]
fn writes_messages_requests() {
    let body = json(
        r#"{
            "model": "m",
            "instructions": "be brief",
            "input": "hi",
            "reasoning": {"effort": "HIGH"},
            "tool_choice": "required",
            "max_output_tokens": 50
        }"#,
    );
    let req = ResponsesDecoder.decode_request(body).unwrap();
    let (body, headers) = AnthropicEncoder.encode_request(&req).unwrap();
    assert_eq!(headers, vec![("anthropic-version".to_string(), "2023-06-01".to_string())]);
    let body = value(&body);
    assert_eq!(body["model"], expect(r#""m""#));
    assert_eq!(body["system"], expect(r#""be brief""#));
    assert_eq!(body["max_tokens"], expect("17408"));
    assert_eq!(body["thinking"], expect(r#"{"type":"enabled","budget_tokens":16384}"#));
    assert_eq!(body["output_config"], expect(r#"{"effort":"high"}"#));
    assert_eq!(body["tool_choice"], expect(r#"{"type":"any"}"#));
    assert_eq!(AnthropicEncoder.egress_path("m", true), "/v1/messages");
}

#[test]
fn maps_efforts_and_budgets() {
    assert_eq!(anthropic_effort("Minimal"), Some("low"));
    assert_eq!(anthropic_effort("medium"), Some("medium"));
    assert_eq!(anthropic_effort("xhigh"), Some("max"));
    assert_eq!(anthropic_effort("extreme"), None);
    assert_eq!(anthropic_budget_tokens("low"), Some(1024));
    assert_eq!(anthropic_budget_tokens("MAX"), Some(32000));
    assert_eq!(anthropic_budget_tokens("none"), None);
}

#[test]
fn maps_tool_choices() {
    let mapped = |raw: &str| map_tool_choice_for_anthropic(&json(raw)).map(|v| value(&v));
    assert_eq!(mapped(r#""auto""#), Some(expect(r#"{"type":"auto"}"#)));
    assert_eq!(mapped(r#""none""#), None);
    assert_eq!(
        mapped(r#"{"type":"function","function":{"name":"f"}}"#),
        Some(expect(r#"{"type":"tool","name":"f"}"#))
    );
    assert_eq!(mapped(r#"{"type":"tool","name":""}"#), None);
    assert_eq!(
        mapped(r#"{"type":"required","disable_parallel_tool_use":true}"#),
        Some(expect(r#"{"type":"any","disable_parallel_tool_use":true}"#))
    );
    assert_eq!(mapped("3"), None);
}

#[test]
fn checks_messages_payloads() {
    let fault = |raw: &str| validate_anthropic_payload(&json(raw)).unwrap_err().to_string();
    assert_eq!(fault("[]"), "anthropic payload must be object");
    assert_eq!(fault("{}"), "anthropic payload missing model");
    assert_eq!(fault(r#"{"model":" "}"#), "anthropic payload missing model");
    assert_eq!(fault(r#"{"model":"m"}"#), "anthropic payload missing max_tokens");
    assert_eq!(fault(r#"{"model":"m","max_tokens":1}"#), "anthropic payload missing messages");
    assert_eq!(
        fault(r#"{"model":"m","max_tokens":1,"messages":[]}"#),
        "anthropic payload has empty messages"
    );
    assert_eq!(
        fault(r#"{"model":"m","max_tokens":1,"messages":[{}]}"#),
        "anthropic payload message[0] missing role"
    );
    assert_eq!(
        fault(r#"{"model":"m","max_tokens":1,"messages":[{"role":"system"}]}"#),
        "anthropic payload message[0] invalid role: system"
    );
    assert_eq!(
        fault(r#"{"model":"m","max_tokens":1,"messages":[{"role":"user","content":[{}]}]}"#),
        "anthropic payload message[0] block[0] missing type"
    );
    assert_eq!(
        fault(
            r#"{"model":"m","max_tokens":1,
                "messages":[{"role":"user","content":[{"type":"video"}]}]}"#
        ),
        "anthropic payload message[0] unsupported block type: video"
    );
    assert_eq!(
        fault(
            r#"{"model":"m","max_tokens":1,
                "messages":[{"role":"assistant","content":[{"type":"tool_use","id":"a"}]}]}"#
        ),
        "anthropic payload message[0] tool_use block[0] missing id/name"
    );
    let good = r#"{"model":"m","max_tokens":1,"messages":[{"role":"user","content":"hi"}]}"#;
    assert!(validate_anthropic_payload(&json(good)).is_ok());
}

#[test]
fn makes_tool_ids_that_are_accepted() {
    assert_eq!(normalize_anthropic_tool_id(" toolu_01 "), "toolu_01");
    assert_eq!(normalize_anthropic_tool_id("call:1/2"), "toolu_call_1_2");
    assert_eq!(normalize_anthropic_tool_id("toolu_call_1_2"), "toolu_call_1_2");
    assert_eq!(normalize_anthropic_tool_id(" "), "toolu_nyro");
}

// ── Responses ──

#[test]
fn reads_responses_requests() {
    let req = ResponsesDecoder
        .decode_request(json(
            r#"{
                "model": "gpt-5",
                "stream": true,
                "input": [
                    {"type": "message", "role": "user",
                     "content": [{"type": "input_text", "text": "go"}]},
                    {"type": "reasoning",
                     "summary": [{"type": "summary_text", "text": "because"}]},
                    {"type": "function_call", "call_id": "c1", "name": "f", "arguments": "{}"},
                    {"type": "function_call_output", "call_id": "c1", "output": "done"}
                ],
                "store": true,
                "unknown": 1
            }"#,
        ))
        .unwrap();
    assert!(req.stream);
    assert_eq!(req.messages[0].content.as_text(), "go");
    let calls = req.messages[1].tool_calls.as_ref().unwrap();
    assert_eq!(calls[0].id, "c1");
    assert_eq!(
        req.messages[1].extra.get("reasoning_content").and_then(|v| v.as_str()),
        Some("because")
    );
    assert_eq!(req.messages[2].tool_call_id.as_deref(), Some("c1"));
    assert_eq!(req.messages[2].content.as_text(), "done");
    assert_eq!(req.extra.get("store").and_then(|v| v.as_bool()), Some(true));
    assert_eq!(req.extra.get("unknown").and_then(|v| v.as_u64()), Some(1));
    assert!(req.source_protocol.same(&openai_responses_v1()));
}

#[test]
fn writes_thinking_down_once_per_turn() {
    let req = ResponsesDecoder
        .decode_request(json(
            r#"{
                "model": "gpt-5",
                "input": [
                    {"type": "message", "role": "user", "content": "go"},
                    {"type": "reasoning",
                     "summary": [{"type": "summary_text", "text": "because"}]},
                    {"type": "function_call", "call_id": "c1", "name": "f", "arguments": "{}"},
                    {"type": "function_call_output", "call_id": "c1", "output": "done"},
                    {"type": "message", "role": "user", "content": "on"}
                ]
            }"#,
        ))
        .unwrap();
    let roles: Vec<String> = req.messages.iter().map(|m| format!("{:?}", m.role)).collect();
    assert_eq!(roles, ["User", "Assistant", "Tool", "User"]);
    assert_eq!(
        req.messages[1].extra.get("reasoning_content").and_then(|v| v.as_str()),
        Some("because")
    );

    let alone = ResponsesDecoder
        .decode_request(json(
            r#"{
                "model": "gpt-5",
                "input": [
                    {"type": "reasoning",
                     "summary": [{"type": "summary_text", "text": "because"}]},
                    {"type": "message", "role": "user", "content": "on"}
                ]
            }"#,
        ))
        .unwrap();
    assert_eq!(alone.messages.len(), 2);
    assert_eq!(alone.messages[0].content.as_text(), "");
    assert_eq!(
        alone.messages[0].extra.get("reasoning_content").and_then(|v| v.as_str()),
        Some("because")
    );
}

#[test]
fn refuses_responses_requests() {
    let fault = |raw: &str| ResponsesDecoder.decode_request(json(raw)).unwrap_err().to_string();
    assert_eq!(fault("[]"), "request body must be a JSON object");
    assert_eq!(fault("{}"), "missing 'model' field");
    assert_eq!(fault(r#"{"model":"m"}"#), "missing 'input' field");
    assert_eq!(fault(r#"{"model":"m","input":3}"#), "'input' must be a string or array");
    assert_eq!(fault(r#"{"model":"m","input":[]}"#), "no messages found in input");
}

#[test]
fn writes_responses_requests() {
    let mut req = AiRequest::new(
        "gpt-5".to_string(),
        vec![
            text(Role::System, "one"),
            text(Role::System, "two"),
            text(Role::User, "go"),
            calling("sure", &["c1"]),
            answer(Some("c1"), "done"),
        ],
    );
    req.meta.vendor.ingress.insert("store", json("true"));
    req.meta.vendor.ingress.insert("input", json(r#""dropped""#));
    req.meta.vendor.ingress.insert("custom", json("1"));
    let (body, _) = ResponsesEncoder.encode_request(&req).unwrap();
    assert_eq!(
        value(&body),
        expect(
            r#"{
                "model": "gpt-5",
                "store": true,
                "stream": true,
                "instructions": "one\n\ntwo",
                "input": [
                    {"type": "message", "role": "user",
                     "content": [{"type": "input_text", "text": "go"}]},
                    {"type": "message", "role": "assistant",
                     "content": [{"type": "output_text", "text": "sure"}]},
                    {"type": "function_call", "call_id": "c1", "name": "lookup",
                     "arguments": "{\"q\":1}"},
                    {"type": "function_call_output", "call_id": "c1", "output": "done"}
                ],
                "custom": 1
            }"#
        )
    );
    assert_eq!(ResponsesEncoder.egress_path("gpt-5", false), "/v1/responses");

    let empty = AiRequest::new("gpt-5".to_string(), vec![text(Role::System, "only")]);
    assert_eq!(
        ResponsesEncoder.encode_request(&empty).unwrap_err().to_string(),
        "responses request requires at least one input item"
    );
}

#[test]
fn writes_responses_under_given_ids() {
    let resp = InternalResponse {
        id: String::new(),
        model: "m".to_string(),
        content: "unused".to_string(),
        reasoning_content: None,
        reasoning_signature: None,
        tool_calls: Vec::new(),
        response_items: Some(vec![
            ResponseItem::Reasoning { text: "why".to_string() },
            ResponseItem::Message { text: "hi".to_string() },
        ]),
        stop_reason: None,
        usage: TokenUsage {
            input_tokens: 3,
            output_tokens: 4,
            cache_read_input_tokens: None,
            cache_creation_input_tokens: None,
            server_tool_use: None,
        },
    };
    let n = ResponsesResponseFormatter.ids_needed(&resp);
    assert_eq!(n, 2);
    let fresh = vec!["rs_1".to_string(), "rs_2".to_string()];
    let out = ResponsesResponseFormatter.format_with_ids(&resp, "resp_1", "msg_1", &fresh);
    let out = value(&out);
    assert_eq!(out["object"], expect(r#""response""#));
    assert_eq!(out["output_text"], expect(r#""hi""#));
    assert_eq!(out["output"][0]["summary"][0]["text"], expect(r#""why""#));
    assert_eq!(out["output"][1]["content"][0]["text"], expect(r#""hi""#));
    assert_eq!(out["usage"]["total_tokens"], expect("7"));

    let made = value(&ResponsesResponseFormatter.format_response(&resp));
    let id = made["id"].as_str().unwrap().to_string();
    assert!(id.starts_with("resp_"));
    assert_eq!(id.len(), 37);
    let again = value(&ResponsesResponseFormatter.format_response(&resp));
    assert_ne!(again["id"].as_str().unwrap(), id);
}

// ── GenerateContent ──

fn google_request(contents: Vec<GoogleContent>) -> GoogleRequest {
    GoogleRequest {
        contents,
        system_instruction: None,
        generation_config: None,
        tools: None,
        tool_config: None,
        safety_settings: None,
        cached_content: None,
    }
}

#[test]
fn tells_thoughts_from_texts() {
    assert!(GooglePart::is_thought(&json(r#"{"thought":true,"text":"why"}"#)));
    assert!(!GooglePart::is_thought(&json(r#"{"thought":false,"text":"so"}"#)));
    assert!(!GooglePart::is_thought(&json(r#"{"thought":"true"}"#)));
    let req = GoogleDecoder
        .decode_request(&google_request(vec![GoogleContent {
            role: Some("model".to_string()),
            parts: vec![
                GooglePart::Other(json(r#"{"thought":true,"text":"why"}"#)),
                GooglePart::Text { text: "so".to_string() },
            ],
        }]))
        .unwrap();
    match &req.messages[0].content {
        MessageContent::Blocks(v) => {
            assert!(matches!(&v[0], ContentBlock::Thinking { thinking, .. } if thinking == "why"));
            assert!(matches!(&v[1], ContentBlock::Text { text, .. } if text == "so"));
            assert_eq!(v.len(), 2);
        }
        MessageContent::Text(t) => panic!("only text: {t}"),
    }
}

#[test]
fn reads_generate_content_requests() {
    let mut wire = google_request(vec![
        GoogleContent {
            role: Some("model".to_string()),
            parts: vec![GooglePart::FunctionCall {
                function_call: GoogleFunctionCall {
                    name: "f".to_string(),
                    args: json(r#"{"a":1}"#),
                },
            }],
        },
        GoogleContent {
            role: Some("user".to_string()),
            parts: vec![GooglePart::FunctionResponse {
                function_response: GoogleFunctionResponse {
                    name: "f".to_string(),
                    response: json(r#"{"ok":true}"#),
                },
            }],
        },
    ]);
    wire.system_instruction = Some(GoogleContent {
        role: None,
        parts: vec![GooglePart::Text { text: "be brief".to_string() }],
    });
    let req = GoogleDecoder.decode_with_model(&wire, "gemini", true).unwrap();
    assert_eq!(req.model, "gemini");
    assert!(req.stream.enabled);
    assert_eq!(req.messages[0].content.to_text(), "be brief");
    let calls = req.messages[1].tool_calls.as_ref().unwrap();
    assert_eq!(calls[0].name, "f");
    assert_eq!(calls[0].arguments, r#"{"a":1}"#);
    assert!(!calls[0].id.is_empty());
    assert!(req.meta.source_protocol.unwrap().same(&google_generate_content_v1beta()));
}

#[test]
fn writes_generate_content_requests() {
    let mut req = AiRequest::new(
        "gemini".to_string(),
        vec![
            text(Role::System, "be brief"),
            text(Role::User, "go"),
            calling("", &["c1"]),
            answer(Some("c1"), "done"),
        ],
    );
    req.generation.max_tokens = Some(9);
    req.tools = Some(vec![
        ToolSpec {
            name: "f".to_string(),
            description: None,
            parameters: json(r#"{"type":"object","additionalProperties":false}"#),
            strict: None,
            cache_control: None,
            meta: None,
        },
        ToolSpec {
            name: "__builtin__google_search".to_string(),
            description: None,
            parameters: json("{}"),
            strict: None,
            cache_control: None,
            meta: None,
        },
    ]);
    let (body, _) = GoogleEncoder.encode_request(&req).unwrap();
    assert_eq!(
        value(&body),
        expect(
            r#"{
                "contents": [
                    {"role": "user", "parts": [{"text": "go"}]},
                    {"role": "model",
                     "parts": [{"functionCall": {"name": "lookup", "args": {"q": 1}}}]},
                    {"role": "user",
                     "parts": [{"functionResponse":
                         {"name": "c1", "response": {"result": "done"}}}]}
                ],
                "systemInstruction": {"parts": [{"text": "be brief"}]},
                "generationConfig": {"maxOutputTokens": 9},
                "tools": [
                    {"functionDeclarations": [{"name": "f", "parameters": {"type": "OBJECT"}}]},
                    {"googleSearch": {}}
                ]
            }"#
        )
    );
    assert_eq!(
        GoogleEncoder.egress_path("gemini", true),
        "/v1beta/models/gemini:streamGenerateContent?alt=sse"
    );
    assert_eq!(
        GoogleEncoder.egress_path("gemini", false),
        "/v1beta/models/gemini:generateContent"
    );
}

#[test]
fn cleans_schemas() {
    let clean = sanitize_gemini_schema(&json(
        r##"{"$schema":"x","items":[{"$ref":"#/a","type":"string"}],"$defs":{},"title":"t"}"##,
    ));
    assert_eq!(value(&clean), expect(r#"{"items":[{"type":"string"}],"title":"t"}"#));
}

// ── Embeddings ──

#[test]
fn passes_embeddings_on() {
    let body = json(
        r#"{"model":" text-embedding ","input":["a"],"dimensions":3,"user":"me","other":1}"#,
    );
    let req = EmbeddingsDecoder.decode_request(&body).unwrap();
    assert_eq!(req.model, "text-embedding");
    let ingress = &req.meta.vendor.ingress;
    assert_eq!(value(ingress.get("__vendor_ingress").unwrap()), expect(r#"{"other":1}"#));
    let (out, _) = EmbeddingsEncoder.encode_request(&req).unwrap();
    assert_eq!(
        value(&out),
        expect(r#"{"model":"text-embedding","input":["a"],"dimensions":3,"user":"me"}"#)
    );
    assert_eq!(EmbeddingsEncoder.egress_path("text-embedding", false), "/v1/embeddings");

    let fault = |raw: &str| EmbeddingsDecoder.decode_request(&json(raw)).unwrap_err().to_string();
    assert_eq!(fault("[]"), "embeddings request must be a JSON object");
    assert_eq!(fault(r#"{"model":"  "}"#), "model is required for embeddings");
}

#[test]
fn reads_the_usage_of_embeddings() {
    let usage = parse_usage(&json(r#"{"usage":{"prompt_tokens":12}}"#));
    assert_eq!(usage.prompt_tokens, 12);
    assert_eq!(parse_usage(&json("{}")).prompt_tokens, 0);
}

// ── where a request goes ──

#[test]
fn resolves_egress() {
    let provider = Provider {
        protocol_endpoints: json(
            r#"{
                "openai-responses": {"base_url": "https://r.example"},
                "anthropic-messages": {"base_url": "https://a.example"}
            }"#,
        ),
        default_protocol: "anthropic-messages".to_string(),
    };
    let served = ProviderProtocols::from_provider(&provider);
    assert!(served.supports(openai_responses_v1()));
    assert!(!served.supports(openai_chat_completions_v1()));

    let own = served.resolve_egress(openai_responses_v1());
    assert_eq!(own.base_url, "https://r.example");
    assert!(!own.needs_conversion);

    let other = served.resolve_egress(google_generate_content_v1beta());
    assert!(other.protocol.same(&anthropic_messages_2023_06_01()));
    assert_eq!(other.base_url, "https://a.example");
    assert!(other.needs_conversion);
}

// ── errors ──

#[test]
fn tells_errors_by_status() {
    assert_eq!(AiError::from_status(401, "no").kind, AiErrorKind::AuthenticationError);
    assert_eq!(AiError::from_status(504, "slow").kind, AiErrorKind::Timeout);
    assert_eq!(AiError::from_status(400, "bad").kind, AiErrorKind::InvalidRequest);
    assert_eq!(AiError::from_status(529, "spent").kind, AiErrorKind::QuotaExceeded);
    assert!(!AiError::from_status(529, "spent").is_retryable());
    assert_eq!(AiError::from_status(503, "busy").kind, AiErrorKind::ServiceUnavailable);
    assert!(AiError::from_status(503, "busy").is_retryable());
    assert_eq!(AiError::from_status(418, "tea").kind, AiErrorKind::Unknown);
    assert!(AiError::from_status(429, "wait").is_retryable());
    assert!(!AiError::from_status(403, "no").is_retryable());
}

// ── both kinds of requests ──

#[test]
fn keeps_requests_through_both_forms() {
    let req = ResponsesDecoder
        .decode_request(json(r#"{"model":"m","input":"hi","user":"me","temperature":0.5}"#))
        .unwrap();
    let back = InternalRequest::from_ai(&AiRequest::from_internal(&req));
    assert_eq!(back.model, "m");
    assert_eq!(back.messages[0].content.as_text(), "hi");
    assert_eq!(back.temperature.as_deref(), Some("0.5"));
    assert_eq!(back.extra.get("user").and_then(|v| v.as_str()), Some("me"));
}

#[test]
fn tells_errors_in_words() {
    let error = AiError::new(AiErrorKind::QuotaExceeded, "used up").with_raw(json("1"));
    assert_eq!(error.to_string(), "[quota_exceeded] used up");
    assert_eq!(error.status_code, None);
    assert_eq!(error.with_status(402).status_code, Some(402));
}

#[test]
fn brings_schemas_to_either_case() {
    let mut schema = SchemaObject::new(json(r#"{"type":"OBJECT","items":{"type":"String"}}"#));
    let lower = expect(r#"{"type":"object","items":{"type":"string"}}"#);
    assert_eq!(value(schema.as_value()), lower);
    schema.normalize_to_lowercase();
    assert_eq!(
        value(&schema.to_google_wire()),
        expect(r#"{"type":"OBJECT","items":{"type":"STRING"}}"#)
    );
    assert_eq!(value(&schema.into_value()), lower);
}

#[test]
fn tells_blocks_apart() {
    let call = ContentBlock::ToolUse {
        id: "a".to_string(),
        name: "f".to_string(),
        input: json("{}"),
        cache_control: Some(CacheControl::ephemeral_1h()),
    };
    let result = ContentBlock::ToolResult {
        tool_use_id: "a".to_string(),
        content: json("1"),
        is_error: None,
        cache_control: Some(CacheControl::ephemeral()),
    };
    assert!(call.is_tool_use() && !call.is_tool_result());
    assert!(result.is_tool_result() && !result.is_tool_use());
    assert_eq!(call.as_text(), None);
    assert_ne!(CacheControl::ephemeral(), CacheControl::ephemeral_1h());
}

#[test]
fn finds_the_handler_of_an_endpoint() {
    let handler = openai_responses_v1().handler();
    assert!(handler.id().same(&openai_responses_v1()));
    assert_eq!(handler.protocol().as_str(), "openai-resps");
}

// ── the router ──

#[test]
fn routes_requests_to_the_router() {
    assert_eq!(router_path("/v1/responses"), RouterPath::Respond);
    assert_eq!(router_path("/models"), RouterPath::Models);
    assert_eq!(router_path("/v1/messages"), RouterPath::Unsupported);
}

#[test]
fn lists_the_model_for_codex() {
    let model = ResolvedModel {
        id: "m1".to_string(),
        name: "Model One".to_string(),
        context_window: Some(1000),
        supports_reasoning: true,
        wire: WireProtocol::OpenaiCompletions,
    };
    assert_eq!(
        value(&codex_models_response(Some(&model))),
        expect(
            r#"{"object":"list","models":[{"id":"m1","slug":"m1","display_name":"Model One",
                "supports_reasoning":true,"context_window":1000}]}"#
        )
    );
    assert_eq!(value(&codex_models_response(None)), expect(r#"{"object":"list","models":[]}"#));
}

#[test]
fn takes_a_response_apart_into_steps() {
    let mut resp = AiResponse::new("r".to_string(), "m".to_string());
    resp.content = "hi".to_string();
    resp.tool_calls = calling("", &["a"]).tool_calls.unwrap();
    let steps = response_deltas(&resp);
    assert_eq!(steps.len(), 6);
    assert!(matches!(&steps[0], StreamDelta::MessageStart { id, .. } if id == "r"));
    assert!(matches!(&steps[1], StreamDelta::TextDelta(t) if t == "hi"));
    assert!(matches!(&steps[2], StreamDelta::ToolCallStart { index: 0, id, .. } if id == "a"));
    assert!(matches!(&steps[3], StreamDelta::ToolCallDelta { index: 0, .. }));
    assert!(matches!(&steps[5], StreamDelta::Done { stop_reason } if stop_reason == "stop"));
}
