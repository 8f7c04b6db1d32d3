use serde_json::Value;
use swcli::json::Json;
use swcli::protocol::ir::repair::{fill_tool_call_ids, patch_broken_conversation};
use swcli::protocol::ir::request::{AiRequest, Message, MessageContent, Role, ToolCall};
use swcli::protocol::ir::schema::SchemaObject;

fn json(text: &str) -> Json {
    Json::parse(text).unwrap()
}

fn value(json: &Json) -> Value {
    serde_json::from_str(&json.to_text()).unwrap()
}


fn ai_req(messages: Vec<Message>) -> AiRequest {
    AiRequest::new("test".to_string(), messages)
}

fn asst_with_tool(id: &str, name: &str) -> Message {
    Message {
        role: Role::Assistant,
        content: MessageContent::Text(String::new()),
        tool_calls: Some(vec![ToolCall {
            id: id.to_string(),
            name: name.to_string(),
            arguments: "{}".to_string(),
        }]),
        tool_call_id: None,
        meta: None,
    }
}

fn tool_result(tool_call_id: Option<&str>) -> Message {
    Message {
        role: Role::Tool,
        content: MessageContent::Text("result".to_string()),
        tool_calls: None,
        tool_call_id: tool_call_id.map(|s| s.to_string()),
        meta: None,
    }
}

#[test]
fn correlation_by_id() {
    let mut req = ai_req(vec![
        asst_with_tool("call_1", "get_weather"),
        tool_result(Some("call_1")),
    ]);
    fill_tool_call_ids(&mut req);
    let tool_msg = req.messages.iter().find(|m| m.role == Role::Tool).unwrap();
    assert_eq!(tool_msg.tool_call_id.as_deref(), Some("call_1"));
}

#[test]
fn fifo_fallback_when_no_id() {
    let mut req = ai_req(vec![
        asst_with_tool("call_abc", "search"),
        tool_result(None),
    ]);
    fill_tool_call_ids(&mut req);
    let tool_msg = req.messages.iter().find(|m| m.role == Role::Tool).unwrap();
    assert_eq!(tool_msg.tool_call_id.as_deref(), Some("call_abc"));
}

#[test]
fn patch_breaks_assistant_first() {
    let mut req = ai_req(vec![asst_with_tool("c1", "t1")]);
    patch_broken_conversation(&mut req);
    assert_eq!(req.messages[0].role, Role::User);
}


#[test]
fn normalizes_google_uppercase_to_lowercase() {
    let schema = json(r#"{
        "type": "OBJECT",
        "properties": {
            "name": { "type": "STRING" },
            "age":  { "type": "INTEGER" }
        }
    }"#);
    let obj = SchemaObject::new(schema);
    assert_eq!(value(obj.as_value())["type"], "object");
    assert_eq!(value(obj.as_value())["properties"]["name"]["type"], "string");
    assert_eq!(value(obj.as_value())["properties"]["age"]["type"], "integer");
}

#[test]
fn to_google_wire_uppercases() {
    let schema = json(r#"{"type": "object", "properties": {"x": {"type": "string"}}}"#);
    let obj = SchemaObject::new(schema);
    let wire = value(&obj.to_google_wire());
    assert_eq!(wire["type"], "OBJECT");
    assert_eq!(wire["properties"]["x"]["type"], "STRING");
}

#[test]
fn names_every_call_and_keeps_the_rest() {
    let mut talk = vec![
        tool_result(None),
        asst_with_tool("", "search"),
        tool_result(Some("")),
        Message {
            role: Role::User,
            content: MessageContent::Text("go".to_string()),
            tool_calls: None,
            tool_call_id: None,
            meta: None,
        },
        asst_with_tool("kept", "look"),
        tool_result(Some("other")),
    ];
    talk[2].content = MessageContent::Text("found".to_string());
    let before: Vec<String> =
        talk.iter().map(|m| format!("{:?} {}", m.role, m.content.to_text())).collect();
    let mut req = ai_req(talk);
    fill_tool_call_ids(&mut req);

    let mut kept = Vec::new();
    for (i, m) in req.messages.iter().enumerate() {
        for call in m.tool_calls.iter().flatten() {
            assert!(!call.id.trim().is_empty());
        }
        if m.role == Role::Tool {
            assert!(!m.tool_call_id.as_deref().unwrap().trim().is_empty());
        }
        let made_up = m.role == Role::Assistant
            && !m.tool_calls.iter().flatten().any(|c| c.name == "search" || c.name == "look");
        if made_up {
            assert_eq!(req.messages[i + 1].role, Role::Tool);
            assert_eq!(
                req.messages[i + 1].tool_call_id.as_ref(),
                Some(&m.tool_calls.as_ref().unwrap()[0].id)
            );
        } else {
            kept.push(format!("{:?} {}", m.role, m.content.to_text()));
        }
    }
    assert_eq!(kept, before);
}

#[test]
fn makes_schemas_of_values() {
    let schema = SchemaObject::from(json(r#"{"type":"OBJECT","items":[{"type":"STRING"}]}"#));
    assert_eq!(
        schema.into_value().to_text(),
        SchemaObject::new(json(r#"{"type":"object","items":[{"type":"string"}]}"#))
            .into_value()
            .to_text()
    );
}
