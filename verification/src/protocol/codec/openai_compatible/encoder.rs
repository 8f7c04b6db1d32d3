//! Writes requests of the Chat Completions protocol.
use vstd::prelude::*;

use crate::json::{Fields, Json, JsonV};
use crate::protocol::codec::openai_compatible::history::{
    normalize_messages_for_openai, text_of_result, tool_message_payload,
};
use crate::protocol::ir::request::{
    AiRequest, AiRequestV, BlockV, ContentBlock, ContentV, MediaSource, MediaV, Message,
    MessageContent, MessageV, Role, ToolCall, ToolChoice, ToolChoiceV, ToolSpec, ToolSpecV,
};
use crate::protocol::ir::serial::block_or_null;
use crate::protocol::traits::RequestEncoder;
use crate::protocol::types::ToolCallV;
use crate::protocol::CodecError;
use crate::views::Views;

verus! {

// ---------------------------------------------------------------- messages

/// A source as a URL.
pub open spec fn source_url(m: MediaV) -> Seq<char> {
    match m {
        MediaV::Base64 { media_type, data } => "data:"@ + media_type + ";base64,"@ + data,
        MediaV::Url(u) => u,
        MediaV::FileId { file_id, .. } => file_id,
    }
}

/// Writes a source as a URL.
pub fn media_source_to_url(source: &MediaSource) -> (r: String)
    ensures
        r@ == source_url(source@),
{
    match source {
        MediaSource::Base64 { media_type, data } => {
            let mut out = crate::text::cat3("data:", media_type.as_str(), ";base64,");
            out.append(data.as_str());
            out
        },
        MediaSource::Url(u) => u.clone(),
        MediaSource::FileId { file_id, .. } => file_id.clone(),
    }
}

pub open spec fn typed(kind: Seq<char>) -> JsonV {
    JsonV::obj().with("type"@, JsonV::Text(kind))
}

fn typed_json(kind: &str) -> (r: Json)
    ensures
        r@ == typed(kind@),
{
    Json::object().with("type", Json::text(kind))
}

/// A part that is a text.
pub open spec fn text_part(text: Seq<char>) -> JsonV {
    typed("text"@).with("text"@, JsonV::Text(text))
}

fn text_part_json(text: &str) -> (r: Json)
    ensures
        r@ == text_part(text@),
{
    typed_json("text").with("text", Json::text(text))
}

/// The part that a block is written as. A block that the protocol has no part for is written as
/// its own value.
pub open spec fn block_part(b: BlockV) -> JsonV {
    match b {
        BlockV::Text { text, .. } => text_part(text),
        BlockV::Image { source, .. } => typed("image_url"@).with(
            "image_url"@,
            JsonV::obj().with("url"@, JsonV::Text(source_url(source))),
        ),
        BlockV::Audio { source } => typed("input_audio"@).with(
            "input_audio"@,
            JsonV::obj().with("data"@, JsonV::Text(source_url(source))),
        ),
        BlockV::File { source } => typed("file"@).with(
            "file"@,
            JsonV::obj().with("url"@, JsonV::Text(source_url(source))),
        ),
        BlockV::ToolUse { id, name, input, .. } => typed("function"@).with(
            "id"@,
            JsonV::Text(id),
        ).with(
            "function"@,
            JsonV::obj().with("name"@, JsonV::Text(name)).with(
                "arguments"@,
                JsonV::Text(crate::json::text_of(input)),
            ),
        ),
        BlockV::ToolResult { tool_use_id, content, .. } => text_part(
            crate::protocol::codec::openai_compatible::history::result_text(content),
        ).with("tool_call_id"@, JsonV::Text(tool_use_id)),
        BlockV::Thinking { thinking, .. } => text_part(thinking),
        BlockV::RedactedThinking { .. } => text_part(""@),
        BlockV::Unknown { raw } => raw,
        _ => crate::protocol::ir::serial::value_or_null(b),
    }
}

/// Writes a block as a part.
pub fn encode_content_block_for_openai(b: &ContentBlock) -> (r: Json)
    ensures
        r@ == block_part(b@),
{
    broadcast use crate::protocol::ir::request::lemma_document_view;
    broadcast use crate::protocol::ir::request::lemma_search_view;

    match b {
        ContentBlock::Text { text, .. } => text_part_json(text.as_str()),
        ContentBlock::Image { source, .. } => typed_json("image_url").with(
            "image_url",
            Json::object().with("url", Json::text(media_source_to_url(source).as_str())),
        ),
        ContentBlock::Audio { source } => typed_json("input_audio").with(
            "input_audio",
            Json::object().with("data", Json::text(media_source_to_url(source).as_str())),
        ),
        ContentBlock::File { source } => typed_json("file").with(
            "file",
            Json::object().with("url", Json::text(media_source_to_url(source).as_str())),
        ),
        ContentBlock::ToolUse { id, name, input, .. } => typed_json("function").with(
            "id",
            Json::text(id.as_str()),
        ).with(
            "function",
            Json::object().with("name", Json::text(name.as_str())).with(
                "arguments",
                Json::text(input.to_text().as_str()),
            ),
        ),
        ContentBlock::ToolResult { tool_use_id, content, .. } => text_part_json(
            text_of_result(content).as_str(),
        ).with("tool_call_id", Json::text(tool_use_id.as_str())),
        ContentBlock::Thinking { thinking, .. } => text_part_json(thinking.as_str()),
        ContentBlock::RedactedThinking { .. } => text_part_json(""),
        ContentBlock::Unknown { raw } => raw.dup(),
        _ => block_or_null(b),
    }
}

/// Whether a block is written: an assistant's thinking is not, since it goes to a field of its
/// own.
pub open spec fn written(b: BlockV, role: Role) -> bool {
    !(role == Role::Assistant && (b is Thinking || b is RedactedThinking))
}

/// The parts of the first `n` blocks.
pub open spec fn parts_upto(blocks: Seq<BlockV>, role: Role, n: nat) -> Seq<JsonV>
    decreases n,
{
    if n == 0 {
        Seq::empty()
    } else {
        let before = parts_upto(blocks, role, (n - 1) as nat);
        if written(blocks[n - 1], role) {
            before.push(block_part(blocks[n - 1]))
        } else {
            before
        }
    }
}

fn encode_parts(blocks: &Vec<ContentBlock>, role: Role) -> (r: Vec<Json>)
    ensures
        r.views() == parts_upto(blocks.views(), role, blocks@.len()),
{
    let mut out: Vec<Json> = crate::views::none();
    for i in 0..blocks.len()
        invariant
            out.views() == parts_upto(blocks.views(), role, i as nat),
    {
        assert(blocks.views()[i as int] == blocks@[i as int]@);
        let thinking = match &blocks[i] {
            ContentBlock::Thinking { .. } => true,
            ContentBlock::RedactedThinking { .. } => true,
            _ => false,
        };
        if !(role == Role::Assistant && thinking) {
            crate::views::push(&mut out, encode_content_block_for_openai(&blocks[i]));
        }
    }
    out
}

/// The content of a message.
pub open spec fn content_value(c: ContentV, role: Role) -> JsonV {
    match c {
        ContentV::Text(t) => JsonV::Text(t),
        ContentV::Blocks(b) => JsonV::Array(parts_upto(b, role, b.len())),
    }
}

/// A call with its function.
pub open spec fn call_value(c: ToolCallV) -> JsonV {
    JsonV::obj().with("id"@, JsonV::Text(c.id)).with("type"@, JsonV::Text("function"@)).with(
        "function"@,
        JsonV::obj().with("name"@, JsonV::Text(c.name)).with(
            "arguments"@,
            JsonV::Text(c.arguments),
        ),
    )
}

/// Writes a call.
pub fn call_json(c: &ToolCall) -> (r: Json)
    ensures
        r@ == call_value(c@),
{
    Json::object().with("id", Json::text(c.id.as_str())).with("type", Json::text("function")).with(
        "function",
        Json::object().with("name", Json::text(c.name.as_str())).with(
            "arguments",
            Json::text(c.arguments.as_str()),
        ),
    )
}

pub open spec fn calls_value(v: Seq<ToolCallV>) -> JsonV {
    JsonV::Array(Seq::new(v.len(), |i: int| call_value(v[i])))
}

/// Writes a list of calls.
pub fn calls_json(v: &Vec<ToolCall>) -> (r: Json)
    ensures
        r@ == calls_value(v.views()),
{
    let mut out: Vec<Json> = crate::views::none();
    for i in 0..v.len()
        invariant
            out.views().len() == i,
            forall|j: int| 0 <= j < i ==> #[trigger] out.views()[j] == call_value(v.views()[j]),
    {
        assert(v.views()[i as int] == v@[i as int]@);
        crate::views::push(&mut out, call_json(&v[i]));
    }
    assert(out.views() =~= Seq::new(v.views().len(), |i: int| call_value(v.views()[i])));
    Json::array(out)
}

pub open spec fn role_name(r: Role) -> Seq<char> {
    match r {
        Role::System => "system"@,
        Role::User => "user"@,
        Role::Assistant => "assistant"@,
        Role::Tool => "tool"@,
    }
}

fn role_text(r: Role) -> (s: &'static str)
    ensures
        s@ == role_name(r),
{
    match r {
        Role::System => "system",
        Role::User => "user",
        Role::Assistant => "assistant",
        Role::Tool => "tool",
    }
}

/// The call that a tool message answers.
pub open spec fn answered_call(m: MessageV) -> Option<Seq<char>> {
    match crate::text::solid(m.tool_call_id) {
        Some(id) => Some(id),
        None => crate::protocol::codec::openai_compatible::history::payload(m.content).1,
    }
}

/// A message as the protocol writes it. Further fields of the message are kept where the protocol
/// has none of that name.
pub open spec fn message_value(m: MessageV) -> JsonV {
    let head = JsonV::obj().with("role"@, JsonV::Text(role_name(m.role)));
    if m.role == Role::Tool {
        head.with(
            "content"@,
            JsonV::Text(crate::protocol::codec::openai_compatible::history::payload(m.content).0),
        ).with_opt("tool_call_id"@, JsonV::opt_text(answered_call(m)))
    } else {
        let body = head.with("content"@, content_value(m.content, m.role)).with_opt(
            "tool_calls"@,
            match m.tool_calls {
                Some(v) => Some(calls_value(v)),
                None => None,
            },
        ).with_opt("tool_call_id"@, JsonV::opt_text(m.tool_call_id));
        match m.meta {
            Some(JsonV::Object(more)) => body.with_absent(more),
            _ => body,
        }
    }
}

/// Writes a message.
pub fn encode_message(msg: &Message) -> (r: Json)
    ensures
        r@ == message_value(msg@),
{
    broadcast use crate::json::lemma_object_view;

    let head = Json::object().with("role", Json::text(role_text(msg.role)));
    if msg.role == Role::Tool {
        let (text, hint) = tool_message_payload(&msg.content);
        let id = match &msg.tool_call_id {
            Some(id) => if crate::text::is_blank(id.as_str()) {
                hint
            } else {
                Some(id.clone())
            },
            None => hint,
        };
        return head.with("content", Json::text(text.as_str())).with_opt(
            "tool_call_id",
            Json::text_opt(&id),
        );
    }
    let content = match &msg.content {
        MessageContent::Text(t) => Json::text(t.as_str()),
        MessageContent::Blocks(b) => Json::array(encode_parts(b, msg.role)),
    };
    let calls = match &msg.tool_calls {
        Some(v) => Some(calls_json(v)),
        None => None,
    };
    let body = head.with("content", content).with_opt("tool_calls", calls).with_opt(
        "tool_call_id",
        Json::text_opt(&msg.tool_call_id),
    );
    match &msg.meta {
        Some(Json::Object(more)) => body.with_absent(more),
        _ => body,
    }
}

// ---------------------------------------------------------------- tools

pub open spec fn choice_value(c: ToolChoiceV) -> JsonV {
    match c {
        ToolChoiceV::Auto => JsonV::Text("auto"@),
        ToolChoiceV::Forbidden => JsonV::Text("none"@),
        ToolChoiceV::Required => JsonV::Text("required"@),
        ToolChoiceV::Named { name } => typed("function"@).with(
            "function"@,
            JsonV::obj().with("name"@, JsonV::Text(name)),
        ),
        ToolChoiceV::Raw(v) => v,
    }
}

/// Writes how the model picks tools.
pub fn tool_choice_to_value(tc: &ToolChoice) -> (r: Json)
    ensures
        r@ == choice_value(tc@),
{
    match tc {
        ToolChoice::Auto => Json::text("auto"),
        ToolChoice::Forbidden => Json::text("none"),
        ToolChoice::Required => Json::text("required"),
        ToolChoice::Named { name } => typed_json("function").with(
            "function",
            Json::object().with("name", Json::text(name.as_str())),
        ),
        ToolChoice::Raw(v) => v.dup(),
    }
}

pub open spec fn tool_value(t: ToolSpecV) -> JsonV {
    typed("function"@).with(
        "function"@,
        JsonV::obj().with("name"@, JsonV::Text(t.name)).with("parameters"@, t.parameters).with_opt(
            "description"@,
            JsonV::opt_text(t.description),
        ),
    )
}

fn tool_json(t: &ToolSpec) -> (r: Json)
    ensures
        r@ == tool_value(t@),
{
    typed_json("function").with(
        "function",
        Json::object().with("name", Json::text(t.name.as_str())).with(
            "parameters",
            t.parameters.dup(),
        ).with_opt("description", Json::text_opt(&t.description)),
    )
}

pub open spec fn tools_value(v: Seq<ToolSpecV>) -> JsonV {
    JsonV::Array(Seq::new(v.len(), |i: int| tool_value(v[i])))
}

fn tools_json(v: &Vec<ToolSpec>) -> (r: Json)
    ensures
        r@ == tools_value(v.views()),
{
    let mut out: Vec<Json> = crate::views::none();
    for i in 0..v.len()
        invariant
            out.views().len() == i,
            forall|j: int| 0 <= j < i ==> #[trigger] out.views()[j] == tool_value(v.views()[j]),
    {
        assert(v.views()[i as int] == v@[i as int]@);
        crate::views::push(&mut out, tool_json(&v[i]));
    }
    assert(out.views() =~= Seq::new(v.views().len(), |i: int| tool_value(v.views()[i])));
    Json::array(out)
}

// ---------------------------------------------------------------- the request

/// The function that a call without one is taken to mean: the first of the tools.
pub open spec fn fallback_tool(tools: Option<Seq<ToolSpecV>>) -> Seq<char> {
    match tools {
        Some(v) => if v.len() > 0 {
            v[0].name
        } else {
            "tool"@
        },
        None => "tool"@,
    }
}

fn fallback_name(tools: &Option<Vec<ToolSpec>>) -> (r: String)
    ensures
        r@ == fallback_tool(crate::views::opt_list(*tools)),
{
    match tools {
        Some(v) => if v.len() > 0 {
            assert(v.views()[0] == v@[0]@);
            v[0].name.clone()
        } else {
            "tool".to_string()
        },
        None => "tool".to_string(),
    }
}

/// The messages of a request as they are written.
pub open spec fn messages_value(req: AiRequestV) -> JsonV {
    let v = crate::protocol::codec::openai_compatible::history::normalized(
        req.messages,
        fallback_tool(req.tools),
    );
    JsonV::Array(Seq::new(v.len(), |i: int| message_value(v[i])))
}

fn messages_json(req: &AiRequest) -> (r: Json)
    ensures
        r@ == messages_value(req@),
{
    let v = normalize_messages_for_openai(&req.messages, fallback_name(&req.tools).as_str());
    let mut out: Vec<Json> = crate::views::none();
    for i in 0..v.len()
        invariant
            out.views().len() == i,
            forall|j: int| 0 <= j < i ==> #[trigger] out.views()[j] == message_value(v.views()[j]),
    {
        assert(v.views()[i as int] == v@[i as int]@);
        crate::views::push(&mut out, encode_message(&v[i]));
    }
    assert(out.views() =~= Seq::new(v.views().len(), |i: int| message_value(v.views()[i])));
    Json::array(out)
}

/// The options of the stream: those that came with the request, and otherwise that the token
/// counts are wanted.
pub open spec fn stream_options_of(req: AiRequestV) -> Option<JsonV> {
    if req.stream.enabled {
        match crate::json::get_field(req.meta.vendor.ingress, "stream_options"@) {
            Some(v) => Some(v),
            None => Some(JsonV::obj().with("include_usage"@, JsonV::Bool(true))),
        }
    } else {
        None
    }
}

/// The fields of the body that the representation knows.
pub open spec fn known_fields(req: AiRequestV) -> Seq<(Seq<char>, JsonV)> {
    let f = crate::json::put_field(Seq::empty(), "model"@, JsonV::Text(req.model));
    let f = crate::json::put_field(f, "messages"@, messages_value(req));
    let f = crate::json::put_field(f, "stream"@, JsonV::Bool(req.stream.enabled));
    let f = crate::json::put_opt(
        f,
        "temperature"@,
        JsonV::opt_float(req.generation.temperature),
    );
    let f = crate::json::put_opt(f, "max_tokens"@, JsonV::opt_u32(req.generation.max_tokens));
    let f = crate::json::put_opt(f, "top_p"@, JsonV::opt_float(req.generation.top_p));
    let f = crate::json::put_opt(
        f,
        "tools"@,
        match req.tools {
            Some(v) => if v.len() > 0 {
                Some(tools_value(v))
            } else {
                None
            },
            None => None,
        },
    );
    let f = crate::json::put_opt(
        f,
        "tool_choice"@,
        match req.tool_choice {
            Some(c) => Some(choice_value(c)),
            None => None,
        },
    );
    crate::json::put_opt(f, "stream_options"@, stream_options_of(req))
}

/// A field of the bag, unless the body has one of that name.
pub open spec fn carried(
    f: Seq<(Seq<char>, JsonV)>,
    bag: Seq<(Seq<char>, JsonV)>,
    k: Seq<char>,
) -> Seq<(Seq<char>, JsonV)> {
    crate::json::put_opt_absent(f, k, crate::json::get_field(bag, k))
}

/// The body: the fields that the representation knows, then those of the protocol, then all
/// others that came with the request.
pub open spec fn body_of(req: AiRequestV) -> JsonV {
    let bag = req.meta.vendor.ingress;
    let f = carried(known_fields(req), bag, "parallel_tool_calls"@);
    let f = carried(f, bag, "prediction"@);
    let f = carried(f, bag, "modalities"@);
    let f = carried(f, bag, "audio"@);
    let f = carried(f, bag, "response_format"@);
    let f = carried(f, bag, "seed"@);
    let f = carried(f, bag, "stop"@);
    let f = carried(f, bag, "logit_bias"@);
    let f = carried(f, bag, "service_tier"@);
    let f = carried(f, bag, "reasoning_effort"@);
    let f = carried(f, bag, "frequency_penalty"@);
    let f = carried(f, bag, "presence_penalty"@);
    let f = carried(f, bag, "n"@);
    let f = carried(f, bag, "user"@);
    JsonV::Object(crate::json::put_all_absent(f, bag, bag.len()))
}

fn carry(f: &mut Fields, bag: &Fields, k: &str)
    ensures
        final(f)@ == carried(old(f)@, bag@, k@),
{
    let v = match bag.get(k) {
        Some(v) => Some(v.dup()),
        None => None,
    };
    f.insert_opt_absent(k, v);
}

fn encode_known(req: &AiRequest) -> (r: Fields)
    ensures
        r@ == known_fields(req@),
{
    let mut f = Fields::new();
    f.insert("model", Json::text(req.model.as_str()));
    f.insert("messages", messages_json(req));
    f.insert("stream", Json::Bool(req.stream.enabled));
    f.insert_opt("temperature", Json::float_opt(&req.generation.temperature));
    f.insert_opt("max_tokens", Json::u32_opt(req.generation.max_tokens));
    f.insert_opt("top_p", Json::float_opt(&req.generation.top_p));
    let v = match &req.tools {
        Some(t) => if t.len() > 0 {
            Some(tools_json(t))
        } else {
            None
        },
        None => None,
    };
    f.insert_opt("tools", v);
    let v = match &req.tool_choice {
        Some(c) => Some(tool_choice_to_value(c)),
        None => None,
    };
    f.insert_opt("tool_choice", v);
    let v = if req.stream.enabled {
        match req.meta.vendor.ingress.get("stream_options") {
            Some(v) => Some(v.dup()),
            None => Some(Json::object().with("include_usage", Json::Bool(true))),
        }
    } else {
        None
    };
    f.insert_opt("stream_options", v);
    f
}

/// Writes requests of the protocol.
#[derive(Debug, Clone, Copy)]
pub struct OpenAIEncoder;

impl RequestEncoder for OpenAIEncoder {
    /// Writes a request; it has no headers of its own.
    fn encode_request(&self, req: &AiRequest) -> (r: Result<
        (Json, Vec<(String, String)>),
        CodecError,
    >)
        ensures
            r matches Ok((body, headers)) && body@ == body_of(req@) && headers@.len() == 0,
    {
        let bag = &req.meta.vendor.ingress;
        let mut f = encode_known(req);
        carry(&mut f, bag, "parallel_tool_calls");
        carry(&mut f, bag, "prediction");
        carry(&mut f, bag, "modalities");
        carry(&mut f, bag, "audio");
        carry(&mut f, bag, "response_format");
        carry(&mut f, bag, "seed");
        carry(&mut f, bag, "stop");
        carry(&mut f, bag, "logit_bias");
        carry(&mut f, bag, "service_tier");
        carry(&mut f, bag, "reasoning_effort");
        carry(&mut f, bag, "frequency_penalty");
        carry(&mut f, bag, "presence_penalty");
        carry(&mut f, bag, "n");
        carry(&mut f, bag, "user");
        f.insert_all_absent(bag);
        Ok((Json::of_fields(f), Vec::new()))
    }

    fn egress_path(&self, model: &str, stream: bool) -> (r: String)
        ensures
            r@ == "/v1/chat/completions"@,
    {
        "/v1/chat/completions".to_string()
    }
}

} // verus!
