//! Requests of the Anthropic Messages protocol.
use vstd::prelude::*;

use crate::json::{Fields, Json, JsonV};
use crate::protocol::codec::anthropic_messages::stream::{
    text_block_json, thinking_block_json, tool_use_block_json,
};
use crate::protocol::types::{
    ContentBlock, ContentBlockV, InternalMessage, InternalMessageV, InternalRequest,
    InternalRequestV, MessageContent, MessageContentV, Role, ToolCall, ToolCallV, ToolDef,
    ToolDefV,
};
use crate::protocol::{CodecError, EgressEncoder};
use crate::views::Views;

verus! {

// ---------------------------------------------------------------- tool identifiers

/// The characters that a tool identifier may hold.
pub open spec fn id_char(c: char) -> bool {
    crate::text::is_alnum(c) || c == '_' || c == '-'
}

/// Whether a text holds only characters of tool identifiers.
pub open spec fn id_chars(s: Seq<char>) -> bool {
    forall|i: int| 0 <= i < s.len() ==> id_char(#[trigger] s[i])
}

/// The text with an underscore for every other character.
pub open spec fn sanitized(s: Seq<char>) -> Seq<char> {
    Seq::new(
        s.len(),
        |i: int|
            if id_char(s[i]) {
                s[i]
            } else {
                '_'
            },
    )
}

/// The tool identifier of the protocol for any identifier.
pub open spec fn tool_id(raw: Seq<char>) -> Seq<char> {
    let t = crate::text::trim_of(raw);
    if t.len() == 0 {
        "toolu_nyro"@
    } else if crate::text::begins(t, "toolu_"@) && id_chars(t) {
        t
    } else {
        "toolu_"@ + sanitized(t)
    }
}

fn is_id_char(c: char) -> (r: bool)
    ensures
        r == id_char(c),
{
    crate::text::alnum(c) || c == '_' || c == '-'
}

/// Writes an identifier so that the protocol accepts it for a tool call.
pub fn normalize_anthropic_tool_id(raw: &str) -> (r: String)
    ensures
        r@ == tool_id(raw@),
{
    let trimmed = crate::text::trim(raw);
    if trimmed.is_empty() {
        return "toolu_nyro".to_string();
    }
    let v = crate::text::chars_of(trimmed);
    let mut all: bool = true;
    let mut clean: String = String::new();
    for i in 0..v.len()
        invariant
            clean@.len() == i,
            forall|j: int|
                0 <= j < i ==> clean@[j] == (if id_char(v@[j]) {
                    v@[j]
                } else {
                    '_'
                }),
            all == (forall|j: int| 0 <= j < i ==> id_char(#[trigger] v@[j])),
    {
        if is_id_char(v[i]) {
            clean.push(v[i]);
        } else {
            all = false;
            clean.push('_');
        }
    }
    assert(clean@ =~= sanitized(trimmed@));
    if all && crate::text::starts_with(trimmed, "toolu_") {
        trimmed.to_string()
    } else {
        crate::text::cat("toolu_", clean.as_str())
    }
}

/// A written tool identifier has the protocol's prefix and alphabet, and writing it again leaves
/// it as it is.
pub proof fn lemma_tool_id(raw: Seq<char>)
    ensures
        crate::text::begins(tool_id(raw), "toolu_"@),
        id_chars(tool_id(raw)),
        tool_id(tool_id(raw)) == tool_id(raw),
{
    reveal_strlit("toolu_");
    reveal_strlit("toolu_nyro");
    let t = crate::text::trim_of(raw);
    let r = tool_id(raw);
    if t.len() == 0 {
        assert(r.subrange(0, 6) =~= "toolu_"@);
    } else if !(crate::text::begins(t, "toolu_"@) && id_chars(t)) {
        assert(r.subrange(0, 6) =~= "toolu_"@);
        assert forall|i: int| 0 <= i < r.len() implies id_char(#[trigger] r[i]) by {
            if i >= 6 {
                assert(r[i] == sanitized(t)[i - 6]);
            }
        }
    }
    assert(r.len() > 0);
    assert(id_char(r[0]));
    assert(id_char(r.last()));
    assert(crate::text::trim_start(r) == r);
    assert(crate::text::trim_end(r) == r);
}

// ---------------------------------------------------------------- reasoning effort

/// The effort that a request asks for.
pub open spec fn effort_of(extra: Seq<(Seq<char>, JsonV)>) -> Option<Seq<char>> {
    match crate::json::get_field(extra, "reasoning"@) {
        Some(r) => r.get_str("effort"@),
        None => None,
    }
}

/// The protocol's name of an effort.
pub open spec fn effort_name(effort: Seq<char>) -> Option<Seq<char>> {
    let e = crate::text::lower_of(effort);
    if e == "none"@ || e == "minimal"@ || e == "low"@ {
        Some("low"@)
    } else if e == "medium"@ {
        Some("medium"@)
    } else if e == "high"@ {
        Some("high"@)
    } else if e == "xhigh"@ || e == "max"@ {
        Some("max"@)
    } else {
        None
    }
}

/// The thinking budget of an effort.
pub open spec fn effort_budget(effort: Seq<char>) -> Option<u32> {
    let e = crate::text::lower_of(effort);
    if e == "minimal"@ || e == "low"@ {
        Some(1024u32)
    } else if e == "medium"@ {
        Some(4096u32)
    } else if e == "high"@ {
        Some(16384u32)
    } else if e == "xhigh"@ || e == "max"@ {
        Some(32000u32)
    } else {
        None
    }
}

fn responses_reasoning_effort(req: &InternalRequest) -> (r: Option<&str>)
    ensures
        r.views() == effort_of(req@.extra),
{
    match req.extra.get("reasoning") {
        Some(reasoning) => reasoning.get_str("effort"),
        None => None,
    }
}

/// The protocol's name of an effort.
pub fn anthropic_effort(effort: &str) -> (r: Option<&'static str>)
    ensures
        r.views() == effort_name(effort@),
{
    let lower = crate::text::to_ascii_lowercase(effort);
    let e: &str = lower.as_str();
    if *e == *"none" || *e == *"minimal" || *e == *"low" {
        Some("low")
    } else if *e == *"medium" {
        Some("medium")
    } else if *e == *"high" {
        Some("high")
    } else if *e == *"xhigh" || *e == *"max" {
        Some("max")
    } else {
        None
    }
}

/// The thinking budget of an effort.
pub fn anthropic_budget_tokens(effort: &str) -> (r: Option<u32>)
    ensures
        r == effort_budget(effort@),
{
    let lower = crate::text::to_ascii_lowercase(effort);
    let e: &str = lower.as_str();
    if *e == *"minimal" || *e == *"low" {
        Some(1024)
    } else if *e == *"medium" {
        Some(4096)
    } else if *e == *"high" {
        Some(16384)
    } else if *e == *"xhigh" || *e == *"max" {
        Some(32000)
    } else {
        None
    }
}

// ---------------------------------------------------------------- tool choice

/// An object with nothing but a type.
pub open spec fn typed(kind: Seq<char>) -> JsonV {
    JsonV::obj().with("type"@, JsonV::Text(kind))
}

/// The choice of one tool by its name.
pub open spec fn named_choice(name: Seq<char>) -> Option<JsonV> {
    if name.len() == 0 {
        None
    } else {
        Some(typed("tool"@).with("name"@, JsonV::Text(name)))
    }
}

/// The name in a choice of the form `function`.
pub open spec fn function_name(raw: JsonV) -> Seq<char> {
    match raw.get_str("name"@) {
        Some(n) => n,
        None => match raw.get2("function"@, "name"@) {
            Some(JsonV::Text(n)) => n,
            _ => Seq::empty(),
        },
    }
}

/// The choice that an object asks for, parallel use aside.
pub open spec fn object_choice(raw: JsonV) -> Option<JsonV> {
    let kind = raw.str_or_empty("type"@);
    if kind == "auto"@ {
        Some(typed("auto"@))
    } else if kind == "required"@ || kind == "any"@ {
        Some(typed("any"@))
    } else if kind == "tool"@ {
        named_choice(raw.str_or_empty("name"@))
    } else if kind == "function"@ {
        named_choice(function_name(raw))
    } else {
        None
    }
}

/// The protocol's form of a tool choice; nothing where it has none.
pub open spec fn tool_choice_of(raw: JsonV) -> Option<JsonV> {
    match raw {
        JsonV::Text(s) => if s == "auto"@ {
            Some(typed("auto"@))
        } else if s == "required"@ {
            Some(typed("any"@))
        } else {
            None
        },
        JsonV::Object(_) => match object_choice(raw) {
            Some(c) => Some(
                if raw.get_bool("disable_parallel_tool_use"@) == Some(true) {
                    c.with("disable_parallel_tool_use"@, JsonV::Bool(true))
                } else {
                    c
                },
            ),
            None => None,
        },
        _ => None,
    }
}

fn typed_json(kind: &str) -> (r: Json)
    ensures
        r@ == typed(kind@),
{
    Json::object().with("type", Json::text(kind))
}

fn named_choice_json(name: &str) -> (r: Option<Json>)
    ensures
        r.views() == named_choice(name@),
{
    if name.is_empty() {
        None
    } else {
        Some(typed_json("tool").with("name", Json::text(name)))
    }
}

/// Writes a tool choice in the protocol's form.
pub fn map_tool_choice_for_anthropic(raw: &Json) -> (r: Option<Json>)
    ensures
        r.views() == tool_choice_of(raw@),
{
    if let Some(s) = raw.as_str() {
        return if *s == *"auto" {
            Some(typed_json("auto"))
        } else if *s == *"required" {
            Some(typed_json("any"))
        } else {
            None
        };
    }
    if raw.as_object().is_none() {
        return None;
    }
    let kind_text = raw.str_or_empty("type");
    let kind: &str = kind_text.as_str();
    let choice = if *kind == *"auto" {
        Some(typed_json("auto"))
    } else if *kind == *"required" || *kind == *"any" {
        Some(typed_json("any"))
    } else if *kind == *"tool" {
        named_choice_json(raw.str_or_empty("name").as_str())
    } else if *kind == *"function" {
        let name = match raw.get_str("name") {
            Some(n) => n.to_string(),
            None => match raw.get("function") {
                Some(f) => f.str_or_empty("name"),
                None => {
                    let e = String::new();
                    assert(e@ =~= Seq::<char>::empty());
                    e
                },
            },
        };
        named_choice_json(name.as_str())
    } else {
        None
    };
    match choice {
        Some(c) => {
            let disabled = match raw.get_bool("disable_parallel_tool_use") {
                Some(b) => b,
                None => false,
            };
            if disabled {
                Some(c.with("disable_parallel_tool_use", Json::Bool(true)))
            } else {
                Some(c)
            }
        },
        None => None,
    }
}

// ---------------------------------------------------------------- messages

/// A block with the result of a tool.
pub open spec fn tool_result_block(tool_use_id: Seq<char>, content: JsonV) -> JsonV {
    typed("tool_result"@).with("tool_use_id"@, JsonV::Text(tool_use_id)).with("content"@, content)
}

fn tool_result_json(tool_use_id: &str, content: Json) -> (r: Json)
    ensures
        r@ == tool_result_block(tool_use_id@, content@),
{
    typed_json("tool_result").with("tool_use_id", Json::text(tool_use_id)).with("content", content)
}

/// The first tool result from position `i` on.
pub open spec fn first_result(blocks: Seq<ContentBlockV>, i: int) -> Option<(Seq<char>, JsonV)>
    decreases blocks.len() - i,
{
    if i < 0 || i >= blocks.len() {
        None
    } else {
        match blocks[i] {
            ContentBlockV::ToolResult { tool_use_id, content } => Some((tool_use_id, content)),
            _ => first_result(blocks, i + 1),
        }
    }
}

/// The content of a tool message, and the identifier that it names itself.
pub open spec fn result_payload(c: MessageContentV) -> (JsonV, Option<Seq<char>>) {
    match c {
        MessageContentV::Text(t) => (JsonV::Text(t), None),
        MessageContentV::Blocks(b) => match first_result(b, 0) {
            Some((id, content)) => (content, Some(id)),
            None => (JsonV::Text(c.as_text()), None),
        },
    }
}

fn anthropic_tool_result_payload(msg: &InternalMessage) -> (r: (Json, Option<String>))
    ensures
        (r.0@, r.1.views()) == result_payload(msg@.content),
{
    match &msg.content {
        MessageContent::Text(t) => (Json::Text(t.clone()), None),
        MessageContent::Blocks(blocks) => {
            for i in 0..blocks.len()
                invariant
                    msg@.content == MessageContentV::Blocks(blocks.views()),
                    first_result(blocks.views(), 0) == first_result(blocks.views(), i as int),
            {
                assert(blocks.views()[i as int] == blocks@[i as int]@);
                if let ContentBlock::ToolResult { tool_use_id, content } = &blocks[i] {
                    return (content.dup(), Some(tool_use_id.clone()));
                }
            }
            (Json::Text(msg.content.as_text()), None)
        },
    }
}

/// The block of the protocol for a block.
pub open spec fn block_json(b: ContentBlockV) -> JsonV {
    match b {
        ContentBlockV::Text {
            text,
        } => crate::protocol::codec::anthropic_messages::stream::text_block(text),
        ContentBlockV::Image { media_type, data } => typed("image"@).with(
            "source"@,
            typed("base64"@).with("media_type"@, JsonV::Text(media_type)).with(
                "data"@,
                JsonV::Text(data),
            ),
        ),
        ContentBlockV::Reasoning { text, signature } => thinking_json(
            text,
            crate::text::solid(signature),
        ),
        ContentBlockV::ToolUse {
            id,
            name,
            input,
        } => crate::protocol::codec::anthropic_messages::stream::tool_use_block(
            tool_id(id),
            name,
            input,
        ),
        ContentBlockV::ToolResult { tool_use_id, content } => tool_result_block(
            tool_id(tool_use_id),
            content,
        ),
    }
}

/// A thinking block, signed where there is a signature.
pub open spec fn thinking_json(text: Seq<char>, signature: Option<Seq<char>>) -> JsonV {
    let b = crate::protocol::codec::anthropic_messages::stream::thinking_block(text);
    match signature {
        Some(s) => b.with("signature"@, JsonV::Text(s)),
        None => b,
    }
}

fn thinking_with(text: &str, signature: Option<&str>) -> (r: Json)
    ensures
        r@ == thinking_json(text@, signature.views()),
{
    let block = thinking_block_json(text);
    match signature {
        Some(s) => block.with("signature", Json::text(s)),
        None => block,
    }
}

fn encode_block(b: &ContentBlock) -> (r: Json)
    ensures
        r@ == block_json(b@),
{
    match b {
        ContentBlock::Text { text } => text_block_json(text.as_str()),
        ContentBlock::Image { source } => typed_json("image").with(
            "source",
            typed_json("base64").with("media_type", Json::text(source.media_type.as_str())).with(
                "data",
                Json::text(source.data.as_str()),
            ),
        ),
        ContentBlock::Reasoning { text, signature } => {
            let sig = match signature {
                Some(s) => crate::text::solid_str(Some(s.as_str())),
                None => None,
            };
            thinking_with(text.as_str(), sig)
        },
        ContentBlock::ToolUse { id, name, input } => {
            let id = normalize_anthropic_tool_id(id.as_str());
            tool_use_block_json(id.as_str(), name.as_str(), input.dup())
        },
        ContentBlock::ToolResult { tool_use_id, content } => {
            let id = normalize_anthropic_tool_id(tool_use_id.as_str());
            tool_result_json(id.as_str(), content.dup())
        },
    }
}

/// The blocks of the first `n` tool calls, behind `before`.
pub open spec fn call_blocks(before: Seq<JsonV>, calls: Seq<ToolCallV>, n: nat) -> Seq<JsonV>
    decreases n,
{
    if n == 0 {
        before
    } else {
        let c = calls[n - 1];
        call_blocks(before, calls, (n - 1) as nat).push(
            crate::protocol::codec::anthropic_messages::stream::tool_use_block(
                tool_id(c.id),
                c.name,
                JsonV::read_or_object(c.arguments),
            ),
        )
    }
}

/// The solid text of a field of a message's extras.
pub open spec fn extra_text(extra: Seq<(Seq<char>, JsonV)>, k: Seq<char>) -> Option<Seq<char>> {
    crate::text::solid(
        match crate::json::get_field(extra, k) {
            Some(v) => v.as_str(),
            None => None,
        },
    )
}

fn extra_str<'a>(extra: &'a Fields, key: &str) -> (r: Option<&'a str>)
    ensures
        r.views() == extra_text(extra@, key@),
{
    let found = match extra.get(key) {
        Some(v) => v.as_str(),
        None => None,
    };
    crate::text::solid_str(found)
}

/// The content of a plain text message: blocks where it carries reasoning or tool calls.
pub open spec fn text_content(msg: InternalMessageV, t: Seq<char>) -> JsonV {
    let reasoning = extra_text(msg.extra, "reasoning_content"@);
    if reasoning is None && msg.tool_calls is None {
        JsonV::Text(t)
    } else {
        let thinking = match reasoning {
            Some(text) => seq![
                thinking_json(text, extra_text(msg.extra, "reasoning_signature"@)),
            ],
            None => Seq::empty(),
        };
        let texts = if t.len() > 0 {
            thinking.push(crate::protocol::codec::anthropic_messages::stream::text_block(t))
        } else {
            thinking
        };
        JsonV::Array(
            match msg.tool_calls {
                Some(calls) => call_blocks(texts, calls, calls.len()),
                None => texts,
            },
        )
    }
}

/// The message of the protocol for a message of a client, a model or a tool.
pub open spec fn message_json(msg: InternalMessageV) -> JsonV {
    if msg.role is Tool {
        let (content, hint) = result_payload(msg.content);
        let id = match crate::text::solid(msg.tool_call_id) {
            Some(i) => tool_id(i),
            None => match hint {
                Some(i) => tool_id(i),
                None => tool_id("tool_result"@),
            },
        };
        JsonV::obj().with("role"@, JsonV::Text("user"@)).with(
            "content"@,
            JsonV::Array(seq![tool_result_block(id, content)]),
        )
    } else {
        JsonV::obj().with(
            "role"@,
            JsonV::Text(
                if msg.role is Assistant {
                    "assistant"@
                } else {
                    "user"@
                },
            ),
        ).with(
            "content"@,
            match msg.content {
                MessageContentV::Text(t) => text_content(msg, t),
                MessageContentV::Blocks(b) => JsonV::Array(
                    Seq::new(b.len(), |i: int| block_json(b[i])),
                ),
            },
        )
    }
}

fn encode_text_content(msg: &InternalMessage, t: &str) -> (r: Json)
    ensures
        r@ == text_content(msg@, t@),
{
    let reasoning = extra_str(&msg.extra, "reasoning_content");
    if reasoning.is_none() && msg.tool_calls.is_none() {
        return Json::text(t);
    }
    let mut blocks: Vec<Json> = crate::views::none();
    if let Some(text) = reasoning {
        let block = thinking_with(text, extra_str(&msg.extra, "reasoning_signature"));
        crate::views::push(&mut blocks, block);
        assert(blocks.views() =~= seq![block@]);
    }
    if !t.is_empty() {
        crate::views::push(&mut blocks, text_block_json(t));
    }
    let ghost before = blocks.views();
    if let Some(calls) = &msg.tool_calls {
        for i in 0..calls.len()
            invariant
                blocks.views() == call_blocks(before, calls.views(), i as nat),
        {
            let tc = &calls[i];
            assert(calls.views()[i as int] == tc@);
            let id = normalize_anthropic_tool_id(tc.id.as_str());
            let input = Json::parse_or_object(tc.arguments.as_str());
            crate::views::push(
                &mut blocks,
                tool_use_block_json(id.as_str(), tc.name.as_str(), input),
            );
        }
    }
    Json::array(blocks)
}

/// Writes a message; system messages are not written here.
pub fn encode_message(msg: &InternalMessage) -> (r: Json)
    requires
        msg.role != Role::System,
    ensures
        r@ == message_json(msg@),
{
    if msg.role == Role::Tool {
        let (content, hint) = anthropic_tool_result_payload(msg);
        let own = match &msg.tool_call_id {
            Some(s) => crate::text::solid_str(Some(s.as_str())),
            None => None,
        };
        let id = match own {
            Some(s) => normalize_anthropic_tool_id(s),
            None => match hint {
                Some(h) => normalize_anthropic_tool_id(h.as_str()),
                None => normalize_anthropic_tool_id("tool_result"),
            },
        };
        let mut blocks: Vec<Json> = crate::views::none();
        let block = tool_result_json(id.as_str(), content);
        crate::views::push(&mut blocks, block);
        assert(blocks.views() =~= seq![block@]);
        return Json::object().with("role", Json::text("user")).with("content", Json::array(blocks));
    }
    let role = if msg.role == Role::Assistant {
        "assistant"
    } else {
        "user"
    };
    let content = match &msg.content {
        MessageContent::Text(t) => encode_text_content(msg, t.as_str()),
        MessageContent::Blocks(blocks) => {
            let mut arr: Vec<Json> = crate::views::none();
            for i in 0..blocks.len()
                invariant
                    arr.views().len() == i,
                    forall|j: int|
                        0 <= j < i ==> #[trigger] arr.views()[j] == block_json(blocks.views()[j]),
            {
                assert(blocks.views()[i as int] == blocks@[i as int]@);
                crate::views::push(&mut arr, encode_block(&blocks[i]));
            }
            assert(arr.views() =~= Seq::new(
                blocks.views().len(),
                |i: int| block_json(blocks.views()[i]),
            ));
            Json::array(arr)
        },
    };
    Json::object().with("role", Json::text(role)).with("content", content)
}

// ---------------------------------------------------------------- turns

/// Whether a block stays: all but blank text blocks do.
pub open spec fn block_stays(b: JsonV) -> bool {
    b.str_or_empty("type"@) != "text"@ || crate::text::trim_of(b.str_or_empty("text"@)).len() > 0
}

/// The blocks among the first `n` that stay.
pub open spec fn staying(a: Seq<JsonV>, n: nat) -> Seq<JsonV>
    decreases n,
{
    if n == 0 {
        Seq::empty()
    } else {
        let before = staying(a, (n - 1) as nat);
        if block_stays(a[n - 1]) {
            before.push(a[n - 1])
        } else {
            before
        }
    }
}

/// The blocks of a message's content.
pub open spec fn content_blocks(content: JsonV) -> Seq<JsonV> {
    match content {
        JsonV::Text(s) => if crate::text::trim_of(s).len() == 0 {
            Seq::empty()
        } else {
            seq![crate::protocol::codec::anthropic_messages::stream::text_block(s)]
        },
        JsonV::Array(a) => staying(a, a.len()),
        _ => Seq::empty(),
    }
}

fn content_to_blocks(content: &Json) -> (r: Vec<Json>)
    ensures
        r.views() == content_blocks(content@),
{
    let mut out: Vec<Json> = crate::views::none();
    if let Some(s) = content.as_str() {
        if !crate::text::is_blank(s) {
            let block = text_block_json(s);
            crate::views::push(&mut out, block);
            assert(out.views() =~= seq![block@]);
        }
    } else if let Some(a) = content.as_array() {
        for i in 0..a.len()
            invariant
                out.views() == staying(a.views(), i as nat),
        {
            let b = &a[i];
            assert(a.views()[i as int] == b@);
            let kind = b.str_or_empty("type");
            let text = b.str_or_empty("text");
            if *kind.as_str() != *"text" || !crate::text::is_blank(text.as_str()) {
                crate::views::push(&mut out, b.dup());
            }
        }
    }
    out
}

/// A turn of a conversation: the blocks that one side says before the other speaks.
pub struct Turn {
    pub role: String,
    pub blocks: Vec<Json>,
}

pub struct TurnV {
    pub role: Seq<char>,
    pub blocks: Seq<JsonV>,
}

impl View for Turn {
    type V = TurnV;

    open spec fn view(&self) -> TurnV {
        TurnV { role: self.role@, blocks: self.blocks.views() }
    }
}

/// The turns with one message more: it joins the last turn where the same side speaks on.
pub open spec fn turns_with(turns: Seq<TurnV>, msg: JsonV) -> Seq<TurnV> {
    match msg.get_str("role"@) {
        Some(role) => {
            let blocks = content_blocks(msg.get_or_null("content"@));
            if blocks.len() == 0 {
                turns
            } else if turns.len() > 0 && turns.last().role == role {
                turns.drop_last().push(TurnV { role, blocks: turns.last().blocks + blocks })
            } else {
                turns.push(TurnV { role, blocks })
            }
        },
        None => turns,
    }
}

/// The turns of the first `n` messages.
pub open spec fn turns_of(messages: Seq<JsonV>, n: nat) -> Seq<TurnV>
    decreases n,
{
    if n == 0 {
        Seq::empty()
    } else {
        turns_with(turns_of(messages, (n - 1) as nat), messages[n - 1])
    }
}

/// The place of a block in a turn that calls tools: thinking first, tool calls last.
pub open spec fn place(b: JsonV) -> int {
    let kind = b.str_or_empty("type"@);
    if kind == "thinking"@ {
        0
    } else if kind == "tool_use"@ {
        2
    } else {
        1
    }
}

/// The blocks among the first `n` at a place, in their order.
pub open spec fn at_place(blocks: Seq<JsonV>, p: int, n: nat) -> Seq<JsonV>
    decreases n,
{
    if n == 0 {
        Seq::empty()
    } else {
        let before = at_place(blocks, p, (n - 1) as nat);
        if place(blocks[n - 1]) == p {
            before.push(blocks[n - 1])
        } else {
            before
        }
    }
}

/// The blocks of a turn in the order in which they are written.
pub open spec fn ordered(t: TurnV) -> Seq<JsonV> {
    let n = t.blocks.len();
    if t.role == "assistant"@ && at_place(t.blocks, 2, n).len() > 0 {
        at_place(t.blocks, 0, n) + at_place(t.blocks, 1, n) + at_place(t.blocks, 2, n)
    } else {
        t.blocks
    }
}

/// The message of the protocol for a turn.
pub open spec fn turn_json(t: TurnV) -> JsonV {
    JsonV::obj().with("role"@, JsonV::Text(t.role)).with("content"@, JsonV::Array(ordered(t)))
}

/// The messages with each side's neighbouring messages joined and tool calls behind all else.
pub open spec fn normalized(messages: Seq<JsonV>) -> Seq<JsonV> {
    let turns = turns_of(messages, messages.len());
    Seq::new(turns.len(), |i: int| turn_json(turns[i]))
}

fn turn_message(turn: &Turn) -> (r: Json)
    ensures
        r@ == turn_json(turn@),
{
    let mut thinking: Vec<Json> = crate::views::none();
    let mut others: Vec<Json> = crate::views::none();
    let mut calls: Vec<Json> = crate::views::none();
    for i in 0..turn.blocks.len()
        invariant
            thinking.views() == at_place(turn.blocks.views(), 0, i as nat),
            others.views() == at_place(turn.blocks.views(), 1, i as nat),
            calls.views() == at_place(turn.blocks.views(), 2, i as nat),
    {
        let b = &turn.blocks[i];
        assert(turn.blocks.views()[i as int] == b@);
        let kind = b.str_or_empty("type");
        if *kind.as_str() == *"thinking" {
            crate::views::push(&mut thinking, b.dup());
        } else if *kind.as_str() == *"tool_use" {
            crate::views::push(&mut calls, b.dup());
        } else {
            crate::views::push(&mut others, b.dup());
        }
    }
    let blocks = if *turn.role.as_str() == *"assistant" && calls.len() > 0 {
        crate::views::extend(&mut thinking, others);
        crate::views::extend(&mut thinking, calls);
        thinking
    } else {
        crate::json::dup_items(&turn.blocks)
    };
    Json::object().with("role", Json::text(turn.role.as_str())).with(
        "content",
        Json::array(blocks),
    )
}

/// Joins the neighbouring messages of each side and moves its tool calls behind all else.
pub fn normalize_anthropic_messages(messages: &Vec<Json>) -> (r: Vec<Json>)
    ensures
        r.views() == normalized(messages.views()),
{
    let mut turns: Vec<Turn> = crate::views::none();
    for i in 0..messages.len()
        invariant
            turns.views() == turns_of(messages.views(), i as nat),
    {
        let msg = &messages[i];
        assert(messages.views()[i as int] == msg@);
        if let Some(role) = msg.get_str("role") {
            let blocks = content_to_blocks(&msg.get_or_null("content"));
            if blocks.len() > 0 {
                let n: usize = turns.len();
                if n > 0 && *turns[n - 1].role.as_str() == *role {
                    let ghost before = turns.views();
                    let last = turns.pop();
                    if let Some(last) = last {
                        assert(before.last() == last@);
                        assert(turns.views() =~= before.drop_last());
                        let mut all = last.blocks;
                        crate::views::extend(&mut all, blocks);
                        crate::views::push(
                            &mut turns,
                            Turn { role: role.to_string(), blocks: all },
                        );
                    }
                } else {
                    crate::views::push(&mut turns, Turn { role: role.to_string(), blocks });
                }
            }
        }
    }
    let mut out: Vec<Json> = crate::views::none();
    for i in 0..turns.len()
        invariant
            out.views().len() == i,
            forall|j: int|
                0 <= j < i ==> #[trigger] out.views()[j] == turn_json(turns.views()[j]),
    {
        assert(turns.views()[i as int] == turns@[i as int]@);
        crate::views::push(&mut out, turn_message(&turns[i]));
    }
    assert(out.views() =~= normalized(messages.views()));
    out
}

// ---------------------------------------------------------------- checking a body

/// The beginning of every complaint about a message.
pub open spec fn at_message(idx: nat) -> Seq<char> {
    "anthropic payload message["@ + crate::text::decimal(idx) + "]"@
}

/// The part of a complaint that names a block.
pub open spec fn at_block(kind: Seq<char>, bidx: nat) -> Seq<char> {
    kind + "block["@ + crate::text::decimal(bidx) + "]"@
}

/// The block types that the protocol takes.
pub open spec fn allowed_type(t: Seq<char>) -> bool {
    t == "text"@ || t == "image"@ || t == "thinking"@ || t == "tool_use"@ || t == "tool_result"@ || t
        == "document"@ || t == "input_audio"@
}

/// What is wrong with a block.
pub open spec fn block_fault(idx: nat, bidx: nat, b: JsonV) -> Option<Seq<char>> {
    match b.get_str("type"@) {
        Some(t) => if !allowed_type(t) {
            Some(at_message(idx) + " unsupported block type: "@ + t)
        } else if t == "tool_use"@ && (b.str_or_empty("id"@).len() == 0 || b.str_or_empty(
            "name"@,
        ).len() == 0) {
            Some(at_message(idx) + at_block(" tool_use "@, bidx) + " missing id/name"@)
        } else if t == "tool_result"@ && b.str_or_empty("tool_use_id"@).len() == 0 {
            Some(at_message(idx) + at_block(" tool_result "@, bidx) + " missing tool_use_id"@)
        } else {
            None
        },
        None => Some(at_message(idx) + at_block(" "@, bidx) + " missing type"@),
    }
}

/// What is wrong with the first `n` blocks.
pub open spec fn blocks_fault(idx: nat, blocks: Seq<JsonV>, n: nat) -> Option<Seq<char>>
    decreases n,
{
    if n == 0 {
        None
    } else {
        match blocks_fault(idx, blocks, (n - 1) as nat) {
            Some(e) => Some(e),
            None => block_fault(idx, (n - 1) as nat, blocks[n - 1]),
        }
    }
}

/// What is wrong with a message.
pub open spec fn message_fault(idx: nat, msg: JsonV) -> Option<Seq<char>> {
    match msg.get_str("role"@) {
        Some(role) => if role != "user"@ && role != "assistant"@ {
            Some(at_message(idx) + " invalid role: "@ + role)
        } else {
            match msg.get("content"@) {
                Some(JsonV::Text(_)) => None,
                Some(JsonV::Array(blocks)) => blocks_fault(idx, blocks, blocks.len()),
                Some(_) => Some(at_message(idx) + " content must be string or array"@),
                None => Some(at_message(idx) + " missing content"@),
            }
        },
        None => Some(at_message(idx) + " missing role"@),
    }
}

/// What is wrong with the first `n` messages.
pub open spec fn messages_fault(messages: Seq<JsonV>, n: nat) -> Option<Seq<char>>
    decreases n,
{
    if n == 0 {
        None
    } else {
        match messages_fault(messages, (n - 1) as nat) {
            Some(e) => Some(e),
            None => message_fault((n - 1) as nat, messages[n - 1]),
        }
    }
}

/// What is wrong with a tool choice.
pub open spec fn choice_fault(choice: Option<JsonV>) -> Option<Seq<char>> {
    match choice {
        Some(c) => if c.as_object() is None {
            Some("anthropic tool_choice must be object"@)
        } else {
            let t = c.str_or_empty("type"@);
            if t != "auto"@ && t != "any"@ && t != "tool"@ {
                Some("anthropic tool_choice invalid type: "@ + t)
            } else if t == "tool"@ && c.str_or_empty("name"@).len() == 0 {
                Some("anthropic tool_choice=tool missing name"@)
            } else {
                None
            }
        },
        None => None,
    }
}

/// What is wrong with a request body: the first fault in reading order.
pub open spec fn payload_fault(body: JsonV) -> Option<Seq<char>> {
    if body.as_object() is None {
        Some("anthropic payload must be object"@)
    } else if crate::text::solid(body.get_str("model"@)) is None {
        Some("anthropic payload missing model"@)
    } else if body.get_u64("max_tokens"@) is None {
        Some("anthropic payload missing max_tokens"@)
    } else {
        match body.get_array("messages"@) {
            Some(messages) => if messages.len() == 0 {
                Some("anthropic payload has empty messages"@)
            } else {
                match messages_fault(messages, messages.len()) {
                    Some(e) => Some(e),
                    None => choice_fault(body.get("tool_choice"@)),
                }
            },
            None => Some("anthropic payload missing messages"@),
        }
    }
}

fn message_place(idx: usize) -> (r: String)
    ensures
        r@ == at_message(idx as nat),
{
    let n = crate::text::decimal_text(idx as u64);
    crate::text::cat3("anthropic payload message[", n.as_str(), "]")
}

fn block_place(kind: &str, bidx: usize) -> (r: String)
    ensures
        r@ == at_block(kind@, bidx as nat),
{
    let n = crate::text::decimal_text(bidx as u64);
    let mut out = crate::text::cat(kind, "block[");
    out.append(n.as_str());
    out.append("]");
    out
}

fn is_allowed_type(t: &str) -> (r: bool)
    ensures
        r == allowed_type(t@),
{
    *t == *"text" || *t == *"image" || *t == *"thinking" || *t == *"tool_use" || *t
        == *"tool_result" || *t == *"document" || *t == *"input_audio"
}

fn check_block(idx: usize, bidx: usize, b: &Json) -> (r: Option<String>)
    ensures
        r.views() == block_fault(idx as nat, bidx as nat, b@),
{
    let mut at = message_place(idx);
    match b.get_str("type") {
        Some(t) => {
            if !is_allowed_type(t) {
                at.append(" unsupported block type: ");
                at.append(t);
                Some(at)
            } else if *t == *"tool_use" && (b.str_or_empty("id").as_str().is_empty()
                || b.str_or_empty("name").as_str().is_empty()) {
                at.append(block_place(" tool_use ", bidx).as_str());
                at.append(" missing id/name");
                Some(at)
            } else if *t == *"tool_result" && b.str_or_empty("tool_use_id").as_str().is_empty() {
                at.append(block_place(" tool_result ", bidx).as_str());
                at.append(" missing tool_use_id");
                Some(at)
            } else {
                None
            }
        },
        None => {
            at.append(block_place(" ", bidx).as_str());
            at.append(" missing type");
            Some(at)
        },
    }
}

fn check_message(idx: usize, msg: &Json) -> (r: Option<String>)
    ensures
        r.views() == message_fault(idx as nat, msg@),
{
    let mut at = message_place(idx);
    match msg.get_str("role") {
        Some(role) => {
            if *role != *"user" && *role != *"assistant" {
                at.append(" invalid role: ");
                at.append(role);
                return Some(at);
            }
        },
        None => {
            at.append(" missing role");
            return Some(at);
        },
    }
    match msg.get("content") {
        Some(content) => {
            if content.as_str().is_some() {
                return None;
            }
            match content.as_array() {
                Some(blocks) => {
                    let mut fault: Option<String> = None;
                    for i in 0..blocks.len()
                        invariant
                            fault.views() == blocks_fault(idx as nat, blocks.views(), i as nat),
                    {
                        assert(blocks.views()[i as int] == blocks@[i as int]@);
                        if fault.is_none() {
                            fault = check_block(idx, i, &blocks[i]);
                        }
                    }
                    fault
                },
                None => {
                    at.append(" content must be string or array");
                    Some(at)
                },
            }
        },
        None => {
            at.append(" missing content");
            Some(at)
        },
    }
}

fn check_choice(choice: Option<&Json>) -> (r: Option<String>)
    ensures
        r.views() == choice_fault(choice.views()),
{
    match choice {
        Some(c) => {
            if c.as_object().is_none() {
                return Some("anthropic tool_choice must be object".to_string());
            }
            let kind = c.str_or_empty("type");
            let t: &str = kind.as_str();
            if *t != *"auto" && *t != *"any" && *t != *"tool" {
                Some(crate::text::cat("anthropic tool_choice invalid type: ", t))
            } else if *t == *"tool" && c.str_or_empty("name").as_str().is_empty() {
                Some("anthropic tool_choice=tool missing name".to_string())
            } else {
                None
            }
        },
        None => None,
    }
}

/// Checks a request body; the first fault in reading order is the error.
pub fn validate_anthropic_payload(body: &Json) -> (r: Result<(), CodecError>)
    ensures
        match r {
            Ok(_) => payload_fault(body@) is None,
            Err(e) => payload_fault(body@) == Some(e@),
        },
{
    if body.as_object().is_none() {
        return Err(CodecError::new("anthropic payload must be object"));
    }
    if crate::text::solid_str(body.get_str("model")).is_none() {
        return Err(CodecError::new("anthropic payload missing model"));
    }
    if body.get_u64("max_tokens").is_none() {
        return Err(CodecError::new("anthropic payload missing max_tokens"));
    }
    match body.get_array("messages") {
        Some(messages) => {
            if messages.len() == 0 {
                return Err(CodecError::new("anthropic payload has empty messages"));
            }
            let mut fault: Option<String> = None;
            for i in 0..messages.len()
                invariant
                    fault.views() == messages_fault(messages.views(), i as nat),
            {
                assert(messages.views()[i as int] == messages@[i as int]@);
                if fault.is_none() {
                    fault = check_message(i, &messages[i]);
                }
            }
            if fault.is_none() {
                fault = check_choice(body.get("tool_choice"));
            }
            match fault {
                Some(message) => Err(CodecError { message }),
                None => Ok(()),
            }
        },
        None => Err(CodecError::new("anthropic payload missing messages")),
    }
}

// ---------------------------------------------------------------- whole requests

/// The text of the system messages among the first `n`, one per line.
pub open spec fn system_text(messages: Seq<InternalMessageV>, n: nat) -> Seq<char>
    decreases n,
{
    if n == 0 {
        Seq::empty()
    } else {
        let before = system_text(messages, (n - 1) as nat);
        let m = messages[n - 1];
        if m.role is System {
            (if before.len() > 0 {
                before.push('\n')
            } else {
                before
            }) + m.content.as_text()
        } else {
            before
        }
    }
}

/// The system prompt of a request.
pub open spec fn system_of(req: InternalRequestV) -> Option<JsonV> {
    match crate::json::get_field(req.extra, "__anthropic_raw_system"@) {
        Some(v) => Some(v),
        None => {
            let t = system_text(req.messages, req.messages.len());
            if t.len() == 0 {
                None
            } else {
                Some(JsonV::Text(t))
            }
        },
    }
}

/// The messages of the protocol for the first `n` messages, system messages left out.
pub open spec fn plain_messages(messages: Seq<InternalMessageV>, n: nat) -> Seq<JsonV>
    decreases n,
{
    if n == 0 {
        Seq::empty()
    } else {
        let before = plain_messages(messages, (n - 1) as nat);
        if messages[n - 1].role is System {
            before
        } else {
            before.push(message_json(messages[n - 1]))
        }
    }
}

/// The messages of a request body.
pub open spec fn messages_of(req: InternalRequestV) -> JsonV {
    match crate::json::get_field(req.extra, "__anthropic_raw_messages"@) {
        Some(v) => v,
        None => JsonV::Array(normalized(plain_messages(req.messages, req.messages.len()))),
    }
}

/// The thinking budget of a request.
pub open spec fn budget_of(req: InternalRequestV) -> Option<u32> {
    match effort_of(req.extra) {
        Some(e) => effort_budget(e),
        None => None,
    }
}

/// The limit on the tokens of the answer: above the thinking budget in any case.
pub open spec fn max_tokens_of(req: InternalRequestV) -> u32 {
    let asked = match req.max_tokens {
        Some(n) => n,
        None => 4096u32,
    };
    match budget_of(req) {
        Some(b) => if asked <= b {
            (b + 1024) as u32
        } else {
            asked
        },
        None => asked,
    }
}

/// The tool of the protocol for a tool.
pub open spec fn tool_json(t: ToolDefV) -> JsonV {
    match crate::text::after_prefix(t.name, "__builtin__"@) {
        Some(kind) => {
            let e = typed(kind).with("name"@, JsonV::Text(kind));
            match t.description {
                Some(d) => e.with("description"@, JsonV::Text(d)),
                None => e,
            }
        },
        None => JsonV::obj().with("name"@, JsonV::Text(t.name)).with(
            "description"@,
            match t.description {
                Some(d) => JsonV::Text(d),
                None => JsonV::Null,
            },
        ).with("input_schema"@, t.parameters),
    }
}

/// The tools of a request body.
pub open spec fn tools_of(req: InternalRequestV) -> Option<JsonV> {
    match crate::json::get_field(req.extra, "__anthropic_raw_tools"@) {
        Some(v) => Some(v),
        None => match req.tools {
            Some(tools) => Some(
                JsonV::Array(Seq::new(tools.len(), |i: int| tool_json(tools[i]))),
            ),
            None => None,
        },
    }
}

/// The body with the field `to` set to the extra `from`, where there is one.
pub open spec fn carried(
    body: JsonV,
    extra: Seq<(Seq<char>, JsonV)>,
    from: Seq<char>,
    to: Seq<char>,
) -> JsonV {
    body.with_opt(to, crate::json::get_field(extra, from))
}

/// The body of a request of the protocol.
pub open spec fn body_of(req: InternalRequestV) -> JsonV {
    let b = JsonV::obj().with("model"@, JsonV::Text(req.model)).with(
        "messages"@,
        messages_of(req),
    ).with("max_tokens"@, JsonV::num(max_tokens_of(req) as u64)).with(
        "stream"@,
        JsonV::Bool(req.stream),
    ).with_opt("system"@, system_of(req)).with_opt(
        "temperature"@,
        JsonV::opt_float(req.temperature),
    ).with_opt(
        "top_p"@,
        JsonV::opt_float(req.top_p),
    ).with_opt(
        "thinking"@,
        match budget_of(req) {
            Some(n) => Some(typed("enabled"@).with("budget_tokens"@, JsonV::num(n as u64))),
            None => None,
        },
    ).with_opt(
        "output_config"@,
        match effort_of(req.extra) {
            Some(e) => match effort_name(e) {
                Some(n) => Some(JsonV::obj().with("effort"@, JsonV::Text(n))),
                None => None,
            },
            None => None,
        },
    ).with_opt("tools"@, tools_of(req)).with_opt(
        "tool_choice"@,
        match req.tool_choice {
            Some(c) => tool_choice_of(c),
            None => None,
        },
    );
    let b = carried(b, req.extra, "__anthropic_thinking"@, "thinking"@);
    let b = carried(b, req.extra, "__anthropic_context_management"@, "context_management"@);
    let b = carried(b, req.extra, "__anthropic_container"@, "container"@);
    let b = carried(b, req.extra, "__anthropic_service_tier"@, "service_tier"@);
    let b = carried(b, req.extra, "__anthropic_metadata"@, "metadata"@);
    let b = carried(b, req.extra, "__anthropic_stop_sequences"@, "stop_sequences"@);
    carried(b, req.extra, "__anthropic_top_k"@, "top_k"@)
}

fn encode_system(req: &InternalRequest) -> (r: Option<Json>)
    ensures
        r.views() == system_of(req@),
{
    if let Some(v) = req.extra.get("__anthropic_raw_system") {
        return Some(v.dup());
    }
    let mut text: String = String::new();
    assert(text@ =~= Seq::<char>::empty());
    for i in 0..req.messages.len()
        invariant
            text@ == system_text(req@.messages, i as nat),
    {
        let msg = &req.messages[i];
        assert(req@.messages[i as int] == msg@);
        if msg.role == Role::System {
            if !text.as_str().is_empty() {
                text.push('\n');
            }
            text.append(msg.content.as_text().as_str());
        }
    }
    if text.as_str().is_empty() {
        None
    } else {
        Some(Json::Text(text))
    }
}

fn encode_messages(req: &InternalRequest) -> (r: Json)
    ensures
        r@ == messages_of(req@),
{
    if let Some(v) = req.extra.get("__anthropic_raw_messages") {
        return v.dup();
    }
    let mut plain: Vec<Json> = crate::views::none();
    for i in 0..req.messages.len()
        invariant
            plain.views() == plain_messages(req@.messages, i as nat),
    {
        let msg = &req.messages[i];
        assert(req@.messages[i as int] == msg@);
        if msg.role != Role::System {
            crate::views::push(&mut plain, encode_message(msg));
        }
    }
    Json::array(normalize_anthropic_messages(&plain))
}

fn encode_tool(t: &ToolDef) -> (r: Json)
    ensures
        r@ == tool_json(t@),
{
    match crate::text::strip_prefix(t.name.as_str(), "__builtin__") {
        Some(kind) => {
            let e = typed_json(kind).with("name", Json::text(kind));
            match &t.description {
                Some(d) => e.with("description", Json::text(d.as_str())),
                None => e,
            }
        },
        None => {
            let description = match &t.description {
                Some(d) => Json::text(d.as_str()),
                None => Json::Null,
            };
            Json::object().with("name", Json::text(t.name.as_str())).with(
                "description",
                description,
            ).with("input_schema", t.parameters.dup())
        },
    }
}

fn encode_tools(req: &InternalRequest) -> (r: Option<Json>)
    ensures
        r.views() == tools_of(req@),
{
    if let Some(v) = req.extra.get("__anthropic_raw_tools") {
        return Some(v.dup());
    }
    match &req.tools {
        Some(tools) => {
            let mut out: Vec<Json> = crate::views::none();
            for i in 0..tools.len()
                invariant
                    out.views().len() == i,
                    forall|j: int|
                        0 <= j < i ==> #[trigger] out.views()[j] == tool_json(tools.views()[j]),
            {
                assert(tools.views()[i as int] == tools@[i as int]@);
                crate::views::push(&mut out, encode_tool(&tools[i]));
            }
            assert(out.views() =~= Seq::new(
                tools.views().len(),
                |i: int| tool_json(tools.views()[i]),
            ));
            Some(Json::array(out))
        },
        None => None,
    }
}

fn carry(body: Json, extra: &Fields, from: &str, to: &str) -> (r: Json)
    ensures
        r@ == carried(body@, extra@, from@, to@),
{
    match extra.get(from) {
        Some(v) => body.with(to, v.dup()),
        None => body,
    }
}

/// Writes the body of a request of the protocol.
pub fn encode_body(req: &InternalRequest) -> (r: Json)
    ensures
        r@ == body_of(req@),
{
    let effort = responses_reasoning_effort(req);
    let budget = match effort {
        Some(e) => anthropic_budget_tokens(e),
        None => None,
    };
    let mut max_tokens: u32 = match req.max_tokens {
        Some(n) => n,
        None => 4096,
    };
    let mut thinking: Option<Json> = None;
    if let Some(b) = budget {
        if max_tokens <= b {
            max_tokens = b + 1024;
        }
        thinking = Some(typed_json("enabled").with("budget_tokens", Json::num(b as u64)));
    }
    let mut output: Option<Json> = None;
    if let Some(e) = effort {
        if let Some(name) = anthropic_effort(e) {
            output = Some(Json::object().with("effort", Json::text(name)));
        }
    }
    let choice = match &req.tool_choice {
        Some(c) => map_tool_choice_for_anthropic(c),
        None => None,
    };
    let b = Json::object().with("model", Json::text(req.model.as_str())).with(
        "messages",
        encode_messages(req),
    ).with("max_tokens", Json::num(max_tokens as u64)).with(
        "stream",
        Json::Bool(req.stream),
    ).with_opt("system", encode_system(req)).with_opt(
        "temperature",
        Json::float_opt(&req.temperature),
    ).with_opt("top_p", Json::float_opt(&req.top_p)).with_opt("thinking", thinking).with_opt(
        "output_config",
        output,
    ).with_opt("tools", encode_tools(req)).with_opt("tool_choice", choice);
    let b = carry(b, &req.extra, "__anthropic_thinking", "thinking");
    let b = carry(b, &req.extra, "__anthropic_context_management", "context_management");
    let b = carry(b, &req.extra, "__anthropic_container", "container");
    let b = carry(b, &req.extra, "__anthropic_service_tier", "service_tier");
    let b = carry(b, &req.extra, "__anthropic_metadata", "metadata");
    let b = carry(b, &req.extra, "__anthropic_stop_sequences", "stop_sequences");
    carry(b, &req.extra, "__anthropic_top_k", "top_k")
}

/// Writes requests of the protocol.
#[derive(Debug, Clone, Copy)]
pub struct AnthropicEncoder;

impl EgressEncoder for AnthropicEncoder {
    /// Writes a request: its body where that is in order, and the version header.
    fn encode_request(&self, req: &InternalRequest) -> (r: Result<
        (Json, Vec<(String, String)>),
        CodecError,
    >)
        ensures
            match r {
                Ok((body, headers)) => {
                    &&& body@ == body_of(req@)
                    &&& payload_fault(body@) is None
                    &&& headers@.len() == 1
                    &&& headers@[0].0@ == "anthropic-version"@
                    &&& headers@[0].1@ == "2023-06-01"@
                },
                Err(e) => payload_fault(body_of(req@)) == Some(e@),
            },
    {
        let body = encode_body(req);
        match validate_anthropic_payload(&body) {
            Ok(_) => {
                let mut headers: Vec<(String, String)> = Vec::new();
                headers.push(("anthropic-version".to_string(), "2023-06-01".to_string()));
                Ok((body, headers))
            },
            Err(e) => Err(e),
        }
    }

    /// The path of the endpoint.
    fn egress_path(&self, _model: &str, _stream: bool) -> (r: String)
        ensures
            r@ == "/v1/messages"@,
    {
        "/v1/messages".to_string()
    }
}

/// The answer's limit is above the thinking budget.
pub proof fn lemma_budget_below_limit(req: InternalRequestV)
    ensures
        budget_of(req) matches Some(b) ==> b < max_tokens_of(req),
{
}

/// No turn is empty, and no two neighbouring turns are of the same side.
pub open spec fn alternating(t: Seq<TurnV>) -> bool {
    &&& forall|i: int| 0 <= i < t.len() ==> (#[trigger] t[i]).blocks.len() > 0
    &&& forall|i: int, j: int|
        0 <= i && j == i + 1 && j < t.len() ==> (#[trigger] t[i]).role != (#[trigger] t[j]).role
}

/// The turns that messages are joined into alternate.
pub proof fn lemma_turns_alternate(messages: Seq<JsonV>, n: nat)
    requires
        n <= messages.len(),
    ensures
        alternating(turns_of(messages, n)),
    decreases n,
{
    if n > 0 {
        lemma_turns_alternate(messages, (n - 1) as nat);
        let before = turns_of(messages, (n - 1) as nat);
        let after = turns_of(messages, n);
        assert forall|i: int| 0 <= i < after.len() implies (#[trigger] after[i]).blocks.len()
            > 0 by {
            if i < before.len() {
                assert(before[i].blocks.len() > 0);
            }
        }
        assert forall|i: int, j: int| 0 <= i && j == i + 1 && j < after.len() implies (
        #[trigger] after[i]).role != (#[trigger] after[j]).role by {
            assert(after[i].role == before[i].role);
            if j < before.len() {
                assert(before[i].role != before[j].role);
                assert(after[j].role == before[j].role);
            }
        }
    }
}

} // verus!
