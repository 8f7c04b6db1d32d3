//! Reads requests of the Anthropic Messages protocol.
//!
//! Cache breakpoints and blocks that only this protocol has are carried in the representation
//! itself; the parts of the wire that hold them are kept as well, so that they can go on verbatim.
use vstd::prelude::*;

use crate::json::{Fields, Json, JsonV};
use crate::protocol::codec::anthropic_messages::types::{
    AnthropicContent, AnthropicContentBlock, AnthropicImageSource, AnthropicMessage,
    AnthropicRequest, AnthropicSystem, AnthropicSystemBlock, AnthropicTool, WireCacheControl,
    WireDocumentSource,
};
use crate::protocol::ids::EndpointV;
use crate::protocol::ir::cache::{CacheControl, CacheTtl};
use crate::protocol::ir::ext::{AnthropicExt, AnthropicExtV, ExtV, ProtocolExt};
use crate::protocol::ir::request::{
    AiRequest, AiRequestV, BlockV, ContentBlock, ContentV, DocumentSource, DocumentV,
    GenerationConfig, GenerationV, MediaSource, MediaV, Message, MessageContent, MessageV, MetaV,
    ReasoningConfig, ReasoningV, RequestMetadata, Role, StreamConfig, ToolCall, ToolChoice,
    ToolChoiceV, ToolSpec, ToolSpecV,
};
use crate::protocol::ir::vendor_ext::{VendorExtensions, VendorV};
use crate::protocol::traits::RequestDecoder;
use crate::protocol::types::ToolCallV;
use crate::protocol::CodecError;
use crate::views::Views;

verus! {

// ---------------------------------------------------------------- blocks

/// The breakpoint for a breakpoint of the wire, whose only lifetime is five minutes.
pub open spec fn breakpoint(cc: Option<WireCacheControl>) -> Option<CacheControl> {
    match cc {
        Some(_) => Some(CacheControl { ttl: CacheTtl::Ephemeral5m, breakpoint_priority: 0 }),
        None => None,
    }
}

/// The text of an option, or the empty one.
pub open spec fn or_empty(o: Option<String>) -> Seq<char> {
    match o {
        Some(s) => s@,
        None => Seq::empty(),
    }
}

pub open spec fn media_of(src: AnthropicImageSource) -> MediaV {
    if src.source_type@ == "url"@ {
        MediaV::Url(or_empty(src.url))
    } else {
        MediaV::Base64 { media_type: or_empty(src.media_type), data: or_empty(src.data) }
    }
}

pub open spec fn document_of(src: WireDocumentSource) -> DocumentV {
    if src.kind@ == "base64"@ {
        DocumentV::Base64Pdf { data: or_empty(src.data) }
    } else if src.kind@ == "url"@ {
        DocumentV::Url(or_empty(src.url))
    } else if src.kind@ == "content"@ {
        DocumentV::Blocks { content: Seq::empty() }
    } else {
        DocumentV::PlainText { data: or_empty(src.data) }
    }
}

/// The block for a block of the wire.
pub open spec fn block_of(b: AnthropicContentBlock) -> BlockV {
    match b {
        AnthropicContentBlock::Text { text, cache_control } => BlockV::Text {
            text: text@,
            cache_control: breakpoint(cache_control),
        },
        AnthropicContentBlock::Thinking { thinking, signature } => BlockV::Thinking {
            thinking: thinking@,
            signature: signature.views(),
        },
        AnthropicContentBlock::Image { source, cache_control } => BlockV::Image {
            source: media_of(source),
            cache_control: breakpoint(cache_control),
        },
        AnthropicContentBlock::ToolUse { id, name, input, cache_control } => BlockV::ToolUse {
            id: id@,
            name: name@,
            input: input@,
            cache_control: breakpoint(cache_control),
        },
        AnthropicContentBlock::ToolResult {
            tool_use_id,
            content,
            cache_control,
        } => BlockV::ToolResult {
            tool_use_id: tool_use_id@,
            content: match content {
                Some(v) => v@,
                None => JsonV::Null,
            },
            is_error: None,
            cache_control: breakpoint(cache_control),
        },
        AnthropicContentBlock::Document {
            source,
            title,
            context,
            cache_control,
        } => BlockV::Document {
            source: document_of(source),
            title: title.views(),
            context: context.views(),
            cache_control: breakpoint(cache_control),
        },
        AnthropicContentBlock::InputAudio { source, cache_control } => BlockV::Audio {
            source: MediaV::Base64 { media_type: source.media_type@, data: source.data@ },
        },
    }
}

fn map_cache_control(cc: &Option<WireCacheControl>) -> (r: Option<CacheControl>)
    ensures
        r == breakpoint(*cc),
{
    match cc {
        Some(_) => Some(CacheControl { ttl: CacheTtl::Ephemeral5m, breakpoint_priority: 0 }),
        None => None,
    }
}

fn or_default(o: &Option<String>) -> (r: String)
    ensures
        r@ == or_empty(*o),
{
    match o {
        Some(s) => s.clone(),
        None => {
            let e = String::new();
            assert(e@ =~= Seq::<char>::empty());
            e
        },
    }
}

fn map_image_source(src: &AnthropicImageSource) -> (r: MediaSource)
    ensures
        r@ == media_of(*src),
{
    if *src.source_type.as_str() == *"url" {
        MediaSource::Url(or_default(&src.url))
    } else {
        MediaSource::Base64 {
            media_type: or_default(&src.media_type),
            data: or_default(&src.data),
        }
    }
}

fn map_doc_source(src: &WireDocumentSource) -> (r: DocumentSource)
    ensures
        r@ == document_of(*src),
{
    let kind: &str = src.kind.as_str();
    if *kind == *"base64" {
        DocumentSource::Base64Pdf { data: or_default(&src.data) }
    } else if *kind == *"url" {
        DocumentSource::Url(or_default(&src.url))
    } else if *kind == *"content" {
        DocumentSource::Blocks { content: crate::views::none() }
    } else {
        DocumentSource::PlainText { data: or_default(&src.data) }
    }
}

fn decode_block(b: &AnthropicContentBlock) -> (r: ContentBlock)
    ensures
        r@ == block_of(*b),
{
    match b {
        AnthropicContentBlock::Text { text, cache_control } => ContentBlock::Text {
            text: text.clone(),
            cache_control: map_cache_control(cache_control),
        },
        AnthropicContentBlock::Thinking { thinking, signature } => ContentBlock::Thinking {
            thinking: thinking.clone(),
            signature: crate::text::clone_opt(signature),
        },
        AnthropicContentBlock::Image { source, cache_control } => ContentBlock::Image {
            source: map_image_source(source),
            cache_control: map_cache_control(cache_control),
        },
        AnthropicContentBlock::ToolUse { id, name, input, cache_control } => ContentBlock::ToolUse {
            id: id.clone(),
            name: name.clone(),
            input: input.dup(),
            cache_control: map_cache_control(cache_control),
        },
        AnthropicContentBlock::ToolResult {
            tool_use_id,
            content,
            cache_control,
        } => ContentBlock::ToolResult {
            tool_use_id: tool_use_id.clone(),
            content: match content {
                Some(v) => v.dup(),
                None => Json::Null,
            },
            is_error: None,
            cache_control: map_cache_control(cache_control),
        },
        AnthropicContentBlock::Document { source, title, context, cache_control } => {
            broadcast use crate::protocol::ir::request::lemma_document_view;

            ContentBlock::Document {
                source: map_doc_source(source),
                title: crate::text::clone_opt(title),
                context: crate::text::clone_opt(context),
                cache_control: map_cache_control(cache_control),
            }
        },
        AnthropicContentBlock::InputAudio { source, cache_control: _ } => ContentBlock::Audio {
            source: MediaSource::Base64 {
                media_type: source.media_type.clone(),
                data: source.data.clone(),
            },
        },
    }
}

// ---------------------------------------------------------------- messages of the model

/// The tool calls among the first `n` blocks.
pub open spec fn calls_in(blocks: Seq<AnthropicContentBlock>, n: nat) -> Seq<ToolCallV>
    decreases n,
{
    if n == 0 {
        Seq::empty()
    } else {
        let before = calls_in(blocks, (n - 1) as nat);
        match blocks[n - 1] {
            AnthropicContentBlock::ToolUse { id, name, input, .. } => before.push(
                ToolCallV { id: id@, name: name@, arguments: crate::json::text_of(input@) },
            ),
            _ => before,
        }
    }
}

/// The call that the last tool result among the first `n` blocks answers.
pub open spec fn last_answered(blocks: Seq<AnthropicContentBlock>, n: nat) -> Option<Seq<char>>
    decreases n,
{
    if n == 0 {
        None
    } else {
        match blocks[n - 1] {
            AnthropicContentBlock::ToolResult { tool_use_id, .. } => Some(tool_use_id@),
            _ => last_answered(blocks, (n - 1) as nat),
        }
    }
}

/// The thinking among the first `n` blocks.
pub open spec fn thinking_in(blocks: Seq<AnthropicContentBlock>, n: nat) -> Seq<Seq<char>>
    decreases n,
{
    if n == 0 {
        Seq::empty()
    } else {
        let before = thinking_in(blocks, (n - 1) as nat);
        match blocks[n - 1] {
            AnthropicContentBlock::Thinking { thinking, .. } => if thinking@.len() > 0 {
                before.push(thinking@)
            } else {
                before
            },
            _ => before,
        }
    }
}

/// The reasoning of a message, for protocols that carry it in a field of its own.
pub open spec fn reasoning_meta(thinking: Seq<Seq<char>>) -> Option<JsonV> {
    let joined = crate::text::join_of(thinking, "\n\n"@);
    if thinking.len() == 0 || joined.len() == 0 {
        None
    } else {
        Some(JsonV::obj().with("reasoning_content"@, JsonV::Text(joined)))
    }
}

/// The blocks as a content: the text alone where there is nothing else.
pub open spec fn content_of(blocks: Seq<BlockV>) -> ContentV {
    if blocks.len() == 1 {
        match blocks[0] {
            BlockV::Text { text, .. } => ContentV::Text(text),
            _ => ContentV::Blocks(blocks),
        }
    } else {
        ContentV::Blocks(blocks)
    }
}

/// The message for the blocks of the model.
pub open spec fn assistant_message(blocks: Seq<AnthropicContentBlock>) -> MessageV {
    let n = blocks.len();
    MessageV {
        role: Role::Assistant,
        content: content_of(Seq::new(n, |i: int| block_of(blocks[i]))),
        tool_calls: crate::views::some_list(calls_in(blocks, n)),
        tool_call_id: last_answered(blocks, n),
        meta: reasoning_meta(thinking_in(blocks, n)),
    }
}

fn build_reasoning_meta(thinking: &Vec<String>) -> (r: Option<Json>)
    ensures
        r.views() == reasoning_meta(thinking.views()),
{
    if thinking.len() == 0 {
        return None;
    }
    let joined = crate::text::join(thinking, "\n\n");
    if joined.as_str().is_empty() {
        None
    } else {
        Some(Json::object().with("reasoning_content", Json::Text(joined)))
    }
}

fn content_from(blocks: Vec<ContentBlock>) -> (r: MessageContent)
    ensures
        r@ == content_of(blocks.views()),
{
    if blocks.len() == 1 {
        assert(blocks.views()[0] == blocks@[0]@);
        match &blocks[0] {
            ContentBlock::Text { text, .. } => {
                return MessageContent::Text(text.clone());
            },
            _ => {},
        }
    }
    MessageContent::Blocks(blocks)
}

fn decode_assistant(blocks: &Vec<AnthropicContentBlock>) -> (r: Message)
    ensures
        r@ == assistant_message(blocks@),
{
    let mut content: Vec<ContentBlock> = crate::views::none();
    let mut calls: Vec<ToolCall> = crate::views::none();
    let mut answered: Option<String> = None;
    let mut thinking: Vec<String> = crate::views::none();
    for i in 0..blocks.len()
        invariant
            content.views().len() == i,
            forall|j: int| 0 <= j < i ==> #[trigger] content.views()[j] == block_of(blocks@[j]),
            calls.views() == calls_in(blocks@, i as nat),
            answered.views() == last_answered(blocks@, i as nat),
            thinking.views() == thinking_in(blocks@, i as nat),
    {
        let b = &blocks[i];
        match b {
            AnthropicContentBlock::ToolUse { id, name, input, .. } => {
                let call = ToolCall {
                    id: id.clone(),
                    name: name.clone(),
                    arguments: input.to_text(),
                };
                crate::views::push(&mut calls, call);
            },
            AnthropicContentBlock::ToolResult { tool_use_id, .. } => {
                answered = Some(tool_use_id.clone());
            },
            AnthropicContentBlock::Thinking { thinking: t, .. } => {
                if !t.as_str().is_empty() {
                    crate::views::push(&mut thinking, t.clone());
                }
            },
            _ => {},
        }
        crate::views::push(&mut content, decode_block(b));
    }
    assert(content.views() =~= Seq::new(blocks@.len(), |i: int| block_of(blocks@[i])));
    Message {
        role: Role::Assistant,
        content: content_from(content),
        tool_calls: if calls.len() == 0 {
            None
        } else {
            Some(calls)
        },
        tool_call_id: answered,
        meta: build_reasoning_meta(&thinking),
    }
}

// ---------------------------------------------------------------- messages of the user

/// The text of a tool's result.
pub open spec fn result_text(content: Option<Json>) -> Seq<char> {
    match content {
        Some(v) => match v@ {
            JsonV::Text(s) => s,
            JsonV::Null => Seq::empty(),
            other => crate::json::text_of(other),
        },
        None => Seq::empty(),
    }
}

/// The messages of the tools whose results stand among the first `n` blocks.
pub open spec fn tool_messages(blocks: Seq<AnthropicContentBlock>, n: nat) -> Seq<MessageV>
    decreases n,
{
    if n == 0 {
        Seq::empty()
    } else {
        let before = tool_messages(blocks, (n - 1) as nat);
        match blocks[n - 1] {
            AnthropicContentBlock::ToolResult { tool_use_id, content, .. } => before.push(
                MessageV {
                    tool_call_id: Some(tool_use_id@),
                    ..MessageV::plain(Role::Tool, ContentV::Text(result_text(content)))
                },
            ),
            _ => before,
        }
    }
}

/// What the user says itself among the first `n` blocks.
pub open spec fn own_blocks(blocks: Seq<AnthropicContentBlock>, n: nat) -> Seq<BlockV>
    decreases n,
{
    if n == 0 {
        Seq::empty()
    } else {
        let before = own_blocks(blocks, (n - 1) as nat);
        match blocks[n - 1] {
            AnthropicContentBlock::ToolResult { .. } => before,
            b => before.push(block_of(b)),
        }
    }
}

/// The messages for the blocks of the user: its own words, then each tool's result.
pub open spec fn user_messages(blocks: Seq<AnthropicContentBlock>) -> Seq<MessageV> {
    let n = blocks.len();
    let own = own_blocks(blocks, n);
    if own.len() == 0 {
        tool_messages(blocks, n)
    } else {
        seq![MessageV::plain(Role::User, content_of(own))] + tool_messages(blocks, n)
    }
}

fn tool_text(content: &Option<Json>) -> (r: String)
    ensures
        r@ == result_text(*content),
{
    match content {
        Some(v) => {
            if let Some(s) = v.as_str() {
                return s.to_string();
            }
            if v.is_null() {
                let e = String::new();
                assert(e@ =~= Seq::<char>::empty());
                return e;
            }
            v.to_text()
        },
        None => {
            let e = String::new();
            assert(e@ =~= Seq::<char>::empty());
            e
        },
    }
}

fn decode_user_blocks(blocks: &Vec<AnthropicContentBlock>) -> (r: Vec<Message>)
    ensures
        r.views() == user_messages(blocks@),
{
    let mut tools: Vec<Message> = crate::views::none();
    let mut own: Vec<ContentBlock> = crate::views::none();
    for i in 0..blocks.len()
        invariant
            tools.views() == tool_messages(blocks@, i as nat),
            own.views() == own_blocks(blocks@, i as nat),
    {
        let b = &blocks[i];
        match b {
            AnthropicContentBlock::ToolResult { tool_use_id, content, .. } => {
                let msg = Message {
                    role: Role::Tool,
                    content: MessageContent::Text(tool_text(content)),
                    tool_calls: None,
                    tool_call_id: Some(tool_use_id.clone()),
                    meta: None,
                };
                crate::views::push(&mut tools, msg);
            },
            _ => {
                crate::views::push(&mut own, decode_block(b));
            },
        }
    }
    if own.len() > 0 {
        let mut out: Vec<Message> = crate::views::none();
        let first = Message::plain(Role::User, content_from(own));
        crate::views::push(&mut out, first);
        assert(out.views() =~= seq![first@]);
        crate::views::extend(&mut out, tools);
        out
    } else {
        tools
    }
}

/// The messages for a message of the wire, or what is wrong with it.
pub open spec fn messages_for(msg: AnthropicMessage) -> Result<Seq<MessageV>, Seq<char>> {
    if msg.role@ == "user"@ {
        match msg.content {
            AnthropicContent::Text(t) => Ok(
                seq![MessageV::plain(Role::User, ContentV::Text(t@))],
            ),
            AnthropicContent::Blocks(b) => Ok(user_messages(b@)),
        }
    } else if msg.role@ == "assistant"@ {
        match msg.content {
            AnthropicContent::Text(t) => Ok(
                seq![MessageV::plain(Role::Assistant, ContentV::Text(t@))],
            ),
            AnthropicContent::Blocks(b) => Ok(seq![assistant_message(b@)]),
        }
    } else {
        Err("unknown Anthropic role: "@ + msg.role@)
    }
}

fn singleton(m: Message) -> (r: Vec<Message>)
    ensures
        r.views() == seq![m@],
{
    let mut out: Vec<Message> = crate::views::none();
    crate::views::push(&mut out, m);
    assert(out.views() =~= seq![m@]);
    out
}

/// Reads a message.
pub fn decode_message(msg: &AnthropicMessage) -> (r: Result<Vec<Message>, CodecError>)
    ensures
        match r {
            Ok(v) => messages_for(*msg) == Ok::<Seq<MessageV>, Seq<char>>(v.views()),
            Err(e) => messages_for(*msg) == Err::<Seq<MessageV>, Seq<char>>(e@),
        },
{
    let role: &str = msg.role.as_str();
    if *role == *"user" {
        match &msg.content {
            AnthropicContent::Text(t) => Ok(
                singleton(Message::plain(Role::User, MessageContent::Text(t.clone()))),
            ),
            AnthropicContent::Blocks(b) => Ok(decode_user_blocks(b)),
        }
    } else if *role == *"assistant" {
        match &msg.content {
            AnthropicContent::Text(t) => Ok(
                singleton(Message::plain(Role::Assistant, MessageContent::Text(t.clone()))),
            ),
            AnthropicContent::Blocks(b) => Ok(singleton(decode_assistant(b))),
        }
    } else {
        Err(CodecError { message: crate::text::cat("unknown Anthropic role: ", role) })
    }
}

// ---------------------------------------------------------------- system prompt and tools

/// The texts among the first `n` blocks of a system prompt.
pub open spec fn system_texts(blocks: Seq<AnthropicSystemBlock>, n: nat) -> Seq<Seq<char>>
    decreases n,
{
    if n == 0 {
        Seq::empty()
    } else {
        let before = system_texts(blocks, (n - 1) as nat);
        if blocks[n - 1].kind@ == "text"@ {
            before.push(blocks[n - 1].text@)
        } else {
            before
        }
    }
}

/// The text of a system prompt.
pub open spec fn system_text(system: Option<AnthropicSystem>) -> Seq<char> {
    match system {
        Some(AnthropicSystem::Text(t)) => t@,
        Some(AnthropicSystem::Blocks(b)) => crate::text::join_of(
            system_texts(b@, b@.len()),
            "\n"@,
        ),
        None => Seq::empty(),
    }
}

fn decode_system(system: &Option<AnthropicSystem>) -> (r: String)
    ensures
        r@ == system_text(*system),
{
    match system {
        Some(AnthropicSystem::Text(t)) => t.clone(),
        Some(AnthropicSystem::Blocks(blocks)) => {
            let mut texts: Vec<String> = crate::views::none();
            for i in 0..blocks.len()
                invariant
                    texts.views() == system_texts(blocks@, i as nat),
            {
                if *blocks[i].kind.as_str() == *"text" {
                    crate::views::push(&mut texts, blocks[i].text.clone());
                }
            }
            crate::text::join(&texts, "\n")
        },
        None => {
            let e = String::new();
            assert(e@ =~= Seq::<char>::empty());
            e
        },
    }
}

/// The messages of a system prompt and of the first `n` messages.
pub open spec fn messages_upto(req: AnthropicRequest, n: nat) -> Result<Seq<MessageV>, Seq<char>>
    decreases n,
{
    if n == 0 {
        let t = system_text(req.system);
        Ok(
            if t.len() > 0 {
                seq![MessageV::plain(Role::System, ContentV::Text(t))]
            } else {
                Seq::empty()
            },
        )
    } else {
        match messages_upto(req, (n - 1) as nat) {
            Ok(before) => match messages_for(req.messages@[n - 1]) {
                Ok(more) => Ok(before + more),
                Err(e) => Err(e),
            },
            Err(e) => Err(e),
        }
    }
}

/// The tool for a tool of the wire; one of the provider stands under a name that says so.
pub open spec fn tool_of(t: AnthropicTool) -> Option<ToolSpecV> {
    match t.tool_type {
        Some(kind) => Some(
            ToolSpecV {
                name: "__builtin__"@ + kind@,
                description: t.description.views(),
                parameters: match t.input_schema {
                    Some(s) => s@,
                    None => JsonV::obj(),
                },
                strict: None,
                cache_control: breakpoint(t.cache_control),
                meta: None,
            },
        ),
        None => match t.input_schema {
            Some(schema) => Some(
                ToolSpecV {
                    name: t.name@,
                    description: t.description.views(),
                    parameters: schema@,
                    strict: None,
                    cache_control: breakpoint(t.cache_control),
                    meta: None,
                },
            ),
            None => None,
        },
    }
}

/// The tools among the first `n`.
pub open spec fn tools_in(tools: Seq<AnthropicTool>, n: nat) -> Seq<ToolSpecV>
    decreases n,
{
    if n == 0 {
        Seq::empty()
    } else {
        let before = tools_in(tools, (n - 1) as nat);
        match tool_of(tools[n - 1]) {
            Some(t) => before.push(t),
            None => before,
        }
    }
}

/// The provider's tools among the first `n`.
pub open spec fn server_tools_in(tools: Seq<AnthropicTool>, n: nat) -> Seq<JsonV>
    decreases n,
{
    if n == 0 {
        Seq::empty()
    } else {
        let before = server_tools_in(tools, (n - 1) as nat);
        let t = tools[n - 1];
        match t.tool_type {
            Some(kind) => before.push(
                JsonV::obj().with("type"@, JsonV::Text(kind@)).with_opt(
                    "description"@,
                    match t.description {
                        Some(d) => Some(JsonV::Text(d@)),
                        None => None,
                    },
                ).with_opt("input_schema"@, t.input_schema.views()),
            ),
            None => before,
        }
    }
}

fn decode_tool(t: &AnthropicTool) -> (r: Option<ToolSpec>)
    ensures
        r.views() == tool_of(*t),
{
    match &t.tool_type {
        Some(kind) => Some(
            ToolSpec {
                name: crate::text::cat("__builtin__", kind.as_str()),
                description: crate::text::clone_opt(&t.description),
                parameters: match &t.input_schema {
                    Some(s) => s.dup(),
                    None => Json::object(),
                },
                strict: None,
                cache_control: map_cache_control(&t.cache_control),
                meta: None,
            },
        ),
        None => match &t.input_schema {
            Some(schema) => Some(
                ToolSpec {
                    name: t.name.clone(),
                    description: crate::text::clone_opt(&t.description),
                    parameters: schema.dup(),
                    strict: None,
                    cache_control: map_cache_control(&t.cache_control),
                    meta: None,
                },
            ),
            None => None,
        },
    }
}

fn decode_tools(tools: &Vec<AnthropicTool>) -> (r: (Vec<ToolSpec>, Vec<Json>))
    ensures
        r.0.views() == tools_in(tools@, tools@.len()),
        r.1.views() == server_tools_in(tools@, tools@.len()),
{
    let mut user: Vec<ToolSpec> = crate::views::none();
    let mut server: Vec<Json> = crate::views::none();
    for i in 0..tools.len()
        invariant
            user.views() == tools_in(tools@, i as nat),
            server.views() == server_tools_in(tools@, i as nat),
    {
        let t = &tools[i];
        if let Some(kind) = &t.tool_type {
            let description = match &t.description {
                Some(d) => Some(Json::text(d.as_str())),
                None => None,
            };
            let raw = Json::object().with("type", Json::text(kind.as_str())).with_opt(
                "description",
                description,
            ).with_opt("input_schema", crate::json::dup_opt(&t.input_schema));
            crate::views::push(&mut server, raw);
        }
        if let Some(spec) = decode_tool(t) {
            crate::views::push(&mut user, spec);
        }
    }
    (user, server)
}

/// The tool choice of a value.
pub open spec fn choice_of(v: JsonV) -> ToolChoiceV {
    let kind = v.get_str("type"@);
    if kind == Some("auto"@) {
        ToolChoiceV::Auto
    } else if kind == Some("any"@) {
        ToolChoiceV::Required
    } else if kind == Some("none"@) {
        ToolChoiceV::Forbidden
    } else if kind == Some("tool"@) {
        match v.get_str("name"@) {
            Some(name) => ToolChoiceV::Named { name },
            None => ToolChoiceV::Raw(v),
        }
    } else {
        ToolChoiceV::Raw(v)
    }
}

/// Reads a tool choice.
pub fn parse_tool_choice(v: &Json) -> (r: ToolChoice)
    ensures
        r@ == choice_of(v@),
{
    if v.field_is("type", "auto") {
        ToolChoice::Auto
    } else if v.field_is("type", "any") {
        ToolChoice::Required
    } else if v.field_is("type", "none") {
        ToolChoice::Forbidden
    } else if v.field_is("type", "tool") {
        match v.get_str("name") {
            Some(name) => ToolChoice::Named { name: name.to_string() },
            None => ToolChoice::Raw(v.dup()),
        }
    } else {
        ToolChoice::Raw(v.dup())
    }
}

// ---------------------------------------------------------------- what goes on verbatim

/// Whether one of the first `n` blocks has to go on verbatim.
pub open spec fn verbatim_block(blocks: Seq<AnthropicContentBlock>, n: nat) -> bool {
    exists|i: int|
        0 <= i < n && i < blocks.len() && (#[trigger] blocks[i].is_cached() || blocks[i] is Document
            || blocks[i] is InputAudio)
}

/// Whether a message has to go on verbatim.
pub open spec fn verbatim_message(m: AnthropicMessage) -> bool {
    match m.content {
        AnthropicContent::Blocks(b) => verbatim_block(b@, b@.len()),
        AnthropicContent::Text(_) => false,
    }
}

/// Whether a message among the first `n` has to go on verbatim.
pub open spec fn verbatim_messages(ms: Seq<AnthropicMessage>, n: nat) -> bool {
    exists|i: int| 0 <= i < n && i < ms.len() && #[trigger] verbatim_message(ms[i])
}

/// Whether the system prompt has to go on verbatim.
pub open spec fn verbatim_system(s: Option<AnthropicSystem>) -> bool {
    match s {
        Some(AnthropicSystem::Blocks(b)) => exists|i: int|
            0 <= i < b@.len() && (#[trigger] b@[i]).cache_control is Some,
        _ => false,
    }
}

/// Whether the tools have to go on verbatim.
pub open spec fn verbatim_tools(t: Option<Vec<AnthropicTool>>) -> bool {
    match t {
        Some(v) => exists|i: int| 0 <= i < v@.len() && (#[trigger] v@[i]).cache_control is Some,
        None => false,
    }
}

fn needs_raw_message(m: &AnthropicMessage) -> (r: bool)
    ensures
        r == verbatim_message(*m),
{
    match &m.content {
        AnthropicContent::Blocks(blocks) => {
            for i in 0..blocks.len()
                invariant
                    !verbatim_block(blocks@, i as nat),
                    m.content == AnthropicContent::Blocks(*blocks),
            {
                if blocks[i].cache_control().is_some() || blocks[i].is_exotic() {
                    assert(blocks@[i as int].is_cached() || blocks@[i as int] is Document
                        || blocks@[i as int] is InputAudio);
                    return true;
                }
            }
            false
        },
        AnthropicContent::Text(_) => false,
    }
}

fn needs_raw_messages(ms: &Vec<AnthropicMessage>) -> (r: bool)
    ensures
        r == verbatim_messages(ms@, ms@.len()),
{
    for i in 0..ms.len()
        invariant
            !verbatim_messages(ms@, i as nat),
    {
        if needs_raw_message(&ms[i]) {
            assert(verbatim_message(ms@[i as int]));
            return true;
        }
    }
    false
}

fn needs_raw_system(s: &Option<AnthropicSystem>) -> (r: bool)
    ensures
        r == verbatim_system(*s),
{
    match s {
        Some(AnthropicSystem::Blocks(blocks)) => {
            for i in 0..blocks.len()
                invariant
                    forall|j: int| 0 <= j < i ==> (#[trigger] blocks@[j]).cache_control is None,
                    *s == Some(AnthropicSystem::Blocks(*blocks)),
            {
                if blocks[i].cache_control.is_some() {
                    return true;
                }
            }
            false
        },
        _ => false,
    }
}

fn needs_raw_tools(t: &Option<Vec<AnthropicTool>>) -> (r: bool)
    ensures
        r == verbatim_tools(*t),
{
    match t {
        Some(tools) => {
            for i in 0..tools.len()
                invariant
                    forall|j: int| 0 <= j < i ==> (#[trigger] tools@[j]).cache_control is None,
                    *t == Some(*tools),
            {
                if tools[i].cache_control.is_some() {
                    return true;
                }
            }
            false
        },
        None => false,
    }
}

/// What the request holds besides, for an encoder of the same protocol.
pub open spec fn ingress_of(req: AnthropicRequest) -> Seq<(Seq<char>, JsonV)> {
    let f = Seq::<(Seq<char>, JsonV)>::empty();
    let f = crate::json::put_opt(
        f,
        "__anthropic_raw_messages"@,
        if verbatim_messages(req.messages@, req.messages@.len()) {
            Some(req.raw.messages@)
        } else {
            None
        },
    );
    let f = crate::json::put_opt(
        f,
        "__anthropic_raw_system"@,
        if verbatim_system(req.system) {
            req.raw.system.views()
        } else {
            None
        },
    );
    let f = crate::json::put_opt(
        f,
        "__anthropic_raw_tools"@,
        if verbatim_tools(req.tools) {
            req.raw.tools.views()
        } else {
            None
        },
    );
    let f = crate::json::put_opt(
        f,
        "__anthropic_thinking"@,
        if req.thinking is Some {
            req.raw.thinking.views()
        } else {
            None
        },
    );
    let f = crate::json::put_opt(f, "__anthropic_context_management"@, req.context_management.views());
    let f = crate::json::put_opt(f, "__anthropic_container"@, JsonV::opt_text(req.container.views()));
    let f = crate::json::put_opt(f, "__anthropic_service_tier"@, JsonV::opt_text(req.service_tier.views()));
    let f = crate::json::put_opt(f, "__anthropic_metadata"@, req.metadata.views());
    let f = crate::json::put_opt(
        f,
        "__anthropic_stop_sequences"@,
        match req.stop_sequences {
            Some(v) => Some(JsonV::texts(v.views())),
            None => None,
        },
    );
    crate::json::put_opt(
        f,
        "__anthropic_top_k"@,
        match req.top_k {
            Some(k) => Some(JsonV::num(k as u64)),
            None => None,
        },
    )
}

fn build_ingress(req: &AnthropicRequest) -> (r: Fields)
    ensures
        r@ == ingress_of(*req),
{
    let mut f = Fields::new();
    let raw = if needs_raw_messages(&req.messages) {
        Some(req.raw.messages.dup())
    } else {
        None
    };
    f.insert_opt("__anthropic_raw_messages", raw);
    let raw = if needs_raw_system(&req.system) {
        crate::json::dup_opt(&req.raw.system)
    } else {
        None
    };
    f.insert_opt("__anthropic_raw_system", raw);
    let raw = if needs_raw_tools(&req.tools) {
        crate::json::dup_opt(&req.raw.tools)
    } else {
        None
    };
    f.insert_opt("__anthropic_raw_tools", raw);
    let raw = if req.thinking.is_some() {
        crate::json::dup_opt(&req.raw.thinking)
    } else {
        None
    };
    f.insert_opt("__anthropic_thinking", raw);
    f.insert_opt(
        "__anthropic_context_management",
        crate::json::dup_opt(&req.context_management),
    );
    f.insert_opt("__anthropic_container", Json::text_opt(&req.container));
    f.insert_opt("__anthropic_service_tier", Json::text_opt(&req.service_tier));
    f.insert_opt("__anthropic_metadata", crate::json::dup_opt(&req.metadata));
    let stops = match &req.stop_sequences {
        Some(v) => Some(Json::texts(v)),
        None => None,
    };
    f.insert_opt("__anthropic_stop_sequences", stops);
    let top_k = match req.top_k {
        Some(k) => Some(Json::num(k as u64)),
        None => None,
    };
    f.insert_opt("__anthropic_top_k", top_k);
    f
}

// ---------------------------------------------------------------- whole requests

/// The request with its messages decoded.
pub open spec fn request_with(req: AnthropicRequest, messages: Seq<MessageV>) -> AiRequestV {
    let (tools, server_tools) = match req.tools {
        Some(t) => (tools_in(t@, t@.len()), server_tools_in(t@, t@.len())),
        None => (Seq::empty(), Seq::empty()),
    };
    AiRequestV {
        generation: GenerationV {
            temperature: req.temperature.views(),
            max_tokens: Some(req.max_tokens),
            top_p: req.top_p.views(),
            stop: crate::views::opt_list(req.stop_sequences),
            ..GenerationV::none()
        },
        stream: StreamConfig { enabled: req.stream, include_usage: false },
        tools: crate::views::some_list(tools),
        tool_choice: match req.tool_choice {
            Some(c) => Some(choice_of(c@)),
            None => None,
        },
        reasoning: match req.thinking {
            Some(t) => ReasoningV {
                enabled: t.kind@ == "enabled"@,
                budget_tokens: t.budget_tokens,
                ..ReasoningV::none()
            },
            None => ReasoningV::none(),
        },
        ext: Some(
            ExtV::Anthropic(
                AnthropicExtV {
                    top_k: req.top_k,
                    container: JsonV::opt_text(req.container.views()),
                    service_tier: req.service_tier.views(),
                    server_tools: crate::views::some_list(server_tools),
                },
            ),
        ),
        meta: MetaV {
            source_protocol: Some(EndpointV::anthropic_messages_2023_06_01()),
            raw: None,
            vendor: VendorV { ingress: ingress_of(req), ..VendorV::none() },
        },
        ..AiRequestV::bare(req.model@, messages)
    }
}

/// The request for a request of the wire, or what is wrong with it.
pub open spec fn request_of(req: AnthropicRequest) -> Result<AiRequestV, Seq<char>> {
    match messages_upto(req, req.messages@.len()) {
        Ok(messages) => Ok(request_with(req, messages)),
        Err(e) => Err(e),
    }
}

fn decode_messages(req: &AnthropicRequest) -> (r: Result<Vec<Message>, CodecError>)
    ensures
        match r {
            Ok(v) => messages_upto(*req, req.messages@.len()) == Ok::<Seq<MessageV>, Seq<char>>(
                v.views(),
            ),
            Err(e) => messages_upto(*req, req.messages@.len()) == Err::<Seq<MessageV>, Seq<char>>(
                e@,
            ),
        },
{
    let mut messages: Vec<Message> = crate::views::none();
    let system = decode_system(&req.system);
    if !system.as_str().is_empty() {
        messages = singleton(Message::plain(Role::System, MessageContent::Text(system)));
    }
    let mut fault: Option<CodecError> = None;
    for i in 0..req.messages.len()
        invariant
            match fault {
                None => messages_upto(*req, i as nat) == Ok::<Seq<MessageV>, Seq<char>>(
                    messages.views(),
                ),
                Some(e) => messages_upto(*req, i as nat) == Err::<Seq<MessageV>, Seq<char>>(e@),
            },
    {
        if fault.is_none() {
            match decode_message(&req.messages[i]) {
                Ok(more) => {
                    crate::views::extend(&mut messages, more);
                },
                Err(e) => {
                    fault = Some(e);
                },
            }
        }
    }
    match fault {
        Some(e) => Err(e),
        None => Ok(messages),
    }
}

/// Reads requests of the protocol.
#[derive(Debug, Clone, Copy)]
pub struct AnthropicDecoder;

impl RequestDecoder for AnthropicDecoder {
    type Wire = AnthropicRequest;

    /// Reads a request.
    fn decode_request(&self, req: &AnthropicRequest) -> (r: Result<AiRequest, CodecError>)
        ensures
            r.views() == request_of(*req),
    {
        let messages = match decode_messages(req) {
            Ok(m) => m,
            Err(e) => {
                return Err(e);
            },
        };
        let (tools, server_tools) = match &req.tools {
            Some(t) => decode_tools(t),
            None => (crate::views::none(), crate::views::none()),
        };
        let tool_choice = match &req.tool_choice {
            Some(c) => Some(parse_tool_choice(c)),
            None => None,
        };
        let reasoning = match &req.thinking {
            Some(t) => ReasoningConfig {
                enabled: *t.kind.as_str() == *"enabled",
                budget_tokens: t.budget_tokens,
                effort: None,
                display: None,
            },
            None => ReasoningConfig::default(),
        };
        let ext = AnthropicExt {
            top_k: req.top_k,
            container: Json::text_opt(&req.container),
            service_tier: crate::text::clone_opt(&req.service_tier),
            server_tools: if server_tools.len() == 0 {
                None
            } else {
                Some(server_tools)
            },
        };
        let stop = match &req.stop_sequences {
            Some(v) => Some(crate::text::clone_all(v)),
            None => None,
        };
        let mut vendor = VendorExtensions::default();
        vendor.ingress = build_ingress(req);
        let mut out = AiRequest::new(req.model.clone(), messages);
        out.generation = GenerationConfig {
            temperature: crate::text::clone_opt(&req.temperature),
            max_tokens: Some(req.max_tokens),
            top_p: crate::text::clone_opt(&req.top_p),
            seed: None,
            stop,
            presence_penalty: None,
            frequency_penalty: None,
        };
        out.stream = StreamConfig { enabled: req.stream, include_usage: false };
        out.tools = if tools.len() == 0 {
            None
        } else {
            Some(tools)
        };
        out.tool_choice = tool_choice;
        out.reasoning = reasoning;
        out.ext = Some(ProtocolExt::Anthropic(ext));
        out.meta = RequestMetadata {
            source_protocol: Some(crate::protocol::ids::anthropic_messages_2023_06_01()),
            raw: None,
            vendor,
        };
        Ok(out)
    }
}

/// Every result of a tool becomes a message of its own that names the call it answers.
pub proof fn lemma_tool_messages_name_calls(blocks: Seq<AnthropicContentBlock>, n: nat, i: int)
    requires
        n <= blocks.len(),
        0 <= i < tool_messages(blocks, n).len(),
    ensures
        tool_messages(blocks, n)[i].role is Tool,
        tool_messages(blocks, n)[i].tool_call_id is Some,
    decreases n,
{
    if n > 0 && i < tool_messages(blocks, (n - 1) as nat).len() {
        lemma_tool_messages_name_calls(blocks, (n - 1) as nat, i);
    }
}

} // verus!
