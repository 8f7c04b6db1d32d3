//! Between the first representation and the one that the codecs use now.
//!
//! A request that goes over and comes back is the same request.
use vstd::prelude::*;

use crate::json::{Fields, Json, JsonV};
use crate::protocol::ids::EndpointV;
use crate::protocol::ir::request::{
    AiRequest, AiRequestV, BlockV, ContentBlock, ContentV, GenerationConfig, GenerationV,
    MediaSource, MediaV, Message, MessageContent, MessageV, MetaV, RequestMetadata, Role,
    StreamConfig, ToolCall, ToolChoice, ToolChoiceV, ToolSpec, ToolSpecV,
};
use crate::protocol::ir::response::{AiResponse, AiResponseV, ItemV, ResponseItem};
use crate::protocol::ir::usage::Usage;
use crate::protocol::ir::vendor_ext::{VendorExtensions, VendorV};
use crate::protocol::types;
use crate::protocol::types::{
    ContentBlockV, InternalMessage, InternalMessageV, InternalRequest, InternalRequestV,
    InternalResponse, InternalResponseV, MessageContentV, ResponseItemV, TokenUsage, ToolDef,
    ToolDefV,
};
use crate::views::Views;

verus! {

// ---------------------------------------------------------------- requests, there

pub open spec fn role_in(r: types::Role) -> Role {
    match r {
        types::Role::System => Role::System,
        types::Role::User => Role::User,
        types::Role::Assistant => Role::Assistant,
        types::Role::Tool => Role::Tool,
    }
}

fn role_from_old(r: types::Role) -> (n: Role)
    ensures
        n == role_in(r),
{
    match r {
        types::Role::System => Role::System,
        types::Role::User => Role::User,
        types::Role::Assistant => Role::Assistant,
        types::Role::Tool => Role::Tool,
    }
}

pub open spec fn block_in(b: ContentBlockV) -> BlockV {
    match b {
        ContentBlockV::Text { text } => BlockV::Text { text, cache_control: None },
        ContentBlockV::Image { media_type, data } => BlockV::Image {
            source: MediaV::Base64 { media_type, data },
            cache_control: None,
        },
        ContentBlockV::Reasoning { text, signature } => BlockV::Thinking {
            thinking: text,
            signature,
        },
        ContentBlockV::ToolUse { id, name, input } => BlockV::ToolUse {
            id,
            name,
            input,
            cache_control: None,
        },
        ContentBlockV::ToolResult { tool_use_id, content } => BlockV::ToolResult {
            tool_use_id,
            content,
            is_error: None,
            cache_control: None,
        },
    }
}

fn block_from_old(b: &types::ContentBlock) -> (r: ContentBlock)
    ensures
        r@ == block_in(b@),
{
    match b {
        types::ContentBlock::Text { text } => ContentBlock::Text {
            text: text.clone(),
            cache_control: None,
        },
        types::ContentBlock::Image { source } => ContentBlock::Image {
            source: MediaSource::Base64 {
                media_type: source.media_type.clone(),
                data: source.data.clone(),
            },
            cache_control: None,
        },
        types::ContentBlock::Reasoning { text, signature } => ContentBlock::Thinking {
            thinking: text.clone(),
            signature: crate::text::clone_opt(signature),
        },
        types::ContentBlock::ToolUse { id, name, input } => ContentBlock::ToolUse {
            id: id.clone(),
            name: name.clone(),
            input: input.dup(),
            cache_control: None,
        },
        types::ContentBlock::ToolResult { tool_use_id, content } => ContentBlock::ToolResult {
            tool_use_id: tool_use_id.clone(),
            content: content.dup(),
            is_error: None,
            cache_control: None,
        },
    }
}

pub open spec fn content_in(c: MessageContentV) -> ContentV {
    match c {
        MessageContentV::Text(t) => ContentV::Text(t),
        MessageContentV::Blocks(v) => ContentV::Blocks(
            Seq::new(v.len(), |i: int| block_in(v[i])),
        ),
    }
}

fn content_from_old(c: &types::MessageContent) -> (r: MessageContent)
    ensures
        r@ == content_in(c@),
{
    match c {
        types::MessageContent::Text(t) => MessageContent::Text(t.clone()),
        types::MessageContent::Blocks(v) => {
            let mut out: Vec<ContentBlock> = crate::views::none();
            for i in 0..v.len()
                invariant
                    out.views().len() == i,
                    forall|j: int| 0 <= j < i ==> #[trigger] out.views()[j] == block_in(v.views()[j]),
            {
                assert(v.views()[i as int] == v@[i as int]@);
                crate::views::push(&mut out, block_from_old(&v[i]));
            }
            assert(out.views() =~= Seq::new(v.views().len(), |i: int| block_in(v.views()[i])));
            MessageContent::Blocks(out)
        },
    }
}

fn calls_from_old(v: &Vec<types::ToolCall>) -> (r: Vec<ToolCall>)
    ensures
        r.views() == v.views(),
{
    let mut out: Vec<ToolCall> = crate::views::none();
    for i in 0..v.len()
        invariant
            out.views().len() == i,
            forall|j: int| 0 <= j < i ==> #[trigger] out.views()[j] == v.views()[j],
    {
        assert(v.views()[i as int] == v@[i as int]@);
        let c = ToolCall {
            id: v[i].id.clone(),
            name: v[i].name.clone(),
            arguments: v[i].arguments.clone(),
        };
        crate::views::push(&mut out, c);
    }
    assert(out.views() =~= v.views());
    out
}

pub open spec fn message_in(m: InternalMessageV) -> MessageV {
    MessageV {
        role: role_in(m.role),
        content: content_in(m.content),
        tool_calls: m.tool_calls,
        tool_call_id: m.tool_call_id,
        meta: if m.extra.len() == 0 {
            None
        } else {
            Some(JsonV::Object(m.extra))
        },
    }
}

fn msg_from_old(m: &InternalMessage) -> (r: Message)
    ensures
        r@ == message_in(m@),
{
    let meta = if m.extra.is_empty() {
        None
    } else {
        Some(Json::of_fields(m.extra.dup()))
    };
    Message {
        role: role_from_old(m.role),
        content: content_from_old(&m.content),
        tool_calls: match &m.tool_calls {
            Some(v) => Some(calls_from_old(v)),
            None => None,
        },
        tool_call_id: crate::text::clone_opt(&m.tool_call_id),
        meta,
    }
}

pub open spec fn tool_in(t: ToolDefV) -> ToolSpecV {
    ToolSpecV {
        name: t.name,
        description: t.description,
        parameters: t.parameters,
        strict: None,
        cache_control: None,
        meta: None,
    }
}

fn tools_from_old(v: &Vec<ToolDef>) -> (r: Vec<ToolSpec>)
    ensures
        r.views() == Seq::new(v.views().len(), |i: int| tool_in(v.views()[i])),
{
    let mut out: Vec<ToolSpec> = crate::views::none();
    for i in 0..v.len()
        invariant
            out.views().len() == i,
            forall|j: int| 0 <= j < i ==> #[trigger] out.views()[j] == tool_in(v.views()[j]),
    {
        assert(v.views()[i as int] == v@[i as int]@);
        let t = ToolSpec {
            name: v[i].name.clone(),
            description: crate::text::clone_opt(&v[i].description),
            parameters: v[i].parameters.dup(),
            strict: None,
            cache_control: None,
            meta: None,
        };
        crate::views::push(&mut out, t);
    }
    assert(out.views() =~= Seq::new(v.views().len(), |i: int| tool_in(v.views()[i])));
    out
}

/// A request of the first representation in the other.
pub open spec fn request_in(old_req: InternalRequestV) -> AiRequestV {
    AiRequestV {
        generation: GenerationV {
            temperature: old_req.temperature,
            max_tokens: old_req.max_tokens,
            top_p: old_req.top_p,
            ..GenerationV::none()
        },
        stream: StreamConfig { enabled: old_req.stream, include_usage: false },
        tools: match old_req.tools {
            Some(v) => Some(Seq::new(v.len(), |i: int| tool_in(v[i]))),
            None => None,
        },
        tool_choice: match old_req.tool_choice {
            Some(v) => Some(ToolChoiceV::Raw(v)),
            None => None,
        },
        meta: MetaV {
            source_protocol: Some(old_req.source_protocol),
            raw: None,
            vendor: VendorV { ingress: old_req.extra, ..VendorV::none() },
        },
        ..AiRequestV::bare(
            old_req.model,
            Seq::new(old_req.messages.len(), |i: int| message_in(old_req.messages[i])),
        )
    }
}

impl AiRequest {
    /// Takes over a request of the first representation.
    pub fn from_internal(from: &InternalRequest) -> (r: Self)
        ensures
            r@ == request_in(from@),
    {
        let mut messages: Vec<Message> = crate::views::none();
        for i in 0..from.messages.len()
            invariant
                messages.views().len() == i,
                forall|j: int|
                    0 <= j < i ==> #[trigger] messages.views()[j] == message_in(
                        from.messages.views()[j],
                    ),
        {
            assert(from.messages.views()[i as int] == from.messages@[i as int]@);
            crate::views::push(&mut messages, msg_from_old(&from.messages[i]));
        }
        assert(messages.views() =~= Seq::new(
            from@.messages.len(),
            |i: int| message_in(from@.messages[i]),
        ));
        let mut vendor = VendorExtensions::default();
        vendor.ingress = from.extra.dup();
        let mut out = AiRequest::new(from.model.clone(), messages);
        out.generation = GenerationConfig {
            temperature: crate::text::clone_opt(&from.temperature),
            max_tokens: from.max_tokens,
            top_p: crate::text::clone_opt(&from.top_p),
            seed: None,
            stop: None,
            presence_penalty: None,
            frequency_penalty: None,
        };
        out.stream = StreamConfig { enabled: from.stream, include_usage: false };
        out.tools = match &from.tools {
            Some(v) => Some(tools_from_old(v)),
            None => None,
        };
        out.tool_choice = match &from.tool_choice {
            Some(v) => Some(ToolChoice::Raw(v.dup())),
            None => None,
        };
        out.meta = RequestMetadata {
            source_protocol: Some(from.source_protocol),
            raw: None,
            vendor,
        };
        out
    }
}

// ---------------------------------------------------------------- requests, back

pub open spec fn role_out(r: Role) -> types::Role {
    match r {
        Role::System => types::Role::System,
        Role::User => types::Role::User,
        Role::Assistant => types::Role::Assistant,
        Role::Tool => types::Role::Tool,
    }
}

fn role_to_old(r: Role) -> (o: types::Role)
    ensures
        o == role_out(r),
{
    match r {
        Role::System => types::Role::System,
        Role::User => types::Role::User,
        Role::Assistant => types::Role::Assistant,
        Role::Tool => types::Role::Tool,
    }
}

/// The block of the first representation, where it has one.
pub open spec fn block_out(b: BlockV) -> Option<ContentBlockV> {
    match b {
        BlockV::Text { text, .. } => Some(ContentBlockV::Text { text }),
        BlockV::Image { source: MediaV::Base64 { media_type, data }, .. } => Some(
            ContentBlockV::Image { media_type, data },
        ),
        BlockV::Thinking { thinking, signature } => Some(
            ContentBlockV::Reasoning { text: thinking, signature },
        ),
        BlockV::ToolUse { id, name, input, .. } => Some(
            ContentBlockV::ToolUse { id, name, input },
        ),
        BlockV::ToolResult { tool_use_id, content, .. } => Some(
            ContentBlockV::ToolResult { tool_use_id, content },
        ),
        _ => None,
    }
}

fn block_to_old(b: &ContentBlock) -> (r: Option<types::ContentBlock>)
    ensures
        r.views() == block_out(b@),
{
    match b {
        ContentBlock::Text { text, .. } => Some(types::ContentBlock::Text { text: text.clone() }),
        ContentBlock::Image { source, .. } => match source {
            MediaSource::Base64 { media_type, data } => Some(
                types::ContentBlock::Image {
                    source: types::ImageSource {
                        media_type: media_type.clone(),
                        data: data.clone(),
                    },
                },
            ),
            _ => None,
        },
        ContentBlock::Thinking { thinking, signature } => Some(
            types::ContentBlock::Reasoning {
                text: thinking.clone(),
                signature: crate::text::clone_opt(signature),
            },
        ),
        ContentBlock::ToolUse { id, name, input, .. } => Some(
            types::ContentBlock::ToolUse { id: id.clone(), name: name.clone(), input: input.dup() },
        ),
        ContentBlock::ToolResult { tool_use_id, content, .. } => Some(
            types::ContentBlock::ToolResult {
                tool_use_id: tool_use_id.clone(),
                content: content.dup(),
            },
        ),
        _ => None,
    }
}

/// Those of the first `n` blocks that the first representation has.
pub open spec fn blocks_out(v: Seq<BlockV>, n: nat) -> Seq<ContentBlockV>
    decreases n,
{
    if n == 0 {
        Seq::empty()
    } else {
        let before = blocks_out(v, (n - 1) as nat);
        match block_out(v[n - 1]) {
            Some(b) => before.push(b),
            None => before,
        }
    }
}

pub open spec fn content_out(c: ContentV) -> MessageContentV {
    match c {
        ContentV::Text(t) => MessageContentV::Text(t),
        ContentV::Blocks(v) => MessageContentV::Blocks(blocks_out(v, v.len())),
    }
}

fn content_to_old(c: &MessageContent) -> (r: types::MessageContent)
    ensures
        r@ == content_out(c@),
{
    match c {
        MessageContent::Text(t) => types::MessageContent::Text(t.clone()),
        MessageContent::Blocks(v) => {
            let mut out: Vec<types::ContentBlock> = crate::views::none();
            for i in 0..v.len()
                invariant
                    out.views() == blocks_out(v.views(), i as nat),
            {
                assert(v.views()[i as int] == v@[i as int]@);
                match block_to_old(&v[i]) {
                    Some(b) => {
                        crate::views::push(&mut out, b);
                    },
                    None => {},
                }
            }
            types::MessageContent::Blocks(out)
        },
    }
}

fn calls_to_old(v: &Vec<ToolCall>) -> (r: Vec<types::ToolCall>)
    ensures
        r.views() == v.views(),
{
    let mut out: Vec<types::ToolCall> = crate::views::none();
    for i in 0..v.len()
        invariant
            out.views().len() == i,
            forall|j: int| 0 <= j < i ==> #[trigger] out.views()[j] == v.views()[j],
    {
        assert(v.views()[i as int] == v@[i as int]@);
        let c = types::ToolCall {
            id: v[i].id.clone(),
            name: v[i].name.clone(),
            arguments: v[i].arguments.clone(),
        };
        crate::views::push(&mut out, c);
    }
    assert(out.views() =~= v.views());
    out
}

pub open spec fn message_out(m: MessageV) -> InternalMessageV {
    InternalMessageV {
        role: role_out(m.role),
        content: content_out(m.content),
        tool_calls: m.tool_calls,
        tool_call_id: m.tool_call_id,
        extra: match m.meta {
            Some(JsonV::Object(f)) => f,
            _ => Seq::empty(),
        },
    }
}

fn msg_to_old(m: &Message) -> (r: InternalMessage)
    ensures
        r@ == message_out(m@),
{
    broadcast use crate::json::lemma_object_view;

    let extra = match &m.meta {
        Some(Json::Object(f)) => f.dup(),
        _ => Fields::new(),
    };
    InternalMessage {
        role: role_to_old(m.role),
        content: content_to_old(&m.content),
        tool_calls: match &m.tool_calls {
            Some(v) => Some(calls_to_old(v)),
            None => None,
        },
        tool_call_id: crate::text::clone_opt(&m.tool_call_id),
        extra,
    }
}

pub open spec fn tool_out(t: ToolSpecV) -> ToolDefV {
    ToolDefV { name: t.name, description: t.description, parameters: t.parameters }
}

fn tools_to_old(v: &Vec<ToolSpec>) -> (r: Vec<ToolDef>)
    ensures
        r.views() == Seq::new(v.views().len(), |i: int| tool_out(v.views()[i])),
{
    let mut out: Vec<ToolDef> = crate::views::none();
    for i in 0..v.len()
        invariant
            out.views().len() == i,
            forall|j: int| 0 <= j < i ==> #[trigger] out.views()[j] == tool_out(v.views()[j]),
    {
        assert(v.views()[i as int] == v@[i as int]@);
        let t = ToolDef {
            name: v[i].name.clone(),
            description: crate::text::clone_opt(&v[i].description),
            parameters: v[i].parameters.dup(),
        };
        crate::views::push(&mut out, t);
    }
    assert(out.views() =~= Seq::new(v.views().len(), |i: int| tool_out(v.views()[i])));
    out
}

/// How the model picks tools, as a value.
pub open spec fn choice_out(c: ToolChoiceV) -> JsonV {
    match c {
        ToolChoiceV::Auto => JsonV::Text("auto"@),
        ToolChoiceV::Forbidden => JsonV::Text("none"@),
        ToolChoiceV::Required => JsonV::Text("required"@),
        ToolChoiceV::Named { name } => JsonV::obj().with(
            "named"@,
            JsonV::obj().with("name"@, JsonV::Text(name)),
        ),
        ToolChoiceV::Raw(v) => v,
    }
}

fn choice_to_old(c: &ToolChoice) -> (r: Json)
    ensures
        r@ == choice_out(c@),
{
    match c {
        ToolChoice::Auto => Json::text("auto"),
        ToolChoice::Forbidden => Json::text("none"),
        ToolChoice::Required => Json::text("required"),
        ToolChoice::Named { name } => Json::object().with(
            "named",
            Json::object().with("name", Json::text(name.as_str())),
        ),
        ToolChoice::Raw(v) => v.dup(),
    }
}

/// A request in the first representation. One of unknown origin is taken to be one of Chat
/// Completions.
pub open spec fn request_out(new: AiRequestV) -> InternalRequestV {
    InternalRequestV {
        messages: Seq::new(new.messages.len(), |i: int| message_out(new.messages[i])),
        model: new.model,
        stream: new.stream.enabled,
        temperature: new.generation.temperature,
        max_tokens: new.generation.max_tokens,
        top_p: new.generation.top_p,
        tools: match new.tools {
            Some(v) => Some(Seq::new(v.len(), |i: int| tool_out(v[i]))),
            None => None,
        },
        tool_choice: match new.tool_choice {
            Some(c) => Some(choice_out(c)),
            None => None,
        },
        source_protocol: match new.meta.source_protocol {
            Some(p) => p,
            None => EndpointV::openai_chat_completions_v1(),
        },
        extra: new.meta.vendor.ingress,
    }
}

impl InternalRequest {
    /// Takes a request back to the first representation.
    pub fn from_ai(from: &AiRequest) -> (r: Self)
        ensures
            r@ == request_out(from@),
    {
        let mut messages: Vec<InternalMessage> = crate::views::none();
        for i in 0..from.messages.len()
            invariant
                messages.views().len() == i,
                forall|j: int|
                    0 <= j < i ==> #[trigger] messages.views()[j] == message_out(
                        from.messages.views()[j],
                    ),
        {
            assert(from.messages.views()[i as int] == from.messages@[i as int]@);
            crate::views::push(&mut messages, msg_to_old(&from.messages[i]));
        }
        assert(messages.views() =~= Seq::new(
            from@.messages.len(),
            |i: int| message_out(from@.messages[i]),
        ));
        InternalRequest {
            messages,
            model: from.model.clone(),
            stream: from.stream.enabled,
            temperature: crate::text::clone_opt(&from.generation.temperature),
            max_tokens: from.generation.max_tokens,
            top_p: crate::text::clone_opt(&from.generation.top_p),
            tools: match &from.tools {
                Some(v) => Some(tools_to_old(v)),
                None => None,
            },
            tool_choice: match &from.tool_choice {
                Some(c) => Some(choice_to_old(c)),
                None => None,
            },
            source_protocol: match from.meta.source_protocol {
                Some(p) => p,
                None => crate::protocol::ids::openai_chat_completions_v1(),
            },
            extra: from.meta.vendor.ingress.dup(),
        }
    }
}

proof fn lemma_blocks_back(v: Seq<ContentBlockV>, n: nat)
    requires
        n <= v.len(),
    ensures
        blocks_out(Seq::new(v.len(), |i: int| block_in(v[i])), n) == v.take(n as int),
    decreases n,
{
    if n == 0 {
        assert(v.take(0) =~= Seq::<ContentBlockV>::empty());
    } else {
        lemma_blocks_back(v, (n - 1) as nat);
        assert(v.take(n as int) =~= v.take(n - 1).push(v[n - 1]));
    }
}

/// A request that goes over to the other representation and comes back is the same.
pub proof fn lemma_request_round_trip(req: InternalRequestV)
    ensures
        request_out(request_in(req)) == req,
{
    let back = request_out(request_in(req));
    assert forall|i: int| 0 <= i < req.messages.len() implies #[trigger] back.messages[i]
        == req.messages[i] by {
        let m = req.messages[i];
        if let MessageContentV::Blocks(v) = m.content {
            lemma_blocks_back(v, v.len());
            assert(v.take(v.len() as int) =~= v);
        }
        if m.extra.len() == 0 {
            assert(m.extra =~= Seq::empty());
        }
    }
    assert(back.messages =~= req.messages);
    if let Some(v) = req.tools {
        assert(back.tools->0 =~= v);
    }
}

// ---------------------------------------------------------------- responses

pub open spec fn usage_in(u: TokenUsage) -> Usage {
    Usage {
        prompt_tokens: u.input_tokens,
        completion_tokens: u.output_tokens,
        total_tokens: 0,
        cache_read_tokens: u.cache_read_input_tokens,
        cache_creation_tokens: u.cache_creation_input_tokens,
        server_tool_use: u.server_tool_use,
    }
}

fn usage_from_old(u: &TokenUsage) -> (r: Usage)
    ensures
        r == usage_in(*u),
{
    Usage {
        prompt_tokens: u.input_tokens,
        completion_tokens: u.output_tokens,
        total_tokens: 0,
        cache_read_tokens: u.cache_read_input_tokens,
        cache_creation_tokens: u.cache_creation_input_tokens,
        server_tool_use: u.server_tool_use,
    }
}

pub open spec fn usage_out(u: Usage) -> TokenUsage {
    TokenUsage {
        input_tokens: u.prompt_tokens,
        output_tokens: u.completion_tokens,
        cache_read_input_tokens: u.cache_read_tokens,
        cache_creation_input_tokens: u.cache_creation_tokens,
        server_tool_use: u.server_tool_use,
    }
}

fn usage_to_old(u: &Usage) -> (r: TokenUsage)
    ensures
        r == usage_out(*u),
{
    TokenUsage {
        input_tokens: u.prompt_tokens,
        output_tokens: u.completion_tokens,
        cache_read_input_tokens: u.cache_read_tokens,
        cache_creation_input_tokens: u.cache_creation_tokens,
        server_tool_use: u.server_tool_use,
    }
}

/// A response of the first representation in the other, without its list of items.
pub open spec fn response_in(from: InternalResponseV) -> AiResponseV {
    AiResponseV {
        content: from.content,
        reasoning_content: from.reasoning_content,
        reasoning_signature: from.reasoning_signature,
        tool_calls: from.tool_calls,
        stop_reason: from.stop_reason,
        usage: usage_in(from.usage),
        ..AiResponseV::bare(from.id, from.model)
    }
}

impl AiResponse {
    /// Takes over a response of the first representation.
    pub fn from_internal(from: &InternalResponse) -> (r: Self)
        ensures
            r@ == response_in(from@),
    {
        let mut out = AiResponse::new(from.id.clone(), from.model.clone());
        out.content = from.content.clone();
        out.reasoning_content = crate::text::clone_opt(&from.reasoning_content);
        out.reasoning_signature = crate::text::clone_opt(&from.reasoning_signature);
        out.tool_calls = calls_from_old(&from.tool_calls);
        out.stop_reason = crate::text::clone_opt(&from.stop_reason);
        out.usage = usage_from_old(&from.usage);
        out
    }
}

/// The item of the first representation, where it has one.
pub open spec fn item_out(i: ItemV) -> Option<ResponseItemV> {
    match i {
        ItemV::OutputText { text } => Some(ResponseItemV::Message { text }),
        ItemV::Thinking { text } => Some(ResponseItemV::Reasoning { text }),
        ItemV::FunctionCall { call_id, name, arguments } => Some(
            ResponseItemV::FunctionCall { call_id, name, arguments },
        ),
        _ => None,
    }
}

fn item_to_old(i: &ResponseItem) -> (r: Option<types::ResponseItem>)
    ensures
        r.views() == item_out(i@),
{
    match i {
        ResponseItem::OutputText { text } => Some(
            types::ResponseItem::Message { text: text.clone() },
        ),
        ResponseItem::Thinking { text } => Some(
            types::ResponseItem::Reasoning { text: text.clone() },
        ),
        ResponseItem::FunctionCall { call_id, name, arguments } => Some(
            types::ResponseItem::FunctionCall {
                call_id: call_id.clone(),
                name: name.clone(),
                arguments: arguments.clone(),
            },
        ),
        _ => None,
    }
}

/// Those of the first `n` items that the first representation has.
pub open spec fn items_out(v: Seq<ItemV>, n: nat) -> Seq<ResponseItemV>
    decreases n,
{
    if n == 0 {
        Seq::empty()
    } else {
        let before = items_out(v, (n - 1) as nat);
        match item_out(v[n - 1]) {
            Some(i) => before.push(i),
            None => before,
        }
    }
}

fn items_to_old(v: &Vec<ResponseItem>) -> (r: Vec<types::ResponseItem>)
    ensures
        r.views() == items_out(v.views(), v@.len()),
{
    let mut out: Vec<types::ResponseItem> = crate::views::none();
    for i in 0..v.len()
        invariant
            out.views() == items_out(v.views(), i as nat),
    {
        assert(v.views()[i as int] == v@[i as int]@);
        match item_to_old(&v[i]) {
            Some(item) => {
                crate::views::push(&mut out, item);
            },
            None => {},
        }
    }
    out
}

/// A response in the first representation.
pub open spec fn response_out(from: AiResponseV) -> InternalResponseV {
    InternalResponseV {
        id: from.id,
        model: from.model,
        content: from.content,
        reasoning_content: from.reasoning_content,
        reasoning_signature: from.reasoning_signature,
        tool_calls: from.tool_calls,
        response_items: match from.items {
            Some(v) => Some(items_out(v, v.len())),
            None => None,
        },
        stop_reason: from.stop_reason,
        usage: usage_out(from.usage),
    }
}

impl InternalResponse {
    /// Takes a response back to the first representation.
    pub fn from_ai(from: &AiResponse) -> (r: Self)
        ensures
            r@ == response_out(from@),
    {
        InternalResponse {
            id: from.id.clone(),
            model: from.model.clone(),
            content: from.content.clone(),
            reasoning_content: crate::text::clone_opt(&from.reasoning_content),
            reasoning_signature: crate::text::clone_opt(&from.reasoning_signature),
            tool_calls: calls_to_old(&from.tool_calls),
            response_items: match &from.items {
                Some(v) => Some(items_to_old(v)),
                None => None,
            },
            stop_reason: crate::text::clone_opt(&from.stop_reason),
            usage: usage_to_old(&from.usage),
        }
    }
}

/// A response without a list of items that goes over and comes back is the same.
pub proof fn lemma_response_round_trip(resp: InternalResponseV)
    requires
        resp.response_items is None,
    ensures
        response_out(response_in(resp)) == resp,
{
}

} // verus!
