//! The first internal representation: requests, responses and stream deltas between the client
//! side and the provider side.
use vstd::prelude::*;

use crate::json::{Fields, Json, JsonV};
use crate::protocol::ids::{EndpointV, ProtocolId};
use crate::views::Views;

verus! {

// ---------------------------------------------------------------- requests

/// A request in the internal representation. Floating point numbers are held by their decimal
/// text.
#[derive(Debug)]
pub struct InternalRequest {
    pub messages: Vec<InternalMessage>,
    pub model: String,
    pub stream: bool,
    pub temperature: Option<String>,
    pub max_tokens: Option<u32>,
    pub top_p: Option<String>,
    pub tools: Option<Vec<ToolDef>>,
    pub tool_choice: Option<Json>,
    pub source_protocol: ProtocolId,
    pub extra: Fields,
}

pub struct InternalRequestV {
    pub messages: Seq<InternalMessageV>,
    pub model: Seq<char>,
    pub stream: bool,
    pub temperature: Option<Seq<char>>,
    pub max_tokens: Option<u32>,
    pub top_p: Option<Seq<char>>,
    pub tools: Option<Seq<ToolDefV>>,
    pub tool_choice: Option<JsonV>,
    pub source_protocol: EndpointV,
    pub extra: Seq<(Seq<char>, JsonV)>,
}

impl View for InternalRequest {
    type V = InternalRequestV;

    open spec fn view(&self) -> InternalRequestV {
        InternalRequestV {
            messages: self.messages.views(),
            model: self.model@,
            stream: self.stream,
            temperature: self.temperature.views(),
            max_tokens: self.max_tokens,
            top_p: self.top_p.views(),
            tools: crate::views::opt_list(self.tools),
            tool_choice: self.tool_choice.views(),
            source_protocol: self.source_protocol@,
            extra: self.extra@,
        }
    }
}

#[derive(Debug)]
pub struct InternalMessage {
    pub role: Role,
    pub content: MessageContent,
    pub tool_calls: Option<Vec<ToolCall>>,
    pub tool_call_id: Option<String>,
    pub extra: Fields,
}

pub struct InternalMessageV {
    pub role: Role,
    pub content: MessageContentV,
    pub tool_calls: Option<Seq<ToolCallV>>,
    pub tool_call_id: Option<Seq<char>>,
    pub extra: Seq<(Seq<char>, JsonV)>,
}

impl View for InternalMessage {
    type V = InternalMessageV;

    open spec fn view(&self) -> InternalMessageV {
        InternalMessageV {
            role: self.role,
            content: self.content@,
            tool_calls: crate::views::opt_list(self.tool_calls),
            tool_call_id: self.tool_call_id.views(),
            extra: self.extra@,
        }
    }
}

impl InternalMessage {
    /// A copy of the message.
    pub fn dup(&self) -> (r: Self)
        ensures
            r@ == self@,
    {
        InternalMessage {
            role: self.role,
            content: self.content.dup(),
            tool_calls: dup_calls(&self.tool_calls),
            tool_call_id: crate::text::clone_opt(&self.tool_call_id),
            extra: self.extra.dup(),
        }
    }
}

/// A copy of an optional list of tool calls.
pub fn dup_calls(v: &Option<Vec<ToolCall>>) -> (r: Option<Vec<ToolCall>>)
    ensures
        crate::views::opt_list(r) == crate::views::opt_list(*v),
{
    match v {
        Some(calls) => {
            let mut out: Vec<ToolCall> = crate::views::none();
            for i in 0..calls.len()
                invariant
                    out.views() == calls.views().take(i as int),
            {
                crate::views::push(&mut out, calls[i].dup());
                assert(calls.views().take(i + 1) =~= calls.views().take(i as int).push(
                    calls.views()[i as int],
                ));
            }
            assert(calls.views().take(calls@.len() as int) =~= calls.views());
            Some(out)
        },
        None => None,
    }
}

/// Who speaks in a message.
#[derive(Debug, Clone, Copy, PartialEq, Eq, Structural)]
pub enum Role {
    System,
    User,
    Assistant,
    Tool,
}

/// The content of a message: plain text or typed blocks.
#[derive(Debug)]
pub enum MessageContent {
    Text(String),
    Blocks(Vec<ContentBlock>),
}

pub enum MessageContentV {
    Text(Seq<char>),
    Blocks(Seq<ContentBlockV>),
}

impl View for MessageContent {
    type V = MessageContentV;

    open spec fn view(&self) -> MessageContentV {
        match self {
            MessageContent::Text(s) => MessageContentV::Text(s@),
            MessageContent::Blocks(b) => MessageContentV::Blocks(b.views()),
        }
    }
}

impl MessageContentV {
    /// The texts of the first `n` blocks, one behind the other.
    pub open spec fn block_text(blocks: Seq<ContentBlockV>, n: nat) -> Seq<char>
        decreases n,
    {
        if n == 0 {
            Seq::empty()
        } else {
            let before = Self::block_text(blocks, (n - 1) as nat);
            match blocks[n - 1] {
                ContentBlockV::Text { text } => before + text,
                _ => before,
            }
        }
    }

    /// The text of the content: all its text blocks, one behind the other.
    pub open spec fn as_text(self) -> Seq<char> {
        match self {
            MessageContentV::Text(s) => s,
            MessageContentV::Blocks(b) => Self::block_text(b, b.len()),
        }
    }
}

impl MessageContent {
    /// The text of the content: all its text blocks, one behind the other.
    pub fn as_text(&self) -> (r: String)
        ensures
            r@ == self@.as_text(),
    {
        match self {
            MessageContent::Text(t) => t.clone(),
            MessageContent::Blocks(blocks) => {
                let mut out: String = String::new();
                assert(out@ =~= Seq::<char>::empty());
                for i in 0..blocks.len()
                    invariant
                        out@ == MessageContentV::block_text(blocks.views(), i as nat),
                {
                    assert(blocks.views()[i as int] == blocks@[i as int]@);
                    match &blocks[i] {
                        ContentBlock::Text { text } => {
                            out.append(text.as_str());
                        },
                        _ => {},
                    }
                }
                out
            },
        }
    }

    /// A copy of the content.
    pub fn dup(&self) -> (r: Self)
        ensures
            r@ == self@,
    {
        match self {
            MessageContent::Text(t) => MessageContent::Text(t.clone()),
            MessageContent::Blocks(blocks) => {
                let mut out: Vec<ContentBlock> = crate::views::none();
                for i in 0..blocks.len()
                    invariant
                        out.views() == blocks.views().take(i as int),
                {
                    crate::views::push(&mut out, blocks[i].dup());
                    assert(blocks.views().take(i + 1) =~= blocks.views().take(i as int).push(
                        blocks.views()[i as int],
                    ));
                }
                assert(blocks.views().take(blocks@.len() as int) =~= blocks.views());
                MessageContent::Blocks(out)
            },
        }
    }
}

/// A typed block of a message.
#[derive(Debug)]
pub enum ContentBlock {
    Text { text: String },
    Image { source: ImageSource },
    Reasoning { text: String, signature: Option<String> },
    ToolUse { id: String, name: String, input: Json },
    ToolResult { tool_use_id: String, content: Json },
}

pub enum ContentBlockV {
    Text { text: Seq<char> },
    Image { media_type: Seq<char>, data: Seq<char> },
    Reasoning { text: Seq<char>, signature: Option<Seq<char>> },
    ToolUse { id: Seq<char>, name: Seq<char>, input: JsonV },
    ToolResult { tool_use_id: Seq<char>, content: JsonV },
}

impl View for ContentBlock {
    type V = ContentBlockV;

    open spec fn view(&self) -> ContentBlockV {
        match self {
            ContentBlock::Text { text } => ContentBlockV::Text { text: text@ },
            ContentBlock::Image { source } => ContentBlockV::Image {
                media_type: source.media_type@,
                data: source.data@,
            },
            ContentBlock::Reasoning { text, signature } => ContentBlockV::Reasoning {
                text: text@,
                signature: signature.views(),
            },
            ContentBlock::ToolUse { id, name, input } => ContentBlockV::ToolUse {
                id: id@,
                name: name@,
                input: input@,
            },
            ContentBlock::ToolResult { tool_use_id, content } => ContentBlockV::ToolResult {
                tool_use_id: tool_use_id@,
                content: content@,
            },
        }
    }
}

impl ContentBlock {
    /// A copy of the block.
    pub fn dup(&self) -> (r: Self)
        ensures
            r@ == self@,
    {
        match self {
            ContentBlock::Text { text } => ContentBlock::Text { text: text.clone() },
            ContentBlock::Image { source } => ContentBlock::Image {
                source: ImageSource {
                    media_type: source.media_type.clone(),
                    data: source.data.clone(),
                },
            },
            ContentBlock::Reasoning { text, signature } => ContentBlock::Reasoning {
                text: text.clone(),
                signature: crate::text::clone_opt(signature),
            },
            ContentBlock::ToolUse { id, name, input } => ContentBlock::ToolUse {
                id: id.clone(),
                name: name.clone(),
                input: input.dup(),
            },
            ContentBlock::ToolResult { tool_use_id, content } => ContentBlock::ToolResult {
                tool_use_id: tool_use_id.clone(),
                content: content.dup(),
            },
        }
    }
}

/// Inline image data.
#[derive(Debug)]
pub struct ImageSource {
    pub media_type: String,
    pub data: String,
}

// ---------------------------------------------------------------- responses

/// How often the provider's own tools were used.
#[derive(Debug, Clone, Copy, PartialEq, Eq, Structural)]
pub struct ServerToolUsage {
    pub web_search_requests: u32,
    pub web_fetch_requests: u32,
}

/// Token counts of a response.
#[derive(Debug, Clone, Copy, PartialEq, Eq, Structural)]
pub struct TokenUsage {
    pub input_tokens: u32,
    pub output_tokens: u32,
    pub cache_read_input_tokens: Option<u32>,
    pub cache_creation_input_tokens: Option<u32>,
    pub server_tool_use: Option<ServerToolUsage>,
}

impl TokenUsage {
    /// No tokens.
    pub open spec fn zero() -> TokenUsage {
        TokenUsage {
            input_tokens: 0,
            output_tokens: 0,
            cache_read_input_tokens: None,
            cache_creation_input_tokens: None,
            server_tool_use: None,
        }
    }
}

impl Default for TokenUsage {
    fn default() -> (r: Self)
        ensures
            r == TokenUsage::zero(),
    {
        TokenUsage {
            input_tokens: 0,
            output_tokens: 0,
            cache_read_input_tokens: None,
            cache_creation_input_tokens: None,
            server_tool_use: None,
        }
    }
}

/// A response in the internal representation.
#[derive(Debug)]
pub struct InternalResponse {
    pub id: String,
    pub model: String,
    pub content: String,
    pub reasoning_content: Option<String>,
    pub reasoning_signature: Option<String>,
    pub tool_calls: Vec<ToolCall>,
    pub response_items: Option<Vec<ResponseItem>>,
    pub stop_reason: Option<String>,
    pub usage: TokenUsage,
}

pub struct InternalResponseV {
    pub id: Seq<char>,
    pub model: Seq<char>,
    pub content: Seq<char>,
    pub reasoning_content: Option<Seq<char>>,
    pub reasoning_signature: Option<Seq<char>>,
    pub tool_calls: Seq<ToolCallV>,
    pub response_items: Option<Seq<ResponseItemV>>,
    pub stop_reason: Option<Seq<char>>,
    pub usage: TokenUsage,
}

impl View for InternalResponse {
    type V = InternalResponseV;

    open spec fn view(&self) -> InternalResponseV {
        InternalResponseV {
            id: self.id@,
            model: self.model@,
            content: self.content@,
            reasoning_content: self.reasoning_content.views(),
            reasoning_signature: self.reasoning_signature.views(),
            tool_calls: self.tool_calls.views(),
            response_items: crate::views::opt_list(self.response_items),
            stop_reason: self.stop_reason.views(),
            usage: self.usage,
        }
    }
}

/// A tool call of the model.
#[derive(Debug)]
pub struct ToolCall {
    pub id: String,
    pub name: String,
    pub arguments: String,
}

pub struct ToolCallV {
    pub id: Seq<char>,
    pub name: Seq<char>,
    pub arguments: Seq<char>,
}

impl View for ToolCall {
    type V = ToolCallV;

    open spec fn view(&self) -> ToolCallV {
        ToolCallV { id: self.id@, name: self.name@, arguments: self.arguments@ }
    }
}

impl ToolCall {
    /// A copy of the call.
    pub fn dup(&self) -> (r: Self)
        ensures
            r@ == self@,
    {
        ToolCall {
            id: self.id.clone(),
            name: self.name.clone(),
            arguments: self.arguments.clone(),
        }
    }
}

/// A tool that the model may call.
#[derive(Debug)]
pub struct ToolDef {
    pub name: String,
    pub description: Option<String>,
    pub parameters: Json,
}

pub struct ToolDefV {
    pub name: Seq<char>,
    pub description: Option<Seq<char>>,
    pub parameters: JsonV,
}

impl View for ToolDef {
    type V = ToolDefV;

    open spec fn view(&self) -> ToolDefV {
        ToolDefV {
            name: self.name@,
            description: self.description.views(),
            parameters: self.parameters@,
        }
    }
}

/// An item of a response, in the order in which the model gave them.
#[derive(Debug)]
pub enum ResponseItem {
    Reasoning { text: String },
    FunctionCall { call_id: String, name: String, arguments: String },
    Message { text: String },
}

pub enum ResponseItemV {
    Reasoning { text: Seq<char> },
    FunctionCall { call_id: Seq<char>, name: Seq<char>, arguments: Seq<char> },
    Message { text: Seq<char> },
}

impl View for ResponseItem {
    type V = ResponseItemV;

    open spec fn view(&self) -> ResponseItemV {
        match self {
            ResponseItem::Reasoning { text } => ResponseItemV::Reasoning { text: text@ },
            ResponseItem::FunctionCall { call_id, name, arguments } => ResponseItemV::FunctionCall {
                call_id: call_id@,
                name: name@,
                arguments: arguments@,
            },
            ResponseItem::Message { text } => ResponseItemV::Message { text: text@ },
        }
    }
}

// ---------------------------------------------------------------- streaming

/// One step of a streamed response.
#[derive(Debug)]
pub enum StreamDelta {
    MessageStart { id: String, model: String },
    ReasoningDelta(String),
    ReasoningSignature(String),
    TextDelta(String),
    ToolCallStart { index: usize, id: String, name: String },
    ToolCallDelta { index: usize, arguments: String },
    Usage(TokenUsage),
    Done { stop_reason: String },
    /// An event that no other variant covers, carried verbatim.
    RawEvent { event_type: String, data: Json },
}

pub enum StreamDeltaV {
    MessageStart { id: Seq<char>, model: Seq<char> },
    ReasoningDelta(Seq<char>),
    ReasoningSignature(Seq<char>),
    TextDelta(Seq<char>),
    ToolCallStart { index: usize, id: Seq<char>, name: Seq<char> },
    ToolCallDelta { index: usize, arguments: Seq<char> },
    Usage(TokenUsage),
    Done { stop_reason: Seq<char> },
    RawEvent { event_type: Seq<char>, data: JsonV },
}

impl View for StreamDelta {
    type V = StreamDeltaV;

    open spec fn view(&self) -> StreamDeltaV {
        match self {
            StreamDelta::MessageStart { id, model } => StreamDeltaV::MessageStart {
                id: id@,
                model: model@,
            },
            StreamDelta::ReasoningDelta(s) => StreamDeltaV::ReasoningDelta(s@),
            StreamDelta::ReasoningSignature(s) => StreamDeltaV::ReasoningSignature(s@),
            StreamDelta::TextDelta(s) => StreamDeltaV::TextDelta(s@),
            StreamDelta::ToolCallStart { index, id, name } => StreamDeltaV::ToolCallStart {
                index: *index,
                id: id@,
                name: name@,
            },
            StreamDelta::ToolCallDelta { index, arguments } => StreamDeltaV::ToolCallDelta {
                index: *index,
                arguments: arguments@,
            },
            StreamDelta::Usage(u) => StreamDeltaV::Usage(*u),
            StreamDelta::Done { stop_reason } => StreamDeltaV::Done { stop_reason: stop_reason@ },
            StreamDelta::RawEvent { event_type, data } => StreamDeltaV::RawEvent {
                event_type: event_type@,
                data: data@,
            },
        }
    }
}

} // verus!
