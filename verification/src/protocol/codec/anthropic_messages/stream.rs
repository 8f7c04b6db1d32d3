//! Responses and streams of the Anthropic Messages protocol.
use vstd::prelude::*;

use crate::json::{Json, JsonV};
use crate::protocol::types::{
    InternalResponse, InternalResponseV, ServerToolUsage, StreamDelta, StreamDeltaV, TokenUsage,
    ToolCall, ToolCallV,
};
use crate::protocol::{
    emit, CodecError, ResponseFormatter, ResponseParser, SseEvent, SseV, StreamFormatter,
    StreamParser,
};
use crate::views::Views;

verus! {

// ---------------------------------------------------------------- usage

/// The usage that a message or an event reports.
pub open spec fn usage_of(v: JsonV) -> TokenUsage {
    match v.get("usage"@) {
        Some(u) => TokenUsage {
            input_tokens: u.count("input_tokens"@),
            output_tokens: u.count("output_tokens"@),
            cache_read_input_tokens: u.opt_count("cache_read_input_tokens"@),
            cache_creation_input_tokens: u.opt_count("cache_creation_input_tokens"@),
            server_tool_use: match u.get("server_tool_use"@) {
                Some(s) => Some(
                    ServerToolUsage {
                        web_search_requests: s.count("web_search_requests"@),
                        web_fetch_requests: s.count("web_fetch_requests"@),
                    },
                ),
                None => None,
            },
        },
        None => TokenUsage::zero(),
    }
}

/// Reads the usage that a message or an event reports.
pub fn extract_anthropic_usage(v: &Json) -> (r: TokenUsage)
    ensures
        r == usage_of(v@),
{
    match v.get("usage") {
        Some(u) => {
            let server_tool_use = match u.get("server_tool_use") {
                Some(s) => Some(
                    ServerToolUsage {
                        web_search_requests: s.count("web_search_requests"),
                        web_fetch_requests: s.count("web_fetch_requests"),
                    },
                ),
                None => None,
            };
            TokenUsage {
                input_tokens: u.count("input_tokens"),
                output_tokens: u.count("output_tokens"),
                cache_read_input_tokens: u.opt_count("cache_read_input_tokens"),
                cache_creation_input_tokens: u.opt_count("cache_creation_input_tokens"),
                server_tool_use,
            }
        },
        None => TokenUsage::default(),
    }
}

/// A usage object with the optional counts that are known.
pub open spec fn usage_extended(obj: JsonV, u: TokenUsage) -> JsonV {
    let with_read = match u.cache_read_input_tokens {
        Some(n) => obj.with("cache_read_input_tokens"@, JsonV::num(n as u64)),
        None => obj,
    };
    let with_creation = match u.cache_creation_input_tokens {
        Some(n) => with_read.with("cache_creation_input_tokens"@, JsonV::num(n as u64)),
        None => with_read,
    };
    match u.server_tool_use {
        Some(s) => with_creation.with(
            "server_tool_use"@,
            JsonV::obj().with(
                "web_search_requests"@,
                JsonV::num(s.web_search_requests as u64),
            ).with("web_fetch_requests"@, JsonV::num(s.web_fetch_requests as u64)),
        ),
        None => with_creation,
    }
}

/// Adds the optional counts that are known to a usage object.
fn extend_usage_json(obj: Json, u: &TokenUsage) -> (r: Json)
    ensures
        r@ == usage_extended(obj@, *u),
{
    let mut out = obj;
    if let Some(n) = u.cache_read_input_tokens {
        out = out.with("cache_read_input_tokens", Json::num(n as u64));
    }
    if let Some(n) = u.cache_creation_input_tokens {
        out = out.with("cache_creation_input_tokens", Json::num(n as u64));
    }
    if let Some(s) = u.server_tool_use {
        let tools = Json::object().with(
            "web_search_requests",
            Json::num(s.web_search_requests as u64),
        ).with("web_fetch_requests", Json::num(s.web_fetch_requests as u64));
        out = out.with("server_tool_use", tools);
    }
    out
}

// ---------------------------------------------------------------- stop reasons

/// The internal name of a stop reason.
pub open spec fn stop_in(r: Seq<char>) -> Seq<char> {
    if r == "end_turn"@ {
        "stop"@
    } else if r == "tool_use"@ {
        "tool_calls"@
    } else {
        r
    }
}

/// The protocol's name of a stop reason.
pub open spec fn stop_out(r: Seq<char>) -> Seq<char> {
    if r == "stop"@ {
        "end_turn"@
    } else if r == "tool_calls"@ {
        "tool_use"@
    } else {
        r
    }
}

fn stop_reason_in(r: &str) -> (o: String)
    ensures
        o@ == stop_in(r@),
{
    if *r == *"end_turn" {
        "stop".to_string()
    } else if *r == *"tool_use" {
        "tool_calls".to_string()
    } else {
        r.to_string()
    }
}

fn stop_reason_out(r: &str) -> (o: String)
    ensures
        o@ == stop_out(r@),
{
    if *r == *"stop" {
        "end_turn".to_string()
    } else if *r == *"tool_calls" {
        "tool_use".to_string()
    } else {
        r.to_string()
    }
}

/// The two stop reasons that have other names inside come back under their own.
pub proof fn lemma_stop_reason_round_trip(r: Seq<char>)
    requires
        r != "stop"@,
        r != "tool_calls"@,
    ensures
        stop_out(stop_in(r)) == r,
{
    reveal_strlit("stop");
    reveal_strlit("tool_calls");
    assert("stop"@.len() != "tool_calls"@.len());
}

// ---------------------------------------------------------------- whole responses

/// What has been read from the blocks of a response.
pub struct BlocksV {
    pub text: Seq<char>,
    pub thinking: Seq<Seq<char>>,
    pub signatures: Seq<Seq<char>>,
    pub calls: Seq<ToolCallV>,
}

/// A list with one more element where there is one.
pub open spec fn push_opt(v: Seq<Seq<char>>, x: Option<Seq<char>>) -> Seq<Seq<char>> {
    match x {
        Some(s) => v.push(s),
        None => v,
    }
}

impl BlocksV {
    pub open spec fn none() -> BlocksV {
        BlocksV {
            text: Seq::empty(),
            thinking: Seq::empty(),
            signatures: Seq::empty(),
            calls: Seq::empty(),
        }
    }

    /// One block more.
    pub open spec fn add_block(self, b: JsonV) -> BlocksV {
        let kind = b.get_str("type"@);
        if kind == Some("text"@) {
            match b.get_str("text"@) {
                Some(s) => BlocksV { text: self.text + s, ..self },
                None => self,
            }
        } else if kind == Some("thinking"@) {
            BlocksV {
                thinking: push_opt(self.thinking, b.filled("thinking"@)),
                signatures: push_opt(self.signatures, b.filled("signature"@)),
                ..self
            }
        } else if kind == Some("tool_use"@) {
            match (b.get_str("id"@), b.get_str("name"@)) {
                (Some(id), Some(name)) => BlocksV {
                    calls: self.calls.push(
                        ToolCallV {
                            id,
                            name,
                            arguments: crate::json::text_of(
                                match b.get("input"@) {
                                    Some(input) => input,
                                    None => JsonV::obj(),
                                },
                            ),
                        },
                    ),
                    ..self
                },
                _ => self,
            }
        } else {
            self
        }
    }

    /// The first `n` blocks.
    pub open spec fn of(blocks: Seq<JsonV>, n: nat) -> BlocksV
        decreases n,
    {
        if n == 0 {
            BlocksV::none()
        } else {
            BlocksV::of(blocks, (n - 1) as nat).add_block(blocks[n - 1])
        }
    }
}

/// The parts on lines of their own, or nothing where there is no part.
pub open spec fn joined(parts: Seq<Seq<char>>) -> Option<Seq<char>> {
    if parts.len() == 0 {
        None
    } else {
        Some(crate::text::join_of(parts, "\n"@))
    }
}

/// The response that a message of the protocol stands for.
pub open spec fn response_of(resp: JsonV) -> InternalResponseV {
    let b = match resp.get_array("content"@) {
        Some(blocks) => BlocksV::of(blocks, blocks.len()),
        None => BlocksV::none(),
    };
    InternalResponseV {
        id: resp.str_or_empty("id"@),
        model: resp.str_or_empty("model"@),
        content: b.text,
        reasoning_content: joined(b.thinking),
        reasoning_signature: joined(b.signatures),
        tool_calls: b.calls,
        response_items: None,
        stop_reason: match resp.get_str("stop_reason"@) {
            Some(r) => Some(stop_in(r)),
            None => None,
        },
        usage: usage_of(resp),
    }
}

fn push_filled(v: &mut Vec<String>, b: &Json, key: &str)
    ensures
        final(v).views() == push_opt(old(v).views(), b@.filled(key@)),
{
    if let Some(s) = b.filled(key) {
        crate::views::push(v, s.to_string());
    }
}

fn joined_opt(parts: &Vec<String>) -> (r: Option<String>)
    ensures
        r.views() == joined(parts.views()),
{
    if parts.len() == 0 {
        None
    } else {
        Some(crate::text::join(parts, "\n"))
    }
}

/// Reads whole responses.
#[derive(Debug, Clone, Copy)]
pub struct AnthropicResponseParser;

impl ResponseParser for AnthropicResponseParser {
    /// Reads a response of the protocol.
    fn parse_response(&self, resp: Json) -> (r: Result<InternalResponse, CodecError>)
        ensures
            r.views() == Ok::<InternalResponseV, Seq<char>>(response_of(resp@)),
    {
        let mut text: String = String::new();
        let mut thinking: Vec<String> = crate::views::none();
        let mut signatures: Vec<String> = crate::views::none();
        let mut calls: Vec<ToolCall> = crate::views::none();
        assert(text@ =~= Seq::<char>::empty());
        let ghost mut b = BlocksV::none();
        if let Some(blocks) = resp.get_array("content") {
            for i in 0..blocks.len()
                invariant
                    b == BlocksV::of(blocks.views(), i as nat),
                    b == (BlocksV {
                        text: text@,
                        thinking: thinking.views(),
                        signatures: signatures.views(),
                        calls: calls.views(),
                    }),
            {
                let block = &blocks[i];
                assert(blocks.views()[i as int] == block@);
                proof {
                    b = b.add_block(block@);
                }
                if block.field_is("type", "text") {
                    if let Some(s) = block.get_str("text") {
                        text.append(s);
                    }
                } else if block.field_is("type", "thinking") {
                    push_filled(&mut thinking, block, "thinking");
                    push_filled(&mut signatures, block, "signature");
                } else if block.field_is("type", "tool_use") {
                    if let Some(id) = block.get_str("id") {
                        if let Some(name) = block.get_str("name") {
                            let arguments = match block.get("input") {
                                Some(input) => input.to_text(),
                                None => Json::object().to_text(),
                            };
                            let call = ToolCall {
                                id: id.to_string(),
                                name: name.to_string(),
                                arguments,
                            };
                            crate::views::push(&mut calls, call);
                        }
                    }
                }
            }
        }
        let stop_reason = match resp.get_str("stop_reason") {
            Some(r) => Some(stop_reason_in(r)),
            None => None,
        };
        Ok(
            InternalResponse {
                id: resp.str_or_empty("id"),
                model: resp.str_or_empty("model"),
                content: text,
                reasoning_content: joined_opt(&thinking),
                reasoning_signature: joined_opt(&signatures),
                tool_calls: calls,
                response_items: None,
                stop_reason,
                usage: extract_anthropic_usage(&resp),
            },
        )
    }
}

/// A text block.
pub open spec fn text_block(text: Seq<char>) -> JsonV {
    JsonV::obj().with("type"@, JsonV::Text("text"@)).with("text"@, JsonV::Text(text))
}

/// A thinking block.
pub open spec fn thinking_block(thinking: Seq<char>) -> JsonV {
    JsonV::obj().with("type"@, JsonV::Text("thinking"@)).with("thinking"@, JsonV::Text(thinking))
}

/// A block that calls a tool.
pub open spec fn tool_use_block(id: Seq<char>, name: Seq<char>, input: JsonV) -> JsonV {
    JsonV::obj().with("type"@, JsonV::Text("tool_use"@)).with("id"@, JsonV::Text(id)).with(
        "name"@,
        JsonV::Text(name),
    ).with("input"@, input)
}

/// The blocks that stand before the tool calls of a response.
pub open spec fn leading_blocks(resp: InternalResponseV) -> Seq<JsonV> {
    let thinking = match crate::text::trimmed(resp.reasoning_content) {
        Some(t) => seq![
            match crate::text::trimmed(resp.reasoning_signature) {
                Some(s) => thinking_block(t).with("signature"@, JsonV::Text(s)),
                None => thinking_block(t),
            },
        ],
        None => Seq::empty(),
    };
    if resp.content.len() > 0 {
        thinking.push(text_block(resp.content))
    } else {
        thinking
    }
}

/// The blocks of the first `n` tool calls, behind the leading ones.
pub open spec fn response_blocks(resp: InternalResponseV, n: nat) -> Seq<JsonV>
    decreases n,
{
    if n == 0 {
        leading_blocks(resp)
    } else {
        let call = resp.tool_calls[n - 1];
        response_blocks(resp, (n - 1) as nat).push(
            tool_use_block(call.id, call.name, JsonV::read_or_object(call.arguments)),
        )
    }
}

/// The message of the protocol for a response.
pub open spec fn response_json(resp: InternalResponseV) -> JsonV {
    JsonV::obj().with("id"@, JsonV::Text(resp.id)).with("type"@, JsonV::Text("message"@)).with(
        "role"@,
        JsonV::Text("assistant"@),
    ).with("content"@, JsonV::Array(response_blocks(resp, resp.tool_calls.len()))).with(
        "model"@,
        JsonV::Text(resp.model),
    ).with(
        "stop_reason"@,
        match resp.stop_reason {
            Some(r) => JsonV::Text(stop_out(r)),
            None => JsonV::Null,
        },
    ).with(
        "usage"@,
        usage_extended(
            JsonV::obj().with("input_tokens"@, JsonV::num(resp.usage.input_tokens as u64)).with(
                "output_tokens"@,
                JsonV::num(resp.usage.output_tokens as u64),
            ),
            resp.usage,
        ),
    )
}

/// A text block.
pub fn text_block_json(text: &str) -> (r: Json)
    ensures
        r@ == text_block(text@),
{
    Json::object().with("type", Json::text("text")).with("text", Json::text(text))
}

/// A thinking block.
pub fn thinking_block_json(thinking: &str) -> (r: Json)
    ensures
        r@ == thinking_block(thinking@),
{
    Json::object().with("type", Json::text("thinking")).with("thinking", Json::text(thinking))
}

/// A block that calls a tool.
pub fn tool_use_block_json(id: &str, name: &str, input: Json) -> (r: Json)
    ensures
        r@ == tool_use_block(id@, name@, input@),
{
    Json::object().with("type", Json::text("tool_use")).with("id", Json::text(id)).with(
        "name",
        Json::text(name),
    ).with("input", input)
}

/// Writes whole responses.
#[derive(Debug, Clone, Copy)]
pub struct AnthropicResponseFormatter;

impl ResponseFormatter for AnthropicResponseFormatter {
    /// Writes a response of the protocol.
    fn format_response(&self, resp: &InternalResponse) -> (r: Json)
        ensures
            r@ == response_json(resp@),
    {
        let mut content: Vec<Json> = crate::views::none();
        if let Some(reasoning) = crate::text::trimmed_opt(&resp.reasoning_content) {
            let block = thinking_block_json(reasoning);
            let block = match crate::text::trimmed_opt(&resp.reasoning_signature) {
                Some(signature) => block.with("signature", Json::text(signature)),
                None => block,
            };
            crate::views::push(&mut content, block);
            assert(content.views() =~= seq![block@]);
        }
        if !resp.content.as_str().is_empty() {
            crate::views::push(&mut content, text_block_json(resp.content.as_str()));
        }
        assert(content.views() == leading_blocks(resp@));
        for i in 0..resp.tool_calls.len()
            invariant
                content.views() == response_blocks(resp@, i as nat),
        {
            let tc = &resp.tool_calls[i];
            assert(resp@.tool_calls[i as int] == tc@);
            let input = Json::parse_or_object(tc.arguments.as_str());
            crate::views::push(
                &mut content,
                tool_use_block_json(tc.id.as_str(), tc.name.as_str(), input),
            );
        }
        let stop_reason = match &resp.stop_reason {
            Some(r) => Json::Text(stop_reason_out(r.as_str())),
            None => Json::Null,
        };
        let usage = Json::object().with(
            "input_tokens",
            Json::num(resp.usage.input_tokens as u64),
        ).with("output_tokens", Json::num(resp.usage.output_tokens as u64));
        let usage = extend_usage_json(usage, &resp.usage);
        Json::object().with("id", Json::text(resp.id.as_str())).with(
            "type",
            Json::text("message"),
        ).with("role", Json::text("assistant")).with("content", Json::array(content)).with(
            "model",
            Json::text(resp.model.as_str()),
        ).with("stop_reason", stop_reason).with("usage", usage)
    }
}

// ---------------------------------------------------------------- reading a stream

/// Whether a usage says anything besides the output tokens.
pub open spec fn says_input(u: TokenUsage) -> bool {
    u.input_tokens > 0 || u.cache_read_input_tokens is Some || u.cache_creation_input_tokens is Some
        || u.server_tool_use is Some
}

/// The index of a block event.
pub open spec fn block_index_of(data: JsonV) -> usize {
    match data.get_u64("index"@) {
        Some(n) => n as usize,
        None => 0,
    }
}

/// The event carried verbatim.
pub open spec fn raw_event(event: Seq<char>, data: JsonV) -> StreamDeltaV {
    StreamDeltaV::RawEvent { event_type: event, data }
}

/// The deltas of the event that opens a message: the usage comes first, so that it is known when
/// the start is written.
pub open spec fn start_deltas(data: JsonV) -> Seq<StreamDeltaV> {
    match data.get("message"@) {
        Some(msg) => (if says_input(usage_of(msg)) {
            seq![StreamDeltaV::Usage(usage_of(msg))]
        } else {
            Seq::empty()
        }).push(
            StreamDeltaV::MessageStart {
                id: msg.str_or_empty("id"@),
                model: msg.str_or_empty("model"@),
            },
        ),
        None => Seq::empty(),
    }
}

/// The deltas of the event that opens a block.
pub open spec fn block_start_deltas(data: JsonV) -> Seq<StreamDeltaV> {
    match data.get("content_block"@) {
        Some(block) => if block.get_str("type"@) == Some("tool_use"@) {
            seq![
                StreamDeltaV::ToolCallStart {
                    index: block_index_of(data),
                    id: block.str_or_empty("id"@),
                    name: block.str_or_empty("name"@),
                },
            ]
        } else {
            seq![raw_event("content_block_start"@, data)]
        },
        None => Seq::empty(),
    }
}

/// The deltas of an event inside a block.
pub open spec fn block_delta_deltas(data: JsonV) -> Seq<StreamDeltaV> {
    match data.get("delta"@) {
        Some(delta) => {
            let kind = delta.get_str("type"@);
            if kind == Some("text_delta"@) {
                match delta.get_str("text"@) {
                    Some(s) => seq![StreamDeltaV::TextDelta(s)],
                    None => Seq::empty(),
                }
            } else if kind == Some("thinking_delta"@) {
                match delta.filled("thinking"@) {
                    Some(s) => seq![StreamDeltaV::ReasoningDelta(s)],
                    None => Seq::empty(),
                }
            } else if kind == Some("signature_delta"@) {
                match delta.filled("signature"@) {
                    Some(s) => seq![StreamDeltaV::ReasoningSignature(s)],
                    None => Seq::empty(),
                }
            } else if kind == Some("input_json_delta"@) {
                match delta.get_str("partial_json"@) {
                    Some(s) => seq![
                        StreamDeltaV::ToolCallDelta { index: block_index_of(data), arguments: s },
                    ],
                    None => Seq::empty(),
                }
            } else {
                seq![raw_event("content_block_delta"@, data)]
            }
        },
        None => Seq::empty(),
    }
}

/// The deltas of the event that ends a message: the usage comes before the end.
pub open spec fn end_deltas(data: JsonV) -> Seq<StreamDeltaV> {
    let u = usage_of(data);
    let usage = if says_input(u) || u.output_tokens > 0 {
        seq![StreamDeltaV::Usage(u)]
    } else {
        Seq::empty()
    };
    match data.get2("delta"@, "stop_reason"@) {
        Some(JsonV::Text(r)) => usage.push(StreamDeltaV::Done { stop_reason: stop_in(r) }),
        _ => usage,
    }
}

/// The deltas of an event.
pub open spec fn event_deltas(event: Option<Seq<char>>, data: JsonV) -> Seq<StreamDeltaV> {
    match event {
        Some(e) => if e == "message_start"@ {
            start_deltas(data)
        } else if e == "content_block_start"@ {
            block_start_deltas(data)
        } else if e == "content_block_delta"@ {
            block_delta_deltas(data)
        } else if e == "message_delta"@ {
            end_deltas(data)
        } else if e == "ping"@ || e == "content_block_stop"@ || e == "message_stop"@ {
            Seq::empty()
        } else {
            seq![raw_event(e, data)]
        },
        None => Seq::empty(),
    }
}

/// The deltas of a block of the stream.
pub open spec fn block_deltas(block: Seq<char>) -> Seq<StreamDeltaV> {
    match crate::protocol::sse::field_of(block, "data: "@) {
        Some(d) => match crate::json::json_read(d) {
            Some(data) => event_deltas(
                crate::protocol::sse::field_of(block, "event: "@),
                data,
            ),
            None => Seq::empty(),
        },
        None => Seq::empty(),
    }
}

/// The deltas of the first `n` blocks.
pub open spec fn deltas_upto(blocks: Seq<Seq<char>>, n: nat) -> Seq<StreamDeltaV>
    decreases n,
{
    if n == 0 {
        Seq::empty()
    } else {
        deltas_upto(blocks, (n - 1) as nat) + block_deltas(blocks[n - 1])
    }
}

/// The deltas of a list of blocks.
pub open spec fn deltas_of(blocks: Seq<Seq<char>>) -> Seq<StreamDeltaV> {
    deltas_upto(blocks, blocks.len())
}

proof fn lemma_deltas_cat(a: Seq<Seq<char>>, b: Seq<Seq<char>>, n: nat)
    requires
        n <= b.len(),
    ensures
        deltas_upto(a + b, (a.len() + n) as nat) == deltas_of(a) + deltas_upto(b, n),
    decreases n,
{
    if n == 0 {
        lemma_deltas_prefix(a, b, a.len());
        assert(deltas_of(a) + deltas_upto(b, 0) =~= deltas_of(a));
    } else {
        lemma_deltas_cat(a, b, (n - 1) as nat);
        assert((a + b)[a.len() + n - 1] == b[n - 1]);
        assert(deltas_of(a) + deltas_upto(b, (n - 1) as nat) + block_deltas(b[n - 1]) =~= deltas_of(
            a,
        ) + deltas_upto(b, n));
    }
}

proof fn lemma_deltas_prefix(a: Seq<Seq<char>>, b: Seq<Seq<char>>, n: nat)
    requires
        n <= a.len(),
    ensures
        deltas_upto(a + b, n) == deltas_upto(a, n),
    decreases n,
{
    if n > 0 {
        lemma_deltas_prefix(a, b, (n - 1) as nat);
        assert((a + b)[n - 1] == a[n - 1]);
    }
}

/// The deltas of a stream do not depend on how it is cut into chunks.
pub proof fn lemma_stream_chunking(buffer: Seq<char>, a: Seq<char>, b: Seq<char>)
    ensures
        deltas_of(crate::protocol::sse::blocks_of(buffer + (a + b))) == deltas_of(
            crate::protocol::sse::blocks_of(buffer + a),
        ) + deltas_of(
            crate::protocol::sse::blocks_of(crate::protocol::sse::rest_of(buffer + a) + b),
        ),
{
    assert(buffer + (a + b) =~= (buffer + a) + b);
    crate::protocol::sse::lemma_chunking(buffer + a, b);
    let x = crate::protocol::sse::blocks_of(buffer + a);
    let y = crate::protocol::sse::blocks_of(crate::protocol::sse::rest_of(buffer + a) + b);
    lemma_deltas_cat(x, y, y.len());
}

fn same_opt(o: &Option<String>, s: &str) -> (r: bool)
    ensures
        r == (o.views() == Some(s@)),
{
    match o {
        Some(t) => *t.as_str() == *s,
        None => false,
    }
}

fn block_index(data: &Json) -> (r: usize)
    ensures
        r == block_index_of(data@),
{
    match data.get_u64("index") {
        Some(n) => #[verifier::truncate]
        (n as usize),
        None => 0,
    }
}

fn says_more(u: &TokenUsage) -> (r: bool)
    ensures
        r == says_input(*u),
{
    u.input_tokens > 0 || u.cache_read_input_tokens.is_some()
        || u.cache_creation_input_tokens.is_some() || u.server_tool_use.is_some()
}

fn single(d: StreamDelta) -> (r: Vec<StreamDelta>)
    ensures
        r.views() == seq![d@],
{
    let mut v: Vec<StreamDelta> = crate::views::none();
    crate::views::push(&mut v, d);
    assert(v.views() =~= seq![d@]);
    v
}

fn raw(event: &str, data: &Json) -> (r: Vec<StreamDelta>)
    ensures
        r.views() == seq![raw_event(event@, data@)],
{
    single(StreamDelta::RawEvent { event_type: event.to_string(), data: data.dup() })
}

fn parse_block_start(data: &Json) -> (r: Vec<StreamDelta>)
    ensures
        r.views() == block_start_deltas(data@),
{
    match data.get("content_block") {
        Some(block) => {
            if block.field_is("type", "tool_use") {
                single(
                    StreamDelta::ToolCallStart {
                        index: block_index(data),
                        id: block.str_or_empty("id"),
                        name: block.str_or_empty("name"),
                    },
                )
            } else {
                raw("content_block_start", data)
            }
        },
        None => crate::views::none(),
    }
}

fn parse_block_delta(data: &Json) -> (r: Vec<StreamDelta>)
    ensures
        r.views() == block_delta_deltas(data@),
{
    match data.get("delta") {
        Some(delta) => {
            if delta.field_is("type", "text_delta") {
                match delta.get_str("text") {
                    Some(s) => single(StreamDelta::TextDelta(s.to_string())),
                    None => crate::views::none(),
                }
            } else if delta.field_is("type", "thinking_delta") {
                match delta.filled("thinking") {
                    Some(s) => single(StreamDelta::ReasoningDelta(s.to_string())),
                    None => crate::views::none(),
                }
            } else if delta.field_is("type", "signature_delta") {
                match delta.filled("signature") {
                    Some(s) => single(StreamDelta::ReasoningSignature(s.to_string())),
                    None => crate::views::none(),
                }
            } else if delta.field_is("type", "input_json_delta") {
                match delta.get_str("partial_json") {
                    Some(s) => single(
                        StreamDelta::ToolCallDelta {
                            index: block_index(data),
                            arguments: s.to_string(),
                        },
                    ),
                    None => crate::views::none(),
                }
            } else {
                raw("content_block_delta", data)
            }
        },
        None => crate::views::none(),
    }
}

/// Reads the deltas of an event.
pub fn parse_anthropic_event(event_type: &Option<String>, data: &Json) -> (r: Vec<StreamDelta>)
    ensures
        r.views() == event_deltas(event_type.views(), data@),
{
    if same_opt(event_type, "message_start") {
        let mut deltas: Vec<StreamDelta> = crate::views::none();
        if let Some(msg) = data.get("message") {
            let u = extract_anthropic_usage(msg);
            if says_more(&u) {
                deltas = single(StreamDelta::Usage(u));
            }
            crate::views::push(
                &mut deltas,
                StreamDelta::MessageStart {
                    id: msg.str_or_empty("id"),
                    model: msg.str_or_empty("model"),
                },
            );
        }
        deltas
    } else if same_opt(event_type, "content_block_start") {
        parse_block_start(data)
    } else if same_opt(event_type, "content_block_delta") {
        parse_block_delta(data)
    } else if same_opt(event_type, "message_delta") {
        let u = extract_anthropic_usage(data);
        let mut deltas: Vec<StreamDelta> = crate::views::none();
        if says_more(&u) || u.output_tokens > 0 {
            deltas = single(StreamDelta::Usage(u));
        }
        if let Some(v) = data.get2("delta", "stop_reason") {
            if let Some(reason) = v.as_str() {
                crate::views::push(
                    &mut deltas,
                    StreamDelta::Done { stop_reason: stop_reason_in(reason) },
                );
            }
        }
        deltas
    } else if same_opt(event_type, "ping") || same_opt(event_type, "content_block_stop")
        || same_opt(event_type, "message_stop") {
        crate::views::none()
    } else {
        match event_type {
            Some(e) => raw(e.as_str(), data),
            None => crate::views::none(),
        }
    }
}

/// Reads a stream of the protocol.
#[derive(Debug)]
pub struct AnthropicStreamParser {
    buffer: String,
}

impl View for AnthropicStreamParser {
    type V = Seq<char>;

    /// What has come in behind the last complete block.
    closed spec fn view(&self) -> Seq<char> {
        self.buffer@
    }
}

impl Default for AnthropicStreamParser {
    fn default() -> (r: Self)
        ensures
            r@ == Seq::<char>::empty(),
    {
        Self::new()
    }
}

impl AnthropicStreamParser {
    /// A parser at the beginning of a stream.
    pub fn new() -> (r: Self)
        ensures
            r@ == Seq::<char>::empty(),
    {
        let r = AnthropicStreamParser { buffer: String::new() };
        assert(r@ =~= Seq::<char>::empty());
        r
    }

    fn read(&mut self, raw: &str) -> (r: Vec<StreamDelta>)
        ensures
            r.views() == deltas_of(crate::protocol::sse::blocks_of(old(self)@ + raw@)),
            final(self)@ == crate::protocol::sse::rest_of(old(self)@ + raw@),
    {
        let blocks = crate::protocol::sse::take_blocks(&mut self.buffer, raw);
        let mut deltas: Vec<StreamDelta> = crate::views::none();
        for i in 0..blocks.len()
            invariant
                deltas.views() == deltas_upto(blocks.views(), i as nat),
        {
            let block = blocks[i].as_str();
            assert(blocks.views()[i as int] == block@);
            let event_type = crate::protocol::sse::field(block, "event: ");
            let ghost before = deltas.views();
            match crate::protocol::sse::field(block, "data: ") {
                Some(d) => {
                    match Json::parse(d.as_str()) {
                        Some(data) => {
                            crate::views::extend(
                                &mut deltas,
                                parse_anthropic_event(&event_type, &data),
                            );
                        },
                        None => {
                            assert(before + Seq::<StreamDeltaV>::empty() =~= before);
                        },
                    }
                },
                None => {
                    assert(before + Seq::<StreamDeltaV>::empty() =~= before);
                },
            }
        }
        deltas
    }
}

impl StreamParser for AnthropicStreamParser {
    /// Reads the deltas that a chunk completes.
    fn parse_chunk(&mut self, raw: &str) -> (r: Result<Vec<StreamDelta>, CodecError>)
        ensures
            r matches Ok(v) && v.views() == deltas_of(
                crate::protocol::sse::blocks_of(old(self)@ + raw@),
            ),
            final(self)@ == crate::protocol::sse::rest_of(old(self)@ + raw@),
    {
        Ok(self.read(raw))
    }

    /// Reads what is left at the end of the stream as a last block.
    fn finish(&mut self) -> (r: Result<Vec<StreamDelta>, CodecError>)
        ensures
            r matches Ok(v) && v.views() == (if crate::text::trim_of(old(self)@).len() == 0 {
                Seq::empty()
            } else {
                deltas_of(crate::protocol::sse::blocks_of(old(self)@ + "\n\n"@))
            }),
            final(self)@ == (if crate::text::trim_of(old(self)@).len() == 0 {
                old(self)@
            } else {
                crate::protocol::sse::rest_of(old(self)@ + "\n\n"@)
            }),
    {
        if crate::text::is_blank(self.buffer.as_str()) {
            Ok(crate::views::none())
        } else {
            Ok(self.read("\n\n"))
        }
    }
}

// ---------------------------------------------------------------- writing a stream

/// The state of a stream that is being written.
pub struct FormatterV {
    pub usage: TokenUsage,
    pub id: Seq<char>,
    pub model: Seq<char>,
    pub block_index: usize,
    pub in_thinking_block: bool,
    pub in_text_block: bool,
    pub in_tool_block: bool,
    pub message_started: bool,
}

/// A state together with the events written so far.
pub struct WrittenV {
    pub state: FormatterV,
    pub events: Seq<SseV>,
}

/// An event whose data is a JSON value.
pub open spec fn json_event(event: Seq<char>, data: JsonV) -> SseV {
    SseV::typed(event, crate::json::text_of(data))
}

/// The usage object of a message that starts.
pub open spec fn start_usage(u: TokenUsage) -> JsonV {
    usage_extended(
        JsonV::obj().with("input_tokens"@, JsonV::num(u.input_tokens as u64)).with(
            "output_tokens"@,
            JsonV::num(0),
        ),
        u,
    )
}

/// The data of the event that opens a message.
pub open spec fn message_start_json(s: FormatterV) -> JsonV {
    JsonV::obj().with("type"@, JsonV::Text("message_start"@)).with(
        "message"@,
        JsonV::obj().with("id"@, JsonV::Text(s.id)).with("type"@, JsonV::Text("message"@)).with(
            "role"@,
            JsonV::Text("assistant"@),
        ).with("content"@, JsonV::Array(Seq::empty())).with("model"@, JsonV::Text(s.model)).with(
            "stop_reason"@,
            JsonV::Null,
        ).with("usage"@, start_usage(s.usage)),
    )
}

/// The data of an event about the block at an index.
pub open spec fn block_event(kind: Seq<char>, index: usize, key: Seq<char>, v: JsonV) -> JsonV {
    JsonV::obj().with("type"@, JsonV::Text(kind)).with("index"@, JsonV::num(index as u64)).with(
        key,
        v,
    )
}

/// A delta with one text field.
pub open spec fn delta_of(kind: Seq<char>, key: Seq<char>, text: Seq<char>) -> JsonV {
    JsonV::obj().with("type"@, JsonV::Text(kind)).with(key, JsonV::Text(text))
}

/// The usage with the counts that `u` knows.
pub open spec fn usage_merged(old: TokenUsage, u: TokenUsage) -> TokenUsage {
    TokenUsage {
        input_tokens: if u.input_tokens > 0 {
            u.input_tokens
        } else {
            old.input_tokens
        },
        output_tokens: if u.output_tokens > 0 {
            u.output_tokens
        } else {
            old.output_tokens
        },
        cache_read_input_tokens: if u.cache_read_input_tokens is Some {
            u.cache_read_input_tokens
        } else {
            old.cache_read_input_tokens
        },
        cache_creation_input_tokens: if u.cache_creation_input_tokens is Some {
            u.cache_creation_input_tokens
        } else {
            old.cache_creation_input_tokens
        },
        server_tool_use: if u.server_tool_use is Some {
            u.server_tool_use
        } else {
            old.server_tool_use
        },
    }
}

impl WrittenV {
    pub open spec fn emit(self, e: SseV) -> WrittenV {
        WrittenV { events: self.events.push(e), ..self }
    }

    /// The start of the message written, unless it is already.
    pub open spec fn started(self) -> WrittenV {
        if self.state.message_started {
            self
        } else {
            WrittenV {
                state: FormatterV { message_started: true, ..self.state },
                events: self.events.push(
                    json_event("message_start"@, message_start_json(self.state)),
                ).push(SseV::typed("ping"@, "{\"type\":\"ping\"}"@)),
            }
        }
    }

    /// The end of the current block written and the index moved on.
    pub open spec fn stopped(self) -> WrittenV {
        WrittenV {
            state: FormatterV {
                block_index: crate::protocol::succ(self.state.block_index),
                ..self.state
            },
            events: self.events.push(
                json_event(
                    "content_block_stop"@,
                    JsonV::obj().with("type"@, JsonV::Text("content_block_stop"@)).with(
                        "index"@,
                        JsonV::num(self.state.block_index as u64),
                    ),
                ),
            ),
        }
    }

    pub open spec fn text_closed(self) -> WrittenV {
        if self.state.in_text_block {
            let w = self.stopped();
            WrittenV { state: FormatterV { in_text_block: false, ..w.state }, ..w }
        } else {
            self
        }
    }

    pub open spec fn thinking_closed(self) -> WrittenV {
        if self.state.in_thinking_block {
            let w = self.stopped();
            WrittenV { state: FormatterV { in_thinking_block: false, ..w.state }, ..w }
        } else {
            self
        }
    }

    pub open spec fn tool_closed(self) -> WrittenV {
        if self.state.in_tool_block {
            let w = self.stopped();
            WrittenV { state: FormatterV { in_tool_block: false, ..w.state }, ..w }
        } else {
            self
        }
    }

    pub open spec fn block_opened(self, block: JsonV) -> WrittenV {
        self.emit(
            json_event(
                "content_block_start"@,
                block_event(
                    "content_block_start"@,
                    self.state.block_index,
                    "content_block"@,
                    block,
                ),
            ),
        )
    }

    pub open spec fn block_grown(self, delta: JsonV) -> WrittenV {
        self.emit(
            json_event(
                "content_block_delta"@,
                block_event("content_block_delta"@, self.state.block_index, "delta"@, delta),
            ),
        )
    }

    /// A thinking block open.
    pub open spec fn thinking_opened(self) -> WrittenV {
        if self.state.in_thinking_block {
            self
        } else {
            WrittenV {
                state: FormatterV { in_thinking_block: true, ..self.state },
                ..self
            }.block_opened(thinking_block(Seq::empty()))
        }
    }

    /// A text block open.
    pub open spec fn text_opened(self) -> WrittenV {
        if self.state.in_text_block {
            self
        } else {
            WrittenV {
                state: FormatterV { in_text_block: true, ..self.state },
                ..self
            }.block_opened(text_block(Seq::empty()))
        }
    }

    /// The end of the message written.
    pub open spec fn ended(self, stop_reason: Seq<char>) -> WrittenV {
        let u = self.state.usage;
        self.emit(
            json_event(
                "message_delta"@,
                JsonV::obj().with("type"@, JsonV::Text("message_delta"@)).with(
                    "delta"@,
                    JsonV::obj().with("stop_reason"@, JsonV::Text(stop_out(stop_reason))),
                ).with(
                    "usage"@,
                    usage_extended(
                        JsonV::obj().with("output_tokens"@, JsonV::num(u.output_tokens as u64)),
                        u,
                    ),
                ),
            ),
        ).emit(SseV::typed("message_stop"@, "{\"type\":\"message_stop\"}"@))
    }

    /// One delta more. `fresh` names a tool call that has no name of its own.
    pub open spec fn step(self, d: StreamDeltaV, fresh: Seq<char>) -> WrittenV {
        match d {
            StreamDeltaV::MessageStart { id, model } => WrittenV {
                state: FormatterV { id, model, ..self.state },
                ..self
            }.started(),
            StreamDeltaV::ReasoningDelta(t) => self.started().text_closed().thinking_opened(
            ).block_grown(delta_of("thinking_delta"@, "thinking"@, t)),
            StreamDeltaV::ReasoningSignature(t) => self.started().text_closed().thinking_opened(
            ).block_grown(delta_of("signature_delta"@, "signature"@, t)),
            StreamDeltaV::TextDelta(t) => if !self.state.in_text_block && crate::text::trim_of(
                t,
            ).len() == 0 {
                self
            } else {
                self.started().thinking_closed().tool_closed().text_opened().block_grown(
                    delta_of("text_delta"@, "text"@, t),
                )
            },
            StreamDeltaV::ToolCallStart { index, id, name } => {
                let w = self.started().thinking_closed().text_closed().tool_closed().block_opened_at(
                    id,
                    name,
                    fresh,
                );
                WrittenV { state: FormatterV { in_tool_block: true, ..w.state }, ..w }
            },
            StreamDeltaV::ToolCallDelta { index, arguments } => self.block_grown(
                delta_of("input_json_delta"@, "partial_json"@, arguments),
            ),
            StreamDeltaV::Usage(u) => WrittenV {
                state: FormatterV { usage: usage_merged(self.state.usage, u), ..self.state },
                ..self
            },
            StreamDeltaV::Done { stop_reason } => self.started().thinking_closed().text_closed(
            ).tool_closed().ended(stop_reason),
            StreamDeltaV::RawEvent { event_type, data } => self.emit(json_event(event_type, data)),
        }
    }

    /// A block that calls a tool, open under its identifier or a fresh one.
    pub open spec fn block_opened_at(
        self,
        id: Seq<char>,
        name: Seq<char>,
        fresh: Seq<char>,
    ) -> WrittenV {
        self.block_opened(
            tool_use_block(
                if crate::text::trim_of(id).len() == 0 {
                    "toolu_"@ + fresh
                } else {
                    id
                },
                name,
                JsonV::obj(),
            ),
        )
    }

    /// The first `n` deltas.
    pub open spec fn steps(
        self,
        deltas: Seq<StreamDeltaV>,
        fresh: Seq<Seq<char>>,
        n: nat,
    ) -> WrittenV
        decreases n,
    {
        if n == 0 {
            self
        } else {
            self.steps(deltas, fresh, (n - 1) as nat).step(deltas[n - 1], fresh[n - 1])
        }
    }
}

/// Writes a stream of the protocol.
#[derive(Debug)]
pub struct AnthropicStreamFormatter {
    usage: TokenUsage,
    id: String,
    model: String,
    block_index: usize,
    in_thinking_block: bool,
    in_text_block: bool,
    in_tool_block: bool,
    message_started: bool,
}

impl View for AnthropicStreamFormatter {
    type V = FormatterV;

    closed spec fn view(&self) -> FormatterV {
        FormatterV {
            usage: self.usage,
            id: self.id@,
            model: self.model@,
            block_index: self.block_index,
            in_thinking_block: self.in_thinking_block,
            in_text_block: self.in_text_block,
            in_tool_block: self.in_tool_block,
            message_started: self.message_started,
        }
    }
}

impl FormatterV {
    /// Nothing written yet, under an identifier.
    pub open spec fn fresh(id: Seq<char>) -> FormatterV {
        FormatterV {
            usage: TokenUsage::zero(),
            id,
            model: Seq::empty(),
            block_index: 0,
            in_thinking_block: false,
            in_text_block: false,
            in_tool_block: false,
            message_started: false,
        }
    }
}

/// A state and events as one value.
pub open spec fn written(state: FormatterV, events: Seq<SseV>) -> WrittenV {
    WrittenV { state, events }
}

fn block_event_json(kind: &str, index: usize, key: &str, v: Json) -> (r: Json)
    ensures
        r@ == block_event(kind@, index, key@, v@),
{
    Json::object().with("type", Json::text(kind)).with("index", Json::num(index as u64)).with(
        key,
        v,
    )
}

fn delta_json(kind: &str, key: &str, text: &str) -> (r: Json)
    ensures
        r@ == delta_of(kind@, key@, text@),
{
    Json::object().with("type", Json::text(kind)).with(key, Json::text(text))
}

impl AnthropicStreamFormatter {
    /// A formatter at the beginning of a stream, under a given identifier.
    pub fn with_id(id: String) -> (r: Self)
        ensures
            r@ == FormatterV::fresh(id@),
    {
        let r = AnthropicStreamFormatter {
            usage: TokenUsage::default(),
            id,
            model: String::new(),
            block_index: 0,
            in_thinking_block: false,
            in_text_block: false,
            in_tool_block: false,
            message_started: false,
        };
        assert(r@.model =~= Seq::<char>::empty());
        r
    }

    /// A formatter at the beginning of a stream, under a fresh identifier.
    pub fn new() -> (r: Self)
        ensures
            exists|u: Seq<char>|
                #![auto]
                crate::fresh::is_uuid_text(u) && r@ == FormatterV::fresh("msg_"@ + u),
    {
        let u = crate::fresh::uuid_text();
        Self::with_id(crate::text::cat("msg_", u.as_str()))
    }

    fn ensure_message_start(&mut self, events: &mut Vec<SseEvent>)
        ensures
            written(final(self)@, final(events).views()) == written(
                old(self)@,
                old(events).views(),
            ).started(),
    {
        if self.message_started {
            return;
        }
        let usage = extend_usage_json(
            Json::object().with("input_tokens", Json::num(self.usage.input_tokens as u64)).with(
                "output_tokens",
                Json::num(0),
            ),
            &self.usage,
        );
        let message = Json::object().with("id", Json::text(self.id.as_str())).with(
            "type",
            Json::text("message"),
        ).with("role", Json::text("assistant")).with(
            "content",
            Json::array(crate::views::none()),
        ).with("model", Json::text(self.model.as_str())).with("stop_reason", Json::Null).with(
            "usage",
            usage,
        );
        let data = Json::object().with("type", Json::text("message_start")).with(
            "message",
            message,
        );
        self.message_started = true;
        emit(events, "message_start", data.to_text());
        emit(events, "ping", "{\"type\":\"ping\"}".to_string());
    }

    fn stop_block(&mut self, events: &mut Vec<SseEvent>)
        ensures
            written(final(self)@, final(events).views()) == written(
                old(self)@,
                old(events).views(),
            ).stopped(),
    {
        let stop = Json::object().with("type", Json::text("content_block_stop")).with(
            "index",
            Json::num(self.block_index as u64),
        );
        emit(events, "content_block_stop", stop.to_text());
        self.block_index = crate::protocol::next_index(self.block_index);
    }

    fn close_text_block_if_open(&mut self, events: &mut Vec<SseEvent>)
        ensures
            written(final(self)@, final(events).views()) == written(
                old(self)@,
                old(events).views(),
            ).text_closed(),
    {
        if self.in_text_block {
            self.stop_block(events);
            self.in_text_block = false;
        }
    }

    fn close_thinking_block_if_open(&mut self, events: &mut Vec<SseEvent>)
        ensures
            written(final(self)@, final(events).views()) == written(
                old(self)@,
                old(events).views(),
            ).thinking_closed(),
    {
        if self.in_thinking_block {
            self.stop_block(events);
            self.in_thinking_block = false;
        }
    }

    fn close_tool_block_if_open(&mut self, events: &mut Vec<SseEvent>)
        ensures
            written(final(self)@, final(events).views()) == written(
                old(self)@,
                old(events).views(),
            ).tool_closed(),
    {
        if self.in_tool_block {
            self.stop_block(events);
            self.in_tool_block = false;
        }
    }

    fn open_block(&self, block: Json, events: &mut Vec<SseEvent>)
        ensures
            written(self@, final(events).views()) == written(
                self@,
                old(events).views(),
            ).block_opened(block@),
    {
        let data = block_event_json(
            "content_block_start",
            self.block_index,
            "content_block",
            block,
        );
        emit(events, "content_block_start", data.to_text());
    }

    fn grow_block(&self, delta: Json, events: &mut Vec<SseEvent>)
        ensures
            written(self@, final(events).views()) == written(self@, old(events).views()).block_grown(
                delta@,
            ),
    {
        let data = block_event_json("content_block_delta", self.block_index, "delta", delta);
        emit(events, "content_block_delta", data.to_text());
    }

    fn open_thinking(&mut self, events: &mut Vec<SseEvent>)
        ensures
            written(final(self)@, final(events).views()) == written(
                old(self)@,
                old(events).views(),
            ).thinking_opened(),
    {
        if !self.in_thinking_block {
            self.in_thinking_block = true;
            proof {
                reveal_strlit("");
                assert(""@ =~= Seq::<char>::empty());
            }
            self.open_block(thinking_block_json(""), events);
        }
    }

    fn open_text(&mut self, events: &mut Vec<SseEvent>)
        ensures
            written(final(self)@, final(events).views()) == written(
                old(self)@,
                old(events).views(),
            ).text_opened(),
    {
        if !self.in_text_block {
            self.in_text_block = true;
            proof {
                reveal_strlit("");
                assert(""@ =~= Seq::<char>::empty());
            }
            self.open_block(text_block_json(""), events);
        }
    }

    fn end_message(&self, stop_reason: &str, events: &mut Vec<SseEvent>)
        ensures
            written(self@, final(events).views()) == written(self@, old(events).views()).ended(
                stop_reason@,
            ),
    {
        let usage = extend_usage_json(
            Json::object().with("output_tokens", Json::num(self.usage.output_tokens as u64)),
            &self.usage,
        );
        let delta = Json::object().with("stop_reason", Json::Text(stop_reason_out(stop_reason)));
        let data = Json::object().with("type", Json::text("message_delta")).with(
            "delta",
            delta,
        ).with("usage", usage);
        emit(events, "message_delta", data.to_text());
        emit(events, "message_stop", "{\"type\":\"message_stop\"}".to_string());
    }

    fn merge_usage(&mut self, u: &TokenUsage)
        ensures
            final(self)@ == (FormatterV { usage: usage_merged(old(self)@.usage, *u), ..old(self)@ }),
    {
        if u.input_tokens > 0 {
            self.usage.input_tokens = u.input_tokens;
        }
        if u.output_tokens > 0 {
            self.usage.output_tokens = u.output_tokens;
        }
        if u.cache_read_input_tokens.is_some() {
            self.usage.cache_read_input_tokens = u.cache_read_input_tokens;
        }
        if u.cache_creation_input_tokens.is_some() {
            self.usage.cache_creation_input_tokens = u.cache_creation_input_tokens;
        }
        if u.server_tool_use.is_some() {
            self.usage.server_tool_use = u.server_tool_use;
        }
    }

    /// Writes the events of one delta. `fresh` names a tool call that has no name of its own.
    pub fn format_delta(&mut self, delta: &StreamDelta, fresh: &str, events: &mut Vec<SseEvent>)
        ensures
            written(final(self)@, final(events).views()) == written(
                old(self)@,
                old(events).views(),
            ).step(delta@, fresh@),
    {
        match delta {
            StreamDelta::MessageStart { id, model } => {
                self.id = id.clone();
                self.model = model.clone();
                self.ensure_message_start(events);
            },
            StreamDelta::ReasoningDelta(text) => {
                self.ensure_message_start(events);
                self.close_text_block_if_open(events);
                self.open_thinking(events);
                self.grow_block(delta_json("thinking_delta", "thinking", text.as_str()), events);
            },
            StreamDelta::ReasoningSignature(signature) => {
                self.ensure_message_start(events);
                self.close_text_block_if_open(events);
                self.open_thinking(events);
                self.grow_block(
                    delta_json("signature_delta", "signature", signature.as_str()),
                    events,
                );
            },
            StreamDelta::TextDelta(text) => {
                if !self.in_text_block && crate::text::is_blank(text.as_str()) {
                    return;
                }
                self.ensure_message_start(events);
                self.close_thinking_block_if_open(events);
                self.close_tool_block_if_open(events);
                self.open_text(events);
                self.grow_block(delta_json("text_delta", "text", text.as_str()), events);
            },
            StreamDelta::ToolCallStart { index: _, id, name } => {
                self.ensure_message_start(events);
                self.close_thinking_block_if_open(events);
                self.close_text_block_if_open(events);
                self.close_tool_block_if_open(events);
                let tool_use_id = if crate::text::is_blank(id.as_str()) {
                    crate::text::cat("toolu_", fresh)
                } else {
                    id.clone()
                };
                self.open_block(
                    tool_use_block_json(tool_use_id.as_str(), name.as_str(), Json::object()),
                    events,
                );
                self.in_tool_block = true;
            },
            StreamDelta::ToolCallDelta { index: _, arguments } => {
                self.grow_block(
                    delta_json("input_json_delta", "partial_json", arguments.as_str()),
                    events,
                );
            },
            StreamDelta::Usage(u) => {
                self.merge_usage(u);
            },
            StreamDelta::Done { stop_reason } => {
                self.ensure_message_start(events);
                self.close_thinking_block_if_open(events);
                self.close_text_block_if_open(events);
                self.close_tool_block_if_open(events);
                self.end_message(stop_reason.as_str(), events);
            },
            StreamDelta::RawEvent { event_type, data } => {
                emit(events, event_type.as_str(), data.to_text());
            },
        }
    }

    /// Writes the events of deltas; the identifier at a delta's place is taken for a tool call
    /// that has none.
    pub fn format_deltas_with(&mut self, deltas: &Vec<StreamDelta>, fresh: &Vec<String>) -> (r: Vec<
        SseEvent,
    >)
        requires
            fresh@.len() == deltas@.len(),
        ensures
            written(final(self)@, r.views()) == written(old(self)@, Seq::empty()).steps(
                deltas.views(),
                fresh.views(),
                deltas@.len(),
            ),
    {
        let mut events: Vec<SseEvent> = crate::views::none();
        for i in 0..deltas.len()
            invariant
                fresh@.len() == deltas@.len(),
                written(self@, events.views()) == written(old(self)@, Seq::empty()).steps(
                    deltas.views(),
                    fresh.views(),
                    i as nat,
                ),
        {
            assert(deltas.views()[i as int] == deltas@[i as int]@);
            assert(fresh.views()[i as int] == fresh@[i as int]@);
            self.format_delta(&deltas[i], fresh[i].as_str(), &mut events);
        }
        events
    }
}

impl Default for AnthropicStreamFormatter {
    fn default() -> (r: Self)
        ensures
            exists|u: Seq<char>|
                #![auto]
                crate::fresh::is_uuid_text(u) && r@ == FormatterV::fresh("msg_"@ + u),
    {
        Self::new()
    }
}

impl StreamFormatter for AnthropicStreamFormatter {
    /// Writes the events of deltas.
    fn format_deltas(&mut self, deltas: &Vec<StreamDelta>) -> (r: Vec<SseEvent>)
        ensures
            exists|fresh: Seq<Seq<char>>| #[trigger]
                crate::fresh::all_uuid_texts(fresh) && fresh.len() == deltas@.len() && written(
                    final(self)@,
                    r.views(),
                ) == written(old(self)@, Seq::empty()).steps(
                    deltas.views(),
                    fresh,
                    deltas@.len(),
                ),
    {
        let fresh = crate::fresh::uuid_texts(deltas.len());
        self.format_deltas_with(deltas, &fresh)
    }

    /// Nothing follows the end of a stream.
    fn format_done(&mut self) -> (r: Vec<SseEvent>)
        ensures
            r@.len() == 0,
            final(self)@ == old(self)@,
    {
        Vec::new()
    }

    /// The usage known so far.
    fn usage(&self) -> (r: TokenUsage)
        ensures
            r == self@.usage,
    {
        self.usage
    }
}

// ---------------------------------------------------------------- laws of the stream

impl FormatterV {
    /// No other block is open beside a text block.
    pub open spec fn text_alone(self) -> bool {
        self.in_text_block ==> !self.in_thinking_block && !self.in_tool_block
    }

    /// No block is open.
    pub open spec fn all_closed(self) -> bool {
        !self.in_text_block && !self.in_thinking_block && !self.in_tool_block
    }
}

/// Whatever deltas a stream is written from, no other block is ever open beside a text block.
pub proof fn lemma_text_alone(
    w: WrittenV,
    deltas: Seq<StreamDeltaV>,
    fresh: Seq<Seq<char>>,
    n: nat,
)
    requires
        w.state.text_alone(),
        n <= deltas.len(),
    ensures
        w.steps(deltas, fresh, n).state.text_alone(),
    decreases n,
{
    if n > 0 {
        lemma_text_alone(w, deltas, fresh, (n - 1) as nat);
    }
}

/// The end of a message closes every block, and comes behind its start.
pub proof fn lemma_done_closes(w: WrittenV, stop_reason: Seq<char>, fresh: Seq<char>)
    ensures
        w.step(StreamDeltaV::Done { stop_reason }, fresh).state.all_closed(),
        w.step(StreamDeltaV::Done { stop_reason }, fresh).state.message_started,
        w.step(StreamDeltaV::Done { stop_reason }, fresh).events.last() == SseV::typed(
            "message_stop"@,
            "{\"type\":\"message_stop\"}"@,
        ),
{
}

/// A message is started once: a stream that has started stays so, and its start is not written
/// again.
pub proof fn lemma_started_once(
    w: WrittenV,
    deltas: Seq<StreamDeltaV>,
    fresh: Seq<Seq<char>>,
    n: nat,
)
    requires
        w.state.message_started,
        n <= deltas.len(),
    ensures
        w.steps(deltas, fresh, n).state.message_started,
        w.steps(deltas, fresh, n).started() == w.steps(deltas, fresh, n),
    decreases n,
{
    if n > 0 {
        lemma_started_once(w, deltas, fresh, (n - 1) as nat);
    }
}

/// Events already written stay as they are.
pub proof fn lemma_events_grow(w: WrittenV, d: StreamDeltaV, fresh: Seq<char>)
    ensures
        w.events.len() <= w.step(d, fresh).events.len(),
        w.step(d, fresh).events.subrange(0, w.events.len() as int) == w.events,
{
    let v = w.step(d, fresh);
    assert(v.events.subrange(0, w.events.len() as int) =~= w.events);
}

/// The usage that a message reports at its start is the one that the start is written with.
pub proof fn lemma_start_carries_usage(
    id: Seq<char>,
    data: JsonV,
    msg: JsonV,
    fresh: Seq<Seq<char>>,
)
    requires
        data.get("message"@) == Some(msg),
        says_input(usage_of(msg)),
    ensures
        ({
            let w = written(FormatterV::fresh(id), Seq::empty()).steps(
                start_deltas(data),
                fresh,
                start_deltas(data).len(),
            );
            w.events.len() == 2 && w.events[0] == json_event(
                "message_start"@,
                message_start_json(
                    FormatterV {
                        usage: usage_of(msg),
                        id: msg.str_or_empty("id"@),
                        model: msg.str_or_empty("model"@),
                        ..FormatterV::fresh(id)
                    },
                ),
            )
        }),
{
    reveal_with_fuel(WrittenV::steps, 3);
    assert(start_deltas(data).len() == 2);
    assert(start_deltas(data)[0] == StreamDeltaV::Usage(usage_of(msg)));
    assert(usage_merged(TokenUsage::zero(), usage_of(msg)) == usage_of(msg));
}

/// An event of no known type comes out as it came in.
pub proof fn lemma_unknown_event_verbatim(
    w: WrittenV,
    event: Seq<char>,
    data: JsonV,
    fresh: Seq<Seq<char>>,
)
    requires
        event != "message_start"@,
        event != "content_block_start"@,
        event != "content_block_delta"@,
        event != "message_delta"@,
        event != "ping"@,
        event != "content_block_stop"@,
        event != "message_stop"@,
    ensures
        w.steps(event_deltas(Some(event), data), fresh, 1) == w.emit(json_event(event, data)),
{
    reveal_with_fuel(WrittenV::steps, 2);
    assert(event_deltas(Some(event), data)[0] == raw_event(event, data));
}

} // verus!
