//! Reads responses and streams of the Responses protocol.
use vstd::prelude::*;

use crate::json::{Json, JsonV};
use crate::protocol::codec::openai_responses::decoder::{first_text, text_or_other};
use crate::protocol::ir::request::ToolCall;
use crate::protocol::ir::response::{AiResponse, AiResponseV};
use crate::protocol::ir::stream::{DeltaV, StreamDelta};
use crate::protocol::ir::usage::Usage;
use crate::protocol::traits::{ResponseDecoder, StreamResponseDecoder};
use crate::protocol::types::ToolCallV;
use crate::protocol::CodecError;
use crate::views::Views;

verus! {

// ---------------------------------------------------------------- whole responses

/// The text of a block of a message.
pub open spec fn block_text(b: JsonV) -> Option<Seq<char>> {
    let kind = b.get_str("type"@);
    if kind == Some("output_text"@) || kind == Some("text"@) {
        b.get_str("text"@)
    } else {
        None
    }
}

/// The texts of the first `n` blocks, one behind the other.
pub open spec fn blocks_text(v: Seq<JsonV>, n: nat) -> Seq<char>
    decreases n,
{
    if n == 0 {
        Seq::empty()
    } else {
        let before = blocks_text(v, (n - 1) as nat);
        match block_text(v[n - 1]) {
            Some(t) => before + t,
            None => before,
        }
    }
}

fn append_blocks(v: &Vec<Json>, out: &mut String)
    ensures
        final(out)@ == old(out)@ + blocks_text(v.views(), v@.len()),
{
    assert(out@ + Seq::<char>::empty() =~= out@);
    for i in 0..v.len()
        invariant
            out@ == old(out)@ + blocks_text(v.views(), i as nat),
    {
        assert(v.views()[i as int] == v@[i as int]@);
        let ghost before = blocks_text(v.views(), i as nat);
        if v[i].field_is("type", "output_text") || v[i].field_is("type", "text") {
            match v[i].get_str("text") {
                Some(t) => {
                    out.append(t);
                    assert(old(out)@ + before + t@ =~= old(out)@ + (before + t@));
                },
                None => {},
            }
        }
    }
}

/// The call that an item holds; one without a name or an identifier is passed over.
pub open spec fn call_of(item: JsonV) -> Option<ToolCallV> {
    let id = crate::protocol::codec::openai_responses::decoder::text_at(item, "call_id"@, "id"@);
    let name = item.str_or_empty("name"@);
    if id.len() == 0 || name.len() == 0 {
        None
    } else {
        Some(
            ToolCallV {
                id,
                name,
                arguments: crate::protocol::codec::openai_responses::decoder::text_or(
                    item,
                    "arguments"@,
                    "{}"@,
                ),
            },
        )
    }
}

fn read_call(item: &Json) -> (r: Option<ToolCall>)
    ensures
        r.views() == call_of(item@),
{
    let id = first_text(item, "call_id", "id");
    let name = item.str_or_empty("name");
    if id.as_str().is_empty() || name.as_str().is_empty() {
        None
    } else {
        Some(ToolCall { id, name, arguments: text_or_other(item, "arguments", "{}") })
    }
}

/// What the output of a response holds.
pub struct OutputV {
    pub content: Seq<char>,
    pub calls: Seq<ToolCallV>,
}

impl OutputV {
    /// One item more.
    pub open spec fn item(self, item: JsonV) -> OutputV {
        let kind = item.get_str("type"@);
        if kind == Some("message"@) {
            match item.get_array("content"@) {
                Some(v) => OutputV { content: self.content + blocks_text(v, v.len()), ..self },
                None => self,
            }
        } else if kind == Some("function_call"@) {
            match call_of(item) {
                Some(c) => OutputV { calls: self.calls.push(c), ..self },
                None => self,
            }
        } else {
            self
        }
    }

    /// The first `n` items.
    pub open spec fn of(v: Seq<JsonV>, n: nat) -> OutputV
        decreases n,
    {
        if n == 0 {
            OutputV { content: Seq::empty(), calls: Seq::empty() }
        } else {
            OutputV::of(v, (n - 1) as nat).item(v[n - 1])
        }
    }
}

/// The token counts of a response.
pub open spec fn usage_of(resp: JsonV) -> Usage {
    match resp.get("usage"@) {
        Some(u) => Usage {
            prompt_tokens: u.count("input_tokens"@),
            completion_tokens: u.count("output_tokens"@),
            ..Usage::zero()
        },
        None => Usage::zero(),
    }
}

fn read_usage(resp: &Json) -> (r: Usage)
    ensures
        r == usage_of(resp@),
{
    let mut out = Usage::default();
    match resp.get("usage") {
        Some(u) => {
            out.prompt_tokens = u.count("input_tokens");
            out.completion_tokens = u.count("output_tokens");
        },
        None => {},
    }
    out
}

/// The response that a body stands for. What is lacking is empty.
pub open spec fn response_of(resp: JsonV) -> AiResponseV {
    let out = match resp.get_array("output"@) {
        Some(v) => OutputV::of(v, v.len()),
        None => OutputV::of(Seq::empty(), 0),
    };
    AiResponseV {
        content: out.content,
        tool_calls: out.calls,
        stop_reason: resp.get_str("status"@),
        usage: usage_of(resp),
        ..AiResponseV::bare(resp.str_or_empty("id"@), resp.str_or_empty("model"@))
    }
}

/// Reads responses of the protocol.
#[derive(Debug, Clone, Copy)]
pub struct ResponsesResponseParser;

impl ResponseDecoder for ResponsesResponseParser {
    /// Reads a response; there is none that it cannot read.
    fn parse_response(&self, resp: Json) -> (r: Result<AiResponse, CodecError>)
        ensures
            r matches Ok(v) && v@ == response_of(resp@),
    {
        let mut out = AiResponse::new(resp.str_or_empty("id"), resp.str_or_empty("model"));
        let mut content = String::new();
        assert(content@ =~= Seq::<char>::empty());
        let mut calls: Vec<ToolCall> = crate::views::none();
        match resp.get_array("output") {
            Some(v) => {
                for i in 0..v.len()
                    invariant
                        (OutputV { content: content@, calls: calls.views() }) == OutputV::of(
                            v.views(),
                            i as nat,
                        ),
                {
                    assert(v.views()[i as int] == v@[i as int]@);
                    if v[i].field_is("type", "message") {
                        match v[i].get_array("content") {
                            Some(blocks) => {
                                append_blocks(blocks, &mut content);
                            },
                            None => {},
                        }
                    } else if v[i].field_is("type", "function_call") {
                        match read_call(&v[i]) {
                            Some(c) => {
                                crate::views::push(&mut calls, c);
                            },
                            None => {},
                        }
                    }
                }
            },
            None => {},
        }
        out.content = content;
        out.tool_calls = calls;
        out.stop_reason = crate::text::own_opt(resp.get_str("status"));
        out.usage = read_usage(&resp);
        Ok(out)
    }
}

// ---------------------------------------------------------------- reading a stream

/// What has been read: whether the response has begun, and the deltas.
pub struct ReadV {
    pub started: bool,
    pub deltas: Seq<DeltaV>,
}

/// A value inside an event, or the event itself.
pub open spec fn inside(payload: JsonV, k: Seq<char>) -> JsonV {
    match payload.get(k) {
        Some(v) => v,
        None => payload,
    }
}

fn look_inside<'a>(payload: &'a Json, k: &str) -> (r: &'a Json)
    ensures
        r@ == inside(payload@, k@),
{
    match payload.get(k) {
        Some(v) => v,
        None => payload,
    }
}

pub open spec fn index_of(payload: JsonV) -> usize {
    match payload.get_u64("output_index"@) {
        Some(n) => n as usize,
        None => 0,
    }
}

fn read_index(payload: &Json) -> (r: usize)
    ensures
        r == index_of(payload@),
{
    match payload.get_u64("output_index") {
        Some(n) =>
            #[verifier::truncate]
            (n as usize),
        None => 0,
    }
}

impl ReadV {
    pub open spec fn push(self, d: DeltaV) -> ReadV {
        ReadV { deltas: self.deltas.push(d), ..self }
    }

    /// The beginning, once.
    pub open spec fn begin(self, payload: JsonV) -> ReadV {
        let response = inside(payload, "response"@);
        let id = response.str_or_empty("id"@);
        let model = response.str_or_empty("model"@);
        if self.started || (id.len() == 0 && model.len() == 0) {
            self
        } else {
            ReadV { started: true, ..self }.push(DeltaV::MessageStart { id, model })
        }
    }

    /// An item of the output; a call begins with it.
    pub open spec fn item(self, payload: JsonV) -> ReadV {
        let item = inside(payload, "item"@);
        let id = crate::protocol::codec::openai_responses::decoder::text_at(
            item,
            "call_id"@,
            "id"@,
        );
        let name = item.str_or_empty("name"@);
        if item.get_str("type"@) == Some("function_call"@) && id.len() > 0 && name.len() > 0 {
            self.push(DeltaV::ToolCallStart { index: index_of(payload), id, name })
        } else {
            self
        }
    }

    /// The end, behind the token counts.
    pub open spec fn complete(self, payload: JsonV) -> ReadV {
        let response = inside(payload, "response"@);
        let u = usage_of(response);
        let r = if u.prompt_tokens > 0 || u.completion_tokens > 0 {
            self.push(DeltaV::Usage(u))
        } else {
            self
        };
        r.push(
            DeltaV::Done {
                stop_reason: crate::protocol::codec::openai_responses::decoder::text_or(
                    response,
                    "status"@,
                    "completed"@,
                ),
            },
        )
    }

    /// One event.
    pub open spec fn event(self, name: Seq<char>, payload: JsonV) -> ReadV {
        if name == "response.created"@ || name == "response.in_progress"@ {
            self.begin(payload)
        } else if name == "response.output_text.delta"@ {
            match payload.filled("delta"@) {
                Some(t) => self.push(DeltaV::TextDelta(t)),
                None => self,
            }
        } else if name == "response.reasoning_summary_text.delta"@ {
            match payload.filled("delta"@) {
                Some(t) => self.push(DeltaV::ThinkingDelta(t)),
                None => self,
            }
        } else if name == "response.function_call_arguments.delta"@ {
            match payload.filled("delta"@) {
                Some(t) => self.push(
                    DeltaV::ToolCallDelta { index: index_of(payload), arguments: t },
                ),
                None => self,
            }
        } else if name == "response.output_item.added"@ || name == "response.output_item.done"@ {
            self.item(payload)
        } else if name == "response.completed"@ {
            self.complete(payload)
        } else {
            self
        }
    }

    /// The data of an event.
    pub open spec fn data(self, name: Seq<char>, data: Seq<char>) -> ReadV {
        if data == "[DONE]"@ {
            self.push(DeltaV::Done { stop_reason: "stop"@ })
        } else {
            match crate::json::json_read(data) {
                Some(payload) => self.event(name, payload),
                None => self,
            }
        }
    }

    /// The first `n` lines of an event, and the name that it has by then.
    pub open spec fn lines(self, v: Seq<Seq<char>>, n: nat) -> (ReadV, Seq<char>)
        decreases n,
    {
        if n == 0 {
            (self, Seq::empty())
        } else {
            let (r, name) = self.lines(v, (n - 1) as nat);
            match crate::text::after_prefix(v[n - 1], "event: "@) {
                Some(e) => (r, crate::text::trim_of(e)),
                None => match crate::text::after_prefix(v[n - 1], "data: "@) {
                    Some(d) => (r.data(name, crate::text::trim_of(d)), name),
                    None => (r, name),
                },
            }
        }
    }

    pub open spec fn block(self, b: Seq<char>) -> ReadV {
        let v = crate::text::lines_of(b);
        self.lines(v, v.len()).0
    }

    pub open spec fn blocks(self, v: Seq<Seq<char>>, n: nat) -> ReadV
        decreases n,
    {
        if n == 0 {
            self
        } else {
            self.blocks(v, (n - 1) as nat).block(v[n - 1])
        }
    }
}

/// The state of a parser.
pub struct ParserV {
    pub buffer: Seq<char>,
    pub started: bool,
}

impl ParserV {
    /// Nothing read yet.
    pub open spec fn fresh() -> ParserV {
        ParserV { buffer: Seq::empty(), started: false }
    }

    /// What `raw` completes.
    pub open spec fn read(self, raw: Seq<char>) -> ReadV {
        let v = crate::protocol::sse::blocks_of(self.buffer + raw);
        ReadV { started: self.started, deltas: Seq::empty() }.blocks(v, v.len())
    }

    /// The state behind `raw`.
    pub open spec fn behind(self, raw: Seq<char>) -> ParserV {
        ParserV {
            buffer: crate::protocol::sse::rest_of(self.buffer + raw),
            started: self.read(raw).started,
        }
    }

    /// What is left at the end of the stream: an event that was not closed.
    pub open spec fn ended(self) -> Seq<DeltaV> {
        if crate::text::trim_of(self.buffer).len() == 0 {
            Seq::empty()
        } else {
            ParserV { buffer: Seq::empty(), started: self.started }.read(
                self.buffer + "\n\n"@,
            ).deltas
        }
    }

    /// The state behind the end of the stream.
    pub open spec fn over(self) -> ParserV {
        if crate::text::trim_of(self.buffer).len() == 0 {
            self
        } else {
            ParserV { buffer: Seq::empty(), started: self.started }.behind(
                self.buffer + "\n\n"@,
            )
        }
    }
}

/// Reads a stream of the protocol.
#[derive(Debug)]
pub struct ResponsesStreamParser {
    buffer: String,
    started: bool,
}

impl View for ResponsesStreamParser {
    type V = ParserV;

    closed spec fn view(&self) -> ParserV {
        ParserV { buffer: self.buffer@, started: self.started }
    }
}

impl Default for ResponsesStreamParser {
    fn default() -> (r: Self)
        ensures
            r@ == ParserV::fresh(),
    {
        Self::new()
    }
}

/// A state and deltas as one value.
pub open spec fn read(started: bool, deltas: Seq<DeltaV>) -> ReadV {
    ReadV { started, deltas }
}

impl ResponsesStreamParser {
    /// A parser at the beginning of a stream.
    pub fn new() -> (r: Self)
        ensures
            r@ == ParserV::fresh(),
    {
        let r = ResponsesStreamParser { buffer: String::new(), started: false };
        assert(r@.buffer =~= Seq::<char>::empty());
        r
    }

    fn begin(&mut self, payload: &Json, deltas: &mut Vec<StreamDelta>)
        ensures
            final(self)@.buffer == old(self)@.buffer,
            read(final(self)@.started, final(deltas).views()) == read(
                old(self)@.started,
                old(deltas).views(),
            ).begin(payload@),
    {
        if self.started {
            return;
        }
        let response = look_inside(payload, "response");
        let id = response.str_or_empty("id");
        let model = response.str_or_empty("model");
        if !id.as_str().is_empty() || !model.as_str().is_empty() {
            self.started = true;
            crate::views::push(deltas, StreamDelta::MessageStart { id, model });
        }
    }

    fn item(payload: &Json, deltas: &mut Vec<StreamDelta>)
        ensures
            forall|started: bool|
                #![auto]
                read(started, final(deltas).views()) == read(started, old(deltas).views()).item(
                    payload@,
                ),
    {
        let item = look_inside(payload, "item");
        if item.field_is("type", "function_call") {
            let id = first_text(item, "call_id", "id");
            let name = item.str_or_empty("name");
            if !id.as_str().is_empty() && !name.as_str().is_empty() {
                crate::views::push(
                    deltas,
                    StreamDelta::ToolCallStart { index: read_index(payload), id, name },
                );
            }
        }
    }

    fn complete(payload: &Json, deltas: &mut Vec<StreamDelta>)
        ensures
            forall|started: bool|
                #![auto]
                read(started, final(deltas).views()) == read(
                    started,
                    old(deltas).views(),
                ).complete(payload@),
    {
        let response = look_inside(payload, "response");
        let u = read_usage(response);
        if u.prompt_tokens > 0 || u.completion_tokens > 0 {
            crate::views::push(deltas, StreamDelta::Usage(u));
        }
        crate::views::push(
            deltas,
            StreamDelta::Done { stop_reason: text_or_other(response, "status", "completed") },
        );
    }

    /// Reads the payload of an event.
    pub fn parse_event(&mut self, event: &str, payload: &Json, deltas: &mut Vec<StreamDelta>)
        ensures
            final(self)@.buffer == old(self)@.buffer,
            read(final(self)@.started, final(deltas).views()) == read(
                old(self)@.started,
                old(deltas).views(),
            ).event(event@, payload@),
    {
        let ghost before = deltas.views();
        if *event == *"response.created" || *event == *"response.in_progress" {
            self.begin(payload, deltas);
        } else if *event == *"response.output_text.delta" {
            if let Some(t) = payload.filled("delta") {
                crate::views::push(deltas, StreamDelta::TextDelta(t.to_string()));
            }
        } else if *event == *"response.reasoning_summary_text.delta" {
            if let Some(t) = payload.filled("delta") {
                crate::views::push(deltas, StreamDelta::ThinkingDelta(t.to_string()));
            }
        } else if *event == *"response.function_call_arguments.delta" {
            if let Some(t) = payload.filled("delta") {
                crate::views::push(
                    deltas,
                    StreamDelta::ToolCallDelta {
                        index: read_index(payload),
                        arguments: t.to_string(),
                    },
                );
            }
        } else if *event == *"response.output_item.added" || *event
            == *"response.output_item.done" {
            Self::item(payload, deltas);
            assert(read(self@.started, deltas.views()) == read(self@.started, before).item(
                payload@,
            ));
        } else if *event == *"response.completed" {
            Self::complete(payload, deltas);
            assert(read(self@.started, deltas.views()) == read(self@.started, before).complete(
                payload@,
            ));
        }
    }

    fn data(&mut self, name: &str, data: &str, deltas: &mut Vec<StreamDelta>)
        ensures
            final(self)@.buffer == old(self)@.buffer,
            read(final(self)@.started, final(deltas).views()) == read(
                old(self)@.started,
                old(deltas).views(),
            ).data(name@, data@),
    {
        if *data == *"[DONE]" {
            crate::views::push(deltas, StreamDelta::Done { stop_reason: "stop".to_string() });
        } else {
            match Json::parse(data) {
                Some(payload) => {
                    self.parse_event(name, &payload, deltas);
                },
                None => {},
            }
        }
    }

    fn block(&mut self, b: &str, deltas: &mut Vec<StreamDelta>)
        ensures
            final(self)@.buffer == old(self)@.buffer,
            read(final(self)@.started, final(deltas).views()) == read(
                old(self)@.started,
                old(deltas).views(),
            ).block(b@),
    {
        let v = crate::text::lines(b);
        let mut name = String::new();
        assert(name@ =~= Seq::<char>::empty());
        for i in 0..v.len()
            invariant
                self@.buffer == old(self)@.buffer,
                (read(self@.started, deltas.views()), name@) == read(
                    old(self)@.started,
                    old(deltas).views(),
                ).lines(v.views(), i as nat),
        {
            assert(v.views()[i as int] == v@[i as int]@);
            match crate::text::strip_prefix(v[i].as_str(), "event: ") {
                Some(e) => {
                    name = crate::text::trim(e).to_string();
                },
                None => match crate::text::strip_prefix(v[i].as_str(), "data: ") {
                    Some(d) => {
                        self.data(name.as_str(), crate::text::trim(d), deltas);
                    },
                    None => {},
                },
            }
        }
    }

    fn take(&mut self, raw: &str) -> (r: Vec<StreamDelta>)
        ensures
            r.views() == old(self)@.read(raw@).deltas,
            final(self)@ == old(self)@.behind(raw@),
    {
        let blocks = crate::protocol::sse::take_blocks(&mut self.buffer, raw);
        let mut out: Vec<StreamDelta> = crate::views::none();
        let ghost rest = self@.buffer;
        for i in 0..blocks.len()
            invariant
                self@.buffer == rest,
                read(self@.started, out.views()) == read(old(self)@.started, Seq::empty()).blocks(
                    blocks.views(),
                    i as nat,
                ),
        {
            assert(blocks.views()[i as int] == blocks@[i as int]@);
            self.block(blocks[i].as_str(), &mut out);
        }
        out
    }
}

impl StreamResponseDecoder for ResponsesStreamParser {
    /// Reads a piece of the stream; there is none that it cannot read.
    fn parse_chunk(&mut self, raw: &str) -> (r: Result<Vec<StreamDelta>, CodecError>)
        ensures
            r matches Ok(v) && v.views() == old(self)@.read(raw@).deltas,
            final(self)@ == old(self)@.behind(raw@),
    {
        Ok(self.take(raw))
    }

    /// Reads what is left at the end of the stream.
    fn finish(&mut self) -> (r: Result<Vec<StreamDelta>, CodecError>)
        ensures
            r matches Ok(v) && v.views() == old(self)@.ended(),
            final(self)@ == old(self)@.over(),
    {
        if crate::text::is_blank(self.buffer.as_str()) {
            return Ok(crate::views::none());
        }
        let remaining = crate::text::cat(self.buffer.as_str(), "\n\n");
        self.buffer = String::new();
        assert(self.buffer@ =~= Seq::<char>::empty());
        Ok(self.take(remaining.as_str()))
    }
}

} // verus!
