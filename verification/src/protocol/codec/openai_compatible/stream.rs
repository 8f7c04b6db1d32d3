//! Reads and writes responses and streams of the Chat Completions protocol.
//!
//! Thinking comes in a field of its own or between `<think>` tags in the text; the tags may be
//! torn over several chunks.
use vstd::prelude::*;

use crate::json::{Json, JsonV};
use crate::protocol::codec::openai_compatible::encoder::calls_json;
use crate::protocol::ir::request::ToolCall;
use crate::protocol::ir::response::{AiResponse, AiResponseV};
use crate::protocol::ir::stream::{DeltaV, StreamDelta};
use crate::protocol::ir::usage::Usage;
use crate::protocol::traits::{
    ResponseDecoder, ResponseEncoder, StreamResponseDecoder, StreamResponseEncoder,
};
use crate::protocol::types::ToolCallV;
use crate::protocol::{emit_plain, CodecError, SseEvent, SseV};
use crate::views::Views;

verus! {

// ---------------------------------------------------------------- token counts and thinking

/// The count under the first of four names that holds one.
pub open spec fn first_of(
    u: JsonV,
    a: Seq<char>,
    b: Seq<char>,
    c: Seq<char>,
    d: Seq<char>,
) -> u32 {
    match u.opt_count(a) {
        Some(n) => n,
        None => match u.opt_count(b) {
            Some(n) => n,
            None => match u.opt_count(c) {
                Some(n) => n,
                None => u.count(d),
            },
        },
    }
}

fn first_count(u: &Json, a: &str, b: &str, c: &str, d: &str) -> (r: u32)
    ensures
        r == first_of(u@, a@, b@, c@, d@),
{
    match u.opt_count(a) {
        Some(n) => n,
        None => match u.opt_count(b) {
            Some(n) => n,
            None => match u.opt_count(c) {
                Some(n) => n,
                None => u.count(d),
            },
        },
    }
}

/// The prompt tokens that came from a cache, under the name of one provider or another.
pub open spec fn cached_of(u: JsonV) -> Option<u32> {
    match u.opt_count("prompt_cache_hit_tokens"@) {
        Some(n) => Some(n),
        None => {
            let details = match u.get("prompt_tokens_details"@) {
                Some(d) => d.opt_count("cached_tokens"@),
                None => None,
            };
            match details {
                Some(n) => Some(n),
                None => u.opt_count("cached_content_token_count"@),
            }
        },
    }
}

/// The token counts of a response or a chunk.
pub open spec fn usage_of(v: JsonV) -> Usage {
    let u = match v.get("usage"@) {
        Some(u) => Some(u),
        None => v.get("usageMetadata"@),
    };
    match u {
        Some(u) => Usage {
            prompt_tokens: first_of(
                u,
                "prompt_tokens"@,
                "promptTokenCount"@,
                "input_tokens"@,
                "inputTokenCount"@,
            ),
            completion_tokens: first_of(
                u,
                "completion_tokens"@,
                "candidatesTokenCount"@,
                "output_tokens"@,
                "outputTokenCount"@,
            ),
            cache_read_tokens: cached_of(u),
            ..Usage::zero()
        },
        None => Usage::zero(),
    }
}

/// Reads the token counts of a response or a chunk.
pub fn extract_usage(v: &Json) -> (r: Usage)
    ensures
        r == usage_of(v@),
{
    let u = match v.get("usage") {
        Some(u) => u,
        None => match v.get("usageMetadata") {
            Some(u) => u,
            None => {
                return Usage::default();
            },
        },
    };
    let cached = match u.opt_count("prompt_cache_hit_tokens") {
        Some(n) => Some(n),
        None => {
            let details = match u.get("prompt_tokens_details") {
                Some(d) => d.opt_count("cached_tokens"),
                None => None,
            };
            match details {
                Some(n) => Some(n),
                None => u.opt_count("cached_content_token_count"),
            }
        },
    };
    Usage {
        prompt_tokens: first_count(
            u,
            "prompt_tokens",
            "promptTokenCount",
            "input_tokens",
            "inputTokenCount",
        ),
        completion_tokens: first_count(
            u,
            "completion_tokens",
            "candidatesTokenCount",
            "output_tokens",
            "outputTokenCount",
        ),
        total_tokens: 0,
        cache_read_tokens: cached,
        cache_creation_tokens: None,
        server_tool_use: None,
    }
}

/// The text of a detail of the thinking.
pub open spec fn detail_text(d: JsonV) -> Option<Seq<char>> {
    let v = match d.get("text"@) {
        Some(v) => Some(v),
        None => d.get("content"@),
    };
    match v {
        Some(JsonV::Text(s)) => if s.len() > 0 {
            Some(s)
        } else {
            None
        },
        _ => None,
    }
}

/// The texts of the first `n` details.
pub open spec fn details_upto(v: Seq<JsonV>, n: nat) -> Seq<Seq<char>>
    decreases n,
{
    if n == 0 {
        Seq::empty()
    } else {
        let before = details_upto(v, (n - 1) as nat);
        match detail_text(v[n - 1]) {
            Some(t) => before.push(t),
            None => before,
        }
    }
}

/// The thinking in a message: the field of one of two names, or else the texts of the details,
/// line by line.
pub open spec fn reasoning_of(m: JsonV) -> Option<Seq<char>> {
    match m.get_str("reasoning_content"@) {
        Some(s) => Some(s),
        None => match m.get_str("reasoning"@) {
            Some(s) => Some(s),
            None => match m.get_array("reasoning_details"@) {
                Some(v) => {
                    let parts = details_upto(v, v.len());
                    if parts.len() == 0 {
                        None
                    } else {
                        Some(crate::text::join_of(parts, "\n"@))
                    }
                },
                None => None,
            },
        },
    }
}

fn detail_json(d: &Json) -> (r: Option<String>)
    ensures
        r.views() == detail_text(d@),
{
    let v = match d.get("text") {
        Some(v) => v,
        None => match d.get("content") {
            Some(v) => v,
            None => {
                return None;
            },
        },
    };
    match v.as_str() {
        Some(s) => if s.is_empty() {
            None
        } else {
            Some(s.to_string())
        },
        None => None,
    }
}

/// Reads the thinking in a message.
pub fn extract_reasoning_from_message(message: &Json) -> (r: Option<String>)
    ensures
        r.views() == reasoning_of(message@),
{
    match message.get_str("reasoning_content") {
        Some(s) => {
            return Some(s.to_string());
        },
        None => {},
    }
    match message.get_str("reasoning") {
        Some(s) => {
            return Some(s.to_string());
        },
        None => {},
    }
    match message.get_array("reasoning_details") {
        Some(v) => {
            let mut parts: Vec<String> = crate::views::none();
            for i in 0..v.len()
                invariant
                    parts.views() == details_upto(v.views(), i as nat),
            {
                assert(v.views()[i as int] == v@[i as int]@);
                match detail_json(&v[i]) {
                    Some(t) => {
                        crate::views::push(&mut parts, t);
                    },
                    None => {},
                }
            }
            if parts.len() == 0 {
                None
            } else {
                Some(crate::text::join(&parts, "\n"))
            }
        },
        None => None,
    }
}

// ---------------------------------------------------------------- whole responses

/// The first choice of a response or a chunk.
pub open spec fn choice_of(v: JsonV) -> Option<JsonV> {
    match v.get_array("choices"@) {
        Some(c) => if c.len() > 0 {
            Some(c[0])
        } else {
            None
        },
        None => None,
    }
}

fn first_choice(v: &Json) -> (r: Option<&Json>)
    ensures
        r.views() == choice_of(v@),
{
    match v.get_array("choices") {
        Some(c) => if c.len() > 0 {
            assert(c.views()[0] == c@[0]@);
            Some(&c[0])
        } else {
            None
        },
        None => None,
    }
}

/// The call that an entry holds; one without a name or a function is passed over.
pub open spec fn call_of(tc: JsonV) -> Option<ToolCallV> {
    match (tc.get("function"@), tc.get_str("id"@)) {
        (Some(f), Some(id)) => match f.get_str("name"@) {
            Some(name) => Some(ToolCallV { id, name, arguments: f.str_or_empty("arguments"@) }),
            None => None,
        },
        _ => None,
    }
}

fn read_call(tc: &Json) -> (r: Option<ToolCall>)
    ensures
        r.views() == call_of(tc@),
{
    match (tc.get("function"), tc.get_str("id")) {
        (Some(f), Some(id)) => match f.get_str("name") {
            Some(name) => Some(
                ToolCall {
                    id: id.to_string(),
                    name: name.to_string(),
                    arguments: f.str_or_empty("arguments"),
                },
            ),
            None => None,
        },
        _ => None,
    }
}

/// The calls among the first `n` entries.
pub open spec fn calls_upto(v: Seq<JsonV>, n: nat) -> Seq<ToolCallV>
    decreases n,
{
    if n == 0 {
        Seq::empty()
    } else {
        let before = calls_upto(v, (n - 1) as nat);
        match call_of(v[n - 1]) {
            Some(c) => before.push(c),
            None => before,
        }
    }
}

fn read_calls(v: &Vec<Json>) -> (r: Vec<ToolCall>)
    ensures
        r.views() == calls_upto(v.views(), v@.len()),
{
    let mut out: Vec<ToolCall> = crate::views::none();
    for i in 0..v.len()
        invariant
            out.views() == calls_upto(v.views(), i as nat),
    {
        assert(v.views()[i as int] == v@[i as int]@);
        match read_call(&v[i]) {
            Some(c) => {
                crate::views::push(&mut out, c);
            },
            None => {},
        }
    }
    out
}

/// The response that a body stands for. What is lacking is empty.
pub open spec fn response_of(resp: JsonV) -> AiResponseV {
    let choice = choice_of(resp);
    let message = match choice {
        Some(c) => c.get("message"@),
        None => None,
    };
    AiResponseV {
        content: match message {
            Some(m) => m.str_or_empty("content"@),
            None => Seq::empty(),
        },
        reasoning_content: match message {
            Some(m) => reasoning_of(m),
            None => None,
        },
        tool_calls: match message {
            Some(m) => match m.get_array("tool_calls"@) {
                Some(v) => calls_upto(v, v.len()),
                None => Seq::empty(),
            },
            None => Seq::empty(),
        },
        stop_reason: match choice {
            Some(c) => c.get_str("finish_reason"@),
            None => None,
        },
        usage: usage_of(resp),
        ..AiResponseV::bare(resp.str_or_empty("id"@), resp.str_or_empty("model"@))
    }
}

/// Reads responses of the protocol.
#[derive(Debug, Clone, Copy)]
pub struct OpenAIResponseParser;

impl ResponseDecoder for OpenAIResponseParser {
    /// Reads a response; there is none that it cannot read.
    fn parse_response(&self, resp: Json) -> (r: Result<AiResponse, CodecError>)
        ensures
            r matches Ok(v) && v@ == response_of(resp@),
    {
        let mut out = AiResponse::new(resp.str_or_empty("id"), resp.str_or_empty("model"));
        match first_choice(&resp) {
            Some(c) => {
                match c.get("message") {
                    Some(m) => {
                        out.content = m.str_or_empty("content");
                        out.reasoning_content = extract_reasoning_from_message(m);
                        match m.get_array("tool_calls") {
                            Some(v) => {
                                out.tool_calls = read_calls(v);
                            },
                            None => {},
                        }
                    },
                    None => {},
                }
                out.stop_reason = crate::text::own_opt(c.get_str("finish_reason"));
            },
            None => {},
        }
        out.usage = extract_usage(&resp);
        Ok(out)
    }
}

/// The token counts as the protocol writes them.
pub open spec fn usage_value(u: Usage) -> JsonV {
    JsonV::obj().with("prompt_tokens"@, JsonV::num(u.prompt_tokens as u64)).with(
        "completion_tokens"@,
        JsonV::num(u.completion_tokens as u64),
    ).with("total_tokens"@, JsonV::num(u.sum()))
}

fn usage_json(u: &Usage) -> (r: Json)
    ensures
        r@ == usage_value(*u),
{
    Json::object().with("prompt_tokens", Json::num(u.prompt_tokens as u64)).with(
        "completion_tokens",
        Json::num(u.completion_tokens as u64),
    ).with("total_tokens", Json::num(u.total()))
}

/// The reason for the end: the calls, where there are any.
pub open spec fn finish_of(resp: AiResponseV) -> Option<Seq<char>> {
    if resp.tool_calls.len() > 0 {
        Some("tool_calls"@)
    } else {
        resp.stop_reason
    }
}

/// A response as the protocol writes it.
pub open spec fn response_value(resp: AiResponseV) -> JsonV {
    let message = JsonV::obj().with("role"@, JsonV::Text("assistant"@)).with(
        "content"@,
        JsonV::Text(resp.content),
    ).with_opt("reasoning_content"@, JsonV::opt_text(resp.reasoning_content)).with_opt(
        "tool_calls"@,
        if resp.tool_calls.len() > 0 {
            Some(
                crate::protocol::codec::openai_compatible::encoder::calls_value(resp.tool_calls),
            )
        } else {
            None
        },
    );
    let choice = JsonV::obj().with("index"@, JsonV::num(0)).with("message"@, message).with(
        "finish_reason"@,
        JsonV::text_or_null(finish_of(resp)),
    );
    JsonV::obj().with("id"@, JsonV::Text(resp.id)).with(
        "object"@,
        JsonV::Text("chat.completion"@),
    ).with("model"@, JsonV::Text(resp.model)).with("choices"@, JsonV::Array(seq![choice])).with(
        "usage"@,
        usage_value(resp.usage),
    )
}

fn single(v: Json) -> (r: Json)
    ensures
        r@ == JsonV::Array(seq![v@]),
{
    let mut list: Vec<Json> = crate::views::none();
    crate::views::push(&mut list, v);
    assert(list.views() =~= seq![v@]);
    Json::array(list)
}

/// Writes responses of the protocol.
#[derive(Debug, Clone, Copy)]
pub struct OpenAIResponseFormatter;

impl ResponseEncoder for OpenAIResponseFormatter {
    fn format_response(&self, resp: &AiResponse) -> (r: Json)
        ensures
            r@ == response_value(resp@),
    {
        let calls = if resp.tool_calls.len() > 0 {
            Some(calls_json(&resp.tool_calls))
        } else {
            None
        };
        let finish = if resp.tool_calls.len() > 0 {
            Json::text("tool_calls")
        } else {
            Json::text_or_null(&resp.stop_reason)
        };
        let message = Json::object().with("role", Json::text("assistant")).with(
            "content",
            Json::text(resp.content.as_str()),
        ).with_opt("reasoning_content", Json::text_opt(&resp.reasoning_content)).with_opt(
            "tool_calls",
            calls,
        );
        let choice = Json::object().with("index", Json::num(0)).with("message", message).with(
            "finish_reason",
            finish,
        );
        Json::object().with("id", Json::text(resp.id.as_str())).with(
            "object",
            Json::text("chat.completion"),
        ).with("model", Json::text(resp.model.as_str())).with("choices", single(choice)).with(
            "usage",
            usage_json(&resp.usage),
        )
    }
}

// ---------------------------------------------------------------- reading a stream

/// The length of the longest of the first `n` prefixes of a tag at which a text ends.
pub open spec fn torn_from(text: Seq<char>, tag: Seq<char>, n: nat) -> nat
    decreases n,
{
    if n == 0 {
        0
    } else if crate::text::ends(text, tag.take(n as int)) {
        n
    } else {
        torn_from(text, tag, (n - 1) as nat)
    }
}

/// How much of a tag may have begun at the end of a text.
pub open spec fn torn(text: Seq<char>, tag: Seq<char>) -> nat {
    torn_from(
        text,
        tag,
        if tag.len() == 0 {
            0
        } else {
            (tag.len() - 1) as nat
        },
    )
}

/// The prefix that was found is the longest at which the text ends.
pub proof fn lemma_torn(text: Seq<char>, tag: Seq<char>, n: nat)
    requires
        n <= tag.len(),
    ensures
        torn_from(text, tag, n) <= n,
        torn_from(text, tag, n) <= text.len(),
        torn_from(text, tag, n) > 0 ==> crate::text::ends(
            text,
            tag.take(torn_from(text, tag, n) as int),
        ),
        forall|k: int|
            torn_from(text, tag, n) < k <= n ==> !crate::text::ends(text, #[trigger] tag.take(k)),
    decreases n,
{
    if n > 0 && !crate::text::ends(text, tag.take(n as int)) {
        lemma_torn(text, tag, (n - 1) as nat);
    }
}

/// How much of a tag may have begun at the end of a text.
pub fn longest_suffix_that_can_start_tag(text: &str, tag: &str) -> (r: usize)
    ensures
        r == torn(text@, tag@),
        r <= text@.len(),
{
    let chars = crate::text::chars_of(tag);
    let max: usize = if chars.len() == 0 {
        0
    } else {
        chars.len() - 1
    };
    let mut n: usize = max;
    proof {
        lemma_torn(text@, tag@, max as nat);
    }
    while n > 0
        invariant
            chars@ == tag@,
            n <= max <= chars@.len(),
            torn(text@, tag@) == torn_from(text@, tag@, max as nat),
            torn_from(text@, tag@, max as nat) == torn_from(text@, tag@, n as nat),
            torn_from(text@, tag@, max as nat) <= text@.len(),
        decreases n,
    {
        let prefix = crate::text::text_of(&chars, 0, n);
        assert(prefix@ =~= tag@.take(n as int));
        if crate::text::ends_with(text, prefix.as_str()) {
            return n;
        }
        n = n - 1;
    }
    0
}

/// What is known of a stream besides the text that is not complete yet.
pub struct ModeV {
    pub started: bool,
    pub done: bool,
    /// Text that is held back.
    pub think: Seq<char>,
    /// Whether the text that is held back is thinking.
    pub in_think: bool,
}

/// What has been read: the state and the deltas.
pub struct ReadV {
    pub mode: ModeV,
    pub deltas: Seq<DeltaV>,
}

/// What stands behind a pattern is shorter than the whole.
pub proof fn lemma_cut_shrinks(s: Seq<char>, p: Seq<char>)
    requires
        p.len() > 0,
    ensures
        match crate::text::cut(s, p) {
            Some((a, b)) => b.len() < s.len(),
            None => true,
        },
{
    crate::text::lemma_find_least(s, p);
}

impl ReadV {
    pub open spec fn push(self, d: DeltaV) -> ReadV {
        ReadV { deltas: self.deltas.push(d), ..self }
    }

    /// Text for the client, unless it is empty.
    pub open spec fn say(self, t: Seq<char>) -> ReadV {
        if t.len() > 0 {
            self.push(DeltaV::TextDelta(t))
        } else {
            self
        }
    }

    /// Thinking for the client, unless it is empty.
    pub open spec fn muse(self, t: Seq<char>) -> ReadV {
        if t.len() > 0 {
            self.push(DeltaV::ThinkingDelta(t))
        } else {
            self
        }
    }

    pub open spec fn hold(self, think: Seq<char>, in_think: bool) -> ReadV {
        ReadV { mode: ModeV { think, in_think, ..self.mode }, ..self }
    }

    /// Everything said that is certain: what stands between tags is thinking, what stands outside
    /// is text, and what may be the beginning of a tag is held back.
    pub open spec fn sorted(self) -> ReadV
        decreases self.mode.think.len(),
    {
        proof {
            reveal_strlit("<think>");
            reveal_strlit("</think>");
            lemma_cut_shrinks(self.mode.think, "<think>"@);
            lemma_cut_shrinks(self.mode.think, "</think>"@);
        }
        let held = self.mode.think;
        if self.mode.in_think {
            match crate::text::cut(held, "</think>"@) {
                Some((thought, rest)) => self.muse(crate::text::trim_of(thought)).hold(
                    rest,
                    false,
                ).sorted(),
                None => self,
            }
        } else {
            match crate::text::cut(held, "<think>"@) {
                Some((before, rest)) => self.say(before).hold(rest, true).sorted(),
                None => {
                    let n = held.len() - torn(held, "<think>"@);
                    self.say(held.subrange(0, n)).hold(
                        held.subrange(n, held.len() as int),
                        false,
                    )
                },
            }
        }
    }

    /// More text.
    pub open spec fn text(self, t: Seq<char>) -> ReadV {
        if t.len() == 0 {
            self
        } else {
            self.hold(self.mode.think + t, self.mode.in_think).sorted()
        }
    }

    /// The text that is held back, at the end of the stream. Thinking that was never closed is
    /// text.
    pub open spec fn flushed(self) -> ReadV {
        if self.mode.think.len() == 0 {
            self
        } else {
            let t = if self.mode.in_think {
                "<think>"@ + self.mode.think
            } else {
                self.mode.think
            };
            self.push(DeltaV::TextDelta(t)).hold(Seq::empty(), false)
        }
    }

    /// The end, once.
    pub open spec fn end(self, reason: Seq<char>) -> ReadV {
        if self.mode.done {
            self
        } else {
            ReadV {
                mode: ModeV { done: true, ..self.mode },
                ..self
            }.push(DeltaV::Done { stop_reason: reason })
        }
    }

    /// The beginning, once.
    pub open spec fn start(self, chunk: JsonV) -> ReadV {
        match (chunk.get_str("id"@), chunk.get_str("model"@)) {
            (Some(id), Some(model)) => if self.mode.started {
                self
            } else {
                ReadV {
                    mode: ModeV { started: true, ..self.mode },
                    ..self
                }.push(DeltaV::MessageStart { id, model })
            },
            _ => self,
        }
    }

    /// The token counts, where there are any.
    pub open spec fn counts(self, chunk: JsonV) -> ReadV {
        let u = usage_of(chunk);
        if u.prompt_tokens > 0 || u.completion_tokens > 0 {
            self.push(DeltaV::Usage(u))
        } else {
            self
        }
    }

    /// A piece of a call.
    pub open spec fn call(self, tc: JsonV) -> ReadV {
        let index = match tc.get_u64("index"@) {
            Some(n) => n as usize,
            None => 0,
        };
        match tc.get("function"@) {
            Some(f) => {
                let named = match f.get_str("name"@) {
                    Some(name) => self.push(
                        DeltaV::ToolCallStart { index, id: tc.str_or_empty("id"@), name },
                    ),
                    None => self,
                };
                match f.filled("arguments"@) {
                    Some(arguments) => named.push(DeltaV::ToolCallDelta { index, arguments }),
                    None => named,
                }
            },
            None => self,
        }
    }

    pub open spec fn calls(self, v: Seq<JsonV>, n: nat) -> ReadV
        decreases n,
    {
        if n == 0 {
            self
        } else {
            self.calls(v, (n - 1) as nat).call(v[n - 1])
        }
    }

    /// The delta of a choice: thinking, text, pieces of calls.
    pub open spec fn delta(self, d: JsonV) -> ReadV {
        let r = match reasoning_of(d) {
            Some(t) => self.muse(t),
            None => self,
        };
        let r = match d.get_str("content"@) {
            Some(t) => r.text(t),
            None => r,
        };
        match d.get_array("tool_calls"@) {
            Some(v) => r.calls(v, v.len()),
            None => r,
        }
    }

    /// One chunk.
    pub open spec fn chunk(self, chunk: JsonV) -> ReadV {
        let r = self.start(chunk);
        match choice_of(chunk) {
            Some(c) => {
                let r = match c.get("delta"@) {
                    Some(d) => r.delta(d),
                    None => r,
                };
                let r = match c.filled("finish_reason"@) {
                    Some(reason) => r.end(reason),
                    None => r,
                };
                r.counts(chunk)
            },
            None => r.counts(chunk),
        }
    }

    /// One line.
    pub open spec fn line(self, line: Seq<char>) -> ReadV {
        match crate::text::after_prefix(line, "data: "@) {
            Some(data) => {
                let data = crate::text::trim_of(data);
                if data == "[DONE]"@ {
                    self.end("stop"@)
                } else {
                    match crate::json::json_read(data) {
                        Some(chunk) => self.chunk(chunk),
                        None => self,
                    }
                }
            },
            None => self,
        }
    }

    pub open spec fn lines(self, v: Seq<Seq<char>>, n: nat) -> ReadV
        decreases n,
    {
        if n == 0 {
            self
        } else {
            self.lines(v, (n - 1) as nat).line(v[n - 1])
        }
    }

    /// One event.
    pub open spec fn block(self, b: Seq<char>) -> ReadV {
        let v = crate::text::lines_of(b);
        self.lines(v, v.len())
    }

    pub open spec fn blocks(self, v: Seq<Seq<char>>, n: nat) -> ReadV
        decreases n,
    {
        if n == 0 {
            self
        } else {
            self.blocks(v, (n - 1) as nat).block(v[n - 1])
        }
    }
}

/// The state of a parser.
pub struct ParserV {
    pub buffer: Seq<char>,
    pub mode: ModeV,
}

impl ParserV {
    /// Nothing read yet.
    pub open spec fn fresh() -> ParserV {
        ParserV {
            buffer: Seq::empty(),
            mode: ModeV { started: false, done: false, think: Seq::empty(), in_think: false },
        }
    }

    /// What `raw` completes.
    pub open spec fn read(self, raw: Seq<char>) -> ReadV {
        let v = crate::protocol::sse::blocks_of(self.buffer + raw);
        ReadV { mode: self.mode, deltas: Seq::empty() }.blocks(v, v.len())
    }

    /// The state behind `raw`.
    pub open spec fn behind(self, raw: Seq<char>) -> ParserV {
        ParserV {
            buffer: crate::protocol::sse::rest_of(self.buffer + raw),
            mode: self.read(raw).mode,
        }
    }

    /// What is left at the end of the stream: an event that was not closed, and the text that was
    /// held back.
    pub open spec fn ended(self) -> ReadV {
        if crate::text::trim_of(self.buffer).len() == 0 {
            ReadV { mode: self.mode, deltas: Seq::empty() }.flushed()
        } else {
            ParserV { buffer: Seq::empty(), mode: self.mode }.read(self.buffer + "\n\n"@).flushed()
        }
    }

    /// The state behind the end of the stream.
    pub open spec fn over(self) -> ParserV {
        ParserV {
            buffer: if crate::text::trim_of(self.buffer).len() == 0 {
                self.buffer
            } else {
                crate::protocol::sse::rest_of(Seq::<char>::empty() + (self.buffer + "\n\n"@))
            },
            mode: self.ended().mode,
        }
    }
}

/// Reads a stream of the protocol.
#[derive(Debug)]
pub struct OpenAIStreamParser {
    buffer: String,
    started: bool,
    done: bool,
    think_buffer: String,
    in_think_block: bool,
}

impl View for OpenAIStreamParser {
    type V = ParserV;

    closed spec fn view(&self) -> ParserV {
        ParserV {
            buffer: self.buffer@,
            mode: ModeV {
                started: self.started,
                done: self.done,
                think: self.think_buffer@,
                in_think: self.in_think_block,
            },
        }
    }
}

/// A state and deltas as one value.
pub open spec fn read(mode: ModeV, deltas: Seq<DeltaV>) -> ReadV {
    ReadV { mode, deltas }
}

impl Default for OpenAIStreamParser {
    fn default() -> (r: Self)
        ensures
            r@ == ParserV::fresh(),
    {
        Self::new()
    }
}

impl OpenAIStreamParser {
    /// A parser at the beginning of a stream.
    pub fn new() -> (r: Self)
        ensures
            r@ == ParserV::fresh(),
    {
        let r = OpenAIStreamParser {
            buffer: String::new(),
            started: false,
            done: false,
            think_buffer: String::new(),
            in_think_block: false,
        };
        assert(r@.buffer =~= Seq::<char>::empty());
        assert(r@.mode.think =~= Seq::<char>::empty());
        r
    }

    /// Reads text that may hold tags around thinking.
    pub fn parse_text_with_think_tags(&mut self, text: &str, deltas: &mut Vec<StreamDelta>)
        ensures
            final(self)@.buffer == old(self)@.buffer,
            read(final(self)@.mode, final(deltas).views()) == read(
                old(self)@.mode,
                old(deltas).views(),
            ).text(text@),
    {
        if text.is_empty() {
            return;
        }
        self.think_buffer.append(text);
        let ghost whole = read(self@.mode, deltas.views()).sorted();
        loop
            invariant_except_break
                read(self@.mode, deltas.views()).sorted() == whole,
            invariant
                self@.buffer == old(self)@.buffer,
            ensures
                read(self@.mode, deltas.views()) == whole,
            decreases self@.mode.think.len(),
        {
            proof {
                reveal_strlit("<think>");
                reveal_strlit("</think>");
                lemma_cut_shrinks(self.think_buffer@, "<think>"@);
                lemma_cut_shrinks(self.think_buffer@, "</think>"@);
            }
            if self.in_think_block {
                let rest = match crate::text::split_once(self.think_buffer.as_str(), "</think>") {
                    Some((thought, rest)) => {
                        let thought = crate::text::trim(thought);
                        if !thought.is_empty() {
                            crate::views::push(
                                deltas,
                                StreamDelta::ThinkingDelta(thought.to_string()),
                            );
                        }
                        rest.to_string()
                    },
                    None => {
                        break;
                    },
                };
                self.think_buffer = rest;
                self.in_think_block = false;
            } else {
                match crate::text::split_once(self.think_buffer.as_str(), "<think>") {
                    Some((before, rest)) => {
                        if !before.is_empty() {
                            crate::views::push(deltas, StreamDelta::TextDelta(before.to_string()));
                        }
                        let rest = rest.to_string();
                        self.think_buffer = rest;
                        self.in_think_block = true;
                    },
                    None => {
                        let keep: usize = longest_suffix_that_can_start_tag(
                            self.think_buffer.as_str(),
                            "<think>",
                        );
                        let len: usize = self.think_buffer.as_str().unicode_len();
                        let said = self.think_buffer.as_str().substring_char(
                            0,
                            len - keep,
                        ).to_string();
                        let rest = self.think_buffer.as_str().substring_char(
                            len - keep,
                            len,
                        ).to_string();
                        if !said.as_str().is_empty() {
                            crate::views::push(deltas, StreamDelta::TextDelta(said));
                        }
                        self.think_buffer = rest;
                        break;
                    },
                }
            }
        }
    }

    /// Gives out the text that is held back.
    pub fn flush_pending_text(&mut self, deltas: &mut Vec<StreamDelta>)
        ensures
            final(self)@.buffer == old(self)@.buffer,
            read(final(self)@.mode, final(deltas).views()) == read(
                old(self)@.mode,
                old(deltas).views(),
            ).flushed(),
    {
        if self.think_buffer.as_str().is_empty() {
            return;
        }
        let text = if self.in_think_block {
            crate::text::cat("<think>", self.think_buffer.as_str())
        } else {
            self.think_buffer.clone()
        };
        crate::views::push(deltas, StreamDelta::TextDelta(text));
        self.think_buffer = String::new();
        assert(self.think_buffer@ =~= Seq::<char>::empty());
        self.in_think_block = false;
    }

    fn end(&mut self, reason: &str, deltas: &mut Vec<StreamDelta>)
        ensures
            final(self)@.buffer == old(self)@.buffer,
            read(final(self)@.mode, final(deltas).views()) == read(
                old(self)@.mode,
                old(deltas).views(),
            ).end(reason@),
    {
        if !self.done {
            self.done = true;
            crate::views::push(deltas, StreamDelta::Done { stop_reason: reason.to_string() });
        }
    }

    fn counts(chunk: &Json, deltas: &mut Vec<StreamDelta>)
        ensures
            forall|mode: ModeV|
                #![auto]
                read(mode, final(deltas).views()) == read(mode, old(deltas).views()).counts(
                    chunk@,
                ),
    {
        let u = extract_usage(chunk);
        if u.prompt_tokens > 0 || u.completion_tokens > 0 {
            crate::views::push(deltas, StreamDelta::Usage(u));
        }
    }

    fn call(tc: &Json, deltas: &mut Vec<StreamDelta>)
        ensures
            forall|mode: ModeV|
                #![auto]
                read(mode, final(deltas).views()) == read(mode, old(deltas).views()).call(tc@),
    {
        let index: usize = match tc.get_u64("index") {
            Some(n) =>
                #[verifier::truncate]
                (n as usize),
            None => 0,
        };
        match tc.get("function") {
            Some(f) => {
                match f.get_str("name") {
                    Some(name) => {
                        crate::views::push(
                            deltas,
                            StreamDelta::ToolCallStart {
                                index,
                                id: tc.str_or_empty("id"),
                                name: name.to_string(),
                            },
                        );
                    },
                    None => {},
                }
                match f.filled("arguments") {
                    Some(arguments) => {
                        crate::views::push(
                            deltas,
                            StreamDelta::ToolCallDelta { index, arguments: arguments.to_string() },
                        );
                    },
                    None => {},
                }
            },
            None => {},
        }
    }

    fn delta(&mut self, d: &Json, deltas: &mut Vec<StreamDelta>)
        ensures
            final(self)@.buffer == old(self)@.buffer,
            read(final(self)@.mode, final(deltas).views()) == read(
                old(self)@.mode,
                old(deltas).views(),
            ).delta(d@),
    {
        match extract_reasoning_from_message(d) {
            Some(t) => {
                if !t.as_str().is_empty() {
                    crate::views::push(deltas, StreamDelta::ThinkingDelta(t));
                }
            },
            None => {},
        }
        match d.get_str("content") {
            Some(t) => {
                self.parse_text_with_think_tags(t, deltas);
            },
            None => {},
        }
        match d.get_array("tool_calls") {
            Some(v) => {
                let ghost before = read(self@.mode, deltas.views());
                for i in 0..v.len()
                    invariant
                        self@.buffer == old(self)@.buffer,
                        read(self@.mode, deltas.views()) == before.calls(v.views(), i as nat),
                {
                    assert(v.views()[i as int] == v@[i as int]@);
                    let ghost mid = deltas.views();
                    Self::call(&v[i], deltas);
                    assert(read(self@.mode, deltas.views()) == read(self@.mode, mid).call(
                        v.views()[i as int],
                    ));
                }
            },
            None => {},
        }
    }

    /// Reads one chunk.
    pub fn parse_openai_chunk(&mut self, chunk: &Json, deltas: &mut Vec<StreamDelta>)
        ensures
            final(self)@.buffer == old(self)@.buffer,
            read(final(self)@.mode, final(deltas).views()) == read(
                old(self)@.mode,
                old(deltas).views(),
            ).chunk(chunk@),
    {
        if !self.started {
            match (chunk.get_str("id"), chunk.get_str("model")) {
                (Some(id), Some(model)) => {
                    self.started = true;
                    crate::views::push(
                        deltas,
                        StreamDelta::MessageStart { id: id.to_string(), model: model.to_string() },
                    );
                },
                _ => {},
            }
        }
        match first_choice(chunk) {
            Some(c) => {
                match c.get("delta") {
                    Some(d) => {
                        self.delta(d, deltas);
                    },
                    None => {},
                }
                match c.filled("finish_reason") {
                    Some(reason) => {
                        self.end(reason, deltas);
                    },
                    None => {},
                }
            },
            None => {},
        }
        let ghost mid = deltas.views();
        Self::counts(chunk, deltas);
        assert(read(self@.mode, deltas.views()) == read(self@.mode, mid).counts(chunk@));
    }

    fn line(&mut self, line: &str, deltas: &mut Vec<StreamDelta>)
        ensures
            final(self)@.buffer == old(self)@.buffer,
            read(final(self)@.mode, final(deltas).views()) == read(
                old(self)@.mode,
                old(deltas).views(),
            ).line(line@),
    {
        match crate::text::strip_prefix(line, "data: ") {
            Some(data) => {
                let data = crate::text::trim(data);
                if *data == *"[DONE]" {
                    self.end("stop", deltas);
                } else {
                    match Json::parse(data) {
                        Some(chunk) => {
                            self.parse_openai_chunk(&chunk, deltas);
                        },
                        None => {},
                    }
                }
            },
            None => {},
        }
    }

    fn block(&mut self, b: &str, deltas: &mut Vec<StreamDelta>)
        ensures
            final(self)@.buffer == old(self)@.buffer,
            read(final(self)@.mode, final(deltas).views()) == read(
                old(self)@.mode,
                old(deltas).views(),
            ).block(b@),
    {
        let v = crate::text::lines(b);
        for i in 0..v.len()
            invariant
                self@.buffer == old(self)@.buffer,
                read(self@.mode, deltas.views()) == read(
                    old(self)@.mode,
                    old(deltas).views(),
                ).lines(v.views(), i as nat),
        {
            assert(v.views()[i as int] == v@[i as int]@);
            self.line(v[i].as_str(), deltas);
        }
    }

    fn take(&mut self, raw: &str) -> (r: Vec<StreamDelta>)
        ensures
            r.views() == old(self)@.read(raw@).deltas,
            final(self)@ == old(self)@.behind(raw@),
    {
        let blocks = crate::protocol::sse::take_blocks(&mut self.buffer, raw);
        let mut out: Vec<StreamDelta> = crate::views::none();
        let ghost rest = self@.buffer;
        for i in 0..blocks.len()
            invariant
                self@.buffer == rest,
                read(self@.mode, out.views()) == read(old(self)@.mode, Seq::empty()).blocks(
                    blocks.views(),
                    i as nat,
                ),
        {
            assert(blocks.views()[i as int] == blocks@[i as int]@);
            self.block(blocks[i].as_str(), &mut out);
        }
        out
    }
}

impl StreamResponseDecoder for OpenAIStreamParser {
    /// Reads a piece of the stream; there is none that it cannot read.
    fn parse_chunk(&mut self, raw: &str) -> (r: Result<Vec<StreamDelta>, CodecError>)
        ensures
            r matches Ok(v) && v.views() == old(self)@.read(raw@).deltas,
            final(self)@ == old(self)@.behind(raw@),
    {
        Ok(self.take(raw))
    }

    /// Reads what is left at the end of the stream.
    fn finish(&mut self) -> (r: Result<Vec<StreamDelta>, CodecError>)
        ensures
            r matches Ok(v) && v.views() == old(self)@.ended().deltas,
            final(self)@ == old(self)@.over(),
    {
        let mut out: Vec<StreamDelta> = crate::views::none();
        if !crate::text::is_blank(self.buffer.as_str()) {
            let remaining = crate::text::cat(self.buffer.as_str(), "\n\n");
            self.buffer = String::new();
            assert(self.buffer@ =~= Seq::<char>::empty());
            out = self.take(remaining.as_str());
        }
        self.flush_pending_text(&mut out);
        Ok(out)
    }
}

// ---------------------------------------------------------------- writing a stream

/// The state of a formatter.
pub struct FormatterV {
    pub usage: Usage,
    pub id: Seq<char>,
    pub model: Seq<char>,
    pub saw_tool_call: bool,
}

/// A chunk with one choice.
pub open spec fn chunk_value(id: Seq<char>, model: Seq<char>, delta: JsonV, finish: JsonV) -> JsonV {
    JsonV::obj().with("id"@, JsonV::Text(id)).with(
        "object"@,
        JsonV::Text("chat.completion.chunk"@),
    ).with("model"@, JsonV::Text(model)).with(
        "choices"@,
        JsonV::Array(
            seq![
                JsonV::obj().with("index"@, JsonV::num(0)).with("delta"@, delta).with(
                    "finish_reason"@,
                    finish,
                ),
            ],
        ),
    )
}

fn chunk_json(id: &str, model: &str, delta: Json, finish: Json) -> (r: Json)
    ensures
        r@ == chunk_value(id@, model@, delta@, finish@),
{
    let choice = Json::object().with("index", Json::num(0)).with("delta", delta).with(
        "finish_reason",
        finish,
    );
    Json::object().with("id", Json::text(id)).with(
        "object",
        Json::text("chat.completion.chunk"),
    ).with("model", Json::text(model)).with("choices", single(choice))
}

/// A piece of a call.
pub open spec fn call_delta(call: JsonV) -> JsonV {
    JsonV::obj().with("tool_calls"@, JsonV::Array(seq![call]))
}

pub open spec fn call_begin(index: usize, id: Seq<char>, name: Seq<char>) -> JsonV {
    JsonV::obj().with("index"@, JsonV::num(index as u64)).with("id"@, JsonV::Text(id)).with(
        "type"@,
        JsonV::Text("function"@),
    ).with(
        "function"@,
        JsonV::obj().with("name"@, JsonV::Text(name)).with("arguments"@, JsonV::Text(""@)),
    )
}

pub open spec fn call_more(index: usize, arguments: Seq<char>) -> JsonV {
    JsonV::obj().with("index"@, JsonV::num(index as u64)).with(
        "function"@,
        JsonV::obj().with("arguments"@, JsonV::Text(arguments)),
    )
}

/// What has been written: the state and the events.
pub struct WrittenV {
    pub state: FormatterV,
    pub events: Seq<SseV>,
}

impl WrittenV {
    /// A chunk with a delta.
    pub open spec fn part(self, delta: JsonV) -> WrittenV {
        WrittenV {
            events: self.events.push(
                SseV::plain(
                    crate::json::text_of(
                        chunk_value(self.state.id, self.state.model, delta, JsonV::Null),
                    ),
                ),
            ),
            ..self
        }
    }

    pub open spec fn called(self) -> WrittenV {
        WrittenV { state: FormatterV { saw_tool_call: true, ..self.state }, ..self }
    }

    /// One delta more.
    pub open spec fn step(self, d: DeltaV) -> WrittenV {
        match d {
            DeltaV::MessageStart { id, model } => WrittenV {
                state: FormatterV { id, model, ..self.state },
                ..self
            }.part(JsonV::obj().with("role"@, JsonV::Text("assistant"@))),
            DeltaV::ThinkingDelta(t) => self.part(
                JsonV::obj().with("reasoning_content"@, JsonV::Text(t)),
            ),
            DeltaV::TextDelta(t) => self.part(JsonV::obj().with("content"@, JsonV::Text(t))),
            DeltaV::ToolCallStart { index, id, name } => self.called().part(
                call_delta(call_begin(index, id, name)),
            ),
            DeltaV::ToolCallDelta { index, arguments } => self.called().part(
                call_delta(call_more(index, arguments)),
            ),
            DeltaV::Usage(u) => WrittenV {
                state: FormatterV { usage: u, ..self.state },
                ..self
            },
            DeltaV::Done { stop_reason } => {
                let reason = if self.state.saw_tool_call {
                    "tool_calls"@
                } else {
                    stop_reason
                };
                let last = chunk_value(
                    self.state.id,
                    self.state.model,
                    JsonV::obj(),
                    JsonV::Text(reason),
                ).with("usage"@, usage_value(self.state.usage));
                WrittenV {
                    events: self.events.push(SseV::plain(crate::json::text_of(last))).push(
                        SseV::plain("[DONE]"@),
                    ),
                    ..self
                }
            },
            _ => self,
        }
    }

    /// The first `n` deltas.
    pub open spec fn steps(self, deltas: Seq<DeltaV>, n: nat) -> WrittenV
        decreases n,
    {
        if n == 0 {
            self
        } else {
            self.steps(deltas, (n - 1) as nat).step(deltas[n - 1])
        }
    }
}

/// A state and events as one value.
pub open spec fn written(state: FormatterV, events: Seq<SseV>) -> WrittenV {
    WrittenV { state, events }
}

/// Writes a stream of the protocol.
#[derive(Debug)]
pub struct OpenAIStreamFormatter {
    usage: Usage,
    id: String,
    model: String,
    saw_tool_call: bool,
}

impl View for OpenAIStreamFormatter {
    type V = FormatterV;

    closed spec fn view(&self) -> FormatterV {
        FormatterV {
            usage: self.usage,
            id: self.id@,
            model: self.model@,
            saw_tool_call: self.saw_tool_call,
        }
    }
}

impl FormatterV {
    /// Nothing written yet, under an identifier.
    pub open spec fn fresh(id: Seq<char>) -> FormatterV {
        FormatterV { usage: Usage::zero(), id, model: Seq::empty(), saw_tool_call: false }
    }
}

impl Default for OpenAIStreamFormatter {
    fn default() -> (r: Self)
        ensures
            exists|u: Seq<char>|
                #![auto]
                crate::fresh::is_hyphenated(u) && r@ == FormatterV::fresh("chatcmpl-"@ + u),
    {
        Self::new()
    }
}

impl OpenAIStreamFormatter {
    /// A formatter at the beginning of a stream, under a given identifier.
    pub fn with_id(id: String) -> (r: Self)
        ensures
            r@ == FormatterV::fresh(id@),
    {
        let r = OpenAIStreamFormatter {
            usage: Usage::default(),
            id,
            model: String::new(),
            saw_tool_call: false,
        };
        assert(r@.model =~= Seq::<char>::empty());
        r
    }

    /// A formatter at the beginning of a stream, under a fresh identifier.
    pub fn new() -> (r: Self)
        ensures
            exists|u: Seq<char>|
                #![auto]
                crate::fresh::is_hyphenated(u) && r@ == FormatterV::fresh("chatcmpl-"@ + u),
    {
        let u = crate::fresh::uuid_hyphenated();
        Self::with_id(crate::text::cat("chatcmpl-", u.as_str()))
    }

    fn part(&mut self, delta: Json, events: &mut Vec<SseEvent>)
        ensures
            written(final(self)@, final(events).views()) == written(
                old(self)@,
                old(events).views(),
            ).part(delta@),
    {
        let chunk = chunk_json(self.id.as_str(), self.model.as_str(), delta, Json::Null);
        emit_plain(events, chunk.to_text());
    }

    fn step(&mut self, d: &StreamDelta, events: &mut Vec<SseEvent>)
        ensures
            written(final(self)@, final(events).views()) == written(
                old(self)@,
                old(events).views(),
            ).step(d@),
    {
        match d {
            StreamDelta::MessageStart { id, model } => {
                self.id = id.clone();
                self.model = model.clone();
                self.part(Json::object().with("role", Json::text("assistant")), events);
            },
            StreamDelta::ThinkingDelta(t) => {
                self.part(
                    Json::object().with("reasoning_content", Json::text(t.as_str())),
                    events,
                );
            },
            StreamDelta::TextDelta(t) => {
                self.part(Json::object().with("content", Json::text(t.as_str())), events);
            },
            StreamDelta::ToolCallStart { index, id, name } => {
                self.saw_tool_call = true;
                let call = Json::object().with("index", Json::num(*index as u64)).with(
                    "id",
                    Json::text(id.as_str()),
                ).with("type", Json::text("function")).with(
                    "function",
                    Json::object().with("name", Json::text(name.as_str())).with(
                        "arguments",
                        Json::text(""),
                    ),
                );
                self.part(Json::object().with("tool_calls", single(call)), events);
            },
            StreamDelta::ToolCallDelta { index, arguments } => {
                self.saw_tool_call = true;
                let call = Json::object().with("index", Json::num(*index as u64)).with(
                    "function",
                    Json::object().with("arguments", Json::text(arguments.as_str())),
                );
                self.part(Json::object().with("tool_calls", single(call)), events);
            },
            StreamDelta::Usage(u) => {
                self.usage = *u;
            },
            StreamDelta::Done { stop_reason } => {
                let reason = if self.saw_tool_call {
                    "tool_calls"
                } else {
                    stop_reason.as_str()
                };
                let last = chunk_json(
                    self.id.as_str(),
                    self.model.as_str(),
                    Json::object(),
                    Json::text(reason),
                ).with("usage", usage_json(&self.usage));
                emit_plain(events, last.to_text());
                emit_plain(events, "[DONE]".to_string());
            },
            _ => {},
        }
    }
}

impl StreamResponseEncoder for OpenAIStreamFormatter {
    fn format_deltas(&mut self, deltas: &Vec<StreamDelta>) -> (r: Vec<SseEvent>)
        ensures
            written(final(self)@, r.views()) == written(old(self)@, Seq::empty()).steps(
                deltas.views(),
                deltas@.len(),
            ),
    {
        let mut events: Vec<SseEvent> = crate::views::none();
        for i in 0..deltas.len()
            invariant
                written(self@, events.views()) == written(old(self)@, Seq::empty()).steps(
                    deltas.views(),
                    i as nat,
                ),
        {
            assert(deltas.views()[i as int] == deltas@[i as int]@);
            self.step(&deltas[i], &mut events);
        }
        events
    }

    /// Nothing: the end is written with the last delta.
    fn format_done(&mut self) -> (r: Vec<SseEvent>)
        ensures
            r@.len() == 0,
            final(self)@ == old(self)@,
    {
        Vec::new()
    }

    fn usage(&self) -> (r: Usage)
        ensures
            r == self@.usage,
    {
        self.usage
    }
}

} // verus!
