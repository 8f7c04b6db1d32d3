//! Responses and streams of the Google Generative AI protocol.
//!
//! Parts and fields that nothing here understands are kept and come out again as they were.
use vstd::prelude::*;

use crate::json::{Fields, Json, JsonV};
use crate::protocol::codec::google_generative::types::single_json;
use crate::protocol::ir::request::ToolCall;
use crate::protocol::ir::response::{AiResponse, AiResponseV, ItemV, ResponseItem};
use crate::protocol::ir::stream::{DeltaV, StreamDelta};
use crate::protocol::ir::usage::Usage;
use crate::protocol::ir::vendor_ext::{VendorExtensions, VendorV};
use crate::protocol::traits::{
    ResponseDecoder, ResponseEncoder, StreamResponseDecoder, StreamResponseEncoder,
};
use crate::protocol::types::ToolCallV;
use crate::protocol::{emit_plain, CodecError, SseEvent, SseV};
use crate::slots::Slots;
use crate::views::Views;

verus! {

/// An object with one field.
pub open spec fn single(k: Seq<char>, v: JsonV) -> JsonV {
    JsonV::obj().with(k, v)
}

// ---------------------------------------------------------------- usage

/// `a`, or the count at `k`.
pub open spec fn or_u64(a: Option<u64>, u: JsonV, k: Seq<char>) -> Option<u64> {
    if a is Some {
        a
    } else {
        u.get_u64(k)
    }
}

/// The sum, or the largest number where it exceeds that.
pub open spec fn sat_sum(a: u64, b: u64) -> u64 {
    if a + b > u64::MAX {
        u64::MAX
    } else {
        (a + b) as u64
    }
}

/// The prompt tokens that a usage object reports, under any of the known names.
pub open spec fn input_of(u: JsonV) -> u64 {
    let a = or_u64(u.get_u64("promptTokenCount"@), u, "prompt_tokens"@);
    match or_u64(or_u64(a, u, "inputTokenCount"@), u, "input_tokens"@) {
        Some(n) => n,
        None => 0,
    }
}

/// All tokens that a usage object reports.
pub open spec fn total_of(u: JsonV) -> Option<u64> {
    or_u64(u.get_u64("totalTokenCount"@), u, "total_tokens"@)
}

/// The tokens of the answer that a usage object reports: what the total leaves of it, else the
/// answer's own and the thinking's.
pub open spec fn output_of(u: JsonV) -> u64 {
    let a = or_u64(u.get_u64("candidatesTokenCount"@), u, "completion_tokens"@);
    let own = or_u64(or_u64(a, u, "outputTokenCount"@), u, "output_tokens"@);
    let thoughts = match or_u64(
        or_u64(u.get_u64("thoughtsTokenCount"@), u, "reasoning_tokens"@),
        u,
        "thought_tokens"@,
    ) {
        Some(n) => n,
        None => 0,
    };
    if total_of(u) matches Some(t) && t >= input_of(u) {
        (total_of(u)->0 - input_of(u)) as u64
    } else {
        match own {
            Some(n) => sat_sum(n, thoughts),
            None => 0,
        }
    }
}

/// The usage that a response or a chunk reports.
pub open spec fn usage_of(v: JsonV) -> Usage {
    let reported = match v.get("usageMetadata"@) {
        Some(u) => Some(u),
        None => match v.get("usage_metadata"@) {
            Some(u) => Some(u),
            None => v.get("usage"@),
        },
    };
    match reported {
        Some(u) => Usage {
            prompt_tokens: input_of(u) as u32,
            completion_tokens: output_of(u) as u32,
            total_tokens: match total_of(u) {
                Some(t) => t as u32,
                None => sat_sum(input_of(u), output_of(u)) as u32,
            },
            ..Usage::zero()
        },
        None => Usage::zero(),
    }
}

fn else_u64(a: Option<u64>, u: &Json, key: &str) -> (r: Option<u64>)
    ensures
        r == or_u64(a, u@, key@),
{
    match a {
        Some(n) => Some(n),
        None => u.get_u64(key),
    }
}

fn saturating(a: u64, b: u64) -> (r: u64)
    ensures
        r == sat_sum(a, b),
{
    if a > u64::MAX - b {
        u64::MAX
    } else {
        a + b
    }
}

/// Reads the usage that a response or a chunk reports.
pub fn extract_gemini_usage(v: &Json) -> (r: Usage)
    ensures
        r == usage_of(v@),
{
    let reported = match v.get("usageMetadata") {
        Some(u) => Some(u),
        None => match v.get("usage_metadata") {
            Some(u) => Some(u),
            None => v.get("usage"),
        },
    };
    match reported {
        Some(u) => {
            let a = else_u64(u.get_u64("promptTokenCount"), u, "prompt_tokens");
            let input: u64 = match else_u64(
                else_u64(a, u, "inputTokenCount"),
                u,
                "input_tokens",
            ) {
                Some(n) => n,
                None => 0,
            };
            let total = else_u64(u.get_u64("totalTokenCount"), u, "total_tokens");
            let a = else_u64(u.get_u64("candidatesTokenCount"), u, "completion_tokens");
            let own = else_u64(else_u64(a, u, "outputTokenCount"), u, "output_tokens");
            let thoughts: u64 = match else_u64(
                else_u64(u.get_u64("thoughtsTokenCount"), u, "reasoning_tokens"),
                u,
                "thought_tokens",
            ) {
                Some(n) => n,
                None => 0,
            };
            let by_total = match total {
                Some(t) => if t >= input {
                    Some(t - input)
                } else {
                    None
                },
                None => None,
            };
            let output: u64 = match by_total {
                Some(n) => n,
                None => match own {
                    Some(n) => saturating(n, thoughts),
                    None => 0,
                },
            };
            let all: u64 = match total {
                Some(t) => t,
                None => saturating(input, output),
            };
            Usage {
                prompt_tokens: #[verifier::truncate]
                (input as u32),
                completion_tokens: #[verifier::truncate]
                (output as u32),
                total_tokens: #[verifier::truncate]
                (all as u32),
                cache_read_tokens: None,
                cache_creation_tokens: None,
                server_tool_use: None,
            }
        },
        None => Usage::default(),
    }
}

/// A usage object of counts.
pub open spec fn counts_json(u: Usage) -> JsonV {
    single("promptTokenCount"@, JsonV::num(u.prompt_tokens as u64)).with(
        "candidatesTokenCount"@,
        JsonV::num(u.completion_tokens as u64),
    ).with("totalTokenCount"@, JsonV::num(u.sum()))
}

/// A usage object with the counts that it lacks; counts alone where it is no object.
pub open spec fn counts_merged(usage: JsonV, u: Usage) -> JsonV {
    match usage {
        JsonV::Object(f) => {
            let f = crate::json::put_absent(
                f,
                "promptTokenCount"@,
                JsonV::num(u.prompt_tokens as u64),
            );
            let f = crate::json::put_absent(
                f,
                "candidatesTokenCount"@,
                JsonV::num(u.completion_tokens as u64),
            );
            JsonV::Object(crate::json::put_absent(f, "totalTokenCount"@, JsonV::num(u.sum())))
        },
        _ => counts_json(u),
    }
}

fn google_usage_from_counts(u: &Usage) -> (r: Json)
    ensures
        r@ == counts_json(*u),
{
    single_json("promptTokenCount", Json::num(u.prompt_tokens as u64)).with(
        "candidatesTokenCount",
        Json::num(u.completion_tokens as u64),
    ).with("totalTokenCount", Json::num(u.total()))
}

/// Adds to a usage object the counts that it lacks.
pub fn merge_usage_counts(usage: &Json, u: &Usage) -> (r: Json)
    ensures
        r@ == counts_merged(usage@, *u),
{
    match usage.as_object() {
        Some(f) => {
            let mut f = f.dup();
            f.insert_absent("promptTokenCount", Json::num(u.prompt_tokens as u64));
            f.insert_absent("candidatesTokenCount", Json::num(u.completion_tokens as u64));
            f.insert_absent("totalTokenCount", Json::num(u.total()));
            Json::of_fields(f)
        },
        None => google_usage_from_counts(u),
    }
}

// ---------------------------------------------------------------- parts and candidates

/// A part that is nothing but a text.
pub open spec fn plain_text(part: JsonV) -> bool {
    part matches JsonV::Object(f) && f.len() == 1 && part.get("text"@) matches Some(JsonV::Text(_))
}

/// A part that is nothing but a call.
pub open spec fn plain_call(part: JsonV) -> bool {
    part matches JsonV::Object(f) && f.len() == 1 && part.get("functionCall"@) is Some
}

fn is_plain_text_part(part: &Json) -> (r: bool)
    ensures
        r == plain_text(part@),
{
    match part.as_object() {
        Some(f) => f.len() == 1 && part.get_str("text").is_some(),
        None => false,
    }
}

fn is_plain_function_call_part(part: &Json) -> (r: bool)
    ensures
        r == plain_call(part@),
{
    match part.as_object() {
        Some(f) => f.len() == 1 && part.get("functionCall").is_some(),
        None => false,
    }
}

/// The first candidate.
pub open spec fn candidate_of(v: JsonV) -> Option<JsonV> {
    match v.get_array("candidates"@) {
        Some(a) => if a.len() > 0 {
            Some(a[0])
        } else {
            None
        },
        None => None,
    }
}

/// The parts of the first candidate.
pub open spec fn parts_of(v: JsonV) -> Seq<JsonV> {
    match candidate_of(v) {
        Some(c) => match c.get("content"@) {
            Some(content) => match content.get_array("parts"@) {
                Some(p) => p,
                None => Seq::empty(),
            },
            None => Seq::empty(),
        },
        None => Seq::empty(),
    }
}

/// The reason for which the first candidate ended.
pub open spec fn reason_of(v: JsonV) -> Option<Seq<char>> {
    match candidate_of(v) {
        Some(c) => c.get_str("finishReason"@),
        None => None,
    }
}

fn first_candidate(v: &Json) -> (r: Option<&Json>)
    ensures
        r.views() == candidate_of(v@),
{
    match v.get_array("candidates") {
        Some(a) => if a.len() > 0 {
            assert(a.views()[0] == a@[0]@);
            Some(&a[0])
        } else {
            None
        },
        None => None,
    }
}

fn candidate_parts(v: &Json) -> (r: Option<&Vec<Json>>)
    ensures
        match r {
            Some(p) => p.views() == parts_of(v@),
            None => parts_of(v@) == Seq::<JsonV>::empty(),
        },
{
    match first_candidate(v) {
        Some(c) => match c.get("content") {
            Some(content) => content.get_array("parts"),
            None => None,
        },
        None => None,
    }
}

fn finish_reason(v: &Json) -> (r: Option<&str>)
    ensures
        r.views() == reason_of(v@),
{
    match first_candidate(v) {
        Some(c) => c.get_str("finishReason"),
        None => None,
    }
}

/// The first `n` fields but those named `a` or `b`.
pub open spec fn fields_but(
    f: Seq<(Seq<char>, JsonV)>,
    a: Seq<char>,
    b: Seq<char>,
    n: nat,
) -> Seq<(Seq<char>, JsonV)>
    decreases n,
{
    if n == 0 {
        Seq::empty()
    } else {
        let before = fields_but(f, a, b, (n - 1) as nat);
        if f[n - 1].0 == a || f[n - 1].0 == b {
            before
        } else {
            crate::json::put_field(before, f[n - 1].0, f[n - 1].1)
        }
    }
}

fn without_fields(f: &Fields, a: &str, b: &str) -> (r: Fields)
    ensures
        r@ == fields_but(f@, a@, b@, f@.len()),
{
    let mut out = Fields::new();
    for i in 0..f.entries.len()
        invariant
            out@ == fields_but(f@, a@, b@, i as nat),
    {
        let key = f.key_at(i);
        if *key != *a && *key != *b {
            out.insert(key, f.value_at(i).dup());
        }
    }
    out
}

// ---------------------------------------------------------------- reading whole responses

/// What has been read from the parts of a response.
pub struct ReadV {
    pub text: Seq<char>,
    pub calls: Seq<ToolCallV>,
    pub items: Seq<ItemV>,
}

impl ReadV {
    pub open spec fn none() -> ReadV {
        ReadV { text: Seq::empty(), calls: Seq::empty(), items: Seq::empty() }
    }

    pub open spec fn item(self, i: ItemV) -> ReadV {
        ReadV { items: self.items.push(i), ..self }
    }

    /// One part more. A call has no name of its own: `fresh` makes one.
    pub open spec fn part(self, p: JsonV, fresh: Seq<char>) -> ReadV {
        match p.get_str("text"@) {
            Some(t) => ReadV {
                text: self.text + t,
                ..self.item(
                    if plain_text(p) {
                        ItemV::OutputText { text: t }
                    } else {
                        ItemV::Unknown { raw: p }
                    },
                )
            },
            None => match p.get("functionCall"@) {
                Some(fc) => {
                    let call = ToolCallV {
                        id: "call_"@ + fresh,
                        name: fc.str_or_empty("name"@),
                        arguments: crate::json::text_of(
                            match fc.get("args"@) {
                                Some(a) => a,
                                None => JsonV::obj(),
                            },
                        ),
                    };
                    ReadV {
                        calls: self.calls.push(call),
                        ..self.item(
                            if plain_call(p) {
                                ItemV::FunctionCall {
                                    call_id: call.id,
                                    name: call.name,
                                    arguments: call.arguments,
                                }
                            } else {
                                ItemV::Unknown { raw: p }
                            },
                        )
                    }
                },
                None => self.item(ItemV::Unknown { raw: p }),
            },
        }
    }

    /// The first `n` parts.
    pub open spec fn of(parts: Seq<JsonV>, fresh: Seq<Seq<char>>, n: nat) -> ReadV
        decreases n,
    {
        if n == 0 {
            ReadV::none()
        } else {
            ReadV::of(parts, fresh, (n - 1) as nat).part(parts[n - 1], fresh[n - 1])
        }
    }
}

/// The internal name of a reason of a whole response.
pub open spec fn stop_in(r: Seq<char>) -> Seq<char> {
    if r == "STOP"@ {
        "stop"@
    } else if r == "MAX_TOKENS"@ {
        "length"@
    } else {
        crate::text::unicode_lowercase(r)
    }
}

/// What nothing here understands of a response, for writing it again.
pub open spec fn metadata_of(raw: JsonV) -> Seq<(Seq<char>, JsonV)> {
    let top = match raw {
        JsonV::Object(f) => fields_but(f, "candidates"@, "candidates"@, f.len()),
        _ => Seq::empty(),
    };
    match candidate_of(raw) {
        Some(JsonV::Object(c)) => {
            let extra = fields_but(c, "content"@, "finishReason"@, c.len());
            let with_candidate = if extra.len() > 0 {
                crate::json::put_field(top, "__candidate_extra"@, JsonV::Object(extra))
            } else {
                top
            };
            match crate::json::get_field(c, "content"@) {
                Some(JsonV::Object(content)) => {
                    let more = fields_but(content, "role"@, "parts"@, content.len());
                    if more.len() > 0 {
                        crate::json::put_field(
                            with_candidate,
                            "__content_extra"@,
                            JsonV::Object(more),
                        )
                    } else {
                        with_candidate
                    }
                },
                _ => with_candidate,
            }
        },
        _ => top,
    }
}

/// The vendor bag of a response.
pub open spec fn vendor_of(raw: JsonV) -> VendorV {
    let m = metadata_of(raw);
    VendorV {
        ingress: if m.len() > 0 {
            crate::json::put_field(
                Seq::empty(),
                "__google_response_metadata"@,
                JsonV::Object(m),
            )
        } else {
            Seq::empty()
        },
        ..VendorV::none()
    }
}

/// The response that a response of the protocol stands for. `fresh` names calls, `own` the
/// response itself where it has no name.
pub open spec fn response_of(resp: JsonV, fresh: Seq<Seq<char>>, own: Seq<char>) -> AiResponseV {
    let parts = parts_of(resp);
    let read = ReadV::of(parts, fresh, parts.len());
    AiResponseV {
        content: read.text,
        tool_calls: read.calls,
        items: crate::views::some_list(read.items),
        stop_reason: match reason_of(resp) {
            Some(r) => Some(stop_in(r)),
            None => None,
        },
        usage: usage_of(resp),
        vendor: vendor_of(resp),
        ..AiResponseV::bare(
            match resp.get_str("responseId"@) {
                Some(id) => id,
                None => "gen-"@ + own,
            },
            resp.str_or_empty("modelVersion"@),
        )
    }
}

fn stop_reason_in(r: &str) -> (o: String)
    ensures
        o@ == stop_in(r@),
{
    if *r == *"STOP" {
        "stop".to_string()
    } else if *r == *"MAX_TOKENS" {
        "length".to_string()
    } else {
        r.to_lowercase()
    }
}

fn preserve_metadata(raw: &Json) -> (r: Fields)
    ensures
        r@ == metadata_of(raw@),
{
    let mut meta = match raw.as_object() {
        Some(f) => without_fields(f, "candidates", "candidates"),
        None => Fields::new(),
    };
    if let Some(candidate) = first_candidate(raw) {
        if let Some(c) = candidate.as_object() {
            let extra = without_fields(c, "content", "finishReason");
            if !extra.is_empty() {
                meta.insert("__candidate_extra", Json::of_fields(extra));
            }
            if let Some(content) = c.get("content") {
                if let Some(content) = content.as_object() {
                    let more = without_fields(content, "role", "parts");
                    if !more.is_empty() {
                        meta.insert("__content_extra", Json::of_fields(more));
                    }
                }
            }
        }
    }
    meta
}

/// Reads whole responses.
#[derive(Debug, Clone, Copy)]
pub struct GoogleResponseParser;

impl GoogleResponseParser {
    /// The number of parts of a response.
    pub fn part_count(&self, resp: &Json) -> (r: usize)
        ensures
            r == parts_of(resp@).len(),
    {
        match candidate_parts(resp) {
            Some(p) => p.len(),
            None => 0,
        }
    }

    /// Reads a response; the identifier at a part's place is taken where the part is a call, and
    /// `own` where the response has no name.
    pub fn parse_with_ids(&self, resp: &Json, fresh: &Vec<String>, own: &str) -> (r: AiResponse)
        requires
            fresh@.len() == parts_of(resp@).len(),
        ensures
            r@ == response_of(resp@, fresh.views(), own@),
    {
        let mut text: String = String::new();
        let mut calls: Vec<ToolCall> = crate::views::none();
        let mut items: Vec<ResponseItem> = crate::views::none();
        assert(text@ =~= Seq::<char>::empty());
        let ghost mut read = ReadV::none();
        if let Some(parts) = candidate_parts(resp) {
            for i in 0..parts.len()
                invariant
                    fresh@.len() == parts@.len(),
                    read == ReadV::of(parts.views(), fresh.views(), i as nat),
                    read == (ReadV { text: text@, calls: calls.views(), items: items.views() }),
            {
                let part = &parts[i];
                assert(parts.views()[i as int] == part@);
                assert(fresh.views()[i as int] == fresh@[i as int]@);
                proof {
                    read = read.part(part@, fresh@[i as int]@);
                }
                if let Some(t) = part.get_str("text") {
                    text.append(t);
                    if is_plain_text_part(part) {
                        crate::views::push(
                            &mut items,
                            ResponseItem::OutputText { text: t.to_string() },
                        );
                    } else {
                        crate::views::push(&mut items, ResponseItem::Unknown { raw: part.dup() });
                    }
                } else if let Some(fc) = part.get("functionCall") {
                    let call = ToolCall {
                        id: crate::text::cat("call_", fresh[i].as_str()),
                        name: fc.str_or_empty("name"),
                        arguments: match fc.get("args") {
                            Some(a) => a.to_text(),
                            None => Json::object().to_text(),
                        },
                    };
                    if is_plain_function_call_part(part) {
                        crate::views::push(
                            &mut items,
                            ResponseItem::FunctionCall {
                                call_id: call.id.clone(),
                                name: call.name.clone(),
                                arguments: call.arguments.clone(),
                            },
                        );
                    } else {
                        crate::views::push(&mut items, ResponseItem::Unknown { raw: part.dup() });
                    }
                    crate::views::push(&mut calls, call);
                } else {
                    crate::views::push(&mut items, ResponseItem::Unknown { raw: part.dup() });
                }
            }
        }
        let id = match resp.get_str("responseId") {
            Some(id) => id.to_string(),
            None => crate::text::cat("gen-", own),
        };
        let mut vendor = VendorExtensions::default();
        let meta = preserve_metadata(resp);
        if !meta.is_empty() {
            vendor.ingress.insert("__google_response_metadata", Json::of_fields(meta));
        }
        let mut out = AiResponse::new(id, resp.str_or_empty("modelVersion"));
        out.content = text;
        out.tool_calls = calls;
        out.items = crate::views::non_empty(items);
        out.stop_reason = match finish_reason(resp) {
            Some(r) => Some(stop_reason_in(r)),
            None => None,
        };
        out.usage = extract_gemini_usage(resp);
        out.vendor = vendor;
        out
    }
}

impl ResponseDecoder for GoogleResponseParser {
    /// Reads a response.
    fn parse_response(&self, resp: Json) -> (r: Result<AiResponse, CodecError>)
        ensures
            exists|fresh: Seq<Seq<char>>, own: Seq<char>|
                #![trigger crate::fresh::all_uuid_texts(fresh), crate::fresh::is_uuid_text(own)]
                crate::fresh::all_uuid_texts(fresh) && crate::fresh::is_uuid_text(own)
                    && fresh.len() == parts_of(resp@).len() && r.views() == Ok::<
                    AiResponseV,
                    Seq<char>,
                >(response_of(resp@, fresh, own)),
    {
        let fresh = crate::fresh::uuid_texts(self.part_count(&resp));
        let own = crate::fresh::uuid_text();
        Ok(self.parse_with_ids(&resp, &fresh, own.as_str()))
    }
}

// ---------------------------------------------------------------- writing whole responses

/// A call as a part.
pub open spec fn call_part(name: Seq<char>, arguments: Seq<char>) -> JsonV {
    single(
        "functionCall"@,
        single("name"@, JsonV::Text(name)).with("args"@, JsonV::read_or_object(arguments)),
    )
}

/// The part for an item.
pub open spec fn item_part(i: ItemV) -> Option<JsonV> {
    match i {
        ItemV::OutputText { text } => if text.len() > 0 {
            Some(single("text"@, JsonV::Text(text)))
        } else {
            None
        },
        ItemV::FunctionCall { name, arguments, .. } => Some(call_part(name, arguments)),
        ItemV::Unknown { raw } => Some(raw),
        _ => None,
    }
}

/// The parts for the first `n` items.
pub open spec fn item_parts(items: Seq<ItemV>, n: nat) -> Seq<JsonV>
    decreases n,
{
    if n == 0 {
        Seq::empty()
    } else {
        let before = item_parts(items, (n - 1) as nat);
        match item_part(items[n - 1]) {
            Some(p) => before.push(p),
            None => before,
        }
    }
}

/// The parts for the first `n` calls, behind the text.
pub open spec fn plain_parts(resp: AiResponseV, n: nat) -> Seq<JsonV>
    decreases n,
{
    if n == 0 {
        if resp.content.len() > 0 {
            seq![single("text"@, JsonV::Text(resp.content))]
        } else {
            Seq::empty()
        }
    } else {
        plain_parts(resp, (n - 1) as nat).push(
            call_part(resp.tool_calls[n - 1].name, resp.tool_calls[n - 1].arguments),
        )
    }
}

/// The parts of a response: its items where they give any, else its text and calls.
pub open spec fn response_parts(resp: AiResponseV) -> Seq<JsonV> {
    let by_items = match resp.items {
        Some(items) => item_parts(items, items.len()),
        None => Seq::empty(),
    };
    if by_items.len() > 0 {
        by_items
    } else {
        plain_parts(resp, resp.tool_calls.len())
    }
}

/// The metadata that a response carries.
pub open spec fn carried_metadata(resp: AiResponseV) -> Option<JsonV> {
    crate::json::get_field(resp.vendor.ingress, "__google_response_metadata"@)
}

/// The usage object of a response.
pub open spec fn usage_json(resp: AiResponseV) -> JsonV {
    match carried_metadata(resp) {
        Some(m) => match m.get("usageMetadata"@) {
            Some(u) => counts_merged(u, resp.usage),
            None => counts_json(resp.usage),
        },
        None => counts_json(resp.usage),
    }
}

/// The protocol's name of a reason of a whole response.
pub open spec fn stop_out(r: Seq<char>) -> Seq<char> {
    if r == "stop"@ {
        "STOP"@
    } else if r == "length"@ {
        "MAX_TOKENS"@
    } else if r == "tool_calls"@ {
        "STOP"@
    } else {
        r
    }
}

/// A candidate with parts.
pub open spec fn candidate_json(parts: Seq<JsonV>) -> JsonV {
    single("content"@, single("role"@, JsonV::Text("model"@)).with("parts"@, JsonV::Array(parts)))
}

/// A response without its metadata.
pub open spec fn bare_json(resp: AiResponseV) -> JsonV {
    single(
        "candidates"@,
        JsonV::Array(
            seq![
                candidate_json(response_parts(resp)).with(
                    "finishReason"@,
                    match resp.stop_reason {
                        Some(r) => JsonV::Text(stop_out(r)),
                        None => JsonV::Null,
                    },
                ),
            ],
        ),
    ).with("usageMetadata"@, usage_json(resp))
}

/// The response with the first `n` fields of its metadata; those for its inside left out.
pub open spec fn with_metadata(
    out: JsonV,
    meta: Seq<(Seq<char>, JsonV)>,
    u: Usage,
    n: nat,
) -> JsonV
    decreases n,
{
    if n == 0 {
        out
    } else {
        let before = with_metadata(out, meta, u, (n - 1) as nat);
        let (k, v) = meta[n - 1];
        if crate::text::begins(k, "__"@) {
            before
        } else if k == "usageMetadata"@ {
            before.with("usageMetadata"@, counts_merged(v, u))
        } else {
            before.with(k, v)
        }
    }
}

/// The response with the fields of `extra` that its candidate lacks.
pub open spec fn with_candidate_extra(out: JsonV, extra: Seq<(Seq<char>, JsonV)>) -> JsonV {
    match out.get_array("candidates"@) {
        Some(a) => if a.len() > 0 && a[0] is Object {
            out.with("candidates"@, JsonV::Array(a.update(0, a[0].with_absent(extra))))
        } else {
            out
        },
        None => out,
    }
}

/// The response with the fields of `extra` that its content lacks.
pub open spec fn with_content_extra(out: JsonV, extra: Seq<(Seq<char>, JsonV)>) -> JsonV {
    match out.get_array("candidates"@) {
        Some(a) => if a.len() > 0 {
            match a[0].get("content"@) {
                Some(JsonV::Object(c)) => out.with(
                    "candidates"@,
                    JsonV::Array(
                        a.update(
                            0,
                            a[0].with("content"@, JsonV::Object(c).with_absent(extra)),
                        ),
                    ),
                ),
                _ => out,
            }
        } else {
            out
        },
        None => out,
    }
}

/// The response of the protocol for a response.
pub open spec fn response_json(resp: AiResponseV) -> JsonV {
    let out = bare_json(resp);
    match carried_metadata(resp) {
        Some(JsonV::Object(meta)) => {
            let out = with_metadata(out, meta, resp.usage, meta.len());
            let out = match crate::json::get_field(meta, "__candidate_extra"@) {
                Some(JsonV::Object(extra)) => with_candidate_extra(out, extra),
                _ => out,
            };
            match crate::json::get_field(meta, "__content_extra"@) {
                Some(JsonV::Object(extra)) => with_content_extra(out, extra),
                _ => out,
            }
        },
        _ => {
            let out = if resp.model.len() > 0 {
                out.with("modelVersion"@, JsonV::Text(resp.model))
            } else {
                out
            };
            if resp.id.len() > 0 {
                out.with("responseId"@, JsonV::Text(resp.id))
            } else {
                out
            }
        },
    }
}

fn call_json(name: &str, arguments: &str) -> (r: Json)
    ensures
        r@ == call_part(name@, arguments@),
{
    single_json(
        "functionCall",
        single_json("name", Json::text(name)).with("args", Json::parse_or_object(arguments)),
    )
}

fn one(v: Json) -> (r: Vec<Json>)
    ensures
        r.views() == seq![v@],
{
    let mut out: Vec<Json> = crate::views::none();
    crate::views::push(&mut out, v);
    assert(out.views() =~= seq![v@]);
    out
}

/// Writes the parts of a response.
pub fn google_parts_from_response(resp: &AiResponse) -> (r: Vec<Json>)
    ensures
        r.views() == response_parts(resp@),
{
    if let Some(items) = &resp.items {
        let mut parts: Vec<Json> = crate::views::none();
        for i in 0..items.len()
            invariant
                parts.views() == item_parts(items.views(), i as nat),
        {
            assert(items.views()[i as int] == items@[i as int]@);
            match &items[i] {
                ResponseItem::OutputText { text } => {
                    if !text.as_str().is_empty() {
                        crate::views::push(
                            &mut parts,
                            single_json("text", Json::text(text.as_str())),
                        );
                    }
                },
                ResponseItem::FunctionCall { name, arguments, .. } => {
                    crate::views::push(&mut parts, call_json(name.as_str(), arguments.as_str()));
                },
                ResponseItem::Unknown { raw } => {
                    crate::views::push(&mut parts, raw.dup());
                },
                _ => {},
            }
        }
        if parts.len() > 0 {
            return parts;
        }
    }
    let mut parts: Vec<Json> = crate::views::none();
    if !resp.content.as_str().is_empty() {
        parts = one(single_json("text", Json::text(resp.content.as_str())));
    }
    for i in 0..resp.tool_calls.len()
        invariant
            parts.views() == plain_parts(resp@, i as nat),
    {
        let tc = &resp.tool_calls[i];
        assert(resp@.tool_calls[i as int] == tc@);
        crate::views::push(&mut parts, call_json(tc.name.as_str(), tc.arguments.as_str()));
    }
    parts
}

fn google_usage_metadata(resp: &AiResponse) -> (r: Json)
    ensures
        r@ == usage_json(resp@),
{
    if let Some(m) = resp.vendor.ingress.get("__google_response_metadata") {
        if let Some(u) = m.get("usageMetadata") {
            return merge_usage_counts(u, &resp.usage);
        }
    }
    google_usage_from_counts(&resp.usage)
}

fn stop_reason_out(r: &str) -> (o: &str)
    ensures
        o@ == stop_out(r@),
{
    if *r == *"stop" {
        "STOP"
    } else if *r == *"length" {
        "MAX_TOKENS"
    } else if *r == *"tool_calls" {
        "STOP"
    } else {
        r
    }
}

fn candidate(parts: Vec<Json>) -> (r: Json)
    ensures
        r@ == candidate_json(parts.views()),
{
    single_json(
        "content",
        single_json("role", Json::text("model")).with("parts", Json::array(parts)),
    )
}

fn add_metadata(out: Json, meta: &Fields, u: &Usage) -> (r: Json)
    ensures
        r@ == with_metadata(out@, meta@, *u, meta@.len()),
{
    let mut res = out;
    for i in 0..meta.entries.len()
        invariant
            res@ == with_metadata(out@, meta@, *u, i as nat),
    {
        let key = meta.key_at(i);
        let value = meta.value_at(i);
        if !crate::text::starts_with(key, "__") {
            if *key == *"usageMetadata" {
                res = res.with("usageMetadata", merge_usage_counts(value, u));
            } else {
                res = res.with(key, value.dup());
            }
        }
    }
    res
}

fn set_first(out: Json, a: &Vec<Json>, first: Json) -> (r: Json)
    requires
        a@.len() > 0,
    ensures
        r@ == out@.with("candidates"@, JsonV::Array(a.views().update(0, first@))),
{
    let mut b = crate::json::dup_items(a);
    assert(b@.len() == b.views().len());
    let ghost copied = b.views();
    b.set(0, first);
    assert(b.views() =~= copied.update(0, first@));
    assert(b.views() =~= a.views().update(0, first@));
    out.with("candidates", Json::array(b))
}

fn add_candidate_extra(out: Json, extra: &Fields) -> (r: Json)
    ensures
        r@ == with_candidate_extra(out@, extra@),
{
    let first = match out.get_array("candidates") {
        Some(a) => {
            if a.len() > 0 && a[0].as_object().is_some() {
                assert(a.views()[0] == a@[0]@);
                Some((crate::json::dup_items(a), a[0].dup().with_absent(extra)))
            } else {
                None
            }
        },
        None => None,
    };
    match first {
        Some((a, c)) => set_first(out, &a, c),
        None => out,
    }
}

fn add_content_extra(out: Json, extra: &Fields) -> (r: Json)
    ensures
        r@ == with_content_extra(out@, extra@),
{
    let first = match out.get_array("candidates") {
        Some(a) => {
            if a.len() > 0 {
                assert(a.views()[0] == a@[0]@);
                match a[0].get("content") {
                    Some(content) => {
                        if content.as_object().is_some() {
                            let merged = content.dup().with_absent(extra);
                            Some((crate::json::dup_items(a), a[0].dup().with("content", merged)))
                        } else {
                            None
                        }
                    },
                    None => None,
                }
            } else {
                None
            }
        },
        None => None,
    };
    match first {
        Some((a, c)) => set_first(out, &a, c),
        None => out,
    }
}

/// Writes whole responses.
#[derive(Debug, Clone, Copy)]
pub struct GoogleResponseFormatter;

impl ResponseEncoder for GoogleResponseFormatter {
    /// Writes a response.
    fn format_response(&self, resp: &AiResponse) -> (r: Json)
        ensures
            r@ == response_json(resp@),
    {
        let reason = match &resp.stop_reason {
            Some(r) => Json::text(stop_reason_out(r.as_str())),
            None => Json::Null,
        };
        let c = candidate(google_parts_from_response(resp)).with("finishReason", reason);
        let out = single_json("candidates", Json::array(one(c))).with(
            "usageMetadata",
            google_usage_metadata(resp),
        );
        let meta = match resp.vendor.ingress.get("__google_response_metadata") {
            Some(m) => m.as_object(),
            None => None,
        };
        match meta {
            Some(meta) => {
                let out = add_metadata(out, meta, &resp.usage);
                let out = match meta.get("__candidate_extra") {
                    Some(extra) => match extra.as_object() {
                        Some(extra) => add_candidate_extra(out, extra),
                        None => out,
                    },
                    None => out,
                };
                match meta.get("__content_extra") {
                    Some(extra) => match extra.as_object() {
                        Some(extra) => add_content_extra(out, extra),
                        None => out,
                    },
                    None => out,
                }
            },
            None => {
                let out = if !resp.model.as_str().is_empty() {
                    out.with("modelVersion", Json::text(resp.model.as_str()))
                } else {
                    out
                };
                if !resp.id.as_str().is_empty() {
                    out.with("responseId", Json::text(resp.id.as_str()))
                } else {
                    out
                }
            },
        }
    }
}

// ---------------------------------------------------------------- reading a stream

/// The values on the data lines among the first `n`.
pub open spec fn data_values(lines: Seq<Seq<char>>, n: nat) -> Seq<JsonV>
    decreases n,
{
    if n == 0 {
        Seq::empty()
    } else {
        let before = data_values(lines, (n - 1) as nat);
        match crate::text::after_prefix(lines[n - 1], "data: "@) {
            Some(d) => match crate::json::json_read(crate::text::trim_of(d)) {
                Some(v) => before.push(v),
                None => before,
            },
            None => before,
        }
    }
}

/// Whether one of the first `n` lines is a data line.
pub open spec fn has_data(lines: Seq<Seq<char>>, n: nat) -> bool
    decreases n,
{
    n > 0 && (crate::text::begins(lines[n - 1], "data: "@) || has_data(lines, (n - 1) as nat))
}

/// The chunks of a block: those of its data lines, or the block itself where it has none.
pub open spec fn block_chunks(block: Seq<char>) -> Seq<JsonV> {
    let lines = crate::text::lines_of(block);
    if has_data(lines, lines.len()) {
        data_values(lines, lines.len())
    } else {
        match crate::json::json_read(crate::text::trim_of(block)) {
            Some(v) => seq![v],
            None => Seq::empty(),
        }
    }
}

/// The chunks of the first `n` blocks.
pub open spec fn chunks_upto(blocks: Seq<Seq<char>>, n: nat) -> Seq<JsonV>
    decreases n,
{
    if n == 0 {
        Seq::empty()
    } else {
        chunks_upto(blocks, (n - 1) as nat) + block_chunks(blocks[n - 1])
    }
}

/// The chunks of a list of blocks.
pub open spec fn chunks_of(blocks: Seq<Seq<char>>) -> Seq<JsonV> {
    chunks_upto(blocks, blocks.len())
}

/// What nothing here understands of a chunk.
pub open spec fn chunk_metadata(chunk: JsonV) -> Seq<(Seq<char>, JsonV)> {
    match chunk {
        JsonV::Object(f) => fields_but(f, "candidates"@, "candidates"@, f.len()),
        _ => Seq::empty(),
    }
}

/// The deltas of a part. A call has no name of its own: `fresh` makes one.
pub open spec fn part_deltas(part: JsonV, fresh: Seq<char>) -> Seq<DeltaV> {
    let verbatim = seq![DeltaV::Unknown { raw: crate::json::text_of(part) }];
    match part.get_str("text"@) {
        Some(t) => if !plain_text(part) {
            verbatim
        } else if t.len() > 0 {
            seq![DeltaV::TextDelta(t)]
        } else {
            Seq::empty()
        },
        None => match part.get("functionCall"@) {
            Some(fc) => if plain_call(part) {
                let start = DeltaV::ToolCallStart {
                    index: 0,
                    id: "call_"@ + fresh,
                    name: fc.str_or_empty("name"@),
                };
                match fc.get("args"@) {
                    Some(a) => {
                        let args = crate::json::text_of(a);
                        if args.len() > 0 && args != "{}"@ {
                            seq![start, DeltaV::ToolCallDelta { index: 0, arguments: args }]
                        } else {
                            seq![start]
                        }
                    },
                    None => seq![start],
                }
            } else {
                verbatim
            },
            None => verbatim,
        },
    }
}

/// The deltas of the first `n` parts.
pub open spec fn parts_deltas(parts: Seq<JsonV>, fresh: Seq<Seq<char>>, n: nat) -> Seq<DeltaV>
    decreases n,
{
    if n == 0 {
        Seq::empty()
    } else {
        parts_deltas(parts, fresh, (n - 1) as nat) + part_deltas(parts[n - 1], fresh[n - 1])
    }
}

/// The internal name of a reason inside a stream.
pub open spec fn stream_stop_in(r: Seq<char>) -> Seq<char> {
    if r == "STOP"@ {
        "stop"@
    } else if r == "MAX_TOKENS"@ {
        "length"@
    } else {
        r
    }
}

/// The deltas of a chunk: its start where it is the first, its parts, its usage, what nothing
/// here understands, its end. The first fresh name is the stream's, the others are the parts'.
pub open spec fn chunk_deltas(chunk: JsonV, first: bool, own: Seq<char>, fresh: Seq<Seq<char>>)
    -> Seq<DeltaV> {
    let parts = parts_of(chunk);
    let start = if first {
        seq![
            DeltaV::MessageStart {
                id: "gen-"@ + own,
                model: chunk.str_or_empty("modelVersion"@),
            },
        ]
    } else {
        Seq::empty()
    };
    let u = usage_of(chunk);
    let usage = if u.prompt_tokens > 0 || u.completion_tokens > 0 {
        seq![DeltaV::Usage(u)]
    } else {
        Seq::empty()
    };
    let meta = chunk_metadata(chunk);
    let rest = if meta.len() > 0 {
        seq![
            DeltaV::Unknown {
                raw: crate::json::text_of(
                    single("__google_response_metadata"@, JsonV::Object(meta)),
                ),
            },
        ]
    } else {
        Seq::empty()
    };
    let end = match reason_of(chunk) {
        Some(r) => seq![DeltaV::Done { stop_reason: stream_stop_in(r) }],
        None => Seq::empty(),
    };
    start + parts_deltas(parts, fresh, parts.len()) + usage + rest + end
}

/// The fresh names of a chunk.
pub struct ChunkIds {
    pub own: String,
    pub parts: Vec<String>,
}

pub struct ChunkIdsV {
    pub own: Seq<char>,
    pub parts: Seq<Seq<char>>,
}

impl View for ChunkIds {
    type V = ChunkIdsV;

    open spec fn view(&self) -> ChunkIdsV {
        ChunkIdsV { own: self.own@, parts: self.parts.views() }
    }
}

/// The deltas of the first `n` chunks.
pub open spec fn stream_deltas(
    chunks: Seq<JsonV>,
    first: bool,
    ids: Seq<ChunkIdsV>,
    n: nat,
) -> Seq<DeltaV>
    decreases n,
{
    if n == 0 {
        Seq::empty()
    } else {
        stream_deltas(chunks, first, ids, (n - 1) as nat) + chunk_deltas(
            chunks[n - 1],
            first && n == 1,
            ids[n - 1].own,
            ids[n - 1].parts,
        )
    }
}

/// There are names for every part of every chunk.
pub open spec fn enough_ids(chunks: Seq<JsonV>, ids: Seq<ChunkIdsV>) -> bool {
    &&& ids.len() == chunks.len()
    &&& forall|i: int|
        0 <= i < ids.len() ==> (#[trigger] ids[i]).parts.len() == parts_of(chunks[i]).len()
}

/// All names are texts of UUIDs.
pub open spec fn fresh_ids(ids: Seq<ChunkIdsV>) -> bool {
    forall|i: int|
        0 <= i < ids.len() ==> crate::fresh::is_uuid_text((#[trigger] ids[i]).own)
            && crate::fresh::all_uuid_texts(ids[i].parts)
}

fn read_block(block: &str) -> (r: Vec<Json>)
    ensures
        r.views() == block_chunks(block@),
{
    let lines = crate::text::lines(block);
    let mut out: Vec<Json> = crate::views::none();
    let mut saw: bool = false;
    for i in 0..lines.len()
        invariant
            out.views() == data_values(lines.views(), i as nat),
            saw == has_data(lines.views(), i as nat),
    {
        assert(lines.views()[i as int] == lines@[i as int]@);
        if let Some(d) = crate::text::strip_prefix(lines[i].as_str(), "data: ") {
            saw = true;
            if let Some(v) = Json::parse(crate::text::trim(d)) {
                crate::views::push(&mut out, v);
            }
        }
    }
    if saw {
        return out;
    }
    match Json::parse(crate::text::trim(block)) {
        Some(v) => one(v),
        None => crate::views::none(),
    }
}

fn read_blocks(blocks: &Vec<String>) -> (r: Vec<Json>)
    ensures
        r.views() == chunks_of(blocks.views()),
{
    let mut out: Vec<Json> = crate::views::none();
    for i in 0..blocks.len()
        invariant
            out.views() == chunks_upto(blocks.views(), i as nat),
    {
        assert(blocks.views()[i as int] == blocks@[i as int]@);
        crate::views::extend(&mut out, read_block(blocks[i].as_str()));
    }
    out
}

fn one_delta(d: StreamDelta) -> (r: Vec<StreamDelta>)
    ensures
        r.views() == seq![d@],
{
    let mut out: Vec<StreamDelta> = crate::views::none();
    crate::views::push(&mut out, d);
    assert(out.views() =~= seq![d@]);
    out
}

fn parse_part(part: &Json, fresh: &str) -> (r: Vec<StreamDelta>)
    ensures
        r.views() == part_deltas(part@, fresh@),
{
    if let Some(t) = part.get_str("text") {
        if !is_plain_text_part(part) {
            return one_delta(StreamDelta::Unknown { raw: part.to_text() });
        }
        if t.is_empty() {
            return crate::views::none();
        }
        return one_delta(StreamDelta::TextDelta(t.to_string()));
    }
    if let Some(fc) = part.get("functionCall") {
        if is_plain_function_call_part(part) {
            let start = StreamDelta::ToolCallStart {
                index: 0,
                id: crate::text::cat("call_", fresh),
                name: fc.str_or_empty("name"),
            };
            let ghost s = start@;
            let mut out = one_delta(start);
            if let Some(a) = fc.get("args") {
                let args = a.to_text();
                if !args.as_str().is_empty() && *args.as_str() != *"{}" {
                    let more = StreamDelta::ToolCallDelta { index: 0, arguments: args };
                    let ghost m = more@;
                    crate::views::push(&mut out, more);
                    assert(out.views() =~= seq![s, m]);
                }
            }
            return out;
        }
    }
    one_delta(StreamDelta::Unknown { raw: part.to_text() })
}

/// Reads the deltas of a chunk.
pub fn parse_gemini_chunk(chunk: &Json, first: bool, ids: &ChunkIds) -> (r: Vec<StreamDelta>)
    requires
        ids@.parts.len() == parts_of(chunk@).len(),
    ensures
        r.views() == chunk_deltas(chunk@, first, ids@.own, ids@.parts),
{
    let mut out: Vec<StreamDelta> = crate::views::none();
    if first {
        out = one_delta(
            StreamDelta::MessageStart {
                id: crate::text::cat("gen-", ids.own.as_str()),
                model: chunk.str_or_empty("modelVersion"),
            },
        );
    }
    let ghost start = out.views();
    assert(start + parts_deltas(parts_of(chunk@), ids@.parts, 0) =~= start);
    if let Some(parts) = candidate_parts(chunk) {
        for i in 0..parts.len()
            invariant
                parts.views() == parts_of(chunk@),
                ids@.parts.len() == parts@.len(),
                out.views() == start + parts_deltas(parts.views(), ids@.parts, i as nat),
        {
            assert(parts.views()[i as int] == parts@[i as int]@);
            assert(ids@.parts[i as int] == ids.parts@[i as int]@);
            let ghost before = parts_deltas(parts.views(), ids@.parts, i as nat);
            crate::views::extend(&mut out, parse_part(&parts[i], ids.parts[i].as_str()));
            assert(start + before + part_deltas(parts.views()[i as int], ids@.parts[i as int])
                =~= start + (before + part_deltas(
                parts.views()[i as int],
                ids@.parts[i as int],
            )));
        }
    }
    let ghost a = out.views();
    assert(a == start + parts_deltas(parts_of(chunk@), ids@.parts, parts_of(chunk@).len()));
    let u = extract_gemini_usage(chunk);
    if u.prompt_tokens > 0 || u.completion_tokens > 0 {
        crate::views::push(&mut out, StreamDelta::Usage(u));
        assert(out.views() =~= a + seq![DeltaV::Usage(u)]);
    } else {
        assert(a + Seq::<DeltaV>::empty() =~= a);
    }
    let ghost b = out.views();
    let meta = match chunk.as_object() {
        Some(f) => without_fields(f, "candidates", "candidates"),
        None => Fields::new(),
    };
    if !meta.is_empty() {
        let raw = single_json("__google_response_metadata", Json::of_fields(meta)).to_text();
        let ghost text = raw@;
        crate::views::push(&mut out, StreamDelta::Unknown { raw });
        assert(out.views() =~= b + seq![DeltaV::Unknown { raw: text }]);
    } else {
        assert(b + Seq::<DeltaV>::empty() =~= b);
    }
    let ghost c = out.views();
    match finish_reason(chunk) {
        Some(reason) => {
            let stop_reason = if *reason == *"STOP" {
                "stop".to_string()
            } else if *reason == *"MAX_TOKENS" {
                "length".to_string()
            } else {
                reason.to_string()
            };
            let ghost s = stop_reason@;
            crate::views::push(&mut out, StreamDelta::Done { stop_reason });
            assert(out.views() =~= c + seq![DeltaV::Done { stop_reason: s }]);
        },
        None => {
            assert(c + Seq::<DeltaV>::empty() =~= c);
        },
    }
    out
}

/// The state of a stream that is being read.
pub struct ParserV {
    pub buffer: Seq<char>,
    pub first: bool,
}

/// Reads a stream of the protocol.
#[derive(Debug)]
pub struct GoogleStreamParser {
    buffer: String,
    first: bool,
}

impl View for GoogleStreamParser {
    type V = ParserV;

    closed spec fn view(&self) -> ParserV {
        ParserV { buffer: self.buffer@, first: self.first }
    }
}

impl ParserV {
    /// Nothing read yet.
    pub open spec fn fresh() -> ParserV {
        ParserV { buffer: Seq::empty(), first: true }
    }

    /// The chunks that `raw` completes.
    pub open spec fn completed(self, raw: Seq<char>) -> Seq<JsonV> {
        chunks_of(crate::protocol::sse::blocks_of(self.buffer + raw))
    }

    /// The state behind `raw`.
    pub open spec fn behind(self, raw: Seq<char>) -> ParserV {
        ParserV {
            buffer: crate::protocol::sse::rest_of(self.buffer + raw),
            first: self.first && self.completed(raw).len() == 0,
        }
    }
}

impl Default for GoogleStreamParser {
    fn default() -> (r: Self)
        ensures
            r@ == ParserV::fresh(),
    {
        Self::new()
    }
}

impl GoogleStreamParser {
    /// A parser at the beginning of a stream.
    pub fn new() -> (r: Self)
        ensures
            r@ == ParserV::fresh(),
    {
        let r = GoogleStreamParser { buffer: String::new(), first: true };
        assert(r@.buffer =~= Seq::<char>::empty());
        r
    }

    /// Takes in a piece of the stream and gives the chunks that it completes.
    pub fn take_chunks(&mut self, raw: &str) -> (r: Vec<Json>)
        ensures
            r.views() == old(self)@.completed(raw@),
            final(self)@ == (ParserV {
                buffer: old(self)@.behind(raw@).buffer,
                first: old(self)@.first,
            }),
    {
        let blocks = crate::protocol::sse::take_blocks(&mut self.buffer, raw);
        read_blocks(&blocks)
    }

    /// Reads the deltas of chunks; `ids` names what has no name.
    pub fn parse_chunks_with(&mut self, chunks: &Vec<Json>, ids: &Vec<ChunkIds>) -> (r: Vec<
        StreamDelta,
    >)
        requires
            enough_ids(chunks.views(), ids.views()),
        ensures
            r.views() == stream_deltas(
                chunks.views(),
                old(self)@.first,
                ids.views(),
                chunks@.len(),
            ),
            final(self)@ == (ParserV {
                buffer: old(self)@.buffer,
                first: old(self)@.first && chunks@.len() == 0,
            }),
    {
        let mut out: Vec<StreamDelta> = crate::views::none();
        for i in 0..chunks.len()
            invariant
                enough_ids(chunks.views(), ids.views()),
                self@.buffer == old(self)@.buffer,
                self@.first == (old(self)@.first && i == 0),
                out.views() == stream_deltas(
                    chunks.views(),
                    old(self)@.first,
                    ids.views(),
                    i as nat,
                ),
        {
            assert(chunks.views()[i as int] == chunks@[i as int]@);
            assert(ids.views()[i as int] == ids@[i as int]@);
            crate::views::extend(&mut out, parse_gemini_chunk(&chunks[i], self.first, &ids[i]));
            self.first = false;
        }
        out
    }

    fn read(&mut self, raw: &str) -> (r: Vec<StreamDelta>)
        ensures
            exists|ids: Seq<ChunkIdsV>| #[trigger]
                fresh_ids(ids) && enough_ids(old(self)@.completed(raw@), ids) && r.views()
                    == stream_deltas(
                    old(self)@.completed(raw@),
                    old(self)@.first,
                    ids,
                    old(self)@.completed(raw@).len(),
                ),
            final(self)@ == old(self)@.behind(raw@),
    {
        let chunks = self.take_chunks(raw);
        let mut ids: Vec<ChunkIds> = crate::views::none();
        for i in 0..chunks.len()
            invariant
                ids.views().len() == i,
                forall|j: int|
                    0 <= j < i ==> (#[trigger] ids.views()[j]).parts.len() == parts_of(
                        chunks.views()[j],
                    ).len() && crate::fresh::is_uuid_text(ids.views()[j].own)
                        && crate::fresh::all_uuid_texts(ids.views()[j].parts),
        {
            assert(chunks.views()[i as int] == chunks@[i as int]@);
            let n: usize = match candidate_parts(&chunks[i]) {
                Some(p) => p.len(),
                None => 0,
            };
            let id = ChunkIds {
                own: crate::fresh::uuid_text(),
                parts: crate::fresh::uuid_texts(n),
            };
            crate::views::push(&mut ids, id);
        }
        assert(fresh_ids(ids.views()));
        self.parse_chunks_with(&chunks, &ids)
    }
}

impl StreamResponseDecoder for GoogleStreamParser {
    /// Reads the deltas that a piece of the stream completes.
    fn parse_chunk(&mut self, raw: &str) -> (r: Result<Vec<StreamDelta>, CodecError>)
        ensures
            r is Ok,
            exists|ids: Seq<ChunkIdsV>| #[trigger]
                fresh_ids(ids) && enough_ids(old(self)@.completed(raw@), ids) && r->Ok_0.views()
                    == stream_deltas(
                    old(self)@.completed(raw@),
                    old(self)@.first,
                    ids,
                    old(self)@.completed(raw@).len(),
                ),
            final(self)@ == old(self)@.behind(raw@),
    {
        Ok(self.read(raw))
    }

    /// Reads what is left at the end of the stream as a last block.
    fn finish(&mut self) -> (r: Result<Vec<StreamDelta>, CodecError>)
        ensures
            r is Ok,
            crate::text::trim_of(old(self)@.buffer).len() == 0 ==> r->Ok_0@.len() == 0
                && final(self)@ == old(self)@,
            crate::text::trim_of(old(self)@.buffer).len() > 0 ==> final(self)@ == old(
                self,
            )@.behind("\n\n"@) && exists|ids: Seq<ChunkIdsV>| #[trigger]
                fresh_ids(ids) && enough_ids(old(self)@.completed("\n\n"@), ids)
                    && r->Ok_0.views() == stream_deltas(
                    old(self)@.completed("\n\n"@),
                    old(self)@.first,
                    ids,
                    old(self)@.completed("\n\n"@).len(),
                ),
    {
        if crate::text::is_blank(self.buffer.as_str()) {
            Ok(Vec::new())
        } else {
            Ok(self.read("\n\n"))
        }
    }
}

// ---------------------------------------------------------------- tool arguments

/// Whether all values are texts.
pub open spec fn all_texts(a: Seq<JsonV>) -> bool {
    forall|i: int| 0 <= i < a.len() ==> #[trigger] a[i] is Text
}

/// A list of texts where a text holds one as JSON; anything else as it is.
pub open spec fn unquoted_list(v: JsonV) -> JsonV {
    match v {
        JsonV::Text(s) => match crate::json::json_read(s) {
            Some(JsonV::Array(a)) => if all_texts(a) {
                JsonV::Array(a)
            } else {
                v
            },
            _ => v,
        },
        _ => v,
    }
}

/// The fields with `from` under the name `to`, unless there is one already.
pub open spec fn renamed(
    f: Seq<(Seq<char>, JsonV)>,
    from: Seq<char>,
    to: Seq<char>,
) -> Seq<(Seq<char>, JsonV)> {
    match crate::json::get_field(f, from) {
        Some(v) => crate::json::put_absent(crate::json::drop_field(f, from), to, v),
        None => f,
    }
}

/// The arguments of a tool under the names that the client's tools take.
pub open spec fn tool_args(name: Seq<char>, args: JsonV) -> JsonV {
    match args {
        JsonV::Object(f) => {
            let f = match crate::json::get_field(f, "exclude_patterns"@) {
                Some(v) => crate::json::put_field(f, "exclude_patterns"@, unquoted_list(v)),
                None => f,
            };
            let f = match crate::json::get_field(f, "exclude_pattern"@) {
                Some(v) => crate::json::put_absent(
                    crate::json::drop_field(f, "exclude_pattern"@),
                    "exclude_patterns"@,
                    match v {
                        JsonV::Text(s) => JsonV::Array(seq![v]),
                        _ => unquoted_list(v),
                    },
                ),
                None => f,
            };
            JsonV::Object(
                if name == "glob"@ {
                    renamed(
                        renamed(
                            renamed(f, "include_pattern"@, "pattern"@),
                            "path"@,
                            "root_dir"@,
                        ),
                        "search_root"@,
                        "root_dir"@,
                    )
                } else if name == "list_directory"@ {
                    renamed(f, "path"@, "dir_path"@)
                } else {
                    f
                },
            )
        },
        _ => args,
    }
}

fn normalize_stringified_string_array(v: Json) -> (r: Json)
    ensures
        r@ == unquoted_list(v@),
{
    if let Some(s) = v.as_str() {
        if let Some(parsed) = Json::parse(s) {
            if let Some(a) = parsed.as_array() {
                let mut all: bool = true;
                for i in 0..a.len()
                    invariant
                        all == (forall|j: int| 0 <= j < i ==> #[trigger] a.views()[j] is Text),
                {
                    assert(a.views()[i as int] == a@[i as int]@);
                    if a[i].as_str().is_none() {
                        assert(!(a.views()[i as int] is Text));
                        all = false;
                    }
                }
                if all {
                    return Json::array(crate::json::dup_items(a));
                }
            }
        }
    }
    v
}

fn rename(f: &mut Fields, from: &str, to: &str)
    ensures
        final(f)@ == renamed(old(f)@, from@, to@),
{
    if let Some(v) = f.remove(from) {
        f.insert_absent(to, v);
    }
}

/// Writes the arguments of a tool under the names that the client's tools take.
pub fn normalize_tool_args(tool_name: &str, args: Json) -> (r: Json)
    ensures
        r@ == tool_args(tool_name@, args@),
{
    let mut f = match args.as_object() {
        Some(f) => f.dup(),
        None => {
            return args;
        },
    };
    let given = match f.get("exclude_patterns") {
        Some(v) => Some(v.dup()),
        None => None,
    };
    if let Some(v) = given {
        f.insert("exclude_patterns", normalize_stringified_string_array(v));
    }
    if let Some(v) = f.remove("exclude_pattern") {
        let list = if v.as_str().is_some() {
            Json::array(one(v))
        } else {
            normalize_stringified_string_array(v)
        };
        f.insert_absent("exclude_patterns", list);
    }
    if *tool_name == *"glob" {
        rename(&mut f, "include_pattern", "pattern");
        rename(&mut f, "path", "root_dir");
        rename(&mut f, "search_root", "root_dir");
    } else if *tool_name == *"list_directory" {
        rename(&mut f, "path", "dir_path");
    }
    Json::of_fields(f)
}

// ---------------------------------------------------------------- writing a stream

/// A tool call that is being written: its name and what has come of its arguments.
#[derive(Debug)]
pub struct OpenCall {
    pub name: String,
    pub arguments: String,
}

pub struct OpenCallV {
    pub name: Seq<char>,
    pub arguments: Seq<char>,
}

impl View for OpenCall {
    type V = OpenCallV;

    open spec fn view(&self) -> OpenCallV {
        OpenCallV { name: self.name@, arguments: self.arguments@ }
    }
}

/// The state of a stream that is being written.
pub struct FormatterV {
    pub usage: Usage,
    pub model: Seq<char>,
    pub calls: Seq<(usize, OpenCallV)>,
    pub metadata: Seq<(Seq<char>, JsonV)>,
}

/// A state together with the events written so far.
pub struct WrittenV {
    pub state: FormatterV,
    pub events: Seq<SseV>,
}

/// A chunk with one part.
pub open spec fn part_chunk(part: JsonV) -> JsonV {
    single("candidates"@, JsonV::Array(seq![candidate_json(seq![part])]))
}

/// The fields of `meta` among the first `n` that a chunk takes.
pub open spec fn with_stream_metadata(
    out: JsonV,
    meta: Seq<(Seq<char>, JsonV)>,
    n: nat,
) -> JsonV
    decreases n,
{
    if n == 0 {
        out
    } else {
        let before = with_stream_metadata(out, meta, (n - 1) as nat);
        let (k, v) = meta[n - 1];
        if k == "usageMetadata"@ || k == "candidates"@ {
            before
        } else {
            before.with_absent(seq![(k, v)])
        }
    }
}

/// The last chunk of a stream.
pub open spec fn end_chunk(s: FormatterV, stop_reason: Seq<char>) -> JsonV {
    let reason = if stop_reason == "stop"@ {
        "STOP"@
    } else if stop_reason == "length"@ {
        "MAX_TOKENS"@
    } else {
        stop_reason
    };
    let usage = match crate::json::get_field(s.metadata, "usageMetadata"@) {
        Some(u) => u,
        None => counts_json(s.usage),
    };
    with_stream_metadata(
        single(
            "candidates"@,
            JsonV::Array(
                seq![
                    candidate_json(Seq::empty()).with("finishReason"@, JsonV::Text(reason)),
                ],
            ),
        ).with("usageMetadata"@, counts_merged(usage, s.usage)),
        s.metadata,
        s.metadata.len(),
    )
}

impl FormatterV {
    /// Nothing written yet.
    pub open spec fn fresh() -> FormatterV {
        FormatterV {
            usage: Usage::zero(),
            model: Seq::empty(),
            calls: Seq::empty(),
            metadata: Seq::empty(),
        }
    }
}

impl WrittenV {
    pub open spec fn emit(self, chunk: JsonV) -> WrittenV {
        WrittenV { events: self.events.push(SseV::plain(crate::json::text_of(chunk))), ..self }
    }

    /// A part as a chunk that names the model.
    pub open spec fn emit_part(self, part: JsonV) -> WrittenV {
        self.emit(part_chunk(part).with("modelVersion"@, JsonV::Text(self.state.model)))
    }

    /// One delta more.
    pub open spec fn step(self, d: DeltaV) -> WrittenV {
        match d {
            DeltaV::MessageStart { model, .. } => WrittenV {
                state: FormatterV { model, ..self.state },
                ..self
            },
            DeltaV::ThinkingDelta(t) => self.emit_part(single("text"@, JsonV::Text(t))),
            DeltaV::TextDelta(t) => self.emit_part(single("text"@, JsonV::Text(t))),
            DeltaV::ToolCallStart { index, name, .. } => WrittenV {
                state: FormatterV {
                    calls: crate::slots::slot_put(
                        self.state.calls,
                        index,
                        OpenCallV { name, arguments: Seq::empty() },
                    ),
                    ..self.state
                },
                ..self
            },
            DeltaV::ToolCallDelta { index, arguments } => match crate::slots::slot_get(
                self.state.calls,
                index,
            ) {
                Some(c) => {
                    let grown = c.arguments + arguments;
                    let w = WrittenV {
                        state: FormatterV {
                            calls: crate::slots::slot_put(
                                self.state.calls,
                                index,
                                OpenCallV { arguments: grown, ..c },
                            ),
                            ..self.state
                        },
                        ..self
                    };
                    match crate::json::json_read(grown) {
                        Some(args) => w.emit(
                            part_chunk(
                                single(
                                    "functionCall"@,
                                    single("name"@, JsonV::Text(c.name)).with(
                                        "args"@,
                                        tool_args(c.name, args),
                                    ),
                                ),
                            ),
                        ),
                        None => w,
                    }
                },
                None => self,
            },
            DeltaV::Usage(u) => WrittenV {
                state: FormatterV {
                    usage: Usage {
                        prompt_tokens: if u.prompt_tokens > 0 {
                            u.prompt_tokens
                        } else {
                            self.state.usage.prompt_tokens
                        },
                        completion_tokens: if u.completion_tokens > 0 {
                            u.completion_tokens
                        } else {
                            self.state.usage.completion_tokens
                        },
                        ..self.state.usage
                    },
                    ..self.state
                },
                ..self
            },
            DeltaV::Unknown { raw } => match crate::json::json_read(raw) {
                Some(v) => match v.get_object("__google_response_metadata"@) {
                    Some(meta) => WrittenV {
                        state: FormatterV {
                            metadata: crate::json::put_all_absent(
                                self.state.metadata,
                                meta,
                                meta.len(),
                            ),
                            ..self.state
                        },
                        ..self
                    },
                    None => self.emit_part(v),
                },
                None => self,
            },
            DeltaV::Done { stop_reason } => self.emit(end_chunk(self.state, stop_reason)),
            _ => self,
        }
    }

    /// The first `n` deltas.
    pub open spec fn steps(self, deltas: Seq<DeltaV>, n: nat) -> WrittenV
        decreases n,
    {
        if n == 0 {
            self
        } else {
            self.steps(deltas, (n - 1) as nat).step(deltas[n - 1])
        }
    }
}

/// A state and events as one value.
pub open spec fn written(state: FormatterV, events: Seq<SseV>) -> WrittenV {
    WrittenV { state, events }
}

/// Writes a stream of the protocol.
#[derive(Debug)]
pub struct GoogleStreamFormatter {
    usage: Usage,
    model: String,
    calls: Slots<OpenCall>,
    metadata: Fields,
}

impl View for GoogleStreamFormatter {
    type V = FormatterV;

    closed spec fn view(&self) -> FormatterV {
        FormatterV {
            usage: self.usage,
            model: self.model@,
            calls: self.calls@,
            metadata: self.metadata@,
        }
    }
}

impl Default for GoogleStreamFormatter {
    fn default() -> (r: Self)
        ensures
            r@ == FormatterV::fresh(),
    {
        Self::new()
    }
}

fn chunk_of_part(part: Json) -> (r: Json)
    ensures
        r@ == part_chunk(part@),
{
    single_json("candidates", Json::array(one(candidate(one(part)))))
}

fn add_stream_metadata(out: Json, meta: &Fields) -> (r: Json)
    ensures
        r@ == with_stream_metadata(out@, meta@, meta@.len()),
{
    let mut res = out;
    for i in 0..meta.entries.len()
        invariant
            res@ == with_stream_metadata(out@, meta@, i as nat),
    {
        let key = meta.key_at(i);
        if *key != *"usageMetadata" && *key != *"candidates" {
            let mut f = Fields::new();
            let value = meta.value_at(i).dup();
            let ghost v = value@;
            f.insert(key, value);
            assert(f@ =~= seq![(key@, v)]);
            res = res.with_absent(&f);
        }
    }
    res
}

impl GoogleStreamFormatter {
    /// A formatter at the beginning of a stream.
    pub fn new() -> (r: Self)
        ensures
            r@ == FormatterV::fresh(),
    {
        let r = GoogleStreamFormatter {
            usage: Usage::default(),
            model: String::new(),
            calls: Slots::new(),
            metadata: Fields::new(),
        };
        assert(r@.model =~= Seq::<char>::empty());
        r
    }

    fn emit_part(&self, part: Json, events: &mut Vec<SseEvent>)
        ensures
            written(self@, final(events).views()) == written(self@, old(events).views()).emit_part(
                part@,
            ),
    {
        let chunk = chunk_of_part(part).with("modelVersion", Json::text(self.model.as_str()));
        emit_plain(events, chunk.to_text());
    }

    fn end(&self, stop_reason: &str) -> (r: Json)
        ensures
            r@ == end_chunk(self@, stop_reason@),
    {
        let reason = if *stop_reason == *"stop" {
            "STOP"
        } else if *stop_reason == *"length" {
            "MAX_TOKENS"
        } else {
            stop_reason
        };
        let usage = match self.metadata.get("usageMetadata") {
            Some(u) => u.dup(),
            None => google_usage_from_counts(&self.usage),
        };
        let c = candidate(crate::views::none()).with("finishReason", Json::text(reason));
        let out = single_json("candidates", Json::array(one(c))).with(
            "usageMetadata",
            merge_usage_counts(&usage, &self.usage),
        );
        add_stream_metadata(out, &self.metadata)
    }

    fn grow_call(&mut self, index: usize, arguments: &str, events: &mut Vec<SseEvent>)
        ensures
            written(final(self)@, final(events).views()) == written(
                old(self)@,
                old(events).views(),
            ).step(DeltaV::ToolCallDelta { index, arguments: arguments@ }),
    {
        let (name, grown) = match self.calls.get(index) {
            Some(c) => (
                c.name.clone(),
                crate::text::cat(c.arguments.as_str(), arguments),
            ),
            None => {
                return;
            },
        };
        self.calls.insert(index, OpenCall { name: name.clone(), arguments: grown.clone() });
        if let Some(args) = Json::parse(grown.as_str()) {
            let call = single_json("name", Json::text(name.as_str())).with(
                "args",
                normalize_tool_args(name.as_str(), args),
            );
            let chunk = chunk_of_part(single_json("functionCall", call));
            emit_plain(events, chunk.to_text());
        }
    }

    /// Writes the events of one delta.
    pub fn format_delta(&mut self, delta: &StreamDelta, events: &mut Vec<SseEvent>)
        ensures
            written(final(self)@, final(events).views()) == written(
                old(self)@,
                old(events).views(),
            ).step(delta@),
    {
        match delta {
            StreamDelta::MessageStart { model, .. } => {
                self.model = model.clone();
            },
            StreamDelta::ThinkingDelta(text) => {
                self.emit_part(single_json("text", Json::text(text.as_str())), events);
            },
            StreamDelta::TextDelta(text) => {
                self.emit_part(single_json("text", Json::text(text.as_str())), events);
            },
            StreamDelta::ToolCallStart { index, id: _, name } => {
                let arguments = String::new();
                assert(arguments@ =~= Seq::<char>::empty());
                self.calls.insert(*index, OpenCall { name: name.clone(), arguments });
            },
            StreamDelta::ToolCallDelta { index, arguments } => {
                self.grow_call(*index, arguments.as_str(), events);
            },
            StreamDelta::Usage(u) => {
                if u.prompt_tokens > 0 {
                    self.usage.prompt_tokens = u.prompt_tokens;
                }
                if u.completion_tokens > 0 {
                    self.usage.completion_tokens = u.completion_tokens;
                }
            },
            StreamDelta::Unknown { raw } => {
                if let Some(v) = Json::parse(raw.as_str()) {
                    if let Some(meta) = v.get_object("__google_response_metadata") {
                        self.metadata.insert_all_absent(meta);
                        return;
                    }
                    self.emit_part(v, events);
                }
            },
            StreamDelta::Done { stop_reason } => {
                let chunk = self.end(stop_reason.as_str());
                emit_plain(events, chunk.to_text());
            },
            _ => {},
        }
    }
}

impl StreamResponseEncoder for GoogleStreamFormatter {
    /// Writes the events of deltas.
    fn format_deltas(&mut self, deltas: &Vec<StreamDelta>) -> (r: Vec<SseEvent>)
        ensures
            written(final(self)@, r.views()) == written(old(self)@, Seq::empty()).steps(
                deltas.views(),
                deltas@.len(),
            ),
    {
        let mut events: Vec<SseEvent> = crate::views::none();
        for i in 0..deltas.len()
            invariant
                written(self@, events.views()) == written(old(self)@, Seq::empty()).steps(
                    deltas.views(),
                    i as nat,
                ),
        {
            assert(deltas.views()[i as int] == deltas@[i as int]@);
            self.format_delta(&deltas[i], &mut events);
        }
        events
    }

    /// Nothing follows the end of a stream.
    fn format_done(&mut self) -> (r: Vec<SseEvent>)
        ensures
            r@.len() == 0,
            final(self)@ == old(self)@,
    {
        Vec::new()
    }

    /// The usage known so far.
    fn usage(&self) -> (r: Usage)
        ensures
            r == self@.usage,
    {
        self.usage
    }
}

} // verus!
