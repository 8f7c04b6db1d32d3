//! Writes requests of the Google Generative AI protocol.
use vstd::prelude::*;

use crate::json::{Fields, Json, JsonV};
use crate::protocol::codec::google_generative::types::single_json;
use crate::protocol::ir::request::{
    AiRequest, AiRequestV, BlockV, ContentBlock, ContentV, MediaSource, MediaV, Message,
    MessageContent, MessageV, Role, ToolSpec, ToolSpecV,
};
use crate::protocol::ir::schema::normalize_type_strings;
use crate::protocol::ir::serial::block_or_null;
use crate::protocol::traits::RequestEncoder;
use crate::protocol::types::ToolCallV;
use crate::protocol::CodecError;
use crate::views::Views;

verus! {

/// An object with one field.
pub open spec fn single(k: Seq<char>, v: JsonV) -> JsonV {
    JsonV::obj().with(k, v)
}

// ---------------------------------------------------------------- schemas

/// The schema keywords that the protocol does not take.
pub open spec fn refused_keyword(k: Seq<char>) -> bool {
    k == "$schema"@ || k == "additionalProperties"@ || k == "$ref"@ || k == "ref"@ || k
        == "definitions"@ || k == "$defs"@
}

/// A schema without the keywords that the protocol does not take, at any depth.
pub open spec fn clean_schema(v: JsonV) -> JsonV
    decreases v, 0nat,
{
    match v {
        JsonV::Object(f) => JsonV::Object(clean_fields(f, f.len())),
        JsonV::Array(a) => JsonV::Array(clean_items(a, a.len())),
        _ => v,
    }
}

/// The first `n` fields, clean.
pub open spec fn clean_fields(f: Seq<(Seq<char>, JsonV)>, n: nat) -> Seq<(Seq<char>, JsonV)>
    decreases f, n,
{
    if n == 0 || n > f.len() {
        Seq::empty()
    } else {
        let before = clean_fields(f, (n - 1) as nat);
        if refused_keyword(f[n - 1].0) {
            before
        } else {
            crate::json::put_field(before, f[n - 1].0, clean_schema(f[n - 1].1))
        }
    }
}

/// The first `n` items, clean.
pub open spec fn clean_items(a: Seq<JsonV>, n: nat) -> Seq<JsonV>
    decreases a, n,
{
    if n == 0 || n > a.len() {
        Seq::empty()
    } else {
        clean_items(a, (n - 1) as nat).push(clean_schema(a[n - 1]))
    }
}

fn is_refused_keyword(k: &str) -> (r: bool)
    ensures
        r == refused_keyword(k@),
{
    *k == *"$schema" || *k == *"additionalProperties" || *k == *"$ref" || *k == *"ref" || *k
        == *"definitions" || *k == *"$defs"
}

fn sanitize_fields(f: &Fields) -> (r: Fields)
    ensures
        r@ == clean_fields(f@, f@.len()),
    decreases f,
{
    let n: usize = f.entries.len();
    let mut out = Fields::new();
    let mut i: usize = 0;
    while i < n
        invariant
            n == f.entries@.len(),
            i <= n,
            out@ == clean_fields(f@, i as nat),
        decreases n - i,
    {
        assert(decreases_to!(f => f.entries@[i as int].1));
        assert(f@[i as int] == (f.entries@[i as int].0@, f.entries@[i as int].1@));
        let key: &str = f.entries[i].0.as_str();
        if !is_refused_keyword(key) {
            let v = sanitize_gemini_schema(&f.entries[i].1);
            out.insert(key, v);
        }
        i = i + 1;
    }
    out
}

fn sanitize_items(a: &Vec<Json>) -> (r: Vec<Json>)
    ensures
        r.views() == clean_items(a.views(), a@.len()),
    decreases a,
{
    let n: usize = a.len();
    let mut out: Vec<Json> = crate::views::none();
    let mut i: usize = 0;
    while i < n
        invariant
            n == a@.len(),
            i <= n,
            out.views() == clean_items(a.views(), i as nat),
        decreases n - i,
    {
        assert(decreases_to!(a => a@[i as int]));
        assert(a.views()[i as int] == a@[i as int]@);
        crate::views::push(&mut out, sanitize_gemini_schema(&a[i]));
        i = i + 1;
    }
    out
}

/// Takes out of a schema what the protocol does not take.
pub fn sanitize_gemini_schema(value: &Json) -> (r: Json)
    ensures
        r@ == clean_schema(value@),
    decreases value,
{
    broadcast use {crate::json::lemma_array_view, crate::json::lemma_object_view};

    match value {
        Json::Object(f) => Json::Object(sanitize_fields(f)),
        Json::Array(a) => Json::Array(sanitize_items(a)),
        _ => value.dup(),
    }
}

/// No keyword that the protocol does not take is left among the fields of a value, down to
/// `depth` levels.
pub open spec fn schema_is_clean(v: JsonV, depth: nat) -> bool
    decreases depth,
{
    depth > 0 ==> match v {
        JsonV::Object(f) => forall|i: int|
            0 <= i < f.len() ==> !refused_keyword((#[trigger] f[i]).0) && schema_is_clean(
                f[i].1,
                (depth - 1) as nat,
            ),
        JsonV::Array(a) => forall|i: int|
            0 <= i < a.len() ==> schema_is_clean(#[trigger] a[i], (depth - 1) as nat),
        _ => true,
    }
}

/// A sanitized schema is clean at every depth.
pub proof fn lemma_sanitized_is_clean(v: JsonV, depth: nat)
    ensures
        schema_is_clean(clean_schema(v), depth),
    decreases depth, 1nat, 0nat,
{
    if depth > 0 {
        match v {
            JsonV::Object(f) => {
                lemma_fields_clean(f, f.len(), (depth - 1) as nat);
                assert(clean_schema(v) == JsonV::Object(clean_fields(f, f.len())));
            },
            JsonV::Array(a) => {
                lemma_items_clean(a, a.len(), (depth - 1) as nat);
                assert(clean_schema(v) == JsonV::Array(clean_items(a, a.len())));
            },
            _ => {},
        }
    }
}

proof fn lemma_fields_clean(f: Seq<(Seq<char>, JsonV)>, n: nat, depth: nat)
    requires
        n <= f.len(),
    ensures
        forall|i: int|
            0 <= i < clean_fields(f, n).len() ==> !refused_keyword(
                (#[trigger] clean_fields(f, n)[i]).0,
            ) && schema_is_clean(clean_fields(f, n)[i].1, depth),
    decreases depth, 2nat, n,
{
    if n > 0 {
        lemma_fields_clean(f, (n - 1) as nat, depth);
        lemma_sanitized_is_clean(f[n - 1].1, depth);
        let before = clean_fields(f, (n - 1) as nat);
        let after = clean_fields(f, n);
        if !refused_keyword(f[n - 1].0) {
            crate::json::lemma_field_pos(before, f[n - 1].0, before.len());
            assert forall|i: int| 0 <= i < after.len() implies !refused_keyword(
                (#[trigger] after[i]).0,
            ) && schema_is_clean(after[i].1, depth) by {
                if i < before.len() {
                    assert(!refused_keyword(before[i].0) && schema_is_clean(before[i].1, depth));
                }
            }
        }
    }
}

proof fn lemma_items_clean(a: Seq<JsonV>, n: nat, depth: nat)
    requires
        n <= a.len(),
    ensures
        forall|i: int|
            0 <= i < clean_items(a, n).len() ==> schema_is_clean(#[trigger] clean_items(a, n)[i], depth),
    decreases depth, 2nat, n,
{
    if n > 0 {
        lemma_items_clean(a, (n - 1) as nat, depth);
        lemma_sanitized_is_clean(a[n - 1], depth);
        let before = clean_items(a, (n - 1) as nat);
        let after = clean_items(a, n);
        assert forall|i: int| 0 <= i < after.len() implies schema_is_clean(#[trigger] after[i], depth) by {
            if i < before.len() {
                assert(schema_is_clean(before[i], depth));
            }
        }
    }
}

// ---------------------------------------------------------------- turns

/// A call of a function as a part.
pub open spec fn call_part(name: Seq<char>, args: JsonV) -> JsonV {
    single("functionCall"@, single("name"@, JsonV::Text(name)).with("args"@, args))
}

/// A response of a function as a part.
pub open spec fn answer_part(name: Seq<char>, response: JsonV) -> JsonV {
    single("functionResponse"@, single("name"@, JsonV::Text(name)).with("response"@, response))
}

/// A text as a part.
pub open spec fn text_part(text: Seq<char>) -> JsonV {
    single("text"@, JsonV::Text(text))
}

/// The part for a block.
pub open spec fn block_part(b: BlockV) -> JsonV {
    match b {
        BlockV::Text { text, .. } => text_part(text),
        BlockV::Image { source, .. } => match source {
            MediaV::Base64 { media_type, data } => single(
                "inlineData"@,
                single("mimeType"@, JsonV::Text(media_type)).with("data"@, JsonV::Text(data)),
            ),
            MediaV::Url(url) => single("fileData"@, single("fileUri"@, JsonV::Text(url))),
            MediaV::FileId { file_id, .. } => single(
                "fileData"@,
                single("fileUri"@, JsonV::Text(file_id)),
            ),
        },
        BlockV::ToolUse { name, input, .. } => call_part(name, input),
        BlockV::ToolResult { tool_use_id, content, .. } => answer_part(tool_use_id, content),
        BlockV::Thinking { thinking, .. } => text_part(thinking),
        BlockV::Unknown { raw } => raw,
        other => crate::protocol::ir::serial::value_or_null(other),
    }
}

/// The parts of the first `n` calls, behind `before`.
pub open spec fn call_parts(before: Seq<JsonV>, calls: Seq<ToolCallV>, n: nat) -> Seq<JsonV>
    decreases n,
{
    if n == 0 {
        before
    } else {
        call_parts(before, calls, (n - 1) as nat).push(
            call_part(calls[n - 1].name, JsonV::read_or_object(calls[n - 1].arguments)),
        )
    }
}

/// The parts of a message.
pub open spec fn parts_of(msg: MessageV) -> Seq<JsonV> {
    match msg.content {
        ContentV::Text(t) => match msg.tool_call_id {
            Some(id) => seq![answer_part(id, single("result"@, JsonV::Text(t)))],
            None => match msg.tool_calls {
                Some(calls) => call_parts(
                    if t.len() > 0 {
                        seq![text_part(t)]
                    } else {
                        Seq::empty()
                    },
                    calls,
                    calls.len(),
                ),
                None => seq![text_part(t)],
            },
        },
        ContentV::Blocks(b) => Seq::new(b.len(), |i: int| block_part(b[i])),
    }
}

/// The turn for a message.
pub open spec fn turn_json(msg: MessageV) -> JsonV {
    single(
        "role"@,
        JsonV::Text(
            if msg.role is Assistant {
                "model"@
            } else {
                "user"@
            },
        ),
    ).with("parts"@, JsonV::Array(parts_of(msg)))
}

fn call_json(name: &str, args: Json) -> (r: Json)
    ensures
        r@ == call_part(name@, args@),
{
    single_json("functionCall", single_json("name", Json::text(name)).with("args", args))
}

fn answer_json(name: &str, response: Json) -> (r: Json)
    ensures
        r@ == answer_part(name@, response@),
{
    single_json(
        "functionResponse",
        single_json("name", Json::text(name)).with("response", response),
    )
}

fn text_json(text: &str) -> (r: Json)
    ensures
        r@ == text_part(text@),
{
    single_json("text", Json::text(text))
}

/// Writes a block as a part.
pub fn encode_content_block_for_gemini(b: &ContentBlock) -> (r: Json)
    ensures
        r@ == block_part(b@),
{
    match b {
        ContentBlock::Text { text, .. } => text_json(text.as_str()),
        ContentBlock::Image { source, .. } => match source {
            MediaSource::Base64 { media_type, data } => single_json(
                "inlineData",
                single_json("mimeType", Json::text(media_type.as_str())).with(
                    "data",
                    Json::text(data.as_str()),
                ),
            ),
            MediaSource::Url(url) => single_json(
                "fileData",
                single_json("fileUri", Json::text(url.as_str())),
            ),
            MediaSource::FileId { file_id, .. } => single_json(
                "fileData",
                single_json("fileUri", Json::text(file_id.as_str())),
            ),
        },
        ContentBlock::ToolUse { name, input, .. } => call_json(name.as_str(), input.dup()),
        ContentBlock::ToolResult { tool_use_id, content, .. } => answer_json(
            tool_use_id.as_str(),
            content.dup(),
        ),
        ContentBlock::Thinking { thinking, .. } => text_json(thinking.as_str()),
        ContentBlock::Unknown { raw } => raw.dup(),
        other => block_or_null(other),
    }
}

fn one(v: Json) -> (r: Vec<Json>)
    ensures
        r.views() == seq![v@],
{
    let mut out: Vec<Json> = crate::views::none();
    crate::views::push(&mut out, v);
    assert(out.views() =~= seq![v@]);
    out
}

fn encode_parts(msg: &Message) -> (r: Vec<Json>)
    ensures
        r.views() == parts_of(msg@),
{
    match &msg.content {
        MessageContent::Text(t) => {
            if let Some(id) = &msg.tool_call_id {
                return one(
                    answer_json(id.as_str(), single_json("result", Json::text(t.as_str()))),
                );
            }
            match &msg.tool_calls {
                Some(calls) => {
                    let mut parts: Vec<Json> = crate::views::none();
                    if !t.as_str().is_empty() {
                        parts = one(text_json(t.as_str()));
                    }
                    let ghost before = parts.views();
                    for i in 0..calls.len()
                        invariant
                            parts.views() == call_parts(before, calls.views(), i as nat),
                    {
                        assert(calls.views()[i as int] == calls@[i as int]@);
                        let args = Json::parse_or_object(calls[i].arguments.as_str());
                        crate::views::push(&mut parts, call_json(calls[i].name.as_str(), args));
                    }
                    parts
                },
                None => one(text_json(t.as_str())),
            }
        },
        MessageContent::Blocks(blocks) => {
            let mut parts: Vec<Json> = crate::views::none();
            for i in 0..blocks.len()
                invariant
                    parts.views().len() == i,
                    forall|j: int|
                        0 <= j < i ==> #[trigger] parts.views()[j] == block_part(
                            blocks.views()[j],
                        ),
            {
                assert(blocks.views()[i as int] == blocks@[i as int]@);
                crate::views::push(&mut parts, encode_content_block_for_gemini(&blocks[i]));
            }
            assert(parts.views() =~= Seq::new(
                blocks.views().len(),
                |i: int| block_part(blocks.views()[i]),
            ));
            parts
        },
    }
}

/// Writes a message as a turn; system messages are not written here.
pub fn encode_content(msg: &Message) -> (r: Json)
    requires
        msg.role != Role::System,
    ensures
        r@ == turn_json(msg@),
{
    let role = if msg.role == Role::Assistant {
        "model"
    } else {
        "user"
    };
    single_json("role", Json::text(role)).with("parts", Json::array(encode_parts(msg)))
}

// ---------------------------------------------------------------- whole requests

/// The system messages among the first `n`, as parts.
pub open spec fn system_parts(messages: Seq<MessageV>, n: nat) -> Seq<JsonV>
    decreases n,
{
    if n == 0 {
        Seq::empty()
    } else {
        let before = system_parts(messages, (n - 1) as nat);
        if messages[n - 1].role is System {
            before.push(text_part(messages[n - 1].content.to_text()))
        } else {
            before
        }
    }
}

/// The turns of the first `n` messages, system messages left out.
pub open spec fn turns_upto(messages: Seq<MessageV>, n: nat) -> Seq<JsonV>
    decreases n,
{
    if n == 0 {
        Seq::empty()
    } else {
        let before = turns_upto(messages, (n - 1) as nat);
        if messages[n - 1].role is System {
            before
        } else {
            before.push(turn_json(messages[n - 1]))
        }
    }
}

/// The system instruction of a request body.
pub open spec fn system_of(req: AiRequestV) -> Option<JsonV> {
    match crate::json::get_field(req.meta.vendor.ingress, "__google_raw_system_instruction"@) {
        Some(v) => Some(v),
        None => {
            let parts = system_parts(req.messages, req.messages.len());
            if parts.len() == 0 {
                None
            } else {
                Some(single("parts"@, JsonV::Array(parts)))
            }
        },
    }
}

/// The generation parameters of a request body.
pub open spec fn generation_fields(req: AiRequestV) -> Seq<(Seq<char>, JsonV)> {
    let base = match crate::json::get_field(
        req.meta.vendor.ingress,
        "__google_generation_config"@,
    ) {
        Some(JsonV::Object(f)) => f,
        _ => Seq::empty(),
    };
    let base = crate::json::put_opt(
        base,
        "temperature"@,
        JsonV::opt_float(req.generation.temperature),
    );
    let base = crate::json::put_opt(
        base,
        "maxOutputTokens"@,
        JsonV::opt_u32(req.generation.max_tokens),
    );
    crate::json::put_opt(base, "topP"@, JsonV::opt_float(req.generation.top_p))
}

/// The entry for a tool of the provider.
pub open spec fn builtin_entry(name: Seq<char>) -> Option<JsonV> {
    if name == "__builtin__google_search"@ {
        Some(single("googleSearch"@, JsonV::obj()))
    } else if name == "__builtin__code_execution"@ {
        Some(single("codeExecution"@, JsonV::obj()))
    } else if name == "__builtin__google_search_retrieval"@ {
        Some(single("googleSearchRetrieval"@, JsonV::obj()))
    } else {
        None
    }
}

/// The declaration of a function. The protocol writes the names of types in capitals.
pub open spec fn declaration(t: ToolSpecV) -> JsonV {
    single("name"@, JsonV::Text(t.name)).with_opt(
        "description"@,
        JsonV::opt_text(t.description),
    ).with("parameters"@, crate::protocol::ir::schema::cased(clean_schema(t.parameters), true))
}

/// The declarations of the functions among the first `n` tools.
pub open spec fn declarations(tools: Seq<ToolSpecV>, n: nat) -> Seq<JsonV>
    decreases n,
{
    if n == 0 {
        Seq::empty()
    } else {
        let before = declarations(tools, (n - 1) as nat);
        match builtin_entry(tools[n - 1].name) {
            Some(_) => before,
            None => before.push(declaration(tools[n - 1])),
        }
    }
}

/// The entries of the provider's tools among the first `n`.
pub open spec fn builtins(tools: Seq<ToolSpecV>, n: nat) -> Seq<JsonV>
    decreases n,
{
    if n == 0 {
        Seq::empty()
    } else {
        let before = builtins(tools, (n - 1) as nat);
        match builtin_entry(tools[n - 1].name) {
            Some(e) => before.push(e),
            None => before,
        }
    }
}

/// The entries of the tools: all functions in one, then the provider's tools.
pub open spec fn tool_entries(tools: Seq<ToolSpecV>) -> Seq<JsonV> {
    let decls = declarations(tools, tools.len());
    (if decls.len() == 0 {
        Seq::empty()
    } else {
        seq![single("functionDeclarations"@, JsonV::Array(decls))]
    }) + builtins(tools, tools.len())
}

/// The tools of a request body.
pub open spec fn tools_of(req: AiRequestV) -> Option<JsonV> {
    match crate::json::get_field(req.meta.vendor.ingress, "__google_raw_tools"@) {
        Some(v) => Some(v),
        None => match req.tools {
            Some(tools) => if tool_entries(tools).len() == 0 {
                None
            } else {
                Some(JsonV::Array(tool_entries(tools)))
            },
            None => None,
        },
    }
}

/// The body of a request.
pub open spec fn body_of(req: AiRequestV) -> JsonV {
    let ingress = req.meta.vendor.ingress;
    let generation = generation_fields(req);
    single("contents"@, JsonV::Array(turns_upto(req.messages, req.messages.len()))).with_opt(
        "systemInstruction"@,
        system_of(req),
    ).with_opt(
        "generationConfig"@,
        if generation.len() == 0 {
            None
        } else {
            Some(JsonV::Object(generation))
        },
    ).with_opt("tools"@, tools_of(req)).with_opt(
        "toolConfig"@,
        crate::json::get_field(ingress, "__google_tool_config"@),
    ).with_opt(
        "safetySettings"@,
        crate::json::get_field(ingress, "__google_safety_settings"@),
    ).with_opt("cachedContent"@, crate::json::get_field(ingress, "__google_cached_content"@))
}

/// The path of a request.
pub open spec fn path_of(model: Seq<char>, stream: bool) -> Seq<char> {
    "/v1beta/models/"@ + model + (if stream {
        ":streamGenerateContent?alt=sse"@
    } else {
        ":generateContent"@
    })
}

fn dup_field(f: &Fields, key: &str) -> (r: Option<Json>)
    ensures
        r.views() == crate::json::get_field(f@, key@),
{
    match f.get(key) {
        Some(v) => Some(v.dup()),
        None => None,
    }
}

fn encode_system(req: &AiRequest) -> (r: Option<Json>)
    ensures
        r.views() == system_of(req@),
{
    if let Some(v) = req.meta.vendor.ingress.get("__google_raw_system_instruction") {
        return Some(v.dup());
    }
    let mut parts: Vec<Json> = crate::views::none();
    for i in 0..req.messages.len()
        invariant
            parts.views() == system_parts(req@.messages, i as nat),
    {
        let msg = &req.messages[i];
        assert(req@.messages[i as int] == msg@);
        if msg.role == Role::System {
            crate::views::push(&mut parts, text_json(msg.content.to_text().as_str()));
        }
    }
    if parts.len() == 0 {
        None
    } else {
        Some(single_json("parts", Json::array(parts)))
    }
}

fn encode_turns(req: &AiRequest) -> (r: Vec<Json>)
    ensures
        r.views() == turns_upto(req@.messages, req@.messages.len()),
{
    let mut out: Vec<Json> = crate::views::none();
    for i in 0..req.messages.len()
        invariant
            out.views() == turns_upto(req@.messages, i as nat),
    {
        let msg = &req.messages[i];
        assert(req@.messages[i as int] == msg@);
        if msg.role != Role::System {
            crate::views::push(&mut out, encode_content(msg));
        }
    }
    out
}

fn encode_generation(req: &AiRequest) -> (r: Fields)
    ensures
        r@ == generation_fields(req@),
{
    let mut f = Fields::new();
    if let Some(v) = req.meta.vendor.ingress.get("__google_generation_config") {
        if let Some(given) = v.as_object() {
            f = given.dup();
        }
    }
    f.insert_opt("temperature", Json::float_opt(&req.generation.temperature));
    f.insert_opt("maxOutputTokens", Json::u32_opt(req.generation.max_tokens));
    f.insert_opt("topP", Json::float_opt(&req.generation.top_p));
    f
}

fn builtin_json(name: &str) -> (r: Option<Json>)
    ensures
        r.views() == builtin_entry(name@),
{
    if *name == *"__builtin__google_search" {
        Some(single_json("googleSearch", Json::object()))
    } else if *name == *"__builtin__code_execution" {
        Some(single_json("codeExecution", Json::object()))
    } else if *name == *"__builtin__google_search_retrieval" {
        Some(single_json("googleSearchRetrieval", Json::object()))
    } else {
        None
    }
}

fn encode_tool_entries(tools: &Vec<ToolSpec>) -> (r: Vec<Json>)
    ensures
        r.views() == tool_entries(tools.views()),
{
    let mut decls: Vec<Json> = crate::views::none();
    let mut own: Vec<Json> = crate::views::none();
    for i in 0..tools.len()
        invariant
            decls.views() == declarations(tools.views(), i as nat),
            own.views() == builtins(tools.views(), i as nat),
    {
        let t = &tools[i];
        assert(tools.views()[i as int] == t@);
        match builtin_json(t.name.as_str()) {
            Some(e) => {
                crate::views::push(&mut own, e);
            },
            None => {
                let d = single_json("name", Json::text(t.name.as_str())).with_opt(
                    "description",
                    Json::text_opt(&t.description),
                ).with(
                    "parameters",
                    normalize_type_strings(&sanitize_gemini_schema(&t.parameters), true),
                );
                crate::views::push(&mut decls, d);
            },
        }
    }
    let mut out: Vec<Json> = crate::views::none();
    if decls.len() > 0 {
        out = one(single_json("functionDeclarations", Json::array(decls)));
    }
    crate::views::extend(&mut out, own);
    out
}

fn encode_tools(req: &AiRequest) -> (r: Option<Json>)
    ensures
        r.views() == tools_of(req@),
{
    if let Some(v) = req.meta.vendor.ingress.get("__google_raw_tools") {
        return Some(v.dup());
    }
    match &req.tools {
        Some(tools) => {
            let entries = encode_tool_entries(tools);
            if entries.len() == 0 {
                None
            } else {
                Some(Json::array(entries))
            }
        },
        None => None,
    }
}

/// Writes requests of the protocol.
#[derive(Debug, Clone, Copy)]
pub struct GoogleEncoder;

impl RequestEncoder for GoogleEncoder {
    /// Writes a request; it has no headers of its own.
    fn encode_request(&self, req: &AiRequest) -> (r: Result<
        (Json, Vec<(String, String)>),
        CodecError,
    >)
        ensures
            r matches Ok((body, headers)) && body@ == body_of(req@) && headers@.len() == 0,
    {
        let ingress = &req.meta.vendor.ingress;
        let generation = encode_generation(req);
        let generation = if generation.is_empty() {
            None
        } else {
            Some(Json::of_fields(generation))
        };
        let body = single_json("contents", Json::array(encode_turns(req))).with_opt(
            "systemInstruction",
            encode_system(req),
        ).with_opt("generationConfig", generation).with_opt("tools", encode_tools(req)).with_opt(
            "toolConfig",
            dup_field(ingress, "__google_tool_config"),
        ).with_opt("safetySettings", dup_field(ingress, "__google_safety_settings")).with_opt(
            "cachedContent",
            dup_field(ingress, "__google_cached_content"),
        );
        Ok((body, Vec::new()))
    }

    /// The path of a request.
    fn egress_path(&self, model: &str, stream: bool) -> (r: String)
        ensures
            r@ == path_of(model@, stream),
    {
        if stream {
            crate::text::cat3("/v1beta/models/", model, ":streamGenerateContent?alt=sse")
        } else {
            crate::text::cat3("/v1beta/models/", model, ":generateContent")
        }
    }
}

} // verus!
