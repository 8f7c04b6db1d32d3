//! Reads requests of the Google Generative AI protocol.
//!
//! The model and whether to stream stand in the path of the request, not in its body.
use vstd::prelude::*;

use crate::json::{Fields, Json, JsonV};
use crate::protocol::codec::google_generative::types::{
    entries_value, safeties_value, GoogleContent, GoogleFunctionDecl, GoogleGenerationConfig,
    GooglePart, GoogleRequest, GoogleToolEntry, SafetySetting,
};
use crate::protocol::ids::EndpointV;
use crate::protocol::ir::ext::{ExtV, GoogleExt, GoogleExtV, ProtocolExt};
use crate::protocol::ir::request::{
    AiRequest, AiRequestV, BlockV, ContentBlock, ContentV, GenerationConfig, GenerationV,
    MediaSource, MediaV, Message, MessageContent, MessageV, MetaV, ReasoningConfig, ReasoningV,
    RequestMetadata, Role, SafetySettings, SafetyV, StreamConfig, ToolCall, ToolSpec, ToolSpecV,
};
use crate::protocol::ir::vendor_ext::{VendorExtensions, VendorV};
use crate::protocol::traits::RequestDecoder;
use crate::protocol::types::ToolCallV;
use crate::protocol::CodecError;
use crate::views::Views;

verus! {

// ---------------------------------------------------------------- turns

/// What has been read from the parts of a turn.
pub struct PartsV {
    pub texts: Seq<Seq<char>>,
    pub blocks: Seq<BlockV>,
    pub calls: Seq<ToolCallV>,
    pub answers: bool,
}

impl PartsV {
    pub open spec fn none() -> PartsV {
        PartsV { texts: Seq::empty(), blocks: Seq::empty(), calls: Seq::empty(), answers: false }
    }

    pub open spec fn block(self, b: BlockV) -> PartsV {
        PartsV { blocks: self.blocks.push(b), ..self }
    }

    pub open spec fn text(self, t: Seq<char>) -> PartsV {
        PartsV {
            texts: self.texts.push(t),
            blocks: self.blocks.push(BlockV::Text { text: t, cache_control: None }),
            ..self
        }
    }

    /// One part more. A call has no name of its own: `fresh` makes one.
    pub open spec fn part(self, p: GooglePart, fresh: Seq<char>) -> PartsV {
        match p {
            GooglePart::Text { text } => self.text(text@),
            GooglePart::InlineData { inline_data } => self.block(
                BlockV::Image {
                    source: MediaV::Base64 {
                        media_type: inline_data.mime_type@,
                        data: inline_data.data@,
                    },
                    cache_control: None,
                },
            ),
            GooglePart::FileData { file_data } => self.block(
                BlockV::File { source: MediaV::Url(file_data.file_uri@) },
            ),
            GooglePart::FunctionCall { function_call } => {
                let id = "call_"@ + fresh;
                PartsV {
                    calls: self.calls.push(
                        ToolCallV {
                            id,
                            name: function_call.name@,
                            arguments: crate::json::text_of(function_call.args@),
                        },
                    ),
                    ..self.block(
                        BlockV::ToolUse {
                            id,
                            name: function_call.name@,
                            input: function_call.args@,
                            cache_control: None,
                        },
                    )
                }
            },
            GooglePart::FunctionResponse { function_response } => PartsV {
                answers: true,
                ..self.block(
                    BlockV::ToolResult {
                        tool_use_id: function_response.name@,
                        content: function_response.response@,
                        is_error: None,
                        cache_control: None,
                    },
                )
            },
            GooglePart::ExecutableCode { executable_code } => self.block(
                BlockV::ExecutableCode {
                    code: executable_code.code@,
                    language: executable_code.language.views(),
                    id: None,
                },
            ),
            GooglePart::CodeExecutionResult { code_execution_result } => self.block(
                BlockV::CodeExecutionResult {
                    return_code: 0,
                    stdout: match code_execution_result.output {
                        Some(o) => o@,
                        None => Seq::empty(),
                    },
                    stderr: Seq::empty(),
                    id: None,
                },
            ),
            GooglePart::Other(v) => if GooglePart::thinks(v@) {
                self.block(
                    BlockV::Thinking { thinking: v@.str_or_empty("text"@), signature: None },
                )
            } else {
                match v@.get_str("text"@) {
                    Some(t) => self.text(t),
                    None => self,
                }
            },
        }
    }

    /// The first `n` parts.
    pub open spec fn of(parts: Seq<GooglePart>, fresh: Seq<Seq<char>>, n: nat) -> PartsV
        decreases n,
    {
        if n == 0 {
            PartsV::none()
        } else {
            PartsV::of(parts, fresh, (n - 1) as nat).part(parts[n - 1], fresh[n - 1])
        }
    }
}

/// The message for a turn, or what is wrong with it.
pub open spec fn message_of(c: GoogleContent, fresh: Seq<Seq<char>>) -> Result<
    MessageV,
    Seq<char>,
> {
    let role = match c.role.views() {
        Some(r) => if r == "user"@ {
            Ok(Role::User)
        } else if r == "model"@ {
            Ok(Role::Assistant)
        } else {
            Err("unknown Gemini role: "@ + r)
        },
        None => Ok(Role::User),
    };
    match role {
        Ok(role) => {
            let p = PartsV::of(c.parts@, fresh, c.parts@.len());
            Ok(
                MessageV {
                    role: if p.answers {
                        Role::Tool
                    } else {
                        role
                    },
                    content: if p.blocks.len() == 1 && p.texts.len() == 1 {
                        ContentV::Text(p.texts[0])
                    } else {
                        ContentV::Blocks(p.blocks)
                    },
                    tool_calls: crate::views::some_list(p.calls),
                    tool_call_id: None,
                    meta: None,
                },
            )
        },
        Err(e) => Err(e),
    }
}

struct Parts {
    texts: Vec<String>,
    blocks: Vec<ContentBlock>,
    calls: Vec<ToolCall>,
    answers: bool,
}

impl View for Parts {
    type V = PartsV;

    closed spec fn view(&self) -> PartsV {
        PartsV {
            texts: self.texts.views(),
            blocks: self.blocks.views(),
            calls: self.calls.views(),
            answers: self.answers,
        }
    }
}

impl Parts {
    fn text(&mut self, t: &str)
        ensures
            final(self)@ == old(self)@.text(t@),
    {
        crate::views::push(&mut self.texts, t.to_string());
        crate::views::push(
            &mut self.blocks,
            ContentBlock::Text { text: t.to_string(), cache_control: None },
        );
    }

    fn block(&mut self, b: ContentBlock)
        ensures
            final(self)@ == old(self)@.block(b@),
    {
        crate::views::push(&mut self.blocks, b);
    }

    fn part(&mut self, p: &GooglePart, fresh: &str)
        ensures
            final(self)@ == old(self)@.part(*p, fresh@),
    {
        match p {
            GooglePart::Text { text } => self.text(text.as_str()),
            GooglePart::InlineData { inline_data } => self.block(
                ContentBlock::Image {
                    source: MediaSource::Base64 {
                        media_type: inline_data.mime_type.clone(),
                        data: inline_data.data.clone(),
                    },
                    cache_control: None,
                },
            ),
            GooglePart::FileData { file_data } => self.block(
                ContentBlock::File { source: MediaSource::Url(file_data.file_uri.clone()) },
            ),
            GooglePart::FunctionCall { function_call } => {
                let id = crate::text::cat("call_", fresh);
                let call = ToolCall {
                    id: id.clone(),
                    name: function_call.name.clone(),
                    arguments: function_call.args.to_text(),
                };
                crate::views::push(&mut self.calls, call);
                self.block(
                    ContentBlock::ToolUse {
                        id,
                        name: function_call.name.clone(),
                        input: function_call.args.dup(),
                        cache_control: None,
                    },
                );
            },
            GooglePart::FunctionResponse { function_response } => {
                self.answers = true;
                self.block(
                    ContentBlock::ToolResult {
                        tool_use_id: function_response.name.clone(),
                        content: function_response.response.dup(),
                        is_error: None,
                        cache_control: None,
                    },
                );
            },
            GooglePart::ExecutableCode { executable_code } => self.block(
                ContentBlock::ExecutableCode {
                    code: executable_code.code.clone(),
                    language: crate::text::clone_opt(&executable_code.language),
                    id: None,
                },
            ),
            GooglePart::CodeExecutionResult { code_execution_result } => {
                let empty = String::new();
                assert(empty@ =~= Seq::<char>::empty());
                let stdout = match &code_execution_result.output {
                    Some(o) => o.clone(),
                    None => empty.clone(),
                };
                self.block(
                    ContentBlock::CodeExecutionResult {
                        return_code: 0,
                        stdout,
                        stderr: empty,
                        id: None,
                    },
                );
            },
            GooglePart::Other(v) => {
                if GooglePart::is_thought(v) {
                    self.block(
                        ContentBlock::Thinking {
                            thinking: v.str_or_empty("text"),
                            signature: None,
                        },
                    );
                } else if let Some(t) = v.get_str("text") {
                    self.text(t);
                }
            },
        }
    }
}

/// Reads a turn; the identifier at a part's place is taken where the part is a call.
pub fn decode_content(content: &GoogleContent, fresh: &Vec<String>) -> (r: Result<
    Message,
    CodecError,
>)
    requires
        fresh@.len() == content.parts@.len(),
    ensures
        r.views() == message_of(*content, fresh.views()),
{
    let role = match &content.role {
        Some(r) => {
            if *r.as_str() == *"user" {
                Role::User
            } else if *r.as_str() == *"model" {
                Role::Assistant
            } else {
                return Err(
                    CodecError { message: crate::text::cat("unknown Gemini role: ", r.as_str()) },
                );
            }
        },
        None => Role::User,
    };
    let mut parts = Parts {
        texts: crate::views::none(),
        blocks: crate::views::none(),
        calls: crate::views::none(),
        answers: false,
    };
    for i in 0..content.parts.len()
        invariant
            fresh@.len() == content.parts@.len(),
            parts@ == PartsV::of(content.parts@, fresh.views(), i as nat),
    {
        assert(fresh.views()[i as int] == fresh@[i as int]@);
        parts.part(&content.parts[i], fresh[i].as_str());
    }
    let body = if parts.blocks.len() == 1 && parts.texts.len() == 1 {
        assert(parts.texts.views()[0] == parts.texts@[0]@);
        MessageContent::Text(parts.texts[0].clone())
    } else {
        MessageContent::Blocks(parts.blocks)
    };
    Ok(
        Message {
            role: if parts.answers {
                Role::Tool
            } else {
                role
            },
            content: body,
            tool_calls: crate::views::non_empty(parts.calls),
            tool_call_id: None,
            meta: None,
        },
    )
}

// ---------------------------------------------------------------- system instruction

/// The texts among the first `n` parts.
pub open spec fn part_texts(parts: Seq<GooglePart>, n: nat) -> Seq<Seq<char>>
    decreases n,
{
    if n == 0 {
        Seq::empty()
    } else {
        let before = part_texts(parts, (n - 1) as nat);
        match parts[n - 1] {
            GooglePart::Text { text } => before.push(text@),
            _ => before,
        }
    }
}

/// Whether a system instruction is more than one plain text.
pub open spec fn rich_system(s: Option<GoogleContent>) -> bool {
    match s {
        Some(c) => c.parts@.len() > 1 || exists|i: int|
            0 <= i < c.parts@.len() && !(#[trigger] c.parts@[i] is Text),
        None => false,
    }
}

/// The messages that a system instruction becomes.
pub open spec fn system_messages(s: Option<GoogleContent>) -> Seq<MessageV> {
    match s {
        Some(c) => {
            let t = crate::text::join_of(part_texts(c.parts@, c.parts@.len()), "\n"@);
            if t.len() > 0 {
                seq![MessageV::plain(Role::System, ContentV::Text(t))]
            } else {
                Seq::empty()
            }
        },
        None => Seq::empty(),
    }
}

fn is_rich_system(s: &Option<GoogleContent>) -> (r: bool)
    ensures
        r == rich_system(*s),
{
    match s {
        Some(c) => {
            if c.parts.len() > 1 {
                return true;
            }
            for i in 0..c.parts.len()
                invariant
                    forall|j: int| 0 <= j < i ==> #[trigger] c.parts@[j] is Text,
                    *s == Some(*c),
            {
                match &c.parts[i] {
                    GooglePart::Text { .. } => {},
                    _ => {
                        assert(!(c.parts@[i as int] is Text));
                        return true;
                    },
                }
            }
            false
        },
        None => false,
    }
}

fn decode_system(s: &Option<GoogleContent>) -> (r: Vec<Message>)
    ensures
        r.views() == system_messages(*s),
{
    let mut out: Vec<Message> = crate::views::none();
    if let Some(c) = s {
        let mut texts: Vec<String> = crate::views::none();
        for i in 0..c.parts.len()
            invariant
                texts.views() == part_texts(c.parts@, i as nat),
        {
            if let GooglePart::Text { text } = &c.parts[i] {
                crate::views::push(&mut texts, text.clone());
            }
        }
        let t = crate::text::join(&texts, "\n");
        if !t.as_str().is_empty() {
            let m = Message::plain(Role::System, MessageContent::Text(t));
            crate::views::push(&mut out, m);
            assert(out.views() =~= seq![m@]);
        }
    }
    out
}

// ---------------------------------------------------------------- tools

/// A tool under a name alone.
pub open spec fn bare_tool(name: Seq<char>) -> ToolSpecV {
    ToolSpecV {
        name,
        description: None,
        parameters: JsonV::obj(),
        strict: None,
        cache_control: None,
        meta: None,
    }
}

/// The tool for a function declaration.
pub open spec fn decl_tool(d: GoogleFunctionDecl) -> ToolSpecV {
    ToolSpecV {
        description: d.description.views(),
        parameters: match d.parameters {
            Some(p) => p@,
            None => JsonV::obj(),
        },
        ..bare_tool(d.name@)
    }
}

/// A list with the tool of the provider where the entry asks for it.
pub open spec fn with_builtin(v: Seq<ToolSpecV>, asked: bool, name: Seq<char>) -> Seq<ToolSpecV> {
    if asked {
        v.push(bare_tool(name))
    } else {
        v
    }
}

/// The tools of an entry.
pub open spec fn entry_tools(e: GoogleToolEntry) -> Seq<ToolSpecV> {
    let own = match e.function_declarations {
        Some(v) => Seq::new(v@.len(), |i: int| decl_tool(v@[i])),
        None => Seq::empty(),
    };
    let own = with_builtin(own, e.google_search is Some, "__builtin__google_search"@);
    let own = with_builtin(own, e.code_execution is Some, "__builtin__code_execution"@);
    with_builtin(
        own,
        e.google_search_retrieval is Some,
        "__builtin__google_search_retrieval"@,
    )
}

/// The tools of the first `n` entries.
pub open spec fn tools_upto(v: Seq<GoogleToolEntry>, n: nat) -> Seq<ToolSpecV>
    decreases n,
{
    if n == 0 {
        Seq::empty()
    } else {
        tools_upto(v, (n - 1) as nat) + entry_tools(v[n - 1])
    }
}

/// Whether an entry asks for a tool of the provider.
pub open spec fn has_builtin(e: GoogleToolEntry) -> bool {
    e.google_search is Some || e.code_execution is Some || e.google_search_retrieval is Some
}

/// Whether one of the tools is the provider's.
pub open spec fn any_builtin(t: Option<Vec<GoogleToolEntry>>) -> bool {
    match t {
        Some(v) => exists|i: int| 0 <= i < v@.len() && #[trigger] has_builtin(v@[i]),
        None => false,
    }
}

fn name_tool(name: &str) -> (r: ToolSpec)
    ensures
        r@ == bare_tool(name@),
{
    ToolSpec {
        name: name.to_string(),
        description: None,
        parameters: Json::object(),
        strict: None,
        cache_control: None,
        meta: None,
    }
}

fn decode_entry(e: &GoogleToolEntry) -> (r: Vec<ToolSpec>)
    ensures
        r.views() == entry_tools(*e),
{
    let mut out: Vec<ToolSpec> = crate::views::none();
    if let Some(v) = &e.function_declarations {
        for i in 0..v.len()
            invariant
                out.views().len() == i,
                forall|j: int| 0 <= j < i ==> #[trigger] out.views()[j] == decl_tool(v@[j]),
        {
            let d = &v[i];
            let t = ToolSpec {
                name: d.name.clone(),
                description: crate::text::clone_opt(&d.description),
                parameters: match &d.parameters {
                    Some(p) => p.dup(),
                    None => Json::object(),
                },
                strict: None,
                cache_control: None,
                meta: None,
            };
            crate::views::push(&mut out, t);
        }
        assert(out.views() =~= Seq::new(v@.len(), |i: int| decl_tool(v@[i])));
    }
    if e.google_search.is_some() {
        crate::views::push(&mut out, name_tool("__builtin__google_search"));
    }
    if e.code_execution.is_some() {
        crate::views::push(&mut out, name_tool("__builtin__code_execution"));
    }
    if e.google_search_retrieval.is_some() {
        crate::views::push(&mut out, name_tool("__builtin__google_search_retrieval"));
    }
    out
}

fn decode_tools(v: &Vec<GoogleToolEntry>) -> (r: Vec<ToolSpec>)
    ensures
        r.views() == tools_upto(v@, v@.len()),
{
    let mut out: Vec<ToolSpec> = crate::views::none();
    for i in 0..v.len()
        invariant
            out.views() == tools_upto(v@, i as nat),
    {
        crate::views::extend(&mut out, decode_entry(&v[i]));
    }
    out
}

fn asks_builtin(t: &Option<Vec<GoogleToolEntry>>) -> (r: bool)
    ensures
        r == any_builtin(*t),
{
    match t {
        Some(v) => {
            for i in 0..v.len()
                invariant
                    forall|j: int| 0 <= j < i ==> !#[trigger] has_builtin(v@[j]),
                    *t == Some(*v),
            {
                let e = &v[i];
                if e.google_search.is_some() || e.code_execution.is_some()
                    || e.google_search_retrieval.is_some() {
                    assert(has_builtin(t->0@[i as int]));
                    return true;
                }
            }
            false
        },
        None => false,
    }
}

// ---------------------------------------------------------------- whole requests

/// The messages of the first `n` turns, behind those of the system instruction.
pub open spec fn messages_upto(
    req: GoogleRequest,
    fresh: Seq<Seq<Seq<char>>>,
    n: nat,
) -> Result<Seq<MessageV>, Seq<char>>
    decreases n,
{
    if n == 0 {
        Ok(system_messages(req.system_instruction))
    } else {
        match messages_upto(req, fresh, (n - 1) as nat) {
            Ok(before) => match message_of(req.contents@[n - 1], fresh[n - 1]) {
                Ok(m) => Ok(before.push(m)),
                Err(e) => Err(e),
            },
            Err(e) => Err(e),
        }
    }
}

/// The thinking that the generation parameters ask for.
pub open spec fn reasoning_of(g: Option<GoogleGenerationConfig>) -> ReasoningV {
    match g {
        Some(c) => match c.thinking_config {
            Some(t) => {
                let budget = t@.opt_count("thinkingBudget"@);
                ReasoningV {
                    enabled: budget matches Some(b) && b > 0,
                    budget_tokens: budget,
                    ..ReasoningV::none()
                }
            },
            None => ReasoningV::none(),
        },
        None => ReasoningV::none(),
    }
}

/// The generation parameters.
pub open spec fn generation_of(g: Option<GoogleGenerationConfig>) -> GenerationV {
    match g {
        Some(c) => GenerationV {
            temperature: c.temperature.views(),
            max_tokens: c.max_output_tokens,
            top_p: c.top_p.views(),
            seed: match c.seed {
                Some(s) => Some(s as i64),
                None => None,
            },
            stop: crate::views::opt_list(c.stop_sequences),
            presence_penalty: c.presence_penalty.views(),
            frequency_penalty: c.frequency_penalty.views(),
        },
        None => GenerationV::none(),
    }
}

/// What only this protocol knows of the request.
pub open spec fn ext_of(req: GoogleRequest) -> GoogleExtV {
    let rest = GoogleExtV {
        top_k: None,
        candidate_count: None,
        response_logprobs: None,
        logprobs: None,
        response_mime_type: None,
        response_json_schema: None,
        tool_config: req.tool_config.views(),
        cached_content: req.cached_content.views(),
        thinking_config: None,
    };
    match req.generation_config {
        Some(c) => GoogleExtV {
            top_k: match c.top_k {
                Some(k) => Some(crate::json::float_to_u32(k@)),
                None => None,
            },
            candidate_count: c.candidate_count,
            response_logprobs: c.response_logprobs,
            logprobs: match c.logprobs {
                Some(n) => Some(n as u32),
                None => None,
            },
            response_mime_type: c.response_mime_type.views(),
            response_json_schema: c.response_schema.views(),
            thinking_config: c.thinking_config.views(),
            ..rest
        },
        None => rest,
    }
}

/// What the request holds besides, for an encoder of the same protocol.
pub open spec fn ingress_of(req: GoogleRequest) -> Seq<(Seq<char>, JsonV)> {
    let f = Seq::<(Seq<char>, JsonV)>::empty();
    let f = crate::json::put_opt(
        f,
        "__google_generation_config"@,
        match req.generation_config {
            Some(g) => Some(
                crate::protocol::codec::google_generative::types::generation_json(g),
            ),
            None => None,
        },
    );
    let f = crate::json::put_opt(
        f,
        "__google_raw_system_instruction"@,
        match req.system_instruction {
            Some(s) => if rich_system(req.system_instruction) {
                Some(crate::protocol::codec::google_generative::types::content_json(s))
            } else {
                None
            },
            None => None,
        },
    );
    let f = crate::json::put_opt(
        f,
        "__google_raw_tools"@,
        match req.tools {
            Some(t) => if any_builtin(req.tools) {
                Some(crate::protocol::codec::google_generative::types::entries_json(t@))
            } else {
                None
            },
            None => None,
        },
    );
    let f = crate::json::put_opt(
        f,
        "__google_safety_settings"@,
        match req.safety_settings {
            Some(s) => Some(crate::protocol::codec::google_generative::types::safeties_json(s@)),
            None => None,
        },
    );
    let f = crate::json::put_opt(f, "__google_tool_config"@, req.tool_config.views());
    crate::json::put_opt(
        f,
        "__google_cached_content"@,
        JsonV::opt_text(req.cached_content.views()),
    )
}

/// The request with its messages decoded.
pub open spec fn request_with(
    req: GoogleRequest,
    model: Seq<char>,
    stream: bool,
    messages: Seq<MessageV>,
) -> AiRequestV {
    AiRequestV {
        generation: generation_of(req.generation_config),
        stream: StreamConfig { enabled: stream, include_usage: false },
        tools: match req.tools {
            Some(v) => crate::views::some_list(tools_upto(v@, v@.len())),
            None => None,
        },
        reasoning: reasoning_of(req.generation_config),
        safety_settings: match req.safety_settings {
            Some(v) => Some(
                Seq::new(
                    v@.len(),
                    |i: int|
                        SafetyV { category: v@[i].category@, threshold: v@[i].threshold@ },
                ),
            ),
            None => None,
        },
        ext: Some(ExtV::Google(ext_of(req))),
        meta: MetaV {
            source_protocol: Some(EndpointV::google_generate_content_v1beta()),
            raw: None,
            vendor: VendorV { ingress: ingress_of(req), ..VendorV::none() },
        },
        ..AiRequestV::bare(model, messages)
    }
}

/// The request for a request of the wire, or what is wrong with it.
pub open spec fn request_of(
    req: GoogleRequest,
    model: Seq<char>,
    stream: bool,
    fresh: Seq<Seq<Seq<char>>>,
) -> Result<AiRequestV, Seq<char>> {
    match messages_upto(req, fresh, req.contents@.len()) {
        Ok(messages) => Ok(request_with(req, model, stream, messages)),
        Err(e) => Err(e),
    }
}

/// Lists of texts by their characters.
pub open spec fn nested(v: Seq<Vec<String>>) -> Seq<Seq<Seq<char>>> {
    Seq::new(v.len(), |i: int| v[i].views())
}

/// There is an identifier for every part of every turn.
pub open spec fn enough(req: GoogleRequest, fresh: Seq<Seq<Seq<char>>>) -> bool {
    &&& fresh.len() == req.contents@.len()
    &&& forall|i: int|
        0 <= i < fresh.len() ==> (#[trigger] fresh[i]).len() == req.contents@[i].parts@.len()
}

/// All identifiers are texts of UUIDs.
pub open spec fn all_fresh(fresh: Seq<Seq<Seq<char>>>) -> bool {
    forall|i: int| 0 <= i < fresh.len() ==> crate::fresh::all_uuid_texts(#[trigger] fresh[i])
}

fn decode_generation(g: &Option<GoogleGenerationConfig>) -> (r: GenerationConfig)
    ensures
        r@ == generation_of(*g),
{
    match g {
        Some(c) => GenerationConfig {
            temperature: crate::text::clone_opt(&c.temperature),
            max_tokens: c.max_output_tokens,
            top_p: crate::text::clone_opt(&c.top_p),
            seed: match c.seed {
                Some(s) => Some(s as i64),
                None => None,
            },
            stop: match &c.stop_sequences {
                Some(v) => Some(crate::text::clone_all(v)),
                None => None,
            },
            presence_penalty: crate::text::clone_opt(&c.presence_penalty),
            frequency_penalty: crate::text::clone_opt(&c.frequency_penalty),
        },
        None => GenerationConfig::default(),
    }
}

fn decode_reasoning(g: &Option<GoogleGenerationConfig>) -> (r: ReasoningConfig)
    ensures
        r@ == reasoning_of(*g),
{
    match g {
        Some(c) => match &c.thinking_config {
            Some(t) => {
                let budget = t.opt_count("thinkingBudget");
                ReasoningConfig {
                    enabled: match budget {
                        Some(b) => b > 0,
                        None => false,
                    },
                    budget_tokens: budget,
                    effort: None,
                    display: None,
                }
            },
            None => ReasoningConfig::default(),
        },
        None => ReasoningConfig::default(),
    }
}

fn build_ext(req: &GoogleRequest) -> (r: GoogleExt)
    ensures
        r@ == ext_of(*req),
{
    let tool_config = crate::json::dup_opt(&req.tool_config);
    let cached_content = crate::text::clone_opt(&req.cached_content);
    match &req.generation_config {
        Some(c) => GoogleExt {
            top_k: match &c.top_k {
                Some(k) => Some(crate::json::whole_u32(k.as_str())),
                None => None,
            },
            candidate_count: c.candidate_count,
            response_logprobs: c.response_logprobs,
            logprobs: match c.logprobs {
                Some(n) => Some(
                    #[verifier::truncate]
                    (n as u32),
                ),
                None => None,
            },
            response_mime_type: crate::text::clone_opt(&c.response_mime_type),
            response_json_schema: crate::json::dup_opt(&c.response_schema),
            tool_config,
            cached_content,
            thinking_config: crate::json::dup_opt(&c.thinking_config),
        },
        None => GoogleExt {
            top_k: None,
            candidate_count: None,
            response_logprobs: None,
            logprobs: None,
            response_mime_type: None,
            response_json_schema: None,
            tool_config,
            cached_content,
            thinking_config: None,
        },
    }
}

fn build_ingress(req: &GoogleRequest) -> (r: Fields)
    ensures
        r@ == ingress_of(*req),
{
    let mut f = Fields::new();
    let v = match &req.generation_config {
        Some(g) => Some(g.to_json()),
        None => None,
    };
    f.insert_opt("__google_generation_config", v);
    let rich = is_rich_system(&req.system_instruction);
    let v = match &req.system_instruction {
        Some(s) => if rich {
            Some(s.to_json())
        } else {
            None
        },
        None => None,
    };
    f.insert_opt("__google_raw_system_instruction", v);
    let builtin = asks_builtin(&req.tools);
    let v = match &req.tools {
        Some(t) => if builtin {
            Some(entries_value(t))
        } else {
            None
        },
        None => None,
    };
    f.insert_opt("__google_raw_tools", v);
    let v = match &req.safety_settings {
        Some(s) => Some(safeties_value(s)),
        None => None,
    };
    f.insert_opt("__google_safety_settings", v);
    f.insert_opt("__google_tool_config", crate::json::dup_opt(&req.tool_config));
    f.insert_opt("__google_cached_content", Json::text_opt(&req.cached_content));
    f
}

fn decode_safety(v: &Vec<SafetySetting>) -> (r: Vec<SafetySettings>)
    ensures
        r.views() == Seq::new(
            v@.len(),
            |i: int| SafetyV { category: v@[i].category@, threshold: v@[i].threshold@ },
        ),
{
    let mut out: Vec<SafetySettings> = crate::views::none();
    for i in 0..v.len()
        invariant
            out.views().len() == i,
            forall|j: int|
                0 <= j < i ==> #[trigger] out.views()[j] == (SafetyV {
                    category: v@[j].category@,
                    threshold: v@[j].threshold@,
                }),
    {
        let s = SafetySettings {
            category: v[i].category.clone(),
            threshold: v[i].threshold.clone(),
        };
        crate::views::push(&mut out, s);
    }
    assert(out.views() =~= Seq::new(
        v@.len(),
        |i: int| SafetyV { category: v@[i].category@, threshold: v@[i].threshold@ },
    ));
    out
}

fn decode_messages(req: &GoogleRequest, fresh: &Vec<Vec<String>>) -> (r: Result<
    Vec<Message>,
    CodecError,
>)
    requires
        enough(*req, nested(fresh@)),
    ensures
        match r {
            Ok(v) => messages_upto(*req, nested(fresh@), req.contents@.len()) == Ok::<
                Seq<MessageV>,
                Seq<char>,
            >(v.views()),
            Err(e) => messages_upto(*req, nested(fresh@), req.contents@.len()) == Err::<
                Seq<MessageV>,
                Seq<char>,
            >(e@),
        },
{
    let mut messages: Vec<Message> = decode_system(&req.system_instruction);
    let mut fault: Option<CodecError> = None;
    for i in 0..req.contents.len()
        invariant
            enough(*req, nested(fresh@)),
            match fault {
                None => messages_upto(*req, nested(fresh@), i as nat) == Ok::<
                    Seq<MessageV>,
                    Seq<char>,
                >(messages.views()),
                Some(e) => messages_upto(*req, nested(fresh@), i as nat) == Err::<
                    Seq<MessageV>,
                    Seq<char>,
                >(e@),
            },
    {
        assert(nested(fresh@)[i as int] == fresh@[i as int].views());
        if fault.is_none() {
            match decode_content(&req.contents[i], &fresh[i]) {
                Ok(m) => {
                    crate::views::push(&mut messages, m);
                },
                Err(e) => {
                    fault = Some(e);
                },
            }
        }
    }
    match fault {
        Some(e) => Err(e),
        None => Ok(messages),
    }
}

/// Reads requests of the protocol.
#[derive(Debug, Clone, Copy)]
pub struct GoogleDecoder;

impl GoogleDecoder {
    /// Reads a request; the identifier at a part's place is taken where the part is a call.
    pub fn decode_with_ids(
        &self,
        req: &GoogleRequest,
        model: &str,
        stream: bool,
        fresh: &Vec<Vec<String>>,
    ) -> (r: Result<AiRequest, CodecError>)
        requires
            enough(*req, nested(fresh@)),
        ensures
            r.views() == request_of(*req, model@, stream, nested(fresh@)),
    {
        let messages = match decode_messages(req, fresh) {
            Ok(m) => m,
            Err(e) => {
                return Err(e);
            },
        };
        let tools = match &req.tools {
            Some(v) => crate::views::non_empty(decode_tools(v)),
            None => None,
        };
        let safety_settings = match &req.safety_settings {
            Some(v) => Some(decode_safety(v)),
            None => None,
        };
        let mut vendor = VendorExtensions::default();
        vendor.ingress = build_ingress(req);
        let mut out = AiRequest::new(model.to_string(), messages);
        out.generation = decode_generation(&req.generation_config);
        out.stream = StreamConfig { enabled: stream, include_usage: false };
        out.tools = tools;
        out.reasoning = decode_reasoning(&req.generation_config);
        out.safety_settings = safety_settings;
        out.ext = Some(ProtocolExt::Google(build_ext(req)));
        out.meta = RequestMetadata {
            source_protocol: Some(crate::protocol::ids::google_generate_content_v1beta()),
            raw: None,
            vendor,
        };
        Ok(out)
    }

    /// Reads a request for a model.
    pub fn decode_with_model(&self, req: &GoogleRequest, model: &str, stream: bool) -> (r: Result<
        AiRequest,
        CodecError,
    >)
        ensures
            exists|fresh: Seq<Seq<Seq<char>>>| #[trigger]
                all_fresh(fresh) && enough(*req, fresh) && r.views() == request_of(
                    *req,
                    model@,
                    stream,
                    fresh,
                ),
    {
        let mut fresh: Vec<Vec<String>> = Vec::new();
        for i in 0..req.contents.len()
            invariant
                fresh@.len() == i,
                forall|j: int|
                    0 <= j < i ==> (#[trigger] fresh@[j]).views().len()
                        == req.contents@[j].parts@.len() && crate::fresh::all_uuid_texts(
                        fresh@[j].views(),
                    ),
        {
            fresh.push(crate::fresh::uuid_texts(req.contents[i].parts.len()));
        }
        proof {
            let f = nested(fresh@);
            assert forall|i: int| 0 <= i < f.len() implies (#[trigger] f[i]).len()
                == req.contents@[i].parts@.len() && crate::fresh::all_uuid_texts(f[i]) by {
                assert(f[i] == fresh@[i].views());
            }
            assert(all_fresh(f));
        }
        self.decode_with_ids(req, model, stream, &fresh)
    }
}

impl RequestDecoder for GoogleDecoder {
    type Wire = GoogleRequest;

    /// Reads a request for the model that is taken where the path names none.
    fn decode_request(&self, req: &GoogleRequest) -> (r: Result<AiRequest, CodecError>)
        ensures
            exists|fresh: Seq<Seq<Seq<char>>>| #[trigger]
                all_fresh(fresh) && enough(*req, fresh) && r.views() == request_of(
                    *req,
                    "gemini-2.0-flash"@,
                    false,
                    fresh,
                ),
    {
        self.decode_with_model(req, "gemini-2.0-flash", false)
    }
}

} // verus!
