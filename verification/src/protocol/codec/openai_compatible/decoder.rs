//! Reads requests of the Chat Completions protocol.
//!
//! What the representation itself has no place for goes to the protocol's own part of the
//! request, and to the ingress bag under the name that it has on the wire.
use vstd::prelude::*;

use crate::json::{Fields, Json, JsonV};
use crate::protocol::codec::openai_compatible::types::{
    OpenAIContent, OpenAIContentPart, OpenAIMessage, OpenAIRequest, OpenAIToolCall,
    ResponseFormatWire, TokenBiasV,
};
use crate::protocol::ids::EndpointV;
use crate::protocol::ir::ext::{ExtV, OpenAIChatExt, OpenAIChatExtV, ProtocolExt};
use crate::protocol::ir::request::{
    AiRequest, AiRequestV, BlockV, ContentBlock, ContentV, GenerationConfig, GenerationV,
    MediaSource, MediaV, Message, MessageContent, MessageV, MetaV, ReasoningConfig,
    ReasoningEffort, ReasoningV, RequestMetadata, ResponseFormat, ResponseFormatV, Role,
    StreamConfig, ToolCall, ToolChoice, ToolChoiceV, ToolSpec, ToolSpecV,
};
use crate::protocol::ir::vendor_ext::{VendorExtensions, VendorV};
use crate::protocol::traits::RequestDecoder;
use crate::protocol::types::ToolCallV;
use crate::protocol::CodecError;
use crate::views::Views;

verus! {

// ---------------------------------------------------------------- messages

/// Where a `data:` URL or an ordinary one points: inline data where it has the form
/// `data:<media type>;base64,<data>`, the URL itself otherwise.
pub open spec fn url_source(url: Seq<char>) -> MediaV {
    match crate::text::after_prefix(url, "data:"@) {
        Some(rest) => match crate::text::cut(rest, ";"@) {
            Some((media_type, after)) => match crate::text::after_prefix(after, "base64,"@) {
                Some(data) => MediaV::Base64 { media_type, data },
                None => MediaV::Url(url),
            },
            None => MediaV::Url(url),
        },
        None => MediaV::Url(url),
    }
}

/// Reads a `data:<media type>;base64,<data>` URL; any other is kept as it is.
pub fn parse_data_url_source(url: &str) -> (r: MediaSource)
    ensures
        r@ == url_source(url@),
{
    match crate::text::strip_prefix(url, "data:") {
        Some(rest) => match crate::text::split_once(rest, ";") {
            Some((media_type, after)) => match crate::text::strip_prefix(after, "base64,") {
                Some(data) => {
                    return MediaSource::Base64 {
                        media_type: media_type.to_string(),
                        data: data.to_string(),
                    };
                },
                None => {},
            },
            None => {},
        },
        None => {},
    }
    MediaSource::Url(url.to_string())
}

/// The block of a part.
pub open spec fn part_block(p: OpenAIContentPart) -> BlockV {
    match p {
        OpenAIContentPart::Text { text } => BlockV::Text { text: text@, cache_control: None },
        OpenAIContentPart::ImageUrl { image_url } => BlockV::Image {
            source: url_source(image_url.url@),
            cache_control: None,
        },
        OpenAIContentPart::InputAudio { input_audio } => BlockV::Audio {
            source: MediaV::Base64 {
                media_type: "audio/"@ + input_audio.format@,
                data: input_audio.data@,
            },
        },
    }
}

fn decode_part(p: &OpenAIContentPart) -> (r: ContentBlock)
    ensures
        r@ == part_block(*p),
{
    match p {
        OpenAIContentPart::Text { text } => ContentBlock::Text {
            text: text.clone(),
            cache_control: None,
        },
        OpenAIContentPart::ImageUrl { image_url } => ContentBlock::Image {
            source: parse_data_url_source(image_url.url.as_str()),
            cache_control: None,
        },
        OpenAIContentPart::InputAudio { input_audio } => ContentBlock::Audio {
            source: MediaSource::Base64 {
                media_type: crate::text::cat("audio/", input_audio.format.as_str()),
                data: input_audio.data.clone(),
            },
        },
    }
}

/// The content of a message; no content is an empty text.
pub open spec fn content_of(c: Option<OpenAIContent>) -> ContentV {
    match c {
        Some(OpenAIContent::Text(t)) => ContentV::Text(t@),
        Some(OpenAIContent::Parts(v)) => ContentV::Blocks(
            Seq::new(v@.len(), |i: int| part_block(v@[i])),
        ),
        None => ContentV::Text(Seq::empty()),
    }
}

fn decode_parts(v: &Vec<OpenAIContentPart>) -> (r: Vec<ContentBlock>)
    ensures
        r.views() == Seq::new(v@.len(), |i: int| part_block(v@[i])),
{
    let mut out: Vec<ContentBlock> = crate::views::none();
    for i in 0..v.len()
        invariant
            out.views().len() == i,
            forall|j: int| 0 <= j < i ==> #[trigger] out.views()[j] == part_block(v@[j]),
    {
        crate::views::push(&mut out, decode_part(&v[i]));
    }
    assert(out.views() =~= Seq::new(v@.len(), |i: int| part_block(v@[i])));
    out
}

fn decode_content(c: &Option<OpenAIContent>) -> (r: MessageContent)
    ensures
        r@ == content_of(*c),
{
    match c {
        Some(OpenAIContent::Text(t)) => MessageContent::Text(t.clone()),
        Some(OpenAIContent::Parts(v)) => MessageContent::Blocks(decode_parts(v)),
        None => {
            let empty = String::new();
            assert(empty@ =~= Seq::<char>::empty());
            MessageContent::Text(empty)
        },
    }
}

/// The calls of a message.
pub open spec fn calls_of(v: Seq<OpenAIToolCall>) -> Seq<ToolCallV> {
    Seq::new(
        v.len(),
        |i: int|
            ToolCallV {
                id: v[i].id@,
                name: v[i].function.name@,
                arguments: v[i].function.arguments@,
            },
    )
}

fn decode_calls(v: &Vec<OpenAIToolCall>) -> (r: Vec<ToolCall>)
    ensures
        r.views() == calls_of(v@),
{
    let mut out: Vec<ToolCall> = crate::views::none();
    for i in 0..v.len()
        invariant
            out.views().len() == i,
            forall|j: int| 0 <= j < i ==> #[trigger] out.views()[j] == calls_of(v@)[j],
    {
        let call = ToolCall {
            id: v[i].id.clone(),
            name: v[i].function.name.clone(),
            arguments: v[i].function.arguments.clone(),
        };
        crate::views::push(&mut out, call);
    }
    assert(out.views() =~= calls_of(v@));
    out
}

/// The speaker that a name stands for.
pub open spec fn role_of(s: Seq<char>) -> Option<Role> {
    if s == "system"@ || s == "developer"@ {
        Some(Role::System)
    } else if s == "user"@ {
        Some(Role::User)
    } else if s == "assistant"@ {
        Some(Role::Assistant)
    } else if s == "tool"@ {
        Some(Role::Tool)
    } else {
        None
    }
}

fn decode_role(s: &str) -> (r: Option<Role>)
    ensures
        r == role_of(s@),
{
    if *s == *"system" || *s == *"developer" {
        Some(Role::System)
    } else if *s == *"user" {
        Some(Role::User)
    } else if *s == *"assistant" {
        Some(Role::Assistant)
    } else if *s == *"tool" {
        Some(Role::Tool)
    } else {
        None
    }
}

/// The message that stands for one of the wire; a speaker of an unknown name is an error.
pub open spec fn message_of(msg: OpenAIMessage) -> Result<MessageV, Seq<char>> {
    match role_of(msg.role@) {
        Some(role) => {
            let meta = crate::json::put_opt(
                msg.extra@,
                "refusal"@,
                JsonV::opt_text(msg.refusal.views()),
            );
            Ok(
                MessageV {
                    role,
                    content: content_of(msg.content),
                    tool_calls: match msg.tool_calls {
                        Some(v) => Some(calls_of(v@)),
                        None => None,
                    },
                    tool_call_id: msg.tool_call_id.views(),
                    meta: if meta.len() == 0 {
                        None
                    } else {
                        Some(JsonV::Object(meta))
                    },
                },
            )
        },
        None => Err("unknown role: "@ + msg.role@),
    }
}

/// Reads a message.
pub fn decode_message(msg: &OpenAIMessage) -> (r: Result<Message, CodecError>)
    ensures
        r.views() == message_of(*msg),
{
    let role = match decode_role(msg.role.as_str()) {
        Some(role) => role,
        None => {
            return Err(
                CodecError::new(crate::text::cat("unknown role: ", msg.role.as_str()).as_str()),
            );
        },
    };
    let mut meta = msg.extra.dup();
    meta.insert_opt("refusal", Json::text_opt(&msg.refusal));
    let tool_calls = match &msg.tool_calls {
        Some(v) => Some(decode_calls(v)),
        None => None,
    };
    let meta = if meta.is_empty() {
        None
    } else {
        Some(Json::of_fields(meta))
    };
    Ok(
        Message {
            role,
            content: decode_content(&msg.content),
            tool_calls,
            tool_call_id: crate::text::clone_opt(&msg.tool_call_id),
            meta,
        },
    )
}

/// The first `n` messages, or the first error among them.
pub open spec fn messages_upto(v: Seq<OpenAIMessage>, n: nat) -> Result<Seq<MessageV>, Seq<char>>
    decreases n,
{
    if n == 0 {
        Ok(Seq::empty())
    } else {
        match messages_upto(v, (n - 1) as nat) {
            Ok(before) => match message_of(v[n - 1]) {
                Ok(m) => Ok(before.push(m)),
                Err(e) => Err(e),
            },
            Err(e) => Err(e),
        }
    }
}

fn decode_messages(v: &Vec<OpenAIMessage>) -> (r: Result<Vec<Message>, CodecError>)
    ensures
        match r {
            Ok(m) => messages_upto(v@, v@.len()) == Ok::<Seq<MessageV>, Seq<char>>(m.views()),
            Err(e) => messages_upto(v@, v@.len()) == Err::<Seq<MessageV>, Seq<char>>(e@),
        },
{
    let mut messages: Vec<Message> = crate::views::none();
    let mut fault: Option<CodecError> = None;
    for i in 0..v.len()
        invariant
            match fault {
                None => messages_upto(v@, i as nat) == Ok::<Seq<MessageV>, Seq<char>>(
                    messages.views(),
                ),
                Some(e) => messages_upto(v@, i as nat) == Err::<Seq<MessageV>, Seq<char>>(e@),
            },
    {
        if fault.is_none() {
            match decode_message(&v[i]) {
                Ok(m) => {
                    crate::views::push(&mut messages, m);
                },
                Err(e) => {
                    fault = Some(e);
                },
            }
        }
    }
    match fault {
        Some(e) => Err(e),
        None => Ok(messages),
    }
}

// ---------------------------------------------------------------- tools

/// The function that an entry of the tools declares.
pub open spec fn tool_of(t: JsonV) -> Option<ToolSpecV> {
    match t.get("function"@) {
        Some(f) => match f.get_str("name"@) {
            Some(name) => Some(
                ToolSpecV {
                    name,
                    description: f.get_str("description"@),
                    parameters: match f.get("parameters"@) {
                        Some(p) => p,
                        None => JsonV::obj(),
                    },
                    strict: f.get_bool("strict"@),
                    cache_control: None,
                    meta: None,
                },
            ),
            None => None,
        },
        None => None,
    }
}

fn decode_tool(t: &Json) -> (r: Option<ToolSpec>)
    ensures
        r.views() == tool_of(t@),
{
    match t.get("function") {
        Some(f) => match f.get_str("name") {
            Some(name) => Some(
                ToolSpec {
                    name: name.to_string(),
                    description: crate::text::own_opt(f.get_str("description")),
                    parameters: match f.get_dup("parameters") {
                        Some(p) => p,
                        None => Json::object(),
                    },
                    strict: f.get_bool("strict"),
                    cache_control: None,
                    meta: None,
                },
            ),
            None => None,
        },
        None => None,
    }
}

/// The functions among the first `n` tools; an entry that declares none is passed over.
pub open spec fn tools_upto(v: Seq<JsonV>, n: nat) -> Seq<ToolSpecV>
    decreases n,
{
    if n == 0 {
        Seq::empty()
    } else {
        let before = tools_upto(v, (n - 1) as nat);
        match tool_of(v[n - 1]) {
            Some(t) => before.push(t),
            None => before,
        }
    }
}

fn decode_tools(v: &Vec<Json>) -> (r: Vec<ToolSpec>)
    ensures
        r.views() == tools_upto(v.views(), v@.len()),
{
    let mut out: Vec<ToolSpec> = crate::views::none();
    for i in 0..v.len()
        invariant
            out.views() == tools_upto(v.views(), i as nat),
    {
        assert(v.views()[i as int] == v@[i as int]@);
        match decode_tool(&v[i]) {
            Some(t) => {
                crate::views::push(&mut out, t);
            },
            None => {},
        }
    }
    out
}

/// How the model picks tools: one of three words, the name of a function, or the value itself.
pub open spec fn tool_choice_of(v: JsonV) -> ToolChoiceV {
    if v == JsonV::Text("none"@) {
        ToolChoiceV::Forbidden
    } else if v == JsonV::Text("auto"@) {
        ToolChoiceV::Auto
    } else if v == JsonV::Text("required"@) {
        ToolChoiceV::Required
    } else {
        match (v.get_str("type"@) == Some("function"@), v.get2("function"@, "name"@)) {
            (true, Some(JsonV::Text(name))) => ToolChoiceV::Named { name },
            _ => ToolChoiceV::Raw(v),
        }
    }
}

/// Reads how the model picks tools.
pub fn parse_tool_choice(v: &Json) -> (r: ToolChoice)
    ensures
        r@ == tool_choice_of(v@),
{
    match v {
        Json::Text(s) => {
            if *s.as_str() == *"none" {
                return ToolChoice::Forbidden;
            }
            if *s.as_str() == *"auto" {
                return ToolChoice::Auto;
            }
            if *s.as_str() == *"required" {
                return ToolChoice::Required;
            }
        },
        Json::Object(_) => {
            if v.field_is("type", "function") {
                match v.get2("function", "name") {
                    Some(n) => match n.as_str() {
                        Some(name) => {
                            return ToolChoice::Named { name: name.to_string() };
                        },
                        None => {},
                    },
                    None => {},
                }
            }
        },
        _ => {},
    }
    ToolChoice::Raw(v.dup())
}

// ---------------------------------------------------------------- parameters

/// The effort that a word asks for; an unknown word asks for a medium one.
pub open spec fn effort_of(s: Seq<char>) -> ReasoningEffort {
    if s == "low"@ {
        ReasoningEffort::Low
    } else if s == "high"@ {
        ReasoningEffort::High
    } else {
        ReasoningEffort::Medium
    }
}

/// Reads the effort that a word asks for.
pub fn parse_reasoning_effort(s: &str) -> (r: ReasoningEffort)
    ensures
        r == effort_of(s@),
{
    if *s == *"low" {
        ReasoningEffort::Low
    } else if *s == *"high" {
        ReasoningEffort::High
    } else {
        ReasoningEffort::Medium
    }
}

pub open spec fn reasoning_of(effort: Option<Seq<char>>) -> ReasoningV {
    match effort {
        Some(s) => ReasoningV {
            enabled: true,
            budget_tokens: None,
            effort: Some(effort_of(s)),
            display: None,
        },
        None => ReasoningV::none(),
    }
}

fn decode_reasoning(effort: &Option<String>) -> (r: ReasoningConfig)
    ensures
        r@ == reasoning_of(effort.views()),
{
    match effort {
        Some(s) => ReasoningConfig {
            enabled: true,
            budget_tokens: None,
            effort: Some(parse_reasoning_effort(s.as_str())),
            display: None,
        },
        None => ReasoningConfig::default(),
    }
}

pub open spec fn format_of(f: ResponseFormatWire) -> ResponseFormatV {
    match f {
        ResponseFormatWire::Text => ResponseFormatV::Text,
        ResponseFormatWire::JsonObject => ResponseFormatV::JsonObject,
        ResponseFormatWire::JsonSchema { json_schema } => ResponseFormatV::JsonSchema {
            name: json_schema.name@,
            schema: json_schema.schema@,
            strict: json_schema.strict,
        },
    }
}

/// Reads the form that the answer must have.
pub fn parse_response_format(f: &ResponseFormatWire) -> (r: ResponseFormat)
    ensures
        r@ == format_of(*f),
{
    match f {
        ResponseFormatWire::Text => ResponseFormat::Text,
        ResponseFormatWire::JsonObject => ResponseFormat::JsonObject,
        ResponseFormatWire::JsonSchema { json_schema } => ResponseFormat::JsonSchema {
            name: json_schema.name.clone(),
            schema: json_schema.schema.dup(),
            strict: json_schema.strict,
        },
    }
}

/// The limit of the answer's length.
pub open spec fn limit_of(req: OpenAIRequest) -> Option<u32> {
    match req.max_completion_tokens {
        Some(n) => Some(n),
        None => req.max_tokens,
    }
}

pub open spec fn generation_of(req: OpenAIRequest) -> GenerationV {
    GenerationV {
        temperature: req.temperature.views(),
        max_tokens: limit_of(req),
        top_p: req.top_p.views(),
        seed: req.seed,
        stop: match req.stop {
            Some(s) => Some(s.tokens()),
            None => None,
        },
        presence_penalty: req.presence_penalty.views(),
        frequency_penalty: req.frequency_penalty.views(),
    }
}

fn decode_generation(req: &OpenAIRequest) -> (r: GenerationConfig)
    ensures
        r@ == generation_of(*req),
{
    GenerationConfig {
        temperature: crate::text::clone_opt(&req.temperature),
        max_tokens: match req.max_completion_tokens {
            Some(n) => Some(n),
            None => req.max_tokens,
        },
        top_p: crate::text::clone_opt(&req.top_p),
        seed: req.seed,
        stop: match &req.stop {
            Some(s) => Some(s.to_vec()),
            None => None,
        },
        presence_penalty: crate::text::clone_opt(&req.presence_penalty),
        frequency_penalty: crate::text::clone_opt(&req.frequency_penalty),
    }
}

// ---------------------------------------------------------------- what only this protocol knows

pub open spec fn audio_value(req: OpenAIRequest) -> Option<JsonV> {
    match req.audio {
        Some(a) => Some(a.value()),
        None => None,
    }
}

fn audio_json(req: &OpenAIRequest) -> (r: Option<Json>)
    ensures
        r.views() == audio_value(*req),
{
    match &req.audio {
        Some(a) => Some(a.to_json()),
        None => None,
    }
}

/// The first `n` biases by their tokens.
pub open spec fn biases(v: Seq<TokenBiasV>, n: nat) -> Seq<(Seq<char>, JsonV)>
    decreases n,
{
    if n == 0 {
        Seq::empty()
    } else {
        crate::json::put_field(
            biases(v, (n - 1) as nat),
            v[n - 1].token,
            JsonV::float(v[n - 1].bias),
        )
    }
}

pub open spec fn bias_value(req: OpenAIRequest) -> Option<JsonV> {
    match crate::views::opt_list(req.logit_bias) {
        Some(v) => Some(JsonV::Object(biases(v, v.len()))),
        None => None,
    }
}

fn bias_json(req: &OpenAIRequest) -> (r: Option<Json>)
    ensures
        r.views() == bias_value(*req),
{
    match &req.logit_bias {
        Some(v) => {
            let mut f = Fields::new();
            for i in 0..v.len()
                invariant
                    f@ == biases(v.views(), i as nat),
            {
                assert(v.views()[i as int] == v@[i as int]@);
                f.insert(v[i].token.as_str(), Json::float(v[i].bias.as_str()));
            }
            Some(Json::of_fields(f))
        },
        None => None,
    }
}

pub open spec fn prediction_value(req: OpenAIRequest) -> Option<JsonV> {
    match req.prediction {
        Some(p) => Some(p.value()),
        None => None,
    }
}

fn prediction_json(req: &OpenAIRequest) -> (r: Option<Json>)
    ensures
        r.views() == prediction_value(*req),
{
    match &req.prediction {
        Some(p) => Some(p.to_json()),
        None => None,
    }
}

pub open spec fn stream_value(req: OpenAIRequest) -> Option<JsonV> {
    match req.stream_options {
        Some(s) => Some(s.value()),
        None => None,
    }
}

fn stream_json(req: &OpenAIRequest) -> (r: Option<Json>)
    ensures
        r.views() == stream_value(*req),
{
    match &req.stream_options {
        Some(s) => Some(s.to_json()),
        None => None,
    }
}

pub open spec fn ext_of(req: OpenAIRequest) -> OpenAIChatExtV {
    OpenAIChatExtV {
        audio: audio_value(req),
        logit_bias: bias_value(req),
        modalities: crate::views::opt_list(req.modalities),
        n: req.n,
        prediction: prediction_value(req),
        stream_options: stream_value(req),
    }
}

fn build_ext(req: &OpenAIRequest) -> (r: OpenAIChatExt)
    ensures
        r@ == ext_of(*req),
{
    OpenAIChatExt {
        audio: audio_json(req),
        logit_bias: bias_json(req),
        modalities: match &req.modalities {
            Some(v) => Some(crate::text::clone_all(v)),
            None => None,
        },
        n: req.n,
        prediction: prediction_json(req),
        stream_options: stream_json(req),
    }
}

/// A field more, unless there is one of that name.
pub open spec fn also(f: Seq<(Seq<char>, JsonV)>, k: Seq<char>, v: Option<JsonV>) -> Seq<
    (Seq<char>, JsonV),
> {
    crate::json::put_opt_absent(f, k, v)
}

/// The bag of what the body held besides: first the fields of no known name, and behind them the
/// known ones that only this protocol has.
pub open spec fn ingress_of(req: OpenAIRequest) -> Seq<(Seq<char>, JsonV)> {
    let f = also(req.extra@, "stream_options"@, stream_value(req));
    let f = also(f, "parallel_tool_calls"@, JsonV::opt_bool(req.parallel_tool_calls));
    let f = also(f, "prediction"@, prediction_value(req));
    let f = also(
        f,
        "modalities"@,
        match req.modalities {
            Some(v) => Some(JsonV::texts(v.views())),
            None => None,
        },
    );
    let f = also(f, "audio"@, audio_value(req));
    let f = also(
        f,
        "response_format"@,
        match req.response_format {
            Some(v) => Some(v.value()),
            None => None,
        },
    );
    let f = also(
        f,
        "seed"@,
        match req.seed {
            Some(n) => Some(JsonV::int_num(n)),
            None => None,
        },
    );
    let f = also(
        f,
        "stop"@,
        match req.stop {
            Some(v) => Some(v.value()),
            None => None,
        },
    );
    let f = also(f, "logit_bias"@, bias_value(req));
    let f = also(f, "service_tier"@, JsonV::opt_text(req.service_tier.views()));
    let f = also(f, "reasoning_effort"@, JsonV::opt_text(req.reasoning_effort.views()));
    let f = also(f, "frequency_penalty"@, JsonV::opt_float(req.frequency_penalty.views()));
    let f = also(f, "presence_penalty"@, JsonV::opt_float(req.presence_penalty.views()));
    let f = also(f, "n"@, JsonV::opt_u32(req.n));
    also(f, "user"@, JsonV::opt_text(req.user.views()))
}

fn build_ingress(req: &OpenAIRequest) -> (r: Fields)
    ensures
        r@ == ingress_of(*req),
{
    let mut f = req.extra.dup();
    f.insert_opt_absent("stream_options", stream_json(req));
    f.insert_opt_absent("parallel_tool_calls", Json::bool_opt(req.parallel_tool_calls));
    f.insert_opt_absent("prediction", prediction_json(req));
    let v = match &req.modalities {
        Some(v) => Some(Json::texts(v)),
        None => None,
    };
    f.insert_opt_absent("modalities", v);
    f.insert_opt_absent("audio", audio_json(req));
    let v = match &req.response_format {
        Some(v) => Some(v.to_json()),
        None => None,
    };
    f.insert_opt_absent("response_format", v);
    let v = match req.seed {
        Some(n) => Some(Json::int_num(n)),
        None => None,
    };
    f.insert_opt_absent("seed", v);
    let v = match &req.stop {
        Some(v) => Some(v.to_json()),
        None => None,
    };
    f.insert_opt_absent("stop", v);
    f.insert_opt_absent("logit_bias", bias_json(req));
    f.insert_opt_absent("service_tier", Json::text_opt(&req.service_tier));
    f.insert_opt_absent("reasoning_effort", Json::text_opt(&req.reasoning_effort));
    f.insert_opt_absent("frequency_penalty", Json::float_opt(&req.frequency_penalty));
    f.insert_opt_absent("presence_penalty", Json::float_opt(&req.presence_penalty));
    f.insert_opt_absent("n", Json::u32_opt(req.n));
    f.insert_opt_absent("user", Json::text_opt(&req.user));
    f
}

// ---------------------------------------------------------------- the request

/// The request that stands for one of the wire; the first message with an unknown speaker is the
/// only error.
pub open spec fn request_of(req: OpenAIRequest) -> Result<AiRequestV, Seq<char>> {
    match messages_upto(req.messages@, req.messages@.len()) {
        Ok(messages) => Ok(
            AiRequestV {
                model: req.model@,
                messages,
                system: None,
                generation: generation_of(req),
                stream: StreamConfig {
                    enabled: req.stream,
                    include_usage: match req.stream_options {
                        Some(s) => s.include_usage,
                        None => false,
                    },
                },
                tools: match req.tools {
                    Some(v) => Some(tools_upto(v.views(), v@.len())),
                    None => None,
                },
                tool_choice: match req.tool_choice {
                    Some(v) => Some(tool_choice_of(v@)),
                    None => None,
                },
                parallel_tool_calls: req.parallel_tool_calls,
                disable_parallel_tool_calls: None,
                reasoning: reasoning_of(req.reasoning_effort.views()),
                response_format: match req.response_format {
                    Some(f) => Some(format_of(f)),
                    None => None,
                },
                safety_settings: None,
                ext: Some(ExtV::OpenAiChat(ext_of(req))),
                meta: MetaV {
                    source_protocol: Some(EndpointV::openai_chat_completions_v1()),
                    raw: None,
                    vendor: VendorV { ingress: ingress_of(req), ..VendorV::none() },
                },
            },
        ),
        Err(e) => Err(e),
    }
}

/// Reads requests of the protocol.
#[derive(Debug, Clone, Copy)]
pub struct OpenAIDecoder;

impl RequestDecoder for OpenAIDecoder {
    type Wire = OpenAIRequest;

    fn decode_request(&self, req: &OpenAIRequest) -> (r: Result<AiRequest, CodecError>)
        ensures
            r.views() == request_of(*req),
    {
        let messages = match decode_messages(&req.messages) {
            Ok(m) => m,
            Err(e) => {
                return Err(e);
            },
        };
        let tools = match &req.tools {
            Some(v) => Some(decode_tools(v)),
            None => None,
        };
        let tool_choice = match &req.tool_choice {
            Some(v) => Some(parse_tool_choice(v)),
            None => None,
        };
        let response_format = match &req.response_format {
            Some(f) => Some(parse_response_format(f)),
            None => None,
        };
        let include_usage = match &req.stream_options {
            Some(s) => s.include_usage,
            None => false,
        };
        let mut vendor = VendorExtensions::default();
        vendor.ingress = build_ingress(req);
        let mut out = AiRequest::new(req.model.clone(), messages);
        out.generation = decode_generation(req);
        out.stream = StreamConfig { enabled: req.stream, include_usage };
        out.tools = tools;
        out.tool_choice = tool_choice;
        out.parallel_tool_calls = req.parallel_tool_calls;
        out.reasoning = decode_reasoning(&req.reasoning_effort);
        out.response_format = response_format;
        out.ext = Some(ProtocolExt::OpenAiChat(build_ext(req)));
        out.meta = RequestMetadata {
            source_protocol: Some(crate::protocol::ids::openai_chat_completions_v1()),
            raw: None,
            vendor,
        };
        Ok(out)
    }
}

} // verus!
