//! Requests of the Chat Completions protocol as they stand on the wire, and their parts as JSON
//! values. Floating point numbers are held by their decimal text.
use vstd::prelude::*;

use crate::json::{Fields, Json, JsonV};
use crate::views::Views;

verus! {

/// A request.
#[derive(Debug)]
pub struct OpenAIRequest {
    pub model: String,
    pub messages: Vec<OpenAIMessage>,
    pub stream: bool,
    pub temperature: Option<String>,
    pub max_tokens: Option<u32>,
    /// Means what `max_tokens` means, and goes before it.
    pub max_completion_tokens: Option<u32>,
    pub top_p: Option<String>,
    pub frequency_penalty: Option<String>,
    pub presence_penalty: Option<String>,
    pub seed: Option<i64>,
    pub stop: Option<StopToken>,
    pub n: Option<u32>,
    /// Tokens with their bias.
    pub logit_bias: Option<Vec<TokenBias>>,
    pub tools: Option<Vec<Json>>,
    pub tool_choice: Option<Json>,
    pub parallel_tool_calls: Option<bool>,
    pub stream_options: Option<StreamOptions>,
    pub response_format: Option<ResponseFormatWire>,
    pub modalities: Option<Vec<String>>,
    pub audio: Option<AudioConfig>,
    pub prediction: Option<PredictionConfig>,
    pub reasoning_effort: Option<String>,
    pub service_tier: Option<String>,
    /// Who calls, for the provider's own statistics.
    pub user: Option<String>,
    /// All other fields.
    pub extra: Fields,
}

/// How much likelier a token is made.
#[derive(Debug)]
pub struct TokenBias {
    pub token: String,
    /// The number by its decimal text.
    pub bias: String,
}

pub struct TokenBiasV {
    pub token: Seq<char>,
    pub bias: Seq<char>,
}

impl View for TokenBias {
    type V = TokenBiasV;

    open spec fn view(&self) -> TokenBiasV {
        TokenBiasV { token: self.token@, bias: self.bias@ }
    }
}

/// Where generation stops.
#[derive(Debug)]
pub enum StopToken {
    Single(String),
    Multiple(Vec<String>),
}

impl StopToken {
    /// All stop tokens.
    pub open spec fn tokens(self) -> Seq<Seq<char>> {
        match self {
            StopToken::Single(s) => seq![s@],
            StopToken::Multiple(v) => v.views(),
        }
    }

    /// All stop tokens.
    pub fn into_vec(self) -> (r: Vec<String>)
        ensures
            r.views() == self.tokens(),
    {
        match self {
            StopToken::Single(s) => {
                let mut v: Vec<String> = crate::views::none();
                crate::views::push(&mut v, s);
                assert(v.views() =~= seq![s@]);
                v
            },
            StopToken::Multiple(v) => v,
        }
    }

    /// All stop tokens, copied.
    pub fn to_vec(&self) -> (r: Vec<String>)
        ensures
            r.views() == self.tokens(),
    {
        match self {
            StopToken::Single(s) => {
                let mut v: Vec<String> = crate::views::none();
                crate::views::push(&mut v, s.clone());
                assert(v.views() =~= seq![s@]);
                v
            },
            StopToken::Multiple(v) => crate::text::clone_all(v),
        }
    }

    pub open spec fn value(self) -> JsonV {
        match self {
            StopToken::Single(s) => JsonV::Text(s@),
            StopToken::Multiple(v) => JsonV::texts(v.views()),
        }
    }

    /// The stop tokens as a value: a text, or a list of them.
    pub fn to_json(&self) -> (r: Json)
        ensures
            r@ == self.value(),
    {
        match self {
            StopToken::Single(s) => Json::text(s.as_str()),
            StopToken::Multiple(v) => Json::texts(v),
        }
    }
}

/// Options of a stream.
#[derive(Debug, Clone, Copy, PartialEq, Eq, Structural)]
pub struct StreamOptions {
    /// Whether the last chunk shall hold the token counts.
    pub include_usage: bool,
}

impl Default for StreamOptions {
    fn default() -> (r: Self)
        ensures
            r == (StreamOptions { include_usage: false }),
    {
        StreamOptions { include_usage: false }
    }
}

impl StreamOptions {
    pub open spec fn value(self) -> JsonV {
        JsonV::obj().with("include_usage"@, JsonV::Bool(self.include_usage))
    }

    pub fn to_json(&self) -> (r: Json)
        ensures
            r@ == self.value(),
    {
        Json::object().with("include_usage", Json::Bool(self.include_usage))
    }
}

/// The form that the answer must have.
#[derive(Debug)]
pub enum ResponseFormatWire {
    Text,
    JsonObject,
    JsonSchema { json_schema: JsonSchemaConfig },
}

#[derive(Debug)]
pub struct JsonSchemaConfig {
    pub name: String,
    pub schema: Json,
    pub strict: Option<bool>,
    pub description: Option<String>,
}

impl ResponseFormatWire {
    pub open spec fn value(self) -> JsonV {
        match self {
            ResponseFormatWire::Text => JsonV::obj().with("type"@, JsonV::Text("text"@)),
            ResponseFormatWire::JsonObject => JsonV::obj().with(
                "type"@,
                JsonV::Text("json_object"@),
            ),
            ResponseFormatWire::JsonSchema { json_schema } => JsonV::obj().with(
                "type"@,
                JsonV::Text("json_schema"@),
            ).with("json_schema"@, json_schema.value()),
        }
    }

    pub fn to_json(&self) -> (r: Json)
        ensures
            r@ == self.value(),
    {
        match self {
            ResponseFormatWire::Text => Json::object().with("type", Json::text("text")),
            ResponseFormatWire::JsonObject => Json::object().with(
                "type",
                Json::text("json_object"),
            ),
            ResponseFormatWire::JsonSchema { json_schema } => Json::object().with(
                "type",
                Json::text("json_schema"),
            ).with("json_schema", json_schema.to_json()),
        }
    }
}

impl JsonSchemaConfig {
    pub open spec fn value(self) -> JsonV {
        JsonV::obj().with("name"@, JsonV::Text(self.name@)).with("schema"@, self.schema@).with(
            "strict"@,
            match self.strict {
                Some(b) => JsonV::Bool(b),
                None => JsonV::Null,
            },
        ).with_opt("description"@, JsonV::opt_text(self.description.views()))
    }

    pub fn to_json(&self) -> (r: Json)
        ensures
            r@ == self.value(),
    {
        let strict = match self.strict {
            Some(b) => Json::Bool(b),
            None => Json::Null,
        };
        Json::object().with("name", Json::text(self.name.as_str())).with(
            "schema",
            self.schema.dup(),
        ).with("strict", strict).with_opt("description", Json::text_opt(&self.description))
    }
}

/// The audio that is asked for.
#[derive(Debug)]
pub struct AudioConfig {
    pub voice: Option<String>,
    pub format: Option<String>,
}

impl AudioConfig {
    pub open spec fn value(self) -> JsonV {
        JsonV::obj().with("voice"@, JsonV::text_or_null(self.voice.views())).with(
            "format"@,
            JsonV::text_or_null(self.format.views()),
        )
    }

    pub fn to_json(&self) -> (r: Json)
        ensures
            r@ == self.value(),
    {
        Json::object().with("voice", Json::text_or_null(&self.voice)).with(
            "format",
            Json::text_or_null(&self.format),
        )
    }
}

/// An answer that is expected.
#[derive(Debug)]
pub struct PredictionConfig {
    pub pred_type: String,
    pub content: Json,
}

impl PredictionConfig {
    pub open spec fn value(self) -> JsonV {
        JsonV::obj().with("type"@, JsonV::Text(self.pred_type@)).with("content"@, self.content@)
    }

    pub fn to_json(&self) -> (r: Json)
        ensures
            r@ == self.value(),
    {
        Json::object().with("type", Json::text(self.pred_type.as_str())).with(
            "content",
            self.content.dup(),
        )
    }
}

/// A message.
#[derive(Debug)]
pub struct OpenAIMessage {
    pub role: String,
    pub content: Option<OpenAIContent>,
    pub tool_calls: Option<Vec<OpenAIToolCall>>,
    pub tool_call_id: Option<String>,
    /// The name of a participant.
    pub name: Option<String>,
    /// Why the assistant refuses.
    pub refusal: Option<String>,
    /// All other fields.
    pub extra: Fields,
}

/// The content of a message: a text or parts.
#[derive(Debug)]
pub enum OpenAIContent {
    Text(String),
    Parts(Vec<OpenAIContentPart>),
}

/// A part of a message.
#[derive(Debug)]
pub enum OpenAIContentPart {
    Text { text: String },
    ImageUrl { image_url: ImageUrl },
    InputAudio { input_audio: InputAudio },
}

#[derive(Debug)]
pub struct ImageUrl {
    pub url: String,
    pub detail: Option<String>,
}

#[derive(Debug)]
pub struct InputAudio {
    pub data: String,
    pub format: String,
}

/// A tool call of the assistant.
#[derive(Debug)]
pub struct OpenAIToolCall {
    pub id: String,
    pub call_type: Option<String>,
    pub function: OpenAIFunctionCall,
}

#[derive(Debug)]
pub struct OpenAIFunctionCall {
    pub name: String,
    /// The arguments as JSON text.
    pub arguments: String,
}

} // verus!
