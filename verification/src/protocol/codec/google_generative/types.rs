//! Requests of the Google Generative AI protocol as they stand on the wire, and their parts as
//! JSON values. Floating point numbers are held by their decimal text.
use vstd::prelude::*;

use crate::json::{Json, JsonV};
use crate::views::Views;

verus! {

/// A request.
#[derive(Debug)]
pub struct GoogleRequest {
    pub contents: Vec<GoogleContent>,
    pub system_instruction: Option<GoogleContent>,
    pub generation_config: Option<GoogleGenerationConfig>,
    pub tools: Option<Vec<GoogleToolEntry>>,
    pub tool_config: Option<Json>,
    pub safety_settings: Option<Vec<SafetySetting>>,
    /// The name of a cached content.
    pub cached_content: Option<String>,
}

/// A turn of the conversation.
#[derive(Debug)]
pub struct GoogleContent {
    pub role: Option<String>,
    pub parts: Vec<GooglePart>,
}

/// A part of a turn.
#[derive(Debug)]
pub enum GooglePart {
    Text { text: String },
    InlineData { inline_data: GoogleInlineData },
    FileData { file_data: GoogleFileData },
    FunctionCall { function_call: GoogleFunctionCall },
    FunctionResponse { function_response: GoogleFunctionResponse },
    ExecutableCode { executable_code: GoogleExecutableCode },
    CodeExecutionResult { code_execution_result: GoogleCodeExecutionResult },
    /// A part of any other shape, among them thoughts.
    Other(Json),
}

impl GooglePart {
    pub open spec fn thinks(v: JsonV) -> bool {
        v.get_bool("thought"@) == Some(true)
    }

    /// Whether a part is a thought. Such a part holds a text, and yet is not one that is said.
    pub fn is_thought(v: &Json) -> (r: bool)
        ensures
            r == GooglePart::thinks(v@),
    {
        match v.get_bool("thought") {
            Some(b) => b,
            None => false,
        }
    }
}

#[derive(Debug)]
pub struct GoogleInlineData {
    pub mime_type: String,
    pub data: String,
}

#[derive(Debug)]
pub struct GoogleFileData {
    pub mime_type: Option<String>,
    pub file_uri: String,
}

#[derive(Debug)]
pub struct GoogleFunctionCall {
    pub name: String,
    pub args: Json,
}

#[derive(Debug)]
pub struct GoogleFunctionResponse {
    pub name: String,
    pub response: Json,
}

#[derive(Debug)]
pub struct GoogleExecutableCode {
    pub language: Option<String>,
    pub code: String,
}

#[derive(Debug)]
pub struct GoogleCodeExecutionResult {
    pub outcome: Option<String>,
    pub output: Option<String>,
}

/// The parameters of generation.
#[derive(Debug)]
pub struct GoogleGenerationConfig {
    pub temperature: Option<String>,
    pub max_output_tokens: Option<u32>,
    pub top_p: Option<String>,
    pub top_k: Option<String>,
    pub candidate_count: Option<u32>,
    pub stop_sequences: Option<Vec<String>>,
    pub response_mime_type: Option<String>,
    pub response_schema: Option<Json>,
    pub seed: Option<u32>,
    pub presence_penalty: Option<String>,
    pub frequency_penalty: Option<String>,
    pub response_logprobs: Option<bool>,
    pub logprobs: Option<i32>,
    pub thinking_config: Option<Json>,
    pub audio_timestamp: Option<bool>,
    pub media_resolution: Option<String>,
    pub routing_config: Option<Json>,
}

/// An entry of the tools: functions of the client and tools of the provider.
#[derive(Debug)]
pub struct GoogleToolEntry {
    pub function_declarations: Option<Vec<GoogleFunctionDecl>>,
    pub google_search: Option<Json>,
    pub code_execution: Option<Json>,
    pub google_search_retrieval: Option<Json>,
}

#[derive(Debug)]
pub struct GoogleFunctionDecl {
    pub name: String,
    pub description: Option<String>,
    pub parameters: Option<Json>,
}

/// A threshold for a category of harm.
#[derive(Debug)]
pub struct SafetySetting {
    pub category: String,
    pub threshold: String,
}

// ---------------------------------------------------------------- as JSON values

/// An object with one field.
pub open spec fn single(k: Seq<char>, v: JsonV) -> JsonV {
    JsonV::obj().with(k, v)
}

/// A part as a value.
pub open spec fn part_json(p: GooglePart) -> JsonV {
    match p {
        GooglePart::Text { text } => single("text"@, JsonV::Text(text@)),
        GooglePart::InlineData { inline_data } => single(
            "inlineData"@,
            single("mimeType"@, JsonV::Text(inline_data.mime_type@)).with(
                "data"@,
                JsonV::Text(inline_data.data@),
            ),
        ),
        GooglePart::FileData { file_data } => single(
            "fileData"@,
            JsonV::obj().with_opt("mimeType"@, JsonV::opt_text(file_data.mime_type.views())).with(
                "fileUri"@,
                JsonV::Text(file_data.file_uri@),
            ),
        ),
        GooglePart::FunctionCall { function_call } => single(
            "functionCall"@,
            single("name"@, JsonV::Text(function_call.name@)).with("args"@, function_call.args@),
        ),
        GooglePart::FunctionResponse { function_response } => single(
            "functionResponse"@,
            single("name"@, JsonV::Text(function_response.name@)).with(
                "response"@,
                function_response.response@,
            ),
        ),
        GooglePart::ExecutableCode { executable_code } => single(
            "executableCode"@,
            single("language"@, JsonV::text_or_null(executable_code.language.views())).with(
                "code"@,
                JsonV::Text(executable_code.code@),
            ),
        ),
        GooglePart::CodeExecutionResult { code_execution_result } => single(
            "codeExecutionResult"@,
            single("outcome"@, JsonV::text_or_null(code_execution_result.outcome.views())).with(
                "output"@,
                JsonV::text_or_null(code_execution_result.output.views()),
            ),
        ),
        GooglePart::Other(v) => v@,
    }
}

/// A turn as a value.
pub open spec fn content_json(c: GoogleContent) -> JsonV {
    single("role"@, JsonV::text_or_null(c.role.views())).with(
        "parts"@,
        JsonV::Array(Seq::new(c.parts@.len(), |i: int| part_json(c.parts@[i]))),
    )
}

/// The parameters of generation as a value.
pub open spec fn generation_json(g: GoogleGenerationConfig) -> JsonV {
    JsonV::obj().with_opt("temperature"@, JsonV::opt_float(g.temperature.views())).with_opt(
        "maxOutputTokens"@,
        JsonV::opt_u32(g.max_output_tokens),
    ).with_opt("topP"@, JsonV::opt_float(g.top_p.views())).with_opt(
        "topK"@,
        JsonV::opt_float(g.top_k.views()),
    ).with_opt("candidateCount"@, JsonV::opt_u32(g.candidate_count)).with_opt(
        "stopSequences"@,
        match g.stop_sequences {
            Some(v) => Some(JsonV::texts(v.views())),
            None => None,
        },
    ).with_opt("responseMimeType"@, JsonV::opt_text(g.response_mime_type.views())).with_opt(
        "responseSchema"@,
        g.response_schema.views(),
    ).with_opt("seed"@, JsonV::opt_u32(g.seed)).with_opt(
        "presencePenalty"@,
        JsonV::opt_float(g.presence_penalty.views()),
    ).with_opt("frequencyPenalty"@, JsonV::opt_float(g.frequency_penalty.views())).with_opt(
        "responseLogprobs"@,
        JsonV::opt_bool(g.response_logprobs),
    ).with_opt(
        "logprobs"@,
        match g.logprobs {
            Some(n) => Some(JsonV::int_num(n as i64)),
            None => None,
        },
    ).with_opt("thinkingConfig"@, g.thinking_config.views()).with_opt(
        "audioTimestamp"@,
        JsonV::opt_bool(g.audio_timestamp),
    ).with_opt("mediaResolution"@, JsonV::opt_text(g.media_resolution.views())).with_opt(
        "routingConfig"@,
        g.routing_config.views(),
    )
}

/// A function declaration as a value.
pub open spec fn decl_json(d: GoogleFunctionDecl) -> JsonV {
    single("name"@, JsonV::Text(d.name@)).with_opt(
        "description"@,
        JsonV::opt_text(d.description.views()),
    ).with_opt("parameters"@, d.parameters.views())
}

/// An entry of the tools as a value.
pub open spec fn entry_json(e: GoogleToolEntry) -> JsonV {
    JsonV::obj().with_opt(
        "functionDeclarations"@,
        match e.function_declarations {
            Some(v) => Some(JsonV::Array(Seq::new(v@.len(), |i: int| decl_json(v@[i])))),
            None => None,
        },
    ).with_opt("googleSearch"@, e.google_search.views()).with_opt(
        "codeExecution"@,
        e.code_execution.views(),
    ).with_opt("googleSearchRetrieval"@, e.google_search_retrieval.views())
}

/// The tools as a value.
pub open spec fn entries_json(v: Seq<GoogleToolEntry>) -> JsonV {
    JsonV::Array(Seq::new(v.len(), |i: int| entry_json(v[i])))
}

/// A safety setting as a value.
pub open spec fn safety_json(s: SafetySetting) -> JsonV {
    single("category"@, JsonV::Text(s.category@)).with("threshold"@, JsonV::Text(s.threshold@))
}

/// Safety settings as a value.
pub open spec fn safeties_json(v: Seq<SafetySetting>) -> JsonV {
    JsonV::Array(Seq::new(v.len(), |i: int| safety_json(v[i])))
}

/// An object with one field.
pub fn single_json(key: &str, v: Json) -> (r: Json)
    ensures
        r@ == single(key@, v@),
{
    Json::object().with(key, v)
}

impl GooglePart {
    /// The part as a value.
    pub fn to_json(&self) -> (r: Json)
        ensures
            r@ == part_json(*self),
    {
        match self {
            GooglePart::Text { text } => single_json("text", Json::text(text.as_str())),
            GooglePart::InlineData { inline_data } => single_json(
                "inlineData",
                single_json("mimeType", Json::text(inline_data.mime_type.as_str())).with(
                    "data",
                    Json::text(inline_data.data.as_str()),
                ),
            ),
            GooglePart::FileData { file_data } => single_json(
                "fileData",
                Json::object().with_opt("mimeType", Json::text_opt(&file_data.mime_type)).with(
                    "fileUri",
                    Json::text(file_data.file_uri.as_str()),
                ),
            ),
            GooglePart::FunctionCall { function_call } => single_json(
                "functionCall",
                single_json("name", Json::text(function_call.name.as_str())).with(
                    "args",
                    function_call.args.dup(),
                ),
            ),
            GooglePart::FunctionResponse { function_response } => single_json(
                "functionResponse",
                single_json("name", Json::text(function_response.name.as_str())).with(
                    "response",
                    function_response.response.dup(),
                ),
            ),
            GooglePart::ExecutableCode { executable_code } => single_json(
                "executableCode",
                single_json("language", Json::text_or_null(&executable_code.language)).with(
                    "code",
                    Json::text(executable_code.code.as_str()),
                ),
            ),
            GooglePart::CodeExecutionResult { code_execution_result } => single_json(
                "codeExecutionResult",
                single_json("outcome", Json::text_or_null(&code_execution_result.outcome)).with(
                    "output",
                    Json::text_or_null(&code_execution_result.output),
                ),
            ),
            GooglePart::Other(v) => v.dup(),
        }
    }
}

impl GoogleContent {
    /// The turn as a value.
    pub fn to_json(&self) -> (r: Json)
        ensures
            r@ == content_json(*self),
    {
        let mut parts: Vec<Json> = crate::views::none();
        for i in 0..self.parts.len()
            invariant
                parts.views().len() == i,
                forall|j: int|
                    0 <= j < i ==> #[trigger] parts.views()[j] == part_json(self.parts@[j]),
        {
            crate::views::push(&mut parts, self.parts[i].to_json());
        }
        assert(parts.views() =~= Seq::new(
            self.parts@.len(),
            |i: int| part_json(self.parts@[i]),
        ));
        single_json("role", Json::text_or_null(&self.role)).with("parts", Json::array(parts))
    }
}

impl GoogleGenerationConfig {
    /// The parameters as a value.
    pub fn to_json(&self) -> (r: Json)
        ensures
            r@ == generation_json(*self),
    {
        let stops = match &self.stop_sequences {
            Some(v) => Some(Json::texts(v)),
            None => None,
        };
        let logprobs = match self.logprobs {
            Some(n) => Some(Json::int_num(n as i64)),
            None => None,
        };
        Json::object().with_opt("temperature", Json::float_opt(&self.temperature)).with_opt(
            "maxOutputTokens",
            Json::u32_opt(self.max_output_tokens),
        ).with_opt("topP", Json::float_opt(&self.top_p)).with_opt(
            "topK",
            Json::float_opt(&self.top_k),
        ).with_opt("candidateCount", Json::u32_opt(self.candidate_count)).with_opt(
            "stopSequences",
            stops,
        ).with_opt("responseMimeType", Json::text_opt(&self.response_mime_type)).with_opt(
            "responseSchema",
            crate::json::dup_opt(&self.response_schema),
        ).with_opt("seed", Json::u32_opt(self.seed)).with_opt(
            "presencePenalty",
            Json::float_opt(&self.presence_penalty),
        ).with_opt("frequencyPenalty", Json::float_opt(&self.frequency_penalty)).with_opt(
            "responseLogprobs",
            Json::bool_opt(self.response_logprobs),
        ).with_opt("logprobs", logprobs).with_opt(
            "thinkingConfig",
            crate::json::dup_opt(&self.thinking_config),
        ).with_opt("audioTimestamp", Json::bool_opt(self.audio_timestamp)).with_opt(
            "mediaResolution",
            Json::text_opt(&self.media_resolution),
        ).with_opt("routingConfig", crate::json::dup_opt(&self.routing_config))
    }
}

impl GoogleToolEntry {
    /// The entry as a value.
    pub fn to_json(&self) -> (r: Json)
        ensures
            r@ == entry_json(*self),
    {
        let decls = match &self.function_declarations {
            Some(v) => {
                let mut out: Vec<Json> = crate::views::none();
                for i in 0..v.len()
                    invariant
                        out.views().len() == i,
                        forall|j: int| 0 <= j < i ==> #[trigger] out.views()[j] == decl_json(v@[j]),
                {
                    let d = single_json("name", Json::text(v[i].name.as_str())).with_opt(
                        "description",
                        Json::text_opt(&v[i].description),
                    ).with_opt("parameters", crate::json::dup_opt(&v[i].parameters));
                    crate::views::push(&mut out, d);
                }
                assert(out.views() =~= Seq::new(v@.len(), |i: int| decl_json(v@[i])));
                Some(Json::array(out))
            },
            None => None,
        };
        Json::object().with_opt("functionDeclarations", decls).with_opt(
            "googleSearch",
            crate::json::dup_opt(&self.google_search),
        ).with_opt("codeExecution", crate::json::dup_opt(&self.code_execution)).with_opt(
            "googleSearchRetrieval",
            crate::json::dup_opt(&self.google_search_retrieval),
        )
    }
}

/// The tools as a value.
pub fn entries_value(v: &Vec<GoogleToolEntry>) -> (r: Json)
    ensures
        r@ == entries_json(v@),
{
    let mut out: Vec<Json> = crate::views::none();
    for i in 0..v.len()
        invariant
            out.views().len() == i,
            forall|j: int| 0 <= j < i ==> #[trigger] out.views()[j] == entry_json(v@[j]),
    {
        crate::views::push(&mut out, v[i].to_json());
    }
    assert(out.views() =~= Seq::new(v@.len(), |i: int| entry_json(v@[i])));
    Json::array(out)
}

/// Safety settings as a value.
pub fn safeties_value(v: &Vec<SafetySetting>) -> (r: Json)
    ensures
        r@ == safeties_json(v@),
{
    let mut out: Vec<Json> = crate::views::none();
    for i in 0..v.len()
        invariant
            out.views().len() == i,
            forall|j: int| 0 <= j < i ==> #[trigger] out.views()[j] == safety_json(v@[j]),
    {
        let s = single_json("category", Json::text(v[i].category.as_str())).with(
            "threshold",
            Json::text(v[i].threshold.as_str()),
        );
        crate::views::push(&mut out, s);
    }
    assert(out.views() =~= Seq::new(v@.len(), |i: int| safety_json(v@[i])));
    Json::array(out)
}

} // verus!
