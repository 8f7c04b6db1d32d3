//! A request that is read and written again.
use vstd::prelude::*;

use crate::json::JsonV;
use crate::protocol::codec::google_generative::decoder::PartsV;
use crate::protocol::codec::google_generative::types::{
    GoogleContent, GoogleFunctionDecl, GoogleGenerationConfig, GooglePart, GoogleRequest,
};
use crate::protocol::ir::request::{AiRequestV, ContentV, MessageV, Role, ToolSpecV};
use crate::protocol::types::ToolCallV;
use crate::views::Views;

verus! {

/// The words of the protocol differ.
proof fn lemma_words()
    ensures
        "args"@.len() == 4,
        "args"@[2] == 'g',
        "args"@[3] == 's',
        "code"@.len() == 4,
        "code"@[2] == 'd',
        "code"@[3] == 'e',
        "data"@.len() == 4,
        "data"@[2] == 't',
        "data"@[3] == 'a',
        "name"@.len() == 4,
        "name"@[2] == 'm',
        "name"@[3] == 'e',
        "role"@.len() == 4,
        "role"@[2] == 'l',
        "role"@[3] == 'e',
        "seed"@.len() == 4,
        "seed"@[2] == 'e',
        "seed"@[3] == 'd',
        "text"@.len() == 4,
        "text"@[2] == 'x',
        "text"@[3] == 't',
        "topK"@.len() == 4,
        "topK"@[2] == 'p',
        "topK"@[3] == 'K',
        "topP"@.len() == 4,
        "topP"@[2] == 'p',
        "topP"@[3] == 'P',
        "user"@.len() == 4,
        "user"@[2] == 'e',
        "user"@[3] == 'r',
        "model"@.len() == 5,
        "model"@[0] == 'm',
        "parts"@.len() == 5,
        "parts"@[0] == 'p',
        "tools"@.len() == 5,
        "tools"@[0] == 't',
        "output"@.len() == 6,
        "output"@[0] == 'o',
        "result"@.len() == 6,
        "result"@[0] == 'r',
        "fileUri"@.len() == 7,
        "fileUri"@[0] == 'f',
        "outcome"@.len() == 7,
        "outcome"@[0] == 'o',
        "category"@.len() == 8,
        "category"@[4] == 'g',
        "contents"@.len() == 8,
        "contents"@[4] == 'e',
        "fileData"@.len() == 8,
        "fileData"@[4] == 'D',
        "language"@.len() == 8,
        "language"@[4] == 'u',
        "logprobs"@.len() == 8,
        "logprobs"@[4] == 'r',
        "mimeType"@.len() == 8,
        "mimeType"@[4] == 'T',
        "response"@.len() == 8,
        "response"@[4] == 'o',
        "threshold"@.len() == 9,
        "inlineData"@.len() == 10,
        "inlineData"@[0] == 'i',
        "parameters"@.len() == 10,
        "parameters"@[0] == 'p',
        "toolConfig"@.len() == 10,
        "toolConfig"@[0] == 't',
        "description"@.len() == 11,
        "description"@[0] == 'd',
        "temperature"@.len() == 11,
        "temperature"@[0] == 't',
        "functionCall"@.len() == 12,
        "functionCall"@[0] == 'f',
        "googleSearch"@.len() == 12,
        "googleSearch"@[0] == 'g',
        "cachedContent"@.len() == 13,
        "cachedContent"@[2] == 'c',
        "codeExecution"@.len() == 13,
        "codeExecution"@[2] == 'd',
        "routingConfig"@.len() == 13,
        "routingConfig"@[2] == 'u',
        "stopSequences"@.len() == 13,
        "stopSequences"@[2] == 'o',
        "audioTimestamp"@.len() == 14,
        "audioTimestamp"@[0] == 'a',
        "candidateCount"@.len() == 14,
        "candidateCount"@[0] == 'c',
        "executableCode"@.len() == 14,
        "executableCode"@[0] == 'e',
        "responseSchema"@.len() == 14,
        "responseSchema"@[0] == 'r',
        "safetySettings"@.len() == 14,
        "safetySettings"@[0] == 's',
        "thinkingConfig"@.len() == 14,
        "thinkingConfig"@[0] == 't',
        "maxOutputTokens"@.len() == 15,
        "maxOutputTokens"@[1] == 'a',
        "mediaResolution"@.len() == 15,
        "mediaResolution"@[1] == 'e',
        "presencePenalty"@.len() == 15,
        "presencePenalty"@[1] == 'r',
        "frequencyPenalty"@.len() == 16,
        "frequencyPenalty"@[8] == 'y',
        "functionResponse"@.len() == 16,
        "functionResponse"@[8] == 'R',
        "generationConfig"@.len() == 16,
        "generationConfig"@[8] == 'o',
        "responseLogprobs"@.len() == 16,
        "responseLogprobs"@[8] == 'L',
        "responseMimeType"@.len() == 16,
        "responseMimeType"@[8] == 'M',
        "systemInstruction"@.len() == 17,
        "__google_raw_tools"@.len() == 18,
        "codeExecutionResult"@.len() == 19,
        "__google_tool_config"@.len() == 20,
        "__google_tool_config"@[0] == '_',
        "functionDeclarations"@.len() == 20,
        "functionDeclarations"@[0] == 'f',
        "googleSearchRetrieval"@.len() == 21,
        "__google_cached_content"@.len() == 23,
        "__builtin__google_search"@.len() == 24,
        "__builtin__google_search"@[2] == 'b',
        "__google_safety_settings"@.len() == 24,
        "__google_safety_settings"@[2] == 'g',
        "__builtin__code_execution"@.len() == 25,
        "__google_generation_config"@.len() == 26,
        "__google_raw_system_instruction"@.len() == 31,
        "__builtin__google_search_retrieval"@.len() == 34,
{
    reveal_strlit("args");
    reveal_strlit("code");
    reveal_strlit("data");
    reveal_strlit("name");
    reveal_strlit("role");
    reveal_strlit("seed");
    reveal_strlit("text");
    reveal_strlit("topK");
    reveal_strlit("topP");
    reveal_strlit("user");
    reveal_strlit("model");
    reveal_strlit("parts");
    reveal_strlit("tools");
    reveal_strlit("output");
    reveal_strlit("result");
    reveal_strlit("fileUri");
    reveal_strlit("outcome");
    reveal_strlit("category");
    reveal_strlit("contents");
    reveal_strlit("fileData");
    reveal_strlit("language");
    reveal_strlit("logprobs");
    reveal_strlit("mimeType");
    reveal_strlit("response");
    reveal_strlit("threshold");
    reveal_strlit("inlineData");
    reveal_strlit("parameters");
    reveal_strlit("toolConfig");
    reveal_strlit("description");
    reveal_strlit("temperature");
    reveal_strlit("functionCall");
    reveal_strlit("googleSearch");
    reveal_strlit("cachedContent");
    reveal_strlit("codeExecution");
    reveal_strlit("routingConfig");
    reveal_strlit("stopSequences");
    reveal_strlit("audioTimestamp");
    reveal_strlit("candidateCount");
    reveal_strlit("executableCode");
    reveal_strlit("responseSchema");
    reveal_strlit("safetySettings");
    reveal_strlit("thinkingConfig");
    reveal_strlit("maxOutputTokens");
    reveal_strlit("mediaResolution");
    reveal_strlit("presencePenalty");
    reveal_strlit("frequencyPenalty");
    reveal_strlit("functionResponse");
    reveal_strlit("generationConfig");
    reveal_strlit("responseLogprobs");
    reveal_strlit("responseMimeType");
    reveal_strlit("systemInstruction");
    reveal_strlit("__google_raw_tools");
    reveal_strlit("codeExecutionResult");
    reveal_strlit("__google_tool_config");
    reveal_strlit("functionDeclarations");
    reveal_strlit("googleSearchRetrieval");
    reveal_strlit("__google_cached_content");
    reveal_strlit("__builtin__google_search");
    reveal_strlit("__google_safety_settings");
    reveal_strlit("__builtin__code_execution");
    reveal_strlit("__google_generation_config");
    reveal_strlit("__google_raw_system_instruction");
    reveal_strlit("__builtin__google_search_retrieval");
}

proof fn lemma_with_opt(j: JsonV, k: Seq<char>, v: Option<JsonV>, other: Seq<char>)
    requires
        j is Object,
    ensures
        j.with_opt(k, v) is Object,
        j.with_opt(k, v).get(other) == if other == k && v is Some {
            v
        } else {
            j.get(other)
        },
{
    broadcast use crate::json::lemma_with_get;

}

// ---------------------------------------------------------------- parts

/// A part under the names of the protocol.
pub proof fn lemma_part_named(p: GooglePart)
    ensures
        ({
            let j = crate::protocol::codec::google_generative::types::part_json(p);
            match p {
                GooglePart::Text { text } => j.get_str("text"@) == Some(text@),
                GooglePart::InlineData { inline_data } => {
                    &&& j.get2("inlineData"@, "mimeType"@) == Some(
                        JsonV::Text(inline_data.mime_type@),
                    )
                    &&& j.get2("inlineData"@, "data"@) == Some(JsonV::Text(inline_data.data@))
                },
                GooglePart::FileData { file_data } => j.get2("fileData"@, "fileUri"@) == Some(
                    JsonV::Text(file_data.file_uri@),
                ),
                GooglePart::FunctionCall { function_call } => {
                    &&& j.get2("functionCall"@, "name"@) == Some(JsonV::Text(function_call.name@))
                    &&& j.get2("functionCall"@, "args"@) == Some(function_call.args@)
                },
                GooglePart::FunctionResponse { function_response } => {
                    &&& j.get2("functionResponse"@, "name"@) == Some(
                        JsonV::Text(function_response.name@),
                    )
                    &&& j.get2("functionResponse"@, "response"@) == Some(
                        function_response.response@,
                    )
                },
                GooglePart::ExecutableCode { executable_code } => j.get2(
                    "executableCode"@,
                    "code"@,
                ) == Some(JsonV::Text(executable_code.code@)),
                GooglePart::CodeExecutionResult { code_execution_result } => j.get2(
                    "codeExecutionResult"@,
                    "output"@,
                ) == Some(JsonV::text_or_null(code_execution_result.output.views())),
                GooglePart::Other(v) => j == v@,
            }
        }),
{
    broadcast use crate::json::lemma_with_get;

    lemma_words();
    let j = crate::protocol::codec::google_generative::types::part_json(p);
    match p {
        GooglePart::FileData { file_data } => {
            let head = JsonV::obj();
            lemma_with_opt(
                head,
                "mimeType"@,
                JsonV::opt_text(file_data.mime_type.views()),
                "fileUri"@,
            );
            let inner = head.with_opt(
                "mimeType"@,
                JsonV::opt_text(file_data.mime_type.views()),
            ).with("fileUri"@, JsonV::Text(file_data.file_uri@));
            assert(j.get("fileData"@) == Some(inner));
        },
        _ => {},
    }
}

/// Whether a part is a text, data, a call or an answer.
pub open spec fn common(p: GooglePart) -> bool {
    p is Text || p is InlineData || p is FunctionCall || p is FunctionResponse
}

proof fn lemma_blocks_kept(parts: Seq<GooglePart>, fresh: Seq<Seq<char>>, n: nat)
    requires
        n <= parts.len(),
        forall|i: int| 0 <= i < parts.len() ==> common(#[trigger] parts[i]),
    ensures
        ({
            let p = PartsV::of(parts, fresh, n);
            &&& p.blocks.len() == n
            &&& forall|i: int|
                0 <= i < n ==> crate::protocol::codec::google_generative::encoder::block_part(#[trigger] p.blocks[i]) == crate::protocol::codec::google_generative::types::part_json(parts[i])
            &&& forall|i: int|
                0 <= i < n ==> (#[trigger] p.blocks[i] is Text <==> parts[i] is Text)
            &&& p.answers <==> exists|i: int|
                0 <= i < n && #[trigger] parts[i] is FunctionResponse
            &&& p.texts.len() <= n
            &&& n == 1 && p.texts.len() == 1 ==> match parts[0] {
                GooglePart::Text { text } => p.texts[0] == text@ && p.calls.len() == 0,
                _ => false,
            }
            &&& p.calls == calls_upto(parts, fresh, n)
        }),
    decreases n,
{
    if n > 0 {
        lemma_blocks_kept(parts, fresh, (n - 1) as nat);
        assert(common(parts[n - 1]));
        if n == 1 {
            reveal_with_fuel(PartsV::of, 2);
            reveal_with_fuel(calls_upto, 2);
        }
    }
}

/// The calls among the first `n` parts, each under a fresh identifier.
pub open spec fn calls_upto(parts: Seq<GooglePart>, fresh: Seq<Seq<char>>, n: nat) -> Seq<ToolCallV>
    decreases n,
{
    if n == 0 {
        Seq::empty()
    } else {
        match parts[n - 1] {
            GooglePart::FunctionCall { function_call } => calls_upto(
                parts,
                fresh,
                (n - 1) as nat,
            ).push(
                ToolCallV {
                    id: "call_"@ + fresh[n - 1],
                    name: function_call.name@,
                    arguments: crate::json::text_of(function_call.args@),
                },
            ),
            _ => calls_upto(parts, fresh, (n - 1) as nat),
        }
    }
}

/// A turn is read and written again: who speaks, where answers are the client's, and every part, one
/// for one. Its calls are known as such.
pub proof fn lemma_turn_kept(c: GoogleContent, fresh: Seq<Seq<char>>)
    requires
        forall|i: int| 0 <= i < c.parts@.len() ==> common(#[trigger] c.parts@[i]),
        crate::protocol::codec::google_generative::decoder::message_of(c, fresh) is Ok,
    ensures
        ({
            let m = crate::protocol::codec::google_generative::decoder::message_of(c, fresh)->Ok_0;
            let j = crate::protocol::codec::google_generative::encoder::turn_json(m);
            let answers = exists|i: int|
                0 <= i < c.parts@.len() && #[trigger] c.parts@[i] is FunctionResponse;
            &&& m.role == (if answers {
                Role::Tool
            } else if c.role.views() == Some("model"@) {
                Role::Assistant
            } else {
                Role::User
            })
            &&& j.get_str("role"@) == Some(
                if !answers && c.role.views() == Some("model"@) {
                    "model"@
                } else {
                    "user"@
                },
            )
            &&& j.get_array("parts"@) == Some(
                Seq::new(c.parts@.len(), |i: int| crate::protocol::codec::google_generative::types::part_json(c.parts@[i])),
            )
            &&& m.tool_calls == crate::views::some_list(
                calls_upto(c.parts@, fresh, c.parts@.len()),
            )
        }),
{
    broadcast use crate::json::lemma_with_get;

    lemma_words();
    let parts = c.parts@;
    let n = parts.len();
    lemma_blocks_kept(parts, fresh, n);
    let m = crate::protocol::codec::google_generative::decoder::message_of(c, fresh)->Ok_0;
    let p = PartsV::of(parts, fresh, n);
    assert(crate::protocol::codec::google_generative::encoder::parts_of(m) =~= Seq::new(n, |i: int| crate::protocol::codec::google_generative::types::part_json(parts[i])));
    assert(crate::protocol::codec::google_generative::encoder::turn_json(m).get("parts"@) == Some(JsonV::Array(crate::protocol::codec::google_generative::encoder::parts_of(m))));
}

proof fn lemma_call_parts(before: Seq<JsonV>, calls: Seq<ToolCallV>, n: nat)
    requires
        n <= calls.len(),
    ensures
        ({
            let v = crate::protocol::codec::google_generative::encoder::call_parts(before, calls, n);
            &&& v.len() == before.len() + n
            &&& v.subrange(0, before.len() as int) == before
            &&& forall|i: int|
                0 <= i < n ==> is_call(#[trigger] v[before.len() + i], calls[i])
        }),
    decreases n,
{
    if n == 0 {
        assert(before.subrange(0, before.len() as int) =~= before);
    } else {
        broadcast use crate::json::lemma_with_get;

        lemma_words();
        let m = (n - 1) as nat;
        lemma_call_parts(before, calls, m);
        let u = crate::protocol::codec::google_generative::encoder::call_parts(before, calls, m);
        let v = crate::protocol::codec::google_generative::encoder::call_parts(before, calls, n);
        assert(v.subrange(0, before.len() as int) =~= u.subrange(0, before.len() as int));
        let c = calls[n - 1];
        let inner = JsonV::obj().with("name"@, JsonV::Text(c.name)).with(
            "args"@,
            JsonV::read_or_object(c.arguments),
        );
        assert(crate::protocol::codec::google_generative::encoder::call_part(c.name, JsonV::read_or_object(c.arguments)).get("functionCall"@) == Some(
            inner,
        ));
        assert(is_call(v[before.len() + n - 1], c));
        assert forall|i: int| 0 <= i < n implies is_call(#[trigger] v[before.len() + i], calls[i]) by {
            if i < m {
                assert(v[before.len() + i] == u[before.len() + i]);
            }
        }
    }
}

/// Whether a part is a call, by its name and its arguments.
pub open spec fn is_call(j: JsonV, c: ToolCallV) -> bool {
    &&& j.get2("functionCall"@, "name"@) == Some(JsonV::Text(c.name))
    &&& j.get2("functionCall"@, "args"@) == Some(JsonV::read_or_object(c.arguments))
}

/// A message of a text is written as a turn: the assistant's as the model's, all others as the
/// client's. The text comes first and the calls behind it, in order; an answer is a response to
/// the call that it names.
pub proof fn lemma_turn_said(m: MessageV, t: Seq<char>)
    requires
        m.content == ContentV::Text(t),
    ensures
        ({
            let j = crate::protocol::codec::google_generative::encoder::turn_json(m);
            &&& j.get_str("role"@) == Some(
                if m.role == Role::Assistant {
                    "model"@
                } else {
                    "user"@
                },
            )
            &&& j.get_array("parts"@) is Some
            &&& ({
                let parts = j.get_array("parts"@)->0;
                match m.tool_call_id {
                    Some(id) => {
                        &&& parts.len() == 1
                        &&& parts[0].get2("functionResponse"@, "name"@) == Some(JsonV::Text(id))
                        &&& parts[0].get2("functionResponse"@, "response"@) matches Some(r)
                            && r.get_str("result"@) == Some(t)
                    },
                    None => match m.tool_calls {
                        Some(calls) => {
                            let head: int = if t.len() > 0 {
                                1
                            } else {
                                0
                            };
                            &&& parts.len() == head + calls.len()
                            &&& t.len() > 0 ==> parts[0].get_str("text"@) == Some(t)
                            &&& forall|i: int|
                                head <= i < parts.len() ==> is_call(
                                    #[trigger] parts[i],
                                    calls[i - head],
                                )
                        },
                        None => parts.len() == 1 && parts[0].get_str("text"@) == Some(t),
                    },
                }
            })
        }),
{
    broadcast use crate::json::lemma_with_get;

    lemma_words();
    let j = crate::protocol::codec::google_generative::encoder::turn_json(m);
    let parts = crate::protocol::codec::google_generative::encoder::parts_of(m);
    assert(j.get("parts"@) == Some(JsonV::Array(parts)));
    match m.tool_call_id {
        Some(id) => {
            let r = JsonV::obj().with("result"@, JsonV::Text(t));
            let inner = JsonV::obj().with("name"@, JsonV::Text(id)).with("response"@, r);
            assert(parts[0].get("functionResponse"@) == Some(inner));
        },
        None => match m.tool_calls {
            Some(calls) => {
                let before = if t.len() > 0 {
                    seq![crate::protocol::codec::google_generative::encoder::text_part(t)]
                } else {
                    Seq::empty()
                };
                lemma_call_parts(before, calls, calls.len());
                if t.len() > 0 {
                    assert(parts.subrange(0, 1)[0] == crate::protocol::codec::google_generative::encoder::text_part(t));
                }
                let head: int = before.len() as int;
                assert forall|i: int| head <= i < parts.len() implies is_call(
                    #[trigger] parts[i],
                    calls[i - head],
                ) by {
                    assert(is_call(parts[before.len() + (i - head)], calls[i - head]));
                }
            },
            None => {},
        },
    }
}

// ---------------------------------------------------------------- the body

/// The messages among the first `n` that are not the system's.
pub open spec fn talk_upto(v: Seq<MessageV>, n: nat) -> Seq<MessageV>
    decreases n,
{
    if n == 0 {
        Seq::empty()
    } else if v[n - 1].role == Role::System {
        talk_upto(v, (n - 1) as nat)
    } else {
        talk_upto(v, (n - 1) as nat).push(v[n - 1])
    }
}

/// What the system says in the first `n` messages.
pub open spec fn told_upto(v: Seq<MessageV>, n: nat) -> Seq<Seq<char>>
    decreases n,
{
    if n == 0 {
        Seq::empty()
    } else if v[n - 1].role == Role::System {
        told_upto(v, (n - 1) as nat).push(v[n - 1].content.to_text())
    } else {
        told_upto(v, (n - 1) as nat)
    }
}

proof fn lemma_turns(v: Seq<MessageV>, n: nat)
    requires
        n <= v.len(),
    ensures
        crate::protocol::codec::google_generative::encoder::turns_upto(v, n) == Seq::new(
            talk_upto(v, n).len(),
            |i: int| crate::protocol::codec::google_generative::encoder::turn_json(talk_upto(v, n)[i]),
        ),
        crate::protocol::codec::google_generative::encoder::system_parts(v, n).len() == told_upto(v, n).len(),
        forall|i: int|
            0 <= i < told_upto(v, n).len() ==> (#[trigger] crate::protocol::codec::google_generative::encoder::system_parts(v, n)[i]).get_str(
                "text"@,
            ) == Some(told_upto(v, n)[i]),
    decreases n,
{
    broadcast use crate::json::lemma_with_get;

    if n == 0 {
        assert(crate::protocol::codec::google_generative::encoder::turns_upto(v, n) =~= Seq::new(
            talk_upto(v, n).len(),
            |i: int| crate::protocol::codec::google_generative::encoder::turn_json(talk_upto(v, n)[i]),
        ));
    } else {
        lemma_turns(v, (n - 1) as nat);
        assert(crate::protocol::codec::google_generative::encoder::turns_upto(v, n) =~= Seq::new(
            talk_upto(v, n).len(),
            |i: int| crate::protocol::codec::google_generative::encoder::turn_json(talk_upto(v, n)[i]),
        ));
    }
}

/// The body of a request holds the conversation turn by turn, what the system says apart from it,
/// and the sampling, the limit of tokens and the other settings under their names.
#[verifier::rlimit(40)]
pub proof fn lemma_body_says(req: AiRequestV, k: Seq<char>)
    requires
        k != "temperature"@,
        k != "maxOutputTokens"@,
        k != "topP"@,
    ensures
        ({
            let bag = req.meta.vendor.ingress;
            let body = crate::protocol::codec::google_generative::encoder::body_of(req);
            let v = req.messages;
            let talk = talk_upto(v, v.len());
            let told = told_upto(v, v.len());
            &&& body.get_array("contents"@) == Some(
                Seq::new(talk.len(), |i: int| crate::protocol::codec::google_generative::encoder::turn_json(talk[i])),
            )
            &&& crate::json::get_field(bag, "__google_raw_system_instruction"@) is None ==> {
                &&& told.len() == 0 ==> body.get("systemInstruction"@) is None
                &&& told.len() > 0 ==> match body.get2("systemInstruction"@, "parts"@) {
                    Some(JsonV::Array(a)) => a.len() == told.len() && forall|i: int|
                        0 <= i < told.len() ==> (#[trigger] a[i]).get_str("text"@) == Some(told[i]),
                    _ => false,
                }
            }
            &&& crate::json::get_field(bag, "__google_raw_system_instruction"@) matches Some(x)
                ==> body.get("systemInstruction"@) == Some(x)
            &&& req.generation.temperature matches Some(x) ==> body.get2(
                "generationConfig"@,
                "temperature"@,
            ) == Some(JsonV::float(x))
            &&& req.generation.max_tokens matches Some(n) ==> body.get2(
                "generationConfig"@,
                "maxOutputTokens"@,
            ) == Some(JsonV::num(n as u64))
            &&& req.generation.top_p matches Some(x) ==> body.get2("generationConfig"@, "topP"@)
                == Some(JsonV::float(x))
            &&& crate::json::get_field(bag, "__google_generation_config"@) matches Some(
                JsonV::Object(f),
            ) ==> body.get2("generationConfig"@, k) == crate::json::get_field(f, k)
            &&& crate::json::get_field(bag, "__google_raw_tools"@) matches Some(x) ==> body.get(
                "tools"@,
            ) == Some(x)
            &&& body.get("toolConfig"@) == crate::json::get_field(bag, "__google_tool_config"@)
            &&& body.get("safetySettings"@) == crate::json::get_field(
                bag,
                "__google_safety_settings"@,
            )
            &&& body.get("cachedContent"@) == crate::json::get_field(
                bag,
                "__google_cached_content"@,
            )
        }),
{
    broadcast use {
        crate::json::lemma_with_get,
        crate::json::lemma_fields_put_opt,
    };

    lemma_words();
    let bag = req.meta.vendor.ingress;
    let body = crate::protocol::codec::google_generative::encoder::body_of(req);
    let v = req.messages;
    lemma_turns(v, v.len());
    let generation = crate::protocol::codec::google_generative::encoder::generation_fields(req);
    crate::json::lemma_field_pos(generation, k, generation.len());
    crate::json::lemma_field_pos(generation, "temperature"@, generation.len());
    crate::json::lemma_field_pos(generation, "maxOutputTokens"@, generation.len());
    crate::json::lemma_field_pos(generation, "topP"@, generation.len());
    assert(body.get("generationConfig"@) == if generation.len() == 0 {
        None
    } else {
        Some(JsonV::Object(generation))
    });
    assert(body.get("systemInstruction"@) == crate::protocol::codec::google_generative::encoder::system_of(req));
    assert(body.get("tools"@) == crate::protocol::codec::google_generative::encoder::tools_of(req));
    if let Some(x) = req.generation.temperature {
        assert(crate::json::get_field(generation, "temperature"@) == Some(JsonV::float(x)));
    }
    if let Some(n) = req.generation.max_tokens {
        assert(crate::json::get_field(generation, "maxOutputTokens"@) == Some(
            JsonV::num(n as u64),
        ));
    }
    if let Some(x) = req.generation.top_p {
        assert(crate::json::get_field(generation, "topP"@) == Some(JsonV::float(x)));
    }
    if let Some(JsonV::Object(f)) = crate::json::get_field(bag, "__google_generation_config"@) {
        assert(crate::json::get_field(generation, k) == crate::json::get_field(f, k));
    }
    let parts = crate::protocol::codec::google_generative::encoder::system_parts(v, v.len());
    let inner = JsonV::obj().with("parts"@, JsonV::Array(parts));
    assert(inner.get("parts"@) == Some(JsonV::Array(parts)));
}

// ---------------------------------------------------------------- tools

/// Whether a tool is one of the client's own, not one that the provider runs.
pub open spec fn own_tool(t: ToolSpecV) -> bool {
    &&& t.name != "__builtin__google_search"@
    &&& t.name != "__builtin__code_execution"@
    &&& t.name != "__builtin__google_search_retrieval"@
}

proof fn lemma_declared(tools: Seq<ToolSpecV>, n: nat)
    requires
        n <= tools.len(),
        forall|i: int| 0 <= i < tools.len() ==> own_tool(#[trigger] tools[i]),
    ensures
        crate::protocol::codec::google_generative::encoder::declarations(tools, n) == Seq::new(n, |i: int| crate::protocol::codec::google_generative::encoder::declaration(tools[i])),
        crate::protocol::codec::google_generative::encoder::builtins(tools, n) == Seq::<JsonV>::empty(),
    decreases n,
{
    if n > 0 {
        lemma_declared(tools, (n - 1) as nat);
        assert(own_tool(tools[n - 1]));
    }
    assert(crate::protocol::codec::google_generative::encoder::declarations(tools, n) =~= Seq::new(n, |i: int| crate::protocol::codec::google_generative::encoder::declaration(tools[i])));
}

/// The client's tools are declared in order, each by its name and its description.
pub proof fn lemma_tools_declared(tools: Seq<ToolSpecV>)
    requires
        tools.len() > 0,
        forall|i: int| 0 <= i < tools.len() ==> own_tool(#[trigger] tools[i]),
    ensures
        ({
            let v = crate::protocol::codec::google_generative::encoder::tool_entries(tools);
            &&& v.len() == 1
            &&& (match v[0].get("functionDeclarations"@) {
                Some(JsonV::Array(a)) => a.len() == tools.len() && forall|i: int|
                    0 <= i < tools.len() ==> (#[trigger] a[i]).get_str("name"@) == Some(
                        tools[i].name,
                    ) && a[i].get_str("description"@) == tools[i].description,
                _ => false,
            })
        }),
{
    broadcast use crate::json::lemma_with_get;

    lemma_words();
    lemma_declared(tools, tools.len());
    let a = crate::protocol::codec::google_generative::encoder::declarations(tools, tools.len());
    let v = crate::protocol::codec::google_generative::encoder::tool_entries(tools);
    assert(v =~= seq![JsonV::obj().with("functionDeclarations"@, JsonV::Array(a))]);
    assert(v[0].get("functionDeclarations"@) == Some(JsonV::Array(a)));
    assert forall|i: int| 0 <= i < tools.len() implies (#[trigger] a[i]).get_str("name"@) == Some(
        tools[i].name,
    ) && a[i].get_str("description"@) == tools[i].description by {
        let head = JsonV::obj().with("name"@, JsonV::Text(tools[i].name));
        lemma_with_opt(head, "description"@, JsonV::opt_text(tools[i].description), "name"@);
        lemma_with_opt(
            head,
            "description"@,
            JsonV::opt_text(tools[i].description),
            "description"@,
        );
        assert(a[i] == crate::protocol::codec::google_generative::encoder::declaration(tools[i]));
    }
}

/// A tool that the provider runs is written under the provider's name for it.
pub proof fn lemma_builtins(tool: ToolSpecV)
    ensures
        ({
            let v = crate::protocol::codec::google_generative::encoder::tool_entries(seq![tool]);
            &&& tool.name == "__builtin__google_search"@ ==> v.len() == 1 && v[0].get(
                "googleSearch"@,
            ) == Some(JsonV::obj())
            &&& tool.name == "__builtin__code_execution"@ ==> v.len() == 1 && v[0].get(
                "codeExecution"@,
            ) == Some(JsonV::obj())
            &&& tool.name == "__builtin__google_search_retrieval"@ ==> v.len() == 1 && v[0].get(
                "googleSearchRetrieval"@,
            ) == Some(JsonV::obj())
        }),
{
    broadcast use crate::json::lemma_with_get;

    lemma_words();
    reveal_with_fuel(crate::protocol::codec::google_generative::encoder::declarations, 2);
    reveal_with_fuel(crate::protocol::codec::google_generative::encoder::builtins, 2);
}

/// Of a schema, all is kept but the keywords that the provider refuses.
pub proof fn lemma_schema_kept(f: Seq<(Seq<char>, JsonV)>, k: Seq<char>)
    requires
        crate::json::distinct_names(f),
    ensures
        ({
            let j = crate::protocol::codec::google_generative::encoder::clean_schema(JsonV::Object(f));
            let refused = k == "$schema"@ || k == "additionalProperties"@ || k == "$ref"@ || k
                == "ref"@ || k == "definitions"@ || k == "$defs"@;
            &&& refused ==> j.get(k) is None
            &&& !refused ==> j.get(k) == match crate::json::get_field(f, k) {
                Some(v) => Some(crate::protocol::codec::google_generative::encoder::clean_schema(v)),
                None => None,
            }
        }),
{
    lemma_clean_upto(f, f.len(), k);
}

proof fn lemma_clean_upto(f: Seq<(Seq<char>, JsonV)>, n: nat, k: Seq<char>)
    requires
        n <= f.len(),
        crate::json::distinct_names(f),
    ensures
        crate::json::get_field(crate::protocol::codec::google_generative::encoder::clean_fields(f, n), k) == if crate::protocol::codec::google_generative::encoder::refused_keyword(k) {
            None
        } else {
            match crate::json::field_pos(f, k, n) {
                Some(i) => Some(crate::protocol::codec::google_generative::encoder::clean_schema(f[i].1)),
                None => None,
            }
        },
    decreases n,
{
    if n > 0 {
        broadcast use crate::json::lemma_fields_put;

        lemma_clean_upto(f, (n - 1) as nat, k);
        crate::json::lemma_field_pos(f, k, (n - 1) as nat);
    }
}

// ---------------------------------------------------------------- what a client asks for

/// What a client asks for under a name of the parameters of generation.
pub open spec fn asked(g: GoogleGenerationConfig, k: Seq<char>) -> Option<JsonV> {
    if k == "temperature"@ {
        JsonV::opt_float(g.temperature.views())
    } else if k == "maxOutputTokens"@ {
        JsonV::opt_u32(g.max_output_tokens)
    } else if k == "topP"@ {
        JsonV::opt_float(g.top_p.views())
    } else if k == "topK"@ {
        JsonV::opt_float(g.top_k.views())
    } else if k == "candidateCount"@ {
        JsonV::opt_u32(g.candidate_count)
    } else if k == "stopSequences"@ {
        match g.stop_sequences {
            Some(v) => Some(JsonV::texts(v.views())),
            None => None,
        }
    } else if k == "responseMimeType"@ {
        JsonV::opt_text(g.response_mime_type.views())
    } else if k == "responseSchema"@ {
        g.response_schema.views()
    } else if k == "seed"@ {
        JsonV::opt_u32(g.seed)
    } else if k == "presencePenalty"@ {
        JsonV::opt_float(g.presence_penalty.views())
    } else if k == "frequencyPenalty"@ {
        JsonV::opt_float(g.frequency_penalty.views())
    } else if k == "responseLogprobs"@ {
        JsonV::opt_bool(g.response_logprobs)
    } else if k == "logprobs"@ {
        match g.logprobs {
            Some(n) => Some(JsonV::int_num(n as i64)),
            None => None,
        }
    } else if k == "thinkingConfig"@ {
        g.thinking_config.views()
    } else if k == "audioTimestamp"@ {
        JsonV::opt_bool(g.audio_timestamp)
    } else if k == "mediaResolution"@ {
        JsonV::opt_text(g.media_resolution.views())
    } else if k == "routingConfig"@ {
        g.routing_config.views()
    } else {
        None
    }
}

/// The parameters of generation are written under their names.
#[verifier::rlimit(60)]
pub proof fn lemma_generation_named(g: GoogleGenerationConfig, k: Seq<char>)
    ensures
        crate::protocol::codec::google_generative::types::generation_json(g) is Object,
        crate::protocol::codec::google_generative::types::generation_json(g).get(k) == asked(g, k),
{
    lemma_words();
    let j = JsonV::obj();
    assert(j.get(k) is None);
    let v = asked(g, "temperature"@);
    lemma_with_opt(j, "temperature"@, v, k);
    let j = j.with_opt("temperature"@, v);
    let v = asked(g, "maxOutputTokens"@);
    lemma_with_opt(j, "maxOutputTokens"@, v, k);
    let j = j.with_opt("maxOutputTokens"@, v);
    let v = asked(g, "topP"@);
    lemma_with_opt(j, "topP"@, v, k);
    let j = j.with_opt("topP"@, v);
    let v = asked(g, "topK"@);
    lemma_with_opt(j, "topK"@, v, k);
    let j = j.with_opt("topK"@, v);
    let v = asked(g, "candidateCount"@);
    lemma_with_opt(j, "candidateCount"@, v, k);
    let j = j.with_opt("candidateCount"@, v);
    let v = asked(g, "stopSequences"@);
    lemma_with_opt(j, "stopSequences"@, v, k);
    let j = j.with_opt("stopSequences"@, v);
    let v = asked(g, "responseMimeType"@);
    lemma_with_opt(j, "responseMimeType"@, v, k);
    let j = j.with_opt("responseMimeType"@, v);
    let v = asked(g, "responseSchema"@);
    lemma_with_opt(j, "responseSchema"@, v, k);
    let j = j.with_opt("responseSchema"@, v);
    let v = asked(g, "seed"@);
    lemma_with_opt(j, "seed"@, v, k);
    let j = j.with_opt("seed"@, v);
    let v = asked(g, "presencePenalty"@);
    lemma_with_opt(j, "presencePenalty"@, v, k);
    let j = j.with_opt("presencePenalty"@, v);
    let v = asked(g, "frequencyPenalty"@);
    lemma_with_opt(j, "frequencyPenalty"@, v, k);
    let j = j.with_opt("frequencyPenalty"@, v);
    let v = asked(g, "responseLogprobs"@);
    lemma_with_opt(j, "responseLogprobs"@, v, k);
    let j = j.with_opt("responseLogprobs"@, v);
    let v = asked(g, "logprobs"@);
    lemma_with_opt(j, "logprobs"@, v, k);
    let j = j.with_opt("logprobs"@, v);
    let v = asked(g, "thinkingConfig"@);
    lemma_with_opt(j, "thinkingConfig"@, v, k);
    let j = j.with_opt("thinkingConfig"@, v);
    let v = asked(g, "audioTimestamp"@);
    lemma_with_opt(j, "audioTimestamp"@, v, k);
    let j = j.with_opt("audioTimestamp"@, v);
    let v = asked(g, "mediaResolution"@);
    lemma_with_opt(j, "mediaResolution"@, v, k);
    let j = j.with_opt("mediaResolution"@, v);
    let v = asked(g, "routingConfig"@);
    lemma_with_opt(j, "routingConfig"@, v, k);
    let j = j.with_opt("routingConfig"@, v);
    assert(j == crate::protocol::codec::google_generative::types::generation_json(g));
}

/// Whatever a client asks for of the generation is asked for again of the provider, and so are the
/// settings of safety and of tools and the cached content.
pub proof fn lemma_settings_kept(
    req: GoogleRequest,
    model: Seq<char>,
    stream: bool,
    messages: Seq<MessageV>,
    k: Seq<char>,
)
    ensures
        ({
            let r = crate::protocol::codec::google_generative::decoder::request_with(req, model, stream, messages);
            let body = crate::protocol::codec::google_generative::encoder::body_of(r);
            &&& r.model == model
            &&& r.stream.enabled == stream
            &&& r.messages == messages
            &&& req.generation_config matches Some(g) ==> body.get2("generationConfig"@, k)
                == asked(g, k)
            &&& body.get("toolConfig"@) == req.tool_config.views()
            &&& body.get("cachedContent"@) == JsonV::opt_text(req.cached_content.views())
            &&& (match (req.safety_settings, body.get("safetySettings"@)) {
                (Some(v), Some(JsonV::Array(a))) => a.len() == v@.len() && forall|i: int|
                    0 <= i < a.len() ==> (#[trigger] a[i]).get_str("category"@) == Some(
                        v@[i].category@,
                    ) && a[i].get_str("threshold"@) == Some(v@[i].threshold@),
                (None, None) => true,
                _ => false,
            })
            &&& req.generation_config matches Some(g) ==> {
                &&& r.generation.temperature == g.temperature.views()
                &&& r.generation.max_tokens == g.max_output_tokens
                &&& r.generation.top_p == g.top_p.views()
                &&& r.generation.presence_penalty == g.presence_penalty.views()
                &&& r.generation.frequency_penalty == g.frequency_penalty.views()
                &&& r.generation.stop == crate::views::opt_list(g.stop_sequences)
            }
        }),
{
    broadcast use {
        crate::json::lemma_with_get,
        crate::json::lemma_fields_put_opt,
    };

    lemma_words();
    let r = crate::protocol::codec::google_generative::decoder::request_with(req, model, stream, messages);
    let body = crate::protocol::codec::google_generative::encoder::body_of(r);
    let bag = r.meta.vendor.ingress;
    assert(bag == crate::protocol::codec::google_generative::decoder::ingress_of(req));
    lemma_body_says(r, "topK"@);
    if let Some(v) = req.safety_settings {
        let a = Seq::new(v@.len(), |i: int| crate::protocol::codec::google_generative::types::safety_json(v@[i]));
        assert(crate::json::get_field(bag, "__google_safety_settings"@) == Some(JsonV::Array(a)));
    }
    if let Some(g) = req.generation_config {
        lemma_generation_named(g, k);
        lemma_generation_named(g, "temperature"@);
        lemma_generation_named(g, "maxOutputTokens"@);
        lemma_generation_named(g, "topP"@);
        let f = crate::protocol::codec::google_generative::types::generation_json(g)->Object_0;
        assert(crate::json::get_field(bag, "__google_generation_config"@) == Some(
            JsonV::Object(f),
        ));
        let generation = crate::protocol::codec::google_generative::encoder::generation_fields(r);
        assert(crate::json::get_field(generation, k) == asked(g, k));
        crate::json::lemma_field_pos(generation, k, generation.len());
        assert(body.get("generationConfig"@) == if generation.len() == 0 {
            None
        } else {
            Some(JsonV::Object(generation))
        });
    }
}

/// A function that a client declares is known by its name, its description and its parameters, and
/// written so.
pub proof fn lemma_function_kept(d: GoogleFunctionDecl)
    ensures
        crate::protocol::codec::google_generative::decoder::decl_tool(d).name == d.name@,
        crate::protocol::codec::google_generative::decoder::decl_tool(d).description == d.description.views(),
        d.parameters matches Some(p) ==> crate::protocol::codec::google_generative::decoder::decl_tool(d).parameters == p@,
        crate::protocol::codec::google_generative::types::decl_json(d).get_str("name"@) == Some(d.name@),
        crate::protocol::codec::google_generative::types::decl_json(d).get_str("description"@) == d.description.views(),
        crate::protocol::codec::google_generative::types::decl_json(d).get("parameters"@) == d.parameters.views(),
{
    broadcast use crate::json::lemma_with_get;

    lemma_words();
}

} // verus!
