//! A request that is read and written again.
use vstd::prelude::*;

use crate::json::JsonV;
use crate::protocol::codec::openai_compatible::types::{
    AudioConfig, OpenAIContent, OpenAIContentPart, OpenAIMessage, OpenAIRequest, PredictionConfig,
    ResponseFormatWire, StopToken, StreamOptions,
};
use crate::protocol::ir::request::{
    AiRequestV, BlockV, ContentV, MediaV, MessageV, ReasoningEffort, Role, ToolChoiceV, ToolSpecV,
};
use crate::protocol::types::ToolCallV;
use crate::views::Views;

verus! {

/// The words of the protocol differ.
proof fn lemma_words()
    ensures
        "n"@.len() == 1,
        "id"@.len() == 2,
        "low"@.len() == 3,
        "low"@[0] == 'l',
        "url"@.len() == 3,
        "url"@[0] == 'u',
        "auto"@.len() == 4,
        "auto"@[2] == 't',
        "auto"@[0] == 'a',
        "data"@.len() == 4,
        "data"@[2] == 't',
        "data"@[0] == 'd',
        "high"@.len() == 4,
        "high"@[2] == 'g',
        "high"@[0] == 'h',
        "name"@.len() == 4,
        "name"@[2] == 'm',
        "name"@[0] == 'n',
        "none"@.len() == 4,
        "none"@[2] == 'n',
        "none"@[0] == 'n',
        "role"@.len() == 4,
        "role"@[2] == 'l',
        "role"@[0] == 'r',
        "seed"@.len() == 4,
        "seed"@[2] == 'e',
        "seed"@[0] == 's',
        "stop"@.len() == 4,
        "stop"@[2] == 'o',
        "stop"@[0] == 's',
        "text"@.len() == 4,
        "text"@[2] == 'x',
        "text"@[0] == 't',
        "tool"@.len() == 4,
        "tool"@[2] == 'o',
        "tool"@[0] == 't',
        "type"@.len() == 4,
        "type"@[2] == 'p',
        "type"@[0] == 't',
        "user"@.len() == 4,
        "user"@[2] == 'e',
        "user"@[0] == 'u',
        "audio"@.len() == 5,
        "audio"@[3] == 'i',
        "model"@.len() == 5,
        "model"@[3] == 'e',
        "tools"@.len() == 5,
        "tools"@[3] == 'l',
        "top_p"@.len() == 5,
        "top_p"@[3] == '_',
        "stream"@.len() == 6,
        "stream"@[3] == 'e',
        "strict"@.len() == 6,
        "strict"@[3] == 'i',
        "system"@.len() == 6,
        "system"@[3] == 't',
        "content"@.len() == 7,
        "content"@[0] == 'c',
        "refusal"@.len() == 7,
        "refusal"@[0] == 'r',
        "function"@.len() == 8,
        "function"@[0] == 'f',
        "messages"@.len() == 8,
        "messages"@[0] == 'm',
        "required"@.len() == 8,
        "required"@[0] == 'r',
        "arguments"@.len() == 9,
        "arguments"@[1] == 'r',
        "assistant"@.len() == 9,
        "assistant"@[1] == 's',
        "developer"@.len() == 9,
        "developer"@[1] == 'e',
        "image_url"@.len() == 9,
        "image_url"@[1] == 'm',
        "logit_bias"@.len() == 10,
        "logit_bias"@[2] == 'g',
        "max_tokens"@.len() == 10,
        "max_tokens"@[2] == 'x',
        "modalities"@.len() == 10,
        "modalities"@[2] == 'd',
        "parameters"@.len() == 10,
        "parameters"@[2] == 'r',
        "prediction"@.len() == 10,
        "prediction"@[2] == 'e',
        "tool_calls"@.len() == 10,
        "tool_calls"@[2] == 'o',
        "description"@.len() == 11,
        "description"@[2] == 's',
        "input_audio"@.len() == 11,
        "input_audio"@[2] == 'p',
        "temperature"@.len() == 11,
        "temperature"@[2] == 'm',
        "tool_choice"@.len() == 11,
        "tool_choice"@[2] == 'o',
        "service_tier"@.len() == 12,
        "service_tier"@[0] == 's',
        "tool_call_id"@.len() == 12,
        "tool_call_id"@[0] == 't',
        "include_usage"@.len() == 13,
        "stream_options"@.len() == 14,
        "response_format"@.len() == 15,
        "presence_penalty"@.len() == 16,
        "presence_penalty"@[0] == 'p',
        "reasoning_effort"@.len() == 16,
        "reasoning_effort"@[0] == 'r',
        "frequency_penalty"@.len() == 17,
        "parallel_tool_calls"@.len() == 19,
{
    reveal_strlit("n");
    reveal_strlit("id");
    reveal_strlit("low");
    reveal_strlit("url");
    reveal_strlit("auto");
    reveal_strlit("data");
    reveal_strlit("high");
    reveal_strlit("name");
    reveal_strlit("none");
    reveal_strlit("role");
    reveal_strlit("seed");
    reveal_strlit("stop");
    reveal_strlit("text");
    reveal_strlit("tool");
    reveal_strlit("type");
    reveal_strlit("user");
    reveal_strlit("audio");
    reveal_strlit("model");
    reveal_strlit("tools");
    reveal_strlit("top_p");
    reveal_strlit("stream");
    reveal_strlit("strict");
    reveal_strlit("system");
    reveal_strlit("content");
    reveal_strlit("refusal");
    reveal_strlit("function");
    reveal_strlit("messages");
    reveal_strlit("required");
    reveal_strlit("arguments");
    reveal_strlit("assistant");
    reveal_strlit("developer");
    reveal_strlit("image_url");
    reveal_strlit("logit_bias");
    reveal_strlit("max_tokens");
    reveal_strlit("modalities");
    reveal_strlit("parameters");
    reveal_strlit("prediction");
    reveal_strlit("tool_calls");
    reveal_strlit("description");
    reveal_strlit("input_audio");
    reveal_strlit("temperature");
    reveal_strlit("tool_choice");
    reveal_strlit("service_tier");
    reveal_strlit("tool_call_id");
    reveal_strlit("include_usage");
    reveal_strlit("stream_options");
    reveal_strlit("response_format");
    reveal_strlit("presence_penalty");
    reveal_strlit("reasoning_effort");
    reveal_strlit("frequency_penalty");
    reveal_strlit("parallel_tool_calls");
}

// ---------------------------------------------------------------- parts

/// An address is read and written again as it was, also one that holds the data itself.
pub proof fn lemma_url_kept(url: Seq<char>)
    ensures
        crate::protocol::codec::openai_compatible::encoder::source_url(crate::protocol::codec::openai_compatible::decoder::url_source(url)) == url,
{
    reveal_strlit("data:");
    reveal_strlit(";");
    reveal_strlit("base64,");
    reveal_strlit(";base64,");
    if let Some(rest) = crate::text::after_prefix(url, "data:"@) {
        assert("data:"@ + rest =~= url);
        crate::text::lemma_find_least(rest, ";"@);
        if let Some((media_type, after)) = crate::text::cut(rest, ";"@) {
            assert(media_type + ";"@ + after =~= rest);
            if let Some(data) = crate::text::after_prefix(after, "base64,"@) {
                assert("base64,"@ + data =~= after);
                assert(";base64,"@ =~= ";"@ + "base64,"@);
                assert("data:"@ + media_type + ";base64,"@ + data =~= url);
            }
        }
    }
}

/// A part is read and written again: its type, and its text, address or data.
pub proof fn lemma_part_kept(p: OpenAIContentPart)
    ensures
        ({
            let j = crate::protocol::codec::openai_compatible::encoder::block_part(crate::protocol::codec::openai_compatible::decoder::part_block(p));
            match p {
                OpenAIContentPart::Text { text } => {
                    &&& j.get_str("type"@) == Some("text"@)
                    &&& j.get_str("text"@) == Some(text@)
                },
                OpenAIContentPart::ImageUrl { image_url } => {
                    &&& j.get_str("type"@) == Some("image_url"@)
                    &&& j.get2("image_url"@, "url"@) == Some(JsonV::Text(image_url.url@))
                },
                OpenAIContentPart::InputAudio { input_audio } => {
                    &&& j.get_str("type"@) == Some("input_audio"@)
                    &&& j.get2("input_audio"@, "data"@) == Some(
                        JsonV::Text(
                            "data:"@ + ("audio/"@ + input_audio.format@) + ";base64,"@
                                + input_audio.data@,
                        ),
                    )
                },
            }
        }),
{
    broadcast use crate::json::lemma_with_get;

    lemma_words();
    if let OpenAIContentPart::ImageUrl { image_url } = p {
        lemma_url_kept(image_url.url@);
        let inner = JsonV::obj().with(
            "url"@,
            JsonV::Text(crate::protocol::codec::openai_compatible::encoder::source_url(crate::protocol::codec::openai_compatible::decoder::url_source(image_url.url@))),
        );
        assert(crate::protocol::codec::openai_compatible::encoder::block_part(crate::protocol::codec::openai_compatible::decoder::part_block(p)).get("image_url"@) == Some(inner));
    } else if let OpenAIContentPart::InputAudio { input_audio } = p {
        let inner = JsonV::obj().with(
            "data"@,
            JsonV::Text(
                crate::protocol::codec::openai_compatible::encoder::source_url(
                    MediaV::Base64 {
                        media_type: "audio/"@ + input_audio.format@,
                        data: input_audio.data@,
                    },
                ),
            ),
        );
        assert(crate::protocol::codec::openai_compatible::encoder::block_part(crate::protocol::codec::openai_compatible::decoder::part_block(p)).get("input_audio"@) == Some(inner));
    }
}

/// A block that is a call is written with its identifier, its name and its input, and a result with
/// its text and the call that it answers.
pub proof fn lemma_block_written(b: BlockV)
    ensures
        ({
            let j = crate::protocol::codec::openai_compatible::encoder::block_part(b);
            match b {
                BlockV::Text { text, .. } => j.get_str("text"@) == Some(text),
                BlockV::ToolUse { id, name, input, .. } => {
                    &&& j.get_str("id"@) == Some(id)
                    &&& j.get2("function"@, "name"@) == Some(JsonV::Text(name))
                    &&& j.get2("function"@, "arguments"@) == Some(
                        JsonV::Text(crate::json::text_of(input)),
                    )
                },
                BlockV::ToolResult { tool_use_id, content: JsonV::Text(t), .. } => {
                    &&& j.get_str("text"@) == Some(t)
                    &&& j.get_str("tool_call_id"@) == Some(tool_use_id)
                },
                BlockV::Unknown { raw } => j == raw,
                _ => true,
            }
        }),
{
    broadcast use crate::json::lemma_with_get;

    lemma_words();
    if let BlockV::ToolUse { id, name, input, .. } = b {
        let inner = JsonV::obj().with("name"@, JsonV::Text(name)).with(
            "arguments"@,
            JsonV::Text(crate::json::text_of(input)),
        );
        assert(crate::protocol::codec::openai_compatible::encoder::block_part(b).get("function"@) == Some(inner));
    }
}

proof fn lemma_parts_written(blocks: Seq<BlockV>, role: Role, n: nat)
    requires
        n <= blocks.len(),
        forall|i: int|
            0 <= i < blocks.len() ==> !(#[trigger] blocks[i] is Thinking) && !(
            blocks[i] is RedactedThinking),
    ensures
        crate::protocol::codec::openai_compatible::encoder::parts_upto(blocks, role, n) == Seq::new(n, |i: int| crate::protocol::codec::openai_compatible::encoder::block_part(blocks[i])),
    decreases n,
{
    if n == 0 {
        assert(Seq::new(0, |i: int| crate::protocol::codec::openai_compatible::encoder::block_part(blocks[i])) =~= Seq::empty());
    } else {
        lemma_parts_written(blocks, role, (n - 1) as nat);
        assert(crate::protocol::codec::openai_compatible::encoder::parts_upto(blocks, role, n) =~= Seq::new(n, |i: int| crate::protocol::codec::openai_compatible::encoder::block_part(blocks[i])));
    }
}

// ---------------------------------------------------------------- messages

/// Whether a value is a call under the names of the protocol.
pub open spec fn is_call(j: JsonV, id: Seq<char>, name: Seq<char>, arguments: Seq<char>) -> bool {
    &&& j.get_str("id"@) == Some(id)
    &&& j.get_str("type"@) == Some("function"@)
    &&& j.get2("function"@, "name"@) == Some(JsonV::Text(name))
    &&& j.get2("function"@, "arguments"@) == Some(JsonV::Text(arguments))
}

proof fn lemma_call_written(c: ToolCallV)
    ensures
        is_call(crate::protocol::codec::openai_compatible::encoder::call_value(c), c.id, c.name, c.arguments),
{
    broadcast use crate::json::lemma_with_get;

    lemma_words();
    let inner = JsonV::obj().with("name"@, JsonV::Text(c.name)).with(
        "arguments"@,
        JsonV::Text(c.arguments),
    );
    assert(crate::protocol::codec::openai_compatible::encoder::call_value(c).get("function"@) == Some(inner));
}

/// Whether a value says, under the names of the protocol, what a message says: who speaks, the
/// text, the calls in order and the call that is answered.
pub open spec fn says(j: JsonV, m: MessageV) -> bool {
    &&& j.get_str("role"@) == Some(
        match m.role {
            Role::System => "system"@,
            Role::User => "user"@,
            Role::Assistant => "assistant"@,
            Role::Tool => "tool"@,
        },
    )
    &&& m.content matches ContentV::Text(t) ==> j.get_str("content"@) == Some(t)
    &&& m.role != Role::Tool ==> match m.tool_calls {
        Some(v) => match j.get_array("tool_calls"@) {
            Some(a) => a.len() == v.len() && forall|i: int|
                0 <= i < v.len() ==> is_call(#[trigger] a[i], v[i].id, v[i].name, v[i].arguments),
            None => false,
        },
        None => m.meta is None ==> j.get("tool_calls"@) is None,
    }
    &&& m.tool_call_id matches Some(id) ==> (crate::text::trim_of(id).len() > 0 ==> j.get_str(
        "tool_call_id"@,
    ) == Some(id))
    &&& m.role == Role::Tool ==> match m.content {
        ContentV::Text(_) => true,
        ContentV::Blocks(b) => b.len() > 0 ==> match b[0] {
            BlockV::ToolResult { tool_use_id, content: JsonV::Text(t), .. } => {
                &&& j.get_str("content"@) == Some(t)
                &&& m.tool_call_id is None && crate::text::trim_of(tool_use_id).len() > 0
                    ==> j.get_str("tool_call_id"@) == Some(tool_use_id)
            },
            _ => true,
        },
    }
}

/// A message is written under the names of the protocol.
pub proof fn lemma_message_written(m: MessageV)
    ensures
        says(crate::protocol::codec::openai_compatible::encoder::message_value(m), m),
{
    broadcast use crate::json::lemma_with_get;

    lemma_words();
    let j = crate::protocol::codec::openai_compatible::encoder::message_value(m);
    let head = JsonV::obj().with("role"@, JsonV::Text(crate::protocol::codec::openai_compatible::encoder::role_name(m.role)));
    if m.role == Role::Tool {
        if let ContentV::Blocks(b) = m.content {
            reveal_with_fuel(crate::protocol::codec::openai_compatible::history::result_from, 2);
        }
    } else {
        let calls = match m.tool_calls {
            Some(v) => Some(crate::protocol::codec::openai_compatible::encoder::calls_value(v)),
            None => None,
        };
        let body = head.with("content"@, crate::protocol::codec::openai_compatible::encoder::content_value(m.content, m.role)).with_opt(
            "tool_calls"@,
            calls,
        ).with_opt("tool_call_id"@, JsonV::opt_text(m.tool_call_id));
        assert(body.get("role"@) == Some(JsonV::Text(crate::protocol::codec::openai_compatible::encoder::role_name(m.role))));
        assert(body.get("content"@) == Some(crate::protocol::codec::openai_compatible::encoder::content_value(m.content, m.role)));
        assert(body.get("tool_calls"@) == calls);
        assert(body.get("tool_call_id"@) == JsonV::opt_text(m.tool_call_id));
        if let Some(JsonV::Object(more)) = m.meta {
            let f = body->Object_0;
            crate::json::lemma_put_all_absent_get(f, more, more.len(), "role"@);
            crate::json::lemma_put_all_absent_get(f, more, more.len(), "content"@);
            crate::json::lemma_put_all_absent_get(f, more, more.len(), "tool_calls"@);
            crate::json::lemma_put_all_absent_get(f, more, more.len(), "tool_call_id"@);
        }
        if let Some(v) = m.tool_calls {
            let a = Seq::new(v.len(), |i: int| crate::protocol::codec::openai_compatible::encoder::call_value(v[i]));
            assert(j.get("tool_calls"@) == Some(JsonV::Array(a)));
            assert forall|i: int| 0 <= i < v.len() implies is_call(
                #[trigger] a[i],
                v[i].id,
                v[i].name,
                v[i].arguments,
            ) by {
                lemma_call_written(v[i]);
            }
        }
    }
}

/// A message of a client is understood and written again: who speaks, where a developer speaks for
/// the system; the text or, one for one, the parts; the calls; the call that is answered; the
/// refusal; and all other fields.
pub proof fn lemma_message_kept(msg: OpenAIMessage, k: Seq<char>)
    requires
        crate::protocol::codec::openai_compatible::decoder::message_of(msg) is Ok,
        msg.role@ != "tool"@,
        k != "role"@,
        k != "content"@,
        k != "tool_calls"@,
        k != "tool_call_id"@,
        k != "refusal"@,
    ensures
        ({
            let j = crate::protocol::codec::openai_compatible::encoder::message_value(crate::protocol::codec::openai_compatible::decoder::message_of(msg)->Ok_0);
            &&& j.get_str("role"@) == Some(
                if msg.role@ == "developer"@ {
                    "system"@
                } else {
                    msg.role@
                },
            )
            &&& (match msg.content {
                Some(OpenAIContent::Text(t)) => j.get_str("content"@) == Some(t@),
                Some(OpenAIContent::Parts(v)) => j.get_array("content"@) matches Some(a) && a
                    == Seq::new(v@.len(), |i: int| crate::protocol::codec::openai_compatible::encoder::block_part(crate::protocol::codec::openai_compatible::decoder::part_block(v@[i]))),
                None => j.get_str("content"@) == Some(Seq::<char>::empty()),
            })
            &&& msg.tool_calls matches Some(v) ==> match j.get_array("tool_calls"@) {
                Some(a) => a.len() == v@.len() && forall|i: int|
                    0 <= i < v@.len() ==> is_call(
                        #[trigger] a[i],
                        v@[i].id@,
                        v@[i].function.name@,
                        v@[i].function.arguments@,
                    ),
                None => false,
            }
            &&& msg.tool_call_id matches Some(id) ==> j.get_str("tool_call_id"@) == Some(id@)
            &&& msg.refusal matches Some(t) ==> j.get_str("refusal"@) == Some(t@)
            &&& j.get(k) == crate::json::get_field(msg.extra@, k)
        }),
{
    broadcast use {
        crate::json::lemma_with_get,
        crate::json::lemma_fields_put_opt,
    };

    lemma_words();
    let m = crate::protocol::codec::openai_compatible::decoder::message_of(msg)->Ok_0;
    let j = crate::protocol::codec::openai_compatible::encoder::message_value(m);
    lemma_message_written(m);
    let head = JsonV::obj().with("role"@, JsonV::Text(crate::protocol::codec::openai_compatible::encoder::role_name(m.role)));
    let calls = match m.tool_calls {
        Some(v) => Some(crate::protocol::codec::openai_compatible::encoder::calls_value(v)),
        None => None,
    };
    let body = head.with("content"@, crate::protocol::codec::openai_compatible::encoder::content_value(m.content, m.role)).with_opt(
        "tool_calls"@,
        calls,
    ).with_opt("tool_call_id"@, JsonV::opt_text(m.tool_call_id));
    assert(body.get(k) is None);
    assert(body.get("refusal"@) is None);
    assert(body.get("content"@) == Some(crate::protocol::codec::openai_compatible::encoder::content_value(m.content, m.role)));
    assert(body.get("tool_call_id"@) == JsonV::opt_text(m.tool_call_id));
    let more = crate::json::put_opt(
        msg.extra@,
        "refusal"@,
        JsonV::opt_text(msg.refusal.views()),
    );
    assert(crate::json::get_field(more, k) == crate::json::get_field(msg.extra@, k));
    if let Some(t) = msg.refusal {
        assert(crate::json::get_field(more, "refusal"@) == Some(JsonV::Text(t@)));
    }
    if more.len() > 0 {
        let f = body->Object_0;
        crate::json::lemma_put_all_absent_get(f, more, more.len(), k);
        crate::json::lemma_put_all_absent_get(f, more, more.len(), "refusal"@);
        crate::json::lemma_put_all_absent_get(f, more, more.len(), "content"@);
        crate::json::lemma_put_all_absent_get(f, more, more.len(), "tool_call_id"@);
    } else {
        crate::json::lemma_field_pos(more, k, more.len());
        crate::json::lemma_field_pos(more, "refusal"@, more.len());
        assert(j == body);
    }
    if let Some(OpenAIContent::Parts(v)) = msg.content {
        let blocks = Seq::new(v@.len(), |i: int| crate::protocol::codec::openai_compatible::decoder::part_block(v@[i]));
        lemma_parts_written(blocks, m.role, blocks.len());
        assert(Seq::new(blocks.len(), |i: int| crate::protocol::codec::openai_compatible::encoder::block_part(blocks[i])) =~= Seq::new(
            v@.len(),
            |i: int| crate::protocol::codec::openai_compatible::encoder::block_part(crate::protocol::codec::openai_compatible::decoder::part_block(v@[i])),
        ));
    }
}

// ---------------------------------------------------------------- tools

/// A choice among the tools is read as it was written.
pub proof fn lemma_choice_kept(c: ToolChoiceV)
    requires
        !(c is Raw),
    ensures
        crate::protocol::codec::openai_compatible::decoder::tool_choice_of(crate::protocol::codec::openai_compatible::encoder::choice_value(c)) == c,
{
    broadcast use crate::json::lemma_with_get;

    lemma_words();
    if let ToolChoiceV::Named { name } = c {
        let inner = JsonV::obj().with("name"@, JsonV::Text(name));
        assert(crate::protocol::codec::openai_compatible::encoder::choice_value(c).get("function"@) == Some(inner));
        assert(inner.get("name"@) == Some(JsonV::Text(name)));
    }
}

/// A choice that is a word is written as it was read.
pub proof fn lemma_choice_word_kept(word: Seq<char>)
    ensures
        crate::protocol::codec::openai_compatible::encoder::choice_value(crate::protocol::codec::openai_compatible::decoder::tool_choice_of(JsonV::Text(word))) == JsonV::Text(word),
{
    lemma_words();
}

/// A tool is read as it was written: its name, its description and its parameters.
pub proof fn lemma_tool_kept(t: ToolSpecV)
    ensures
        crate::protocol::codec::openai_compatible::decoder::tool_of(crate::protocol::codec::openai_compatible::encoder::tool_value(t)) == Some(
            ToolSpecV { strict: None, cache_control: None, meta: None, ..t },
        ),
{
    broadcast use crate::json::lemma_with_get;

    lemma_words();
    let inner = JsonV::obj().with("name"@, JsonV::Text(t.name)).with(
        "parameters"@,
        t.parameters,
    ).with_opt("description"@, JsonV::opt_text(t.description));
    assert(crate::protocol::codec::openai_compatible::encoder::tool_value(t).get("function"@) == Some(inner));
    assert(inner.get_str("name"@) == Some(t.name));
    assert(inner.get_str("description"@) == t.description);
    assert(inner.get("parameters"@) == Some(t.parameters));
    assert(inner.get("strict"@) is None);
}

// ---------------------------------------------------------------- the request

/// The body of a request says the model, whether to stream, the sampling, the tools, the choice
/// among them and the messages of the conversation, each once more under its name; other fields
/// are those of the client.
#[verifier::rlimit(60)]
pub proof fn lemma_body_says(req: AiRequestV, k: Seq<char>)
    requires
        k != "model"@,
        k != "messages"@,
        k != "stream"@,
        k != "temperature"@,
        k != "max_tokens"@,
        k != "top_p"@,
        k != "tools"@,
        k != "tool_choice"@,
        k != "stream_options"@,
    ensures
        ({
            let bag = req.meta.vendor.ingress;
            let body = crate::protocol::codec::openai_compatible::encoder::body_of(req);
            let talk = crate::protocol::codec::openai_compatible::history::normalized(req.messages, crate::protocol::codec::openai_compatible::encoder::fallback_tool(req.tools));
            &&& body.get_str("model"@) == Some(req.model)
            &&& body.get_bool("stream"@) == Some(req.stream.enabled)
            &&& req.generation.temperature matches Some(x) ==> body.get("temperature"@) == Some(
                JsonV::float(x),
            )
            &&& req.generation.max_tokens matches Some(n) ==> body.get("max_tokens"@) == Some(
                JsonV::num(n as u64),
            )
            &&& req.generation.top_p matches Some(x) ==> body.get("top_p"@) == Some(
                JsonV::float(x),
            )
            &&& req.tools matches Some(v) ==> (v.len() > 0 ==> match body.get_array("tools"@) {
                Some(a) => a.len() == v.len() && forall|i: int|
                    0 <= i < v.len() ==> crate::protocol::codec::openai_compatible::decoder::tool_of(#[trigger] a[i]) == Some(
                        ToolSpecV { strict: None, cache_control: None, meta: None, ..v[i] },
                    ),
                None => false,
            })
            &&& req.tool_choice matches Some(c) ==> (!(c is Raw) ==> match body.get(
                "tool_choice"@,
            ) {
                Some(v) => crate::protocol::codec::openai_compatible::decoder::tool_choice_of(v) == c,
                None => false,
            })
            &&& req.tool_choice matches Some(ToolChoiceV::Raw(v)) ==> body.get("tool_choice"@)
                == Some(v)
            &&& (match body.get_array("messages"@) {
                Some(a) => a.len() == talk.len() && forall|i: int|
                    0 <= i < talk.len() ==> says(#[trigger] a[i], talk[i]),
                None => false,
            })
            &&& req.stream.enabled && crate::json::get_field(bag, "stream_options"@) is None
                ==> body.get2("stream_options"@, "include_usage"@) == Some(JsonV::Bool(true))
            &&& crate::json::get_field(bag, "stream_options"@) matches Some(v) ==> body.get(
                "stream_options"@,
            ) == Some(v)
            &&& body.get(k) == crate::json::get_field(bag, k)
        }),
{
    broadcast use {
        crate::json::lemma_with_get,
        crate::json::lemma_fields_put,
        crate::json::lemma_fields_put_opt,
        crate::json::lemma_fields_put_opt_absent,
    };

    lemma_words();
    let bag = req.meta.vendor.ingress;
    let body = crate::protocol::codec::openai_compatible::encoder::body_of(req);
    let known = crate::protocol::codec::openai_compatible::encoder::known_fields(req);
    let f = known;
    let f = crate::protocol::codec::openai_compatible::encoder::carried(f, bag, "parallel_tool_calls"@);
    let f = crate::protocol::codec::openai_compatible::encoder::carried(f, bag, "prediction"@);
    let f = crate::protocol::codec::openai_compatible::encoder::carried(f, bag, "modalities"@);
    let f = crate::protocol::codec::openai_compatible::encoder::carried(f, bag, "audio"@);
    let f = crate::protocol::codec::openai_compatible::encoder::carried(f, bag, "response_format"@);
    let f = crate::protocol::codec::openai_compatible::encoder::carried(f, bag, "seed"@);
    let f = crate::protocol::codec::openai_compatible::encoder::carried(f, bag, "stop"@);
    let f = crate::protocol::codec::openai_compatible::encoder::carried(f, bag, "logit_bias"@);
    let f = crate::protocol::codec::openai_compatible::encoder::carried(f, bag, "service_tier"@);
    let f = crate::protocol::codec::openai_compatible::encoder::carried(f, bag, "reasoning_effort"@);
    let f = crate::protocol::codec::openai_compatible::encoder::carried(f, bag, "frequency_penalty"@);
    let f = crate::protocol::codec::openai_compatible::encoder::carried(f, bag, "presence_penalty"@);
    let f = crate::protocol::codec::openai_compatible::encoder::carried(f, bag, "n"@);
    let f = crate::protocol::codec::openai_compatible::encoder::carried(f, bag, "user"@);
    crate::json::lemma_put_all_absent_get(f, bag, bag.len(), "model"@);
    crate::json::lemma_put_all_absent_get(f, bag, bag.len(), "messages"@);
    crate::json::lemma_put_all_absent_get(f, bag, bag.len(), "stream"@);
    crate::json::lemma_put_all_absent_get(f, bag, bag.len(), "temperature"@);
    crate::json::lemma_put_all_absent_get(f, bag, bag.len(), "max_tokens"@);
    crate::json::lemma_put_all_absent_get(f, bag, bag.len(), "top_p"@);
    crate::json::lemma_put_all_absent_get(f, bag, bag.len(), "tools"@);
    crate::json::lemma_put_all_absent_get(f, bag, bag.len(), "tool_choice"@);
    crate::json::lemma_put_all_absent_get(f, bag, bag.len(), "stream_options"@);
    crate::json::lemma_put_all_absent_get(f, bag, bag.len(), k);
    crate::json::lemma_field_pos(bag, "stream_options"@, bag.len());
    let talk = crate::protocol::codec::openai_compatible::history::normalized(req.messages, crate::protocol::codec::openai_compatible::encoder::fallback_tool(req.tools));
    let a = Seq::new(talk.len(), |i: int| crate::protocol::codec::openai_compatible::encoder::message_value(talk[i]));
    assert(body.get("messages"@) == Some(JsonV::Array(a)));
    assert forall|i: int| 0 <= i < talk.len() implies says(#[trigger] a[i], talk[i]) by {
        lemma_message_written(talk[i]);
    }
    if let Some(v) = req.tools {
        if v.len() > 0 {
            let a = Seq::new(v.len(), |i: int| crate::protocol::codec::openai_compatible::encoder::tool_value(v[i]));
            assert(body.get("tools"@) == Some(JsonV::Array(a)));
            assert forall|i: int| 0 <= i < v.len() implies crate::protocol::codec::openai_compatible::decoder::tool_of(#[trigger] a[i]) == Some(
                ToolSpecV { strict: None, cache_control: None, meta: None, ..v[i] },
            ) by {
                lemma_tool_kept(v[i]);
            }
        }
    }
    if let Some(c) = req.tool_choice {
        if !(c is Raw) {
            lemma_choice_kept(c);
        }
    }
    if req.stream.enabled && crate::json::get_field(bag, "stream_options"@) is None {
        let inner = JsonV::obj().with("include_usage"@, JsonV::Bool(true));
        assert(body.get("stream_options"@) == Some(inner));
    }
}

/// What a client asks for under a name that the request has no place of its own for.
pub open spec fn asked(req: OpenAIRequest, k: Seq<char>) -> Option<JsonV> {
    if k == "stream_options"@ {
        match req.stream_options {
            Some(s) => Some(s.value()),
            None => None,
        }
    } else if k == "parallel_tool_calls"@ {
        JsonV::opt_bool(req.parallel_tool_calls)
    } else if k == "prediction"@ {
        match req.prediction {
            Some(s) => Some(s.value()),
            None => None,
        }
    } else if k == "modalities"@ {
        match req.modalities {
            Some(v) => Some(JsonV::texts(v.views())),
            None => None,
        }
    } else if k == "audio"@ {
        match req.audio {
            Some(s) => Some(s.value()),
            None => None,
        }
    } else if k == "response_format"@ {
        match req.response_format {
            Some(s) => Some(s.value()),
            None => None,
        }
    } else if k == "seed"@ {
        match req.seed {
            Some(n) => Some(JsonV::int_num(n)),
            None => None,
        }
    } else if k == "stop"@ {
        match req.stop {
            Some(s) => Some(s.value()),
            None => None,
        }
    } else if k == "logit_bias"@ {
        crate::protocol::codec::openai_compatible::decoder::bias_value(req)
    } else if k == "service_tier"@ {
        JsonV::opt_text(req.service_tier.views())
    } else if k == "reasoning_effort"@ {
        JsonV::opt_text(req.reasoning_effort.views())
    } else if k == "frequency_penalty"@ {
        JsonV::opt_float(req.frequency_penalty.views())
    } else if k == "presence_penalty"@ {
        JsonV::opt_float(req.presence_penalty.views())
    } else if k == "n"@ {
        JsonV::opt_u32(req.n)
    } else if k == "user"@ {
        JsonV::opt_text(req.user.views())
    } else {
        None
    }
}

/// What the request has no place of its own for is kept under its name: what a client says among
/// the other fields goes before all else.
#[verifier::rlimit(60)]
pub proof fn lemma_rest_kept(req: OpenAIRequest, k: Seq<char>)
    requires
        crate::protocol::codec::openai_compatible::decoder::request_of(req) is Ok,
    ensures
        crate::json::get_field((crate::protocol::codec::openai_compatible::decoder::request_of(req)->Ok_0).meta.vendor.ingress, k)
            == match crate::json::get_field(req.extra@, k) {
            Some(v) => Some(v),
            None => asked(req, k),
        },
{
    lemma_words();
    let f = req.extra@;
    let v = asked(req, "stream_options"@);
    crate::json::lemma_fields_put_opt_absent(f, "stream_options"@, v, k);
    let f = crate::protocol::codec::openai_compatible::decoder::also(f, "stream_options"@, v);
    let v = asked(req, "parallel_tool_calls"@);
    crate::json::lemma_fields_put_opt_absent(f, "parallel_tool_calls"@, v, k);
    let f = crate::protocol::codec::openai_compatible::decoder::also(f, "parallel_tool_calls"@, v);
    let v = asked(req, "prediction"@);
    crate::json::lemma_fields_put_opt_absent(f, "prediction"@, v, k);
    let f = crate::protocol::codec::openai_compatible::decoder::also(f, "prediction"@, v);
    let v = asked(req, "modalities"@);
    crate::json::lemma_fields_put_opt_absent(f, "modalities"@, v, k);
    let f = crate::protocol::codec::openai_compatible::decoder::also(f, "modalities"@, v);
    let v = asked(req, "audio"@);
    crate::json::lemma_fields_put_opt_absent(f, "audio"@, v, k);
    let f = crate::protocol::codec::openai_compatible::decoder::also(f, "audio"@, v);
    let v = asked(req, "response_format"@);
    crate::json::lemma_fields_put_opt_absent(f, "response_format"@, v, k);
    let f = crate::protocol::codec::openai_compatible::decoder::also(f, "response_format"@, v);
    let v = asked(req, "seed"@);
    crate::json::lemma_fields_put_opt_absent(f, "seed"@, v, k);
    let f = crate::protocol::codec::openai_compatible::decoder::also(f, "seed"@, v);
    let v = asked(req, "stop"@);
    crate::json::lemma_fields_put_opt_absent(f, "stop"@, v, k);
    let f = crate::protocol::codec::openai_compatible::decoder::also(f, "stop"@, v);
    let v = asked(req, "logit_bias"@);
    crate::json::lemma_fields_put_opt_absent(f, "logit_bias"@, v, k);
    let f = crate::protocol::codec::openai_compatible::decoder::also(f, "logit_bias"@, v);
    let v = asked(req, "service_tier"@);
    crate::json::lemma_fields_put_opt_absent(f, "service_tier"@, v, k);
    let f = crate::protocol::codec::openai_compatible::decoder::also(f, "service_tier"@, v);
    let v = asked(req, "reasoning_effort"@);
    crate::json::lemma_fields_put_opt_absent(f, "reasoning_effort"@, v, k);
    let f = crate::protocol::codec::openai_compatible::decoder::also(f, "reasoning_effort"@, v);
    let v = asked(req, "frequency_penalty"@);
    crate::json::lemma_fields_put_opt_absent(f, "frequency_penalty"@, v, k);
    let f = crate::protocol::codec::openai_compatible::decoder::also(f, "frequency_penalty"@, v);
    let v = asked(req, "presence_penalty"@);
    crate::json::lemma_fields_put_opt_absent(f, "presence_penalty"@, v, k);
    let f = crate::protocol::codec::openai_compatible::decoder::also(f, "presence_penalty"@, v);
    let v = asked(req, "n"@);
    crate::json::lemma_fields_put_opt_absent(f, "n"@, v, k);
    let f = crate::protocol::codec::openai_compatible::decoder::also(f, "n"@, v);
    let v = asked(req, "user"@);
    crate::json::lemma_fields_put_opt_absent(f, "user"@, v, k);
    let f = crate::protocol::codec::openai_compatible::decoder::also(f, "user"@, v);
    assert(f == crate::protocol::codec::openai_compatible::decoder::ingress_of(req));
}

/// What a client asks for of the form of the answer, of its sound, of an answer that is expected and
/// of the stream is written under the names of the protocol; stop texts are one text or a list.
pub proof fn lemma_values_named(
    format: ResponseFormatWire,
    audio: AudioConfig,
    prediction: PredictionConfig,
    stream: StreamOptions,
    stop: StopToken,
)
    ensures
        match format {
            ResponseFormatWire::Text => format.value().get_str("type"@) == Some("text"@),
            ResponseFormatWire::JsonObject => format.value().get_str("type"@) == Some(
                "json_object"@,
            ),
            ResponseFormatWire::JsonSchema { json_schema } => {
                &&& format.value().get_str("type"@) == Some("json_schema"@)
                &&& format.value().get2("json_schema"@, "name"@) == Some(
                    JsonV::Text(json_schema.name@),
                )
                &&& format.value().get2("json_schema"@, "schema"@) == Some(json_schema.schema@)
                &&& json_schema.strict matches Some(b) ==> format.value().get2(
                    "json_schema"@,
                    "strict"@,
                ) == Some(JsonV::Bool(b))
            },
        },
        audio.value().get_str("voice"@) == audio.voice.views(),
        audio.value().get_str("format"@) == audio.format.views(),
        prediction.value().get_str("type"@) == Some(prediction.pred_type@),
        prediction.value().get("content"@) == Some(prediction.content@),
        stream.value().get_bool("include_usage"@) == Some(stream.include_usage),
        stop matches StopToken::Single(s) ==> stop.value() == JsonV::Text(s@) && stop.tokens()
            == seq![s@],
        stop matches StopToken::Multiple(v) ==> stop.tokens() == v.views() && stop.value()
            == JsonV::texts(v.views()),
{
    broadcast use crate::json::lemma_with_get;

    lemma_words();
    reveal_strlit("json_schema");
    reveal_strlit("schema");
    reveal_strlit("voice");
    reveal_strlit("format");
    assert("json_schema"@.len() == 11 && "schema"@.len() == 6 && "voice"@.len() == 5
        && "format"@.len() == 6);
    assert("schema"@[0] == 's' && "schema"@[1] == 'c' && "strict"@ != "schema"@) by {
        reveal_strlit("strict");
        assert("strict"@[1] == 't');
    }
    if let ResponseFormatWire::JsonSchema { json_schema } = format {
        assert(format.value().get("json_schema"@) == Some(json_schema.value()));
    }
}

/// What a client asks for is understood: the model, each message, whether to stream, the sampling,
/// the limit of tokens and how hard to think.
pub proof fn lemma_request_understood(req: OpenAIRequest)
    requires
        crate::protocol::codec::openai_compatible::decoder::request_of(req) is Ok,
    ensures
        ({
            let r = crate::protocol::codec::openai_compatible::decoder::request_of(req)->Ok_0;
            &&& r.model == req.model@
            &&& r.messages.len() == req.messages@.len()
            &&& forall|i: int|
                0 <= i < r.messages.len() ==> crate::protocol::codec::openai_compatible::decoder::message_of(req.messages@[i]) == Ok::<
                    MessageV,
                    Seq<char>,
                >(#[trigger] r.messages[i])
            &&& r.stream.enabled == req.stream
            &&& r.stream.include_usage == match req.stream_options {
                Some(s) => s.include_usage,
                None => false,
            }
            &&& r.generation.temperature == req.temperature.views()
            &&& r.generation.top_p == req.top_p.views()
            &&& r.generation.max_tokens == (if req.max_completion_tokens is Some {
                req.max_completion_tokens
            } else {
                req.max_tokens
            })
            &&& r.generation.seed == req.seed
            &&& r.generation.presence_penalty == req.presence_penalty.views()
            &&& r.generation.frequency_penalty == req.frequency_penalty.views()
            &&& r.parallel_tool_calls == req.parallel_tool_calls
            &&& req.reasoning_effort matches Some(s) ==> {
                &&& r.reasoning.enabled
                &&& s@ == "low"@ ==> r.reasoning.effort == Some(ReasoningEffort::Low)
                &&& s@ == "high"@ ==> r.reasoning.effort == Some(ReasoningEffort::High)
                &&& s@ != "low"@ && s@ != "high"@ ==> r.reasoning.effort == Some(
                    ReasoningEffort::Medium,
                )
            }
            &&& req.reasoning_effort is None ==> !r.reasoning.enabled
        }),
{
    lemma_words();
    let v = req.messages@;
    lemma_messages_read(v, v.len());
}

proof fn lemma_messages_read(v: Seq<OpenAIMessage>, n: nat)
    requires
        n <= v.len(),
        crate::protocol::codec::openai_compatible::decoder::messages_upto(v, n) is Ok,
    ensures
        crate::protocol::codec::openai_compatible::decoder::messages_upto(v, n)->Ok_0.len() == n,
        forall|i: int|
            0 <= i < n ==> crate::protocol::codec::openai_compatible::decoder::message_of(v[i]) == Ok::<MessageV, Seq<char>>(
                #[trigger] (crate::protocol::codec::openai_compatible::decoder::messages_upto(v, n)->Ok_0)[i],
            ),
    decreases n,
{
    if n > 0 {
        lemma_messages_read(v, (n - 1) as nat);
    }
}

/// Who speaks, by the name that the protocol gives the role; any other name is refused.
pub proof fn lemma_roles(msg: OpenAIMessage)
    ensures
        ({
            let m = crate::protocol::codec::openai_compatible::decoder::message_of(msg);
            &&& msg.role@ == "system"@ || msg.role@ == "developer"@ ==> m is Ok && m->Ok_0.role
                == Role::System
            &&& msg.role@ == "user"@ ==> m is Ok && m->Ok_0.role == Role::User
            &&& msg.role@ == "assistant"@ ==> m is Ok && m->Ok_0.role == Role::Assistant
            &&& msg.role@ == "tool"@ ==> m is Ok && m->Ok_0.role == Role::Tool
            &&& m is Ok ==> msg.role@ == "system"@ || msg.role@ == "developer"@ || msg.role@
                == "user"@ || msg.role@ == "assistant"@ || msg.role@ == "tool"@
        }),
{
    lemma_words();
}

} // verus!
