//! The body of a request, field by field, and what a client's request is understood as.
use vstd::prelude::*;

use crate::json::JsonV;
use crate::protocol::codec::anthropic_messages::encoder::TurnV;
use crate::protocol::codec::anthropic_messages::types::{
    AnthropicContent, AnthropicContentBlock, AnthropicMessage, AnthropicRequest, AnthropicTool,
};
use crate::protocol::ir::request::{
    BlockV, ContentV, MediaV, MessageV, Role, ToolChoiceV,
};
use crate::protocol::types::{ContentBlockV, InternalMessageV, InternalRequestV, ToolCallV, ToolDefV};
use crate::views::Views;

verus! {

/// The words of the protocol differ.
proof fn lemma_words()
    ensures
        "id"@.len() == 2,
        "any"@.len() == 3,
        "any"@[0] == 'a',
        "low"@.len() == 3,
        "low"@[0] == 'l',
        "max"@.len() == 3,
        "max"@[0] == 'm',
        "url"@.len() == 3,
        "url"@[0] == 'u',
        "auto"@.len() == 4,
        "auto"@[2] == 't',
        "auto"@[0] == 'a',
        "data"@.len() == 4,
        "data"@[2] == 't',
        "data"@[0] == 'd',
        "high"@.len() == 4,
        "high"@[2] == 'g',
        "high"@[0] == 'h',
        "name"@.len() == 4,
        "name"@[2] == 'm',
        "name"@[0] == 'n',
        "none"@.len() == 4,
        "none"@[2] == 'n',
        "none"@[0] == 'n',
        "role"@.len() == 4,
        "role"@[2] == 'l',
        "role"@[0] == 'r',
        "text"@.len() == 4,
        "text"@[2] == 'x',
        "text"@[0] == 't',
        "tool"@.len() == 4,
        "tool"@[2] == 'o',
        "tool"@[0] == 't',
        "type"@.len() == 4,
        "type"@[2] == 'p',
        "type"@[0] == 't',
        "user"@.len() == 4,
        "user"@[2] == 'e',
        "user"@[0] == 'u',
        "image"@.len() == 5,
        "image"@[4] == 'e',
        "model"@.len() == 5,
        "model"@[4] == 'l',
        "tools"@.len() == 5,
        "tools"@[4] == 's',
        "top_k"@.len() == 5,
        "top_k"@[4] == 'k',
        "top_p"@.len() == 5,
        "top_p"@[4] == 'p',
        "xhigh"@.len() == 5,
        "xhigh"@[4] == 'h',
        "base64"@.len() == 6,
        "base64"@[1] == 'a',
        "effort"@.len() == 6,
        "effort"@[1] == 'f',
        "medium"@.len() == 6,
        "medium"@[1] == 'e',
        "source"@.len() == 6,
        "source"@[1] == 'o',
        "stream"@.len() == 6,
        "stream"@[1] == 't',
        "system"@.len() == 6,
        "system"@[1] == 'y',
        "content"@.len() == 7,
        "content"@[0] == 'c',
        "enabled"@.len() == 7,
        "enabled"@[0] == 'e',
        "minimal"@.len() == 7,
        "minimal"@[0] == 'm',
        "document"@.len() == 8,
        "document"@[2] == 'c',
        "function"@.len() == 8,
        "function"@[2] == 'n',
        "messages"@.len() == 8,
        "messages"@[2] == 's',
        "metadata"@.len() == 8,
        "metadata"@[2] == 't',
        "required"@.len() == 8,
        "required"@[2] == 'q',
        "thinking"@.len() == 8,
        "thinking"@[2] == 'i',
        "tool_use"@.len() == 8,
        "tool_use"@[2] == 'o',
        "assistant"@.len() == 9,
        "assistant"@[0] == 'a',
        "container"@.len() == 9,
        "container"@[0] == 'c',
        "reasoning"@.len() == 9,
        "reasoning"@[0] == 'r',
        "signature"@.len() == 9,
        "signature"@[0] == 's',
        "max_tokens"@.len() == 10,
        "max_tokens"@[1] == 'a',
        "media_type"@.len() == 10,
        "media_type"@[1] == 'e',
        "description"@.len() == 11,
        "description"@[5] == 'i',
        "description"@[1] == 'e',
        "input_audio"@.len() == 11,
        "input_audio"@[5] == '_',
        "input_audio"@[1] == 'n',
        "temperature"@.len() == 11,
        "temperature"@[5] == 'r',
        "temperature"@[1] == 'e',
        "tool_choice"@.len() == 11,
        "tool_choice"@[5] == 'c',
        "tool_choice"@[1] == 'o',
        "tool_result"@.len() == 11,
        "tool_result"@[5] == 'r',
        "tool_result"@[1] == 'o',
        "tool_use_id"@.len() == 11,
        "tool_use_id"@[5] == 'u',
        "tool_use_id"@[1] == 'o',
        "input_schema"@.len() == 12,
        "input_schema"@[0] == 'i',
        "service_tier"@.len() == 12,
        "service_tier"@[0] == 's',
        "budget_tokens"@.len() == 13,
        "budget_tokens"@[0] == 'b',
        "output_config"@.len() == 13,
        "output_config"@[0] == 'o',
        "stop_sequences"@.len() == 14,
        "__anthropic_top_k"@.len() == 17,
        "__anthropic_top_k"@[0] == '_',
        "reasoning_content"@.len() == 17,
        "reasoning_content"@[0] == 'r',
        "context_management"@.len() == 18,
        "reasoning_signature"@.len() == 19,
        "__anthropic_metadata"@.len() == 20,
        "__anthropic_metadata"@[12] == 'm',
        "__anthropic_thinking"@.len() == 20,
        "__anthropic_thinking"@[12] == 't',
        "__anthropic_container"@.len() == 21,
        "__anthropic_container"@[12] == 'c',
        "__anthropic_raw_tools"@.len() == 21,
        "__anthropic_raw_tools"@[12] == 'r',
        "__anthropic_raw_system"@.len() == 22,
        "__anthropic_raw_messages"@.len() == 24,
        "__anthropic_raw_messages"@[12] == 'r',
        "__anthropic_service_tier"@.len() == 24,
        "__anthropic_service_tier"@[12] == 's',
        "disable_parallel_tool_use"@.len() == 25,
        "__anthropic_stop_sequences"@.len() == 26,
        "__anthropic_context_management"@.len() == 30,
{
    reveal_strlit("id");
    reveal_strlit("any");
    reveal_strlit("low");
    reveal_strlit("max");
    reveal_strlit("url");
    reveal_strlit("auto");
    reveal_strlit("data");
    reveal_strlit("high");
    reveal_strlit("name");
    reveal_strlit("none");
    reveal_strlit("role");
    reveal_strlit("text");
    reveal_strlit("tool");
    reveal_strlit("type");
    reveal_strlit("user");
    reveal_strlit("image");
    reveal_strlit("model");
    reveal_strlit("tools");
    reveal_strlit("top_k");
    reveal_strlit("top_p");
    reveal_strlit("xhigh");
    reveal_strlit("base64");
    reveal_strlit("effort");
    reveal_strlit("medium");
    reveal_strlit("source");
    reveal_strlit("stream");
    reveal_strlit("system");
    reveal_strlit("content");
    reveal_strlit("enabled");
    reveal_strlit("minimal");
    reveal_strlit("document");
    reveal_strlit("function");
    reveal_strlit("messages");
    reveal_strlit("metadata");
    reveal_strlit("required");
    reveal_strlit("thinking");
    reveal_strlit("tool_use");
    reveal_strlit("assistant");
    reveal_strlit("container");
    reveal_strlit("reasoning");
    reveal_strlit("signature");
    reveal_strlit("max_tokens");
    reveal_strlit("media_type");
    reveal_strlit("description");
    reveal_strlit("input_audio");
    reveal_strlit("temperature");
    reveal_strlit("tool_choice");
    reveal_strlit("tool_result");
    reveal_strlit("tool_use_id");
    reveal_strlit("input_schema");
    reveal_strlit("service_tier");
    reveal_strlit("budget_tokens");
    reveal_strlit("output_config");
    reveal_strlit("stop_sequences");
    reveal_strlit("__anthropic_top_k");
    reveal_strlit("reasoning_content");
    reveal_strlit("context_management");
    reveal_strlit("reasoning_signature");
    reveal_strlit("__anthropic_metadata");
    reveal_strlit("__anthropic_thinking");
    reveal_strlit("__anthropic_container");
    reveal_strlit("__anthropic_raw_tools");
    reveal_strlit("__anthropic_raw_system");
    reveal_strlit("__anthropic_raw_messages");
    reveal_strlit("__anthropic_service_tier");
    reveal_strlit("disable_parallel_tool_use");
    reveal_strlit("__anthropic_stop_sequences");
    reveal_strlit("__anthropic_context_management");
}

proof fn lemma_with_opt(j: JsonV, k: Seq<char>, v: Option<JsonV>, other: Seq<char>)
    requires
        j is Object,
    ensures
        j.with_opt(k, v) is Object,
        j.with_opt(k, v).get(other) == if other == k && v is Some {
            v
        } else {
            j.get(other)
        },
{
    broadcast use crate::json::lemma_with_get;

}

// ---------------------------------------------------------------- the body

/// The name under which a field that the representation has no place for is carried.
pub open spec fn carried_as(k: Seq<char>) -> Option<Seq<char>> {
    if k == "thinking"@ {
        Some("__anthropic_thinking"@)
    } else if k == "context_management"@ {
        Some("__anthropic_context_management"@)
    } else if k == "container"@ {
        Some("__anthropic_container"@)
    } else if k == "service_tier"@ {
        Some("__anthropic_service_tier"@)
    } else if k == "metadata"@ {
        Some("__anthropic_metadata"@)
    } else if k == "stop_sequences"@ {
        Some("__anthropic_stop_sequences"@)
    } else if k == "top_k"@ {
        Some("__anthropic_top_k"@)
    } else {
        None
    }
}

/// What is carried under a name.
pub open spec fn carried(req: InternalRequestV, k: Seq<char>) -> Option<JsonV> {
    match carried_as(k) {
        Some(from) => crate::json::get_field(req.extra, from),
        None => None,
    }
}

/// The fields that the request itself gives, before any that is carried.
spec fn given(req: InternalRequestV) -> JsonV {
    JsonV::obj().with("model"@, JsonV::Text(req.model)).with("messages"@, crate::protocol::codec::anthropic_messages::encoder::messages_of(req)).with(
        "max_tokens"@,
        JsonV::num(crate::protocol::codec::anthropic_messages::encoder::max_tokens_of(req) as u64),
    ).with("stream"@, JsonV::Bool(req.stream)).with_opt("system"@, crate::protocol::codec::anthropic_messages::encoder::system_of(req)).with_opt(
        "temperature"@,
        JsonV::opt_float(req.temperature),
    ).with_opt("top_p"@, JsonV::opt_float(req.top_p)).with_opt(
        "thinking"@,
        match crate::protocol::codec::anthropic_messages::encoder::budget_of(req) {
            Some(n) => Some(crate::protocol::codec::anthropic_messages::encoder::typed("enabled"@).with("budget_tokens"@, JsonV::num(n as u64))),
            None => None,
        },
    ).with_opt(
        "output_config"@,
        match crate::protocol::codec::anthropic_messages::encoder::effort_of(req.extra) {
            Some(e) => match crate::protocol::codec::anthropic_messages::encoder::effort_name(e) {
                Some(n) => Some(JsonV::obj().with("effort"@, JsonV::Text(n))),
                None => None,
            },
            None => None,
        },
    ).with_opt("tools"@, crate::protocol::codec::anthropic_messages::encoder::tools_of(req)).with_opt(
        "tool_choice"@,
        match req.tool_choice {
            Some(c) => crate::protocol::codec::anthropic_messages::encoder::tool_choice_of(c),
            None => None,
        },
    )
}

proof fn lemma_carried(req: InternalRequestV, k: Seq<char>)
    ensures
        crate::protocol::codec::anthropic_messages::encoder::body_of(req).get(k) == match carried(req, k) {
            Some(v) => Some(v),
            None => given(req).get(k),
        },
{
    lemma_words();
    let b = given(req);
    lemma_given(req);
    let v = crate::json::get_field(req.extra, "__anthropic_thinking"@);
    lemma_with_opt(b, "thinking"@, v, k);
    let b = b.with_opt("thinking"@, v);
    let v = crate::json::get_field(req.extra, "__anthropic_context_management"@);
    lemma_with_opt(b, "context_management"@, v, k);
    let b = b.with_opt("context_management"@, v);
    let v = crate::json::get_field(req.extra, "__anthropic_container"@);
    lemma_with_opt(b, "container"@, v, k);
    let b = b.with_opt("container"@, v);
    let v = crate::json::get_field(req.extra, "__anthropic_service_tier"@);
    lemma_with_opt(b, "service_tier"@, v, k);
    let b = b.with_opt("service_tier"@, v);
    let v = crate::json::get_field(req.extra, "__anthropic_metadata"@);
    lemma_with_opt(b, "metadata"@, v, k);
    let b = b.with_opt("metadata"@, v);
    let v = crate::json::get_field(req.extra, "__anthropic_stop_sequences"@);
    lemma_with_opt(b, "stop_sequences"@, v, k);
    let b = b.with_opt("stop_sequences"@, v);
    let v = crate::json::get_field(req.extra, "__anthropic_top_k"@);
    lemma_with_opt(b, "top_k"@, v, k);
    let b = b.with_opt("top_k"@, v);
    assert(b == crate::protocol::codec::anthropic_messages::encoder::body_of(req));
}

proof fn lemma_given(req: InternalRequestV)
    ensures
        given(req) is Object,
        given(req).get("model"@) == Some(JsonV::Text(req.model)),
        given(req).get("messages"@) == Some(crate::protocol::codec::anthropic_messages::encoder::messages_of(req)),
        given(req).get("max_tokens"@) == Some(JsonV::num(crate::protocol::codec::anthropic_messages::encoder::max_tokens_of(req) as u64)),
        given(req).get("stream"@) == Some(JsonV::Bool(req.stream)),
        given(req).get("system"@) == crate::protocol::codec::anthropic_messages::encoder::system_of(req),
        given(req).get("temperature"@) == JsonV::opt_float(req.temperature),
        given(req).get("top_p"@) == JsonV::opt_float(req.top_p),
        given(req).get("tools"@) == crate::protocol::codec::anthropic_messages::encoder::tools_of(req),
        given(req).get("thinking"@) == match crate::protocol::codec::anthropic_messages::encoder::budget_of(req) {
            Some(n) => Some(crate::protocol::codec::anthropic_messages::encoder::typed("enabled"@).with("budget_tokens"@, JsonV::num(n as u64))),
            None => None,
        },
        given(req).get("tool_choice"@) == match req.tool_choice {
            Some(c) => crate::protocol::codec::anthropic_messages::encoder::tool_choice_of(c),
            None => None,
        },
{
    broadcast use crate::json::lemma_with_get;

    lemma_words();
}

/// How many tokens may go into thinking, by how hard the client asks to think.
pub open spec fn budget_asked(effort: Seq<char>) -> Option<u32> {
    let e = crate::text::lower_of(effort);
    if e == "minimal"@ || e == "low"@ {
        Some(1024u32)
    } else if e == "medium"@ {
        Some(4096u32)
    } else if e == "high"@ {
        Some(16384u32)
    } else if e == "xhigh"@ || e == "max"@ {
        Some(32000u32)
    } else {
        None
    }
}

/// The body of a request: the model, whether to stream, the sampling and what the system says, each
/// under its name; the limit of tokens that was asked for, 4096 where none was, and always more
/// than may go into thinking; and the tools by name, description and schema.
#[verifier::rlimit(40)]
pub proof fn lemma_body_says(req: InternalRequestV)
    ensures
        ({
            let body = crate::protocol::codec::anthropic_messages::encoder::body_of(req);
            let asked = match req.max_tokens {
                Some(n) => n,
                None => 4096u32,
            };
            let effort = match crate::json::get_field(req.extra, "reasoning"@) {
                Some(r) => r.get_str("effort"@),
                None => None,
            };
            let budget = match effort {
                Some(e) => budget_asked(e),
                None => None,
            };
            &&& body.get_str("model"@) == Some(req.model)
            &&& body.get_bool("stream"@) == Some(req.stream)
            &&& body.get("temperature"@) == JsonV::opt_float(req.temperature)
            &&& body.get("top_p"@) == JsonV::opt_float(req.top_p)
            &&& (match budget {
                None => {
                    &&& body.get_u64("max_tokens"@) == Some(asked as u64)
                    &&& body.get("thinking"@) == crate::json::get_field(
                        req.extra,
                        "__anthropic_thinking"@,
                    )
                },
                Some(b) => {
                    &&& asked > b ==> body.get_u64("max_tokens"@) == Some(asked as u64)
                    &&& asked <= b ==> body.get_u64("max_tokens"@) == Some((b + 1024) as u64)
                    &&& crate::json::get_field(req.extra, "__anthropic_thinking"@) is None ==> {
                        &&& body.get2("thinking"@, "type"@) == Some(JsonV::Text("enabled"@))
                        &&& body.get2("thinking"@, "budget_tokens"@) == Some(JsonV::num(b as u64))
                    }
                },
            })
            &&& crate::json::get_field(req.extra, "__anthropic_raw_messages"@) matches Some(v)
                ==> body.get("messages"@) == Some(v)
            &&& crate::json::get_field(req.extra, "__anthropic_raw_tools"@) matches Some(v)
                ==> body.get("tools"@) == Some(v)
            &&& crate::json::get_field(req.extra, "__anthropic_raw_system"@) matches Some(v)
                ==> body.get("system"@) == Some(v)
            &&& body.get("messages"@) == Some(crate::protocol::codec::anthropic_messages::encoder::messages_of(req))
            &&& crate::json::get_field(req.extra, "__anthropic_raw_tools"@) is None ==> match (
                req.tools,
                body.get("tools"@),
            ) {
                (Some(t), Some(JsonV::Array(a))) => a.len() == t.len() && forall|i: int|
                    0 <= i < t.len() && crate::text::after_prefix(t[i].name, "__builtin__"@)
                        is None ==> is_tool(#[trigger] a[i], t[i]),
                (None, None) => true,
                _ => false,
            }
        }),
{
    broadcast use crate::json::lemma_with_get;

    lemma_words();
    lemma_given(req);
    lemma_carried(req, "model"@);
    lemma_carried(req, "messages"@);
    lemma_carried(req, "max_tokens"@);
    lemma_carried(req, "stream"@);
    lemma_carried(req, "system"@);
    lemma_carried(req, "temperature"@);
    lemma_carried(req, "top_p"@);
    lemma_carried(req, "thinking"@);
    lemma_carried(req, "tools"@);
    let body = crate::protocol::codec::anthropic_messages::encoder::body_of(req);
    if let Some(b) = crate::protocol::codec::anthropic_messages::encoder::budget_of(req) {
        let inner = crate::protocol::codec::anthropic_messages::encoder::typed("enabled"@).with("budget_tokens"@, JsonV::num(b as u64));
        assert(inner.get("type"@) == Some(JsonV::Text("enabled"@)));
        assert(inner.get("budget_tokens"@) == Some(JsonV::num(b as u64)));
    }
    if let Some(t) = req.tools {
        if crate::json::get_field(req.extra, "__anthropic_raw_tools"@) is None {
            let a = Seq::new(t.len(), |i: int| crate::protocol::codec::anthropic_messages::encoder::tool_json(t[i]));
            assert(body.get("tools"@) == Some(JsonV::Array(a)));
            assert forall|i: int|
                0 <= i < t.len() && crate::text::after_prefix(t[i].name, "__builtin__"@)
                    is None implies is_tool(#[trigger] a[i], t[i]) by {
                lemma_tool_written(t[i]);
            }
        }
    }
}

/// Whether a value declares a tool.
pub open spec fn is_tool(j: JsonV, t: ToolDefV) -> bool {
    &&& j.get_str("name"@) == Some(t.name)
    &&& j.get_str("description"@) == t.description
    &&& j.get("input_schema"@) == Some(t.parameters)
}

proof fn lemma_tool_written(t: ToolDefV)
    ensures
        crate::text::after_prefix(t.name, "__builtin__"@) is None ==> is_tool(crate::protocol::codec::anthropic_messages::encoder::tool_json(t), t),
{
    broadcast use crate::json::lemma_with_get;

    lemma_words();
}

/// A tool that the provider runs is written under the provider's type and name for it.
pub proof fn lemma_builtin_written(t: ToolDefV, kind: Seq<char>)
    requires
        t.name == "__builtin__"@ + kind,
    ensures
        crate::protocol::codec::anthropic_messages::encoder::tool_json(t).get_str("type"@) == Some(kind),
        crate::protocol::codec::anthropic_messages::encoder::tool_json(t).get_str("name"@) == Some(kind),
{
    broadcast use crate::json::lemma_with_get;

    lemma_words();
    reveal_strlit("__builtin__");
    assert(t.name.subrange(0, 11) =~= "__builtin__"@);
    assert(t.name.subrange(11, t.name.len() as int) =~= kind);
}

/// What the client's own settings say goes on under their names.
pub proof fn lemma_settings_carried(req: InternalRequestV)
    ensures
        ({
            let body = crate::protocol::codec::anthropic_messages::encoder::body_of(req);
            let extra = req.extra;
            &&& body.get("context_management"@) == crate::json::get_field(
                extra,
                "__anthropic_context_management"@,
            )
            &&& body.get("container"@) == crate::json::get_field(extra, "__anthropic_container"@)
            &&& body.get("service_tier"@) == crate::json::get_field(
                extra,
                "__anthropic_service_tier"@,
            )
            &&& body.get("metadata"@) == crate::json::get_field(extra, "__anthropic_metadata"@)
            &&& body.get("stop_sequences"@) == crate::json::get_field(
                extra,
                "__anthropic_stop_sequences"@,
            )
            &&& body.get("top_k"@) == crate::json::get_field(extra, "__anthropic_top_k"@)
        }),
{
    broadcast use crate::json::lemma_with_get;

    lemma_words();
    lemma_carried(req, "context_management"@);
    lemma_carried(req, "container"@);
    lemma_carried(req, "service_tier"@);
    lemma_carried(req, "metadata"@);
    lemma_carried(req, "stop_sequences"@);
    lemma_carried(req, "top_k"@);
}

proof fn lemma_told(messages: Seq<InternalMessageV>, n: nat)
    requires
        n <= messages.len(),
    ensures
        crate::protocol::codec::anthropic_messages::encoder::system_text(messages, n) == told_upto(messages, n),
    decreases n,
{
    if n > 0 {
        lemma_told(messages, (n - 1) as nat);
        let before = told_upto(messages, (n - 1) as nat);
        reveal_strlit("\n");
        assert(before.push('\n') =~= before + "\n"@);
    }
}

/// What the system says in the first `n` messages, each on a line of its own.
pub open spec fn told_upto(messages: Seq<InternalMessageV>, n: nat) -> Seq<char>
    decreases n,
{
    if n == 0 {
        Seq::empty()
    } else {
        let before = told_upto(messages, (n - 1) as nat);
        if messages[n - 1].role == crate::protocol::types::Role::System {
            if before.len() > 0 {
                before + "\n"@ + messages[n - 1].content.as_text()
            } else {
                before + messages[n - 1].content.as_text()
            }
        } else {
            before
        }
    }
}

/// What the system says stands in a field of its own, where it says anything.
pub proof fn lemma_system_told(req: InternalRequestV)
    requires
        crate::json::get_field(req.extra, "__anthropic_raw_system"@) is None,
    ensures
        ({
            let t = told_upto(req.messages, req.messages.len());
            &&& t.len() > 0 ==> crate::protocol::codec::anthropic_messages::encoder::body_of(req).get_str("system"@) == Some(t)
            &&& t.len() == 0 ==> crate::protocol::codec::anthropic_messages::encoder::body_of(req).get("system"@) is None
        }),
{
    broadcast use crate::json::lemma_with_get;

    lemma_words();
    lemma_given(req);
    lemma_carried(req, "system"@);
    lemma_told(req.messages, req.messages.len());
}

// ---------------------------------------------------------------- choices

/// A choice among the tools, in the words of either protocol: free, forced, or forced to one tool.
pub proof fn lemma_choice_written(raw: JsonV, name: Seq<char>)
    requires
        name.len() > 0,
    ensures
        ({
            let c = crate::protocol::codec::anthropic_messages::encoder::tool_choice_of(raw);
            let kind = raw.get_str("type"@);
            &&& raw == JsonV::Text("auto"@) || (raw is Object && kind == Some("auto"@)) ==> c is Some
                && (c->0).get_str("type"@) == Some("auto"@)
            &&& raw == JsonV::Text("required"@) || (raw is Object && (kind == Some("required"@)
                || kind == Some("any"@))) ==> c is Some && (c->0).get_str("type"@) == Some("any"@)
            &&& kind == Some("tool"@) && raw.get_str("name"@) == Some(name) ==> c is Some && (
            c->0).get_str("type"@) == Some("tool"@) && (c->0).get_str("name"@) == Some(name)
            &&& kind == Some("function"@) && raw.get("name"@) is None && raw.get2(
                "function"@,
                "name"@,
            ) == Some(JsonV::Text(name)) ==> c is Some && (c->0).get_str("type"@) == Some("tool"@)
                && (c->0).get_str("name"@) == Some(name)
            &&& raw == JsonV::Text("none"@) ==> c is None
            &&& c is Some && raw is Object ==> ((c->0).get_bool("disable_parallel_tool_use"@)
                == Some(true) <==> raw.get_bool("disable_parallel_tool_use"@) == Some(true))
        }),
{
    broadcast use crate::json::lemma_with_get;

    lemma_words();
}

/// A choice that a client makes is understood.
pub proof fn lemma_choice_understood(v: JsonV, name: Seq<char>)
    ensures
        v.get_str("type"@) == Some("auto"@) ==> crate::protocol::codec::anthropic_messages::decoder::choice_of(v) == ToolChoiceV::Auto,
        v.get_str("type"@) == Some("any"@) ==> crate::protocol::codec::anthropic_messages::decoder::choice_of(v) == ToolChoiceV::Required,
        v.get_str("type"@) == Some("none"@) ==> crate::protocol::codec::anthropic_messages::decoder::choice_of(v) == ToolChoiceV::Forbidden,
        v.get_str("type"@) == Some("tool"@) && v.get_str("name"@) == Some(name) ==> crate::protocol::codec::anthropic_messages::decoder::choice_of(v)
            == (ToolChoiceV::Named { name }),
{
    lemma_words();
}

// ---------------------------------------------------------------- blocks

/// A block is written under the names of the protocol.
pub proof fn lemma_block_written(b: ContentBlockV)
    ensures
        ({
            let j = crate::protocol::codec::anthropic_messages::encoder::block_json(b);
            match b {
                ContentBlockV::Text { text } => {
                    &&& j.get_str("type"@) == Some("text"@)
                    &&& j.get_str("text"@) == Some(text)
                },
                ContentBlockV::Image { media_type, data } => {
                    &&& j.get_str("type"@) == Some("image"@)
                    &&& j.get2("source"@, "type"@) == Some(JsonV::Text("base64"@))
                    &&& j.get2("source"@, "media_type"@) == Some(JsonV::Text(media_type))
                    &&& j.get2("source"@, "data"@) == Some(JsonV::Text(data))
                },
                ContentBlockV::Reasoning { text, signature } => {
                    &&& j.get_str("type"@) == Some("thinking"@)
                    &&& j.get_str("thinking"@) == Some(text)
                    &&& signature matches Some(s) ==> (crate::text::trim_of(s).len() > 0
                        ==> j.get_str("signature"@) == Some(s))
                },
                ContentBlockV::ToolUse { id, name, input } => {
                    &&& j.get_str("type"@) == Some("tool_use"@)
                    &&& j.get_str("id"@) == Some(crate::protocol::codec::anthropic_messages::encoder::tool_id(id))
                    &&& j.get_str("name"@) == Some(name)
                    &&& j.get("input"@) == Some(input)
                },
                ContentBlockV::ToolResult { tool_use_id, content } => {
                    &&& j.get_str("type"@) == Some("tool_result"@)
                    &&& j.get_str("tool_use_id"@) == Some(crate::protocol::codec::anthropic_messages::encoder::tool_id(tool_use_id))
                    &&& j.get("content"@) == Some(content)
                },
            }
        }),
{
    broadcast use crate::json::lemma_with_get;

    lemma_words();
    reveal_strlit("input");
    if let ContentBlockV::Image { media_type, data } = b {
        let inner = crate::protocol::codec::anthropic_messages::encoder::typed("base64"@).with("media_type"@, JsonV::Text(media_type)).with(
            "data"@,
            JsonV::Text(data),
        );
        assert(crate::protocol::codec::anthropic_messages::encoder::block_json(b).get("source"@) == Some(inner));
    }
}

/// Thinking that a message of the assistant carries is written before all else, with its signature.
pub proof fn lemma_thinking_first(m: InternalMessageV, t: Seq<char>, thought: Seq<char>)
    requires
        crate::json::get_field(m.extra, "reasoning_content"@) == Some(JsonV::Text(thought)),
        crate::text::trim_of(thought).len() > 0,
    ensures
        ({
            let j = crate::protocol::codec::anthropic_messages::encoder::text_content(m, t);
            &&& j is Array
            &&& j->Array_0.len() > 0
            &&& j->Array_0[0].get_str("type"@) == Some("thinking"@)
            &&& j->Array_0[0].get_str("thinking"@) == Some(thought)
            &&& crate::json::get_field(m.extra, "reasoning_signature"@) matches Some(
                JsonV::Text(s),
            ) ==> (crate::text::trim_of(s).len() > 0 ==> j->Array_0[0].get_str("signature"@)
                == Some(s))
        }),
{
    broadcast use crate::json::lemma_with_get;

    lemma_words();
    let first = crate::protocol::codec::anthropic_messages::encoder::thinking_json(thought, crate::protocol::codec::anthropic_messages::encoder::extra_text(m.extra, "reasoning_signature"@));
    let thinking = seq![first];
    let texts = if t.len() > 0 {
        thinking.push(crate::protocol::codec::anthropic_messages::stream::text_block(t))
    } else {
        thinking
    };
    assert(texts[0] == first);
    if let Some(calls) = m.tool_calls {
        lemma_calls_behind(texts, calls, calls.len());
    }
    assert(first.get_str("type"@) == Some("thinking"@));
}

proof fn lemma_calls_behind(before: Seq<JsonV>, calls: Seq<ToolCallV>, n: nat)
    requires
        before.len() > 0,
        n <= calls.len(),
    ensures
        crate::protocol::codec::anthropic_messages::encoder::call_blocks(before, calls, n).len() == before.len() + n,
        crate::protocol::codec::anthropic_messages::encoder::call_blocks(before, calls, n)[0] == before[0],
    decreases n,
{
    if n > 0 {
        lemma_calls_behind(before, calls, (n - 1) as nat);
    }
}

/// Where a block stands in a turn of the assistant that makes a call: thinking first, calls last.
pub open spec fn rank(b: JsonV) -> int {
    if b.get_str("type"@) == Some("thinking"@) {
        0
    } else if b.get_str("type"@) == Some("tool_use"@) {
        2
    } else {
        1
    }
}

proof fn lemma_ranked(blocks: Seq<JsonV>, p: int, n: nat)
    requires
        n <= blocks.len(),
    ensures
        forall|i: int|
            0 <= i < crate::protocol::codec::anthropic_messages::encoder::at_place(blocks, p, n).len() ==> rank(#[trigger] crate::protocol::codec::anthropic_messages::encoder::at_place(blocks, p, n)[i])
                == p,
    decreases n,
{
    if n > 0 {
        lemma_words();
        lemma_ranked(blocks, p, (n - 1) as nat);
        let b = blocks[n - 1];
        assert(crate::protocol::codec::anthropic_messages::encoder::place(b) == rank(b));
        let before = crate::protocol::codec::anthropic_messages::encoder::at_place(blocks, p, (n - 1) as nat);
        let now = crate::protocol::codec::anthropic_messages::encoder::at_place(blocks, p, n);
        assert forall|i: int| 0 <= i < now.len() implies rank(#[trigger] now[i]) == p by {
            if i < before.len() {
                assert(now[i] == before[i]);
            }
        }
    }
}

/// In a turn of the assistant that makes a call, thinking stands before all else and calls behind
/// all else; every other turn stands as it is.
pub proof fn lemma_turn_ordered(t: TurnV)
    ensures
        ({
            let v = crate::protocol::codec::anthropic_messages::encoder::ordered(t);
            let calls = exists|i: int|
                0 <= i < t.blocks.len() && rank(#[trigger] t.blocks[i]) == 2;
            &&& t.role == "assistant"@ && calls ==> forall|i: int, j: int|
                0 <= i < j < v.len() ==> rank(#[trigger] v[i]) <= rank(#[trigger] v[j])
            &&& t.role != "assistant"@ || !calls ==> v == t.blocks
        }),
{
    lemma_words();
    let n = t.blocks.len();
    lemma_ranked(t.blocks, 0, n);
    lemma_ranked(t.blocks, 1, n);
    lemma_ranked(t.blocks, 2, n);
    lemma_any_call(t.blocks, n);
}

proof fn lemma_any_call(blocks: Seq<JsonV>, n: nat)
    requires
        n <= blocks.len(),
    ensures
        crate::protocol::codec::anthropic_messages::encoder::at_place(blocks, 2, n).len() > 0 <==> exists|i: int|
            0 <= i < n && rank(#[trigger] blocks[i]) == 2,
    decreases n,
{
    if n > 0 {
        lemma_words();
        lemma_any_call(blocks, (n - 1) as nat);
        if rank(blocks[n - 1]) == 2 {
            assert(crate::protocol::codec::anthropic_messages::encoder::at_place(blocks, 2, n).len() > 0);
        }
    }
}

// ---------------------------------------------------------------- what is refused

/// Whether a block may be sent.
pub open spec fn sound_block(b: JsonV) -> bool {
    let kind = b.get_str("type"@);
    &&& kind == Some("text"@) || kind == Some("image"@) || kind == Some("thinking"@) || kind == Some(
        "tool_use"@,
    ) || kind == Some("tool_result"@) || kind == Some("document"@) || kind == Some("input_audio"@)
    &&& kind == Some("tool_use"@) ==> b.filled("id"@) is Some && b.filled("name"@) is Some
    &&& kind == Some("tool_result"@) ==> b.filled("tool_use_id"@) is Some
}

/// Whether a message may be sent.
pub open spec fn sound_message(m: JsonV) -> bool {
    &&& m.get_str("role"@) == Some("user"@) || m.get_str("role"@) == Some("assistant"@)
    &&& (match m.get("content"@) {
        Some(JsonV::Text(_)) => true,
        Some(JsonV::Array(a)) => forall|i: int|
            0 <= i < a.len() ==> sound_block(#[trigger] a[i]),
        _ => false,
    })
}

/// Whether a choice among the tools may be sent.
pub open spec fn sound_choice(c: JsonV) -> bool {
    &&& c is Object
    &&& c.get_str("type"@) == Some("auto"@) || c.get_str("type"@) == Some("any"@) || (c.get_str(
        "type"@,
    ) == Some("tool"@) && c.filled("name"@) is Some)
}

proof fn lemma_blocks_sound(idx: nat, a: Seq<JsonV>, n: nat)
    requires
        n <= a.len(),
    ensures
        crate::protocol::codec::anthropic_messages::encoder::blocks_fault(idx, a, n) is None <==> forall|i: int|
            0 <= i < n ==> sound_block(#[trigger] a[i]),
    decreases n,
{
    if n > 0 {
        lemma_words();
        lemma_blocks_sound(idx, a, (n - 1) as nat);
        assert(crate::protocol::codec::anthropic_messages::encoder::block_fault(idx, (n - 1) as nat, a[n - 1]) is None <==> sound_block(a[n - 1]));
    }
}

proof fn lemma_messages_sound(v: Seq<JsonV>, n: nat)
    requires
        n <= v.len(),
    ensures
        crate::protocol::codec::anthropic_messages::encoder::messages_fault(v, n) is None <==> forall|i: int|
            0 <= i < n ==> sound_message(#[trigger] v[i]),
    decreases n,
{
    if n > 0 {
        lemma_words();
        lemma_messages_sound(v, (n - 1) as nat);
        let m = v[n - 1];
        if let Some(JsonV::Array(a)) = m.get("content"@) {
            lemma_blocks_sound((n - 1) as nat, a, a.len());
        }
        assert(crate::protocol::codec::anthropic_messages::encoder::message_fault((n - 1) as nat, m) is None <==> sound_message(m));
    }
}

/// A body is refused exactly where it lacks a model, a limit of tokens or messages, or where a
/// message, a block or the choice among the tools is not sound.
pub proof fn lemma_refused(body: JsonV)
    ensures
        crate::protocol::codec::anthropic_messages::encoder::payload_fault(body) is None <==> {
            &&& body is Object
            &&& body.get_str("model"@) matches Some(m) && crate::text::trim_of(m).len() > 0
            &&& body.get_u64("max_tokens"@) is Some
            &&& body.get_array("messages"@) matches Some(v) && v.len() > 0 && forall|i: int|
                0 <= i < v.len() ==> sound_message(#[trigger] v[i])
            &&& body.get("tool_choice"@) matches Some(c) ==> sound_choice(c)
        },
{
    lemma_words();
    if let Some(v) = body.get_array("messages"@) {
        lemma_messages_sound(v, v.len());
    }
}

// ---------------------------------------------------------------- what a client says

/// A block of a client is understood.
pub proof fn lemma_block_understood(b: AnthropicContentBlock)
    ensures
        ({
            let r = crate::protocol::codec::anthropic_messages::decoder::block_of(b);
            match b {
                AnthropicContentBlock::Text { text, cache_control } => r matches BlockV::Text {
                    text: t,
                    cache_control: c,
                } && t == text@ && (c is Some <==> cache_control is Some),
                AnthropicContentBlock::Thinking {
                    thinking,
                    signature,
                } => r == (BlockV::Thinking { thinking: thinking@, signature: signature.views() }),
                AnthropicContentBlock::Image { source, .. } => r matches BlockV::Image {
                    source: s,
                    ..
                } && (source.source_type@ == "url"@ && source.url is Some ==> s == MediaV::Url(
                    source.url->0@,
                )) && (source.source_type@ == "base64"@ && source.media_type is Some
                    && source.data is Some ==> s == (MediaV::Base64 {
                    media_type: source.media_type->0@,
                    data: source.data->0@,
                })),
                AnthropicContentBlock::ToolUse { id, name, input, .. } => r
                    matches BlockV::ToolUse { id: i, name: n, input: j, .. } && i == id@ && n
                    == name@ && j == input@,
                AnthropicContentBlock::ToolResult { tool_use_id, content, .. } => r
                    matches BlockV::ToolResult { tool_use_id: i, content: c, .. } && i
                    == tool_use_id@ && (content is Some ==> c == content->0@),
                _ => true,
            }
        }),
{
    lemma_words();
}

/// The results among the first `n` blocks: the call that each answers, and its text.
pub open spec fn answers_in(blocks: Seq<AnthropicContentBlock>, n: nat) -> Seq<
    (Seq<char>, Seq<char>),
>
    decreases n,
{
    if n == 0 {
        Seq::empty()
    } else {
        match blocks[n - 1] {
            AnthropicContentBlock::ToolResult { tool_use_id, content, .. } => answers_in(
                blocks,
                (n - 1) as nat,
            ).push(
                (
                    tool_use_id@,
                    match content {
                        Some(v) => match v@ {
                            JsonV::Text(t) => t,
                            JsonV::Null => Seq::empty(),
                            _ => crate::json::text_of(v@),
                        },
                        None => Seq::empty(),
                    },
                ),
            ),
            _ => answers_in(blocks, (n - 1) as nat),
        }
    }
}

proof fn lemma_answers(blocks: Seq<AnthropicContentBlock>, n: nat)
    requires
        n <= blocks.len(),
    ensures
        ({
            let v = crate::protocol::codec::anthropic_messages::decoder::tool_messages(blocks, n);
            let a = answers_in(blocks, n);
            &&& v.len() == a.len()
            &&& forall|i: int|
                0 <= i < v.len() ==> (#[trigger] v[i]).role == Role::Tool && v[i].tool_call_id
                    == Some(a[i].0) && v[i].content == ContentV::Text(a[i].1)
        }),
    decreases n,
{
    if n > 0 {
        lemma_answers(blocks, (n - 1) as nat);
    }
}

/// A turn of the client that answers calls becomes one message of a tool for each answer, in order,
/// behind what the client says besides, if anything.
pub proof fn lemma_answers_understood(msg: AnthropicMessage)
    requires
        msg.role@ == "user"@,
        msg.content is Blocks,
    ensures
        crate::protocol::codec::anthropic_messages::decoder::messages_for(msg) is Ok,
        ({
            let v = crate::protocol::codec::anthropic_messages::decoder::messages_for(msg)->Ok_0;
            let blocks = msg.content->Blocks_0@;
            let a = answers_in(blocks, blocks.len());
            let more = exists|i: int| 0 <= i < blocks.len() && !(#[trigger] blocks[i] is ToolResult);
            let head: int = if more {
                1
            } else {
                0
            };
            &&& v.len() == head + a.len()
            &&& more ==> v[0].role == Role::User
            &&& forall|i: int|
                head <= i < v.len() ==> (#[trigger] v[i]).role == Role::Tool && v[i].tool_call_id
                    == Some(a[i - head].0) && v[i].content == ContentV::Text(a[i - head].1)
        }),
{
    lemma_words();
    let blocks = msg.content->Blocks_0@;
    lemma_answers(blocks, blocks.len());
    lemma_own(blocks, blocks.len());
}

proof fn lemma_own(blocks: Seq<AnthropicContentBlock>, n: nat)
    requires
        n <= blocks.len(),
    ensures
        crate::protocol::codec::anthropic_messages::decoder::own_blocks(blocks, n).len() > 0 <==> exists|i: int|
            0 <= i < n && !(#[trigger] blocks[i] is ToolResult),
    decreases n,
{
    if n > 0 {
        lemma_own(blocks, (n - 1) as nat);
        if !(blocks[n - 1] is ToolResult) {
            assert(crate::protocol::codec::anthropic_messages::decoder::own_blocks(blocks, n).len() > 0);
        }
    }
}

/// A turn of a bare text is said by the side that the client names; any other side is refused.
pub proof fn lemma_text_understood(msg: AnthropicMessage, t: Seq<char>)
    requires
        msg.content matches AnthropicContent::Text(s) && s@ == t,
    ensures
        ({
            let v = crate::protocol::codec::anthropic_messages::decoder::messages_for(msg);
            &&& v is Ok <==> msg.role@ == "user"@ || msg.role@ == "assistant"@
            &&& v is Ok ==> v->Ok_0.len() == 1 && v->Ok_0[0].content == ContentV::Text(t)
            &&& msg.role@ == "user"@ ==> v->Ok_0[0].role == Role::User
            &&& msg.role@ == "assistant"@ ==> v->Ok_0[0].role == Role::Assistant
        }),
{
    lemma_words();
}

/// A turn of the assistant keeps its blocks one for one, and its calls are known as such, in order.
pub proof fn lemma_calls_understood(blocks: Seq<AnthropicContentBlock>, n: nat, i: int)
    requires
        n <= blocks.len(),
        0 <= i < n,
        blocks[i] is ToolUse,
    ensures
        crate::protocol::codec::anthropic_messages::decoder::calls_in(blocks, n).contains(
            ToolCallV {
                id: blocks[i]->ToolUse_id@,
                name: blocks[i]->ToolUse_name@,
                arguments: crate::json::text_of(blocks[i]->ToolUse_input@),
            },
        ),
        crate::protocol::codec::anthropic_messages::decoder::assistant_message(blocks).role == Role::Assistant,
        n == blocks.len() ==> crate::protocol::codec::anthropic_messages::decoder::assistant_message(blocks).tool_calls == Some(
            crate::protocol::codec::anthropic_messages::decoder::calls_in(blocks, n),
        ),
        blocks.len() > 1 ==> crate::protocol::codec::anthropic_messages::decoder::assistant_message(blocks).content == ContentV::Blocks(
            Seq::new(blocks.len(), |j: int| crate::protocol::codec::anthropic_messages::decoder::block_of(blocks[j])),
        ),
    decreases n,
{
    let c = ToolCallV {
        id: blocks[i]->ToolUse_id@,
        name: blocks[i]->ToolUse_name@,
        arguments: crate::json::text_of(blocks[i]->ToolUse_input@),
    };
    if i < n - 1 {
        lemma_calls_understood(blocks, (n - 1) as nat, i);
        let before = crate::protocol::codec::anthropic_messages::decoder::calls_in(blocks, (n - 1) as nat);
        let j = choose|j: int| 0 <= j < before.len() && before[j] == c;
        assert(crate::protocol::codec::anthropic_messages::decoder::calls_in(blocks, n)[j] == c);
    } else {
        assert(crate::protocol::codec::anthropic_messages::decoder::calls_in(blocks, n).last() == c);
    }
}

/// What a client asks for is understood, and what the request has no place for is carried along.
#[verifier::rlimit(40)]
pub proof fn lemma_request_understood(req: AnthropicRequest, messages: Seq<MessageV>)
    ensures
        ({
            let r = crate::protocol::codec::anthropic_messages::decoder::request_with(req, messages);
            let bag = r.meta.vendor.ingress;
            &&& r.model == req.model@
            &&& r.messages == messages
            &&& r.generation.max_tokens == Some(req.max_tokens)
            &&& r.generation.temperature == req.temperature.views()
            &&& r.generation.top_p == req.top_p.views()
            &&& r.stream.enabled == req.stream
            &&& req.thinking matches Some(t) ==> r.reasoning.budget_tokens == t.budget_tokens && (
            r.reasoning.enabled <==> t.kind@ == "enabled"@)
            &&& crate::json::get_field(bag, "__anthropic_top_k"@) == JsonV::opt_u32(req.top_k)
            &&& crate::json::get_field(bag, "__anthropic_metadata"@) == req.metadata.views()
            &&& crate::json::get_field(bag, "__anthropic_container"@) == JsonV::opt_text(
                req.container.views(),
            )
            &&& crate::json::get_field(bag, "__anthropic_service_tier"@) == JsonV::opt_text(
                req.service_tier.views(),
            )
            &&& crate::json::get_field(bag, "__anthropic_context_management"@)
                == req.context_management.views()
            &&& req.stop_sequences matches Some(v) ==> crate::json::get_field(
                bag,
                "__anthropic_stop_sequences"@,
            ) == Some(JsonV::texts(v.views()))
            &&& req.thinking is Some ==> crate::json::get_field(bag, "__anthropic_thinking"@)
                == req.raw.thinking.views()
        }),
{
    broadcast use crate::json::lemma_fields_put_opt;

    lemma_words();
}

/// A tool that a client declares is known by its name, its description and its schema; one that the
/// provider runs by its type, marked as such.
pub proof fn lemma_tool_understood(t: AnthropicTool)
    ensures
        t.tool_type matches Some(kind) ==> crate::protocol::codec::anthropic_messages::decoder::tool_of(t) is Some && (crate::protocol::codec::anthropic_messages::decoder::tool_of(t)->0).name
            == "__builtin__"@ + kind@ && (crate::protocol::codec::anthropic_messages::decoder::tool_of(t)->0).description == t.description.views(),
        t.tool_type is None && t.input_schema is Some ==> crate::protocol::codec::anthropic_messages::decoder::tool_of(t) is Some && (crate::protocol::codec::anthropic_messages::decoder::tool_of(
            t,
        )->0).name == t.name@ && (crate::protocol::codec::anthropic_messages::decoder::tool_of(t)->0).description == t.description.views() && (
        crate::protocol::codec::anthropic_messages::decoder::tool_of(t)->0).parameters == t.input_schema->0@,
{
}

} // verus!
