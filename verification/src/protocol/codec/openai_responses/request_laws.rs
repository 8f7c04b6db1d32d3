//! A request that is written and read again.
use vstd::prelude::*;

use crate::json::JsonV;
use crate::protocol::codec::openai_responses::decoder::TalkV;
use crate::protocol::codec::openai_responses::encoder::InputV;
use crate::protocol::types::Role;
use crate::protocol::ir::request::{AiRequestV, MessageV, ToolSpecV};
use crate::protocol::types::{InternalMessageV, MessageContentV, ToolCallV, ToolDefV};

verus! {

/// The words of the protocol differ.
proof fn lemma_words()
    ensures
        "id"@.len() == 2,
        "name"@.len() == 4,
        "name"@[2] == 'm',
        "role"@.len() == 4,
        "role"@[2] == 'l',
        "text"@.len() == 4,
        "text"@[2] == 'x',
        "tool"@.len() == 4,
        "tool"@[2] == 'o',
        "type"@.len() == 4,
        "type"@[2] == 'p',
        "user"@.len() == 4,
        "user"@[2] == 'e',
        "input"@.len() == 5,
        "input"@[3] == 'u',
        "model"@.len() == 5,
        "model"@[3] == 'e',
        "store"@.len() == 5,
        "store"@[3] == 'r',
        "tools"@.len() == 5,
        "tools"@[3] == 'l',
        "top_p"@.len() == 5,
        "top_p"@[3] == '_',
        "output"@.len() == 6,
        "output"@[1] == 'u',
        "stream"@.len() == 6,
        "stream"@[1] == 't',
        "system"@.len() == 6,
        "system"@[1] == 'y',
        "call_id"@.len() == 7,
        "call_id"@[1] == 'a',
        "content"@.len() == 7,
        "content"@[1] == 'o',
        "include"@.len() == 7,
        "include"@[1] == 'n',
        "message"@.len() == 7,
        "message"@[1] == 'e',
        "summary"@.len() == 7,
        "summary"@[1] == 'u',
        "function"@.len() == 8,
        "function"@[2] == 'n',
        "messages"@.len() == 8,
        "messages"@[2] == 's',
        "metadata"@.len() == 8,
        "metadata"@[2] == 't',
        "arguments"@.len() == 9,
        "arguments"@[2] == 'g',
        "assistant"@.len() == 9,
        "assistant"@[2] == 's',
        "developer"@.len() == 9,
        "developer"@[2] == 'v',
        "reasoning"@.len() == 9,
        "reasoning"@[2] == 'a',
        "background"@.len() == 10,
        "background"@[0] == 'b',
        "input_text"@.len() == 10,
        "input_text"@[0] == 'i',
        "parameters"@.len() == 10,
        "parameters"@[0] == 'p',
        "truncation"@.len() == 10,
        "truncation"@[0] == 't',
        "description"@.len() == 11,
        "description"@[2] == 's',
        "output_text"@.len() == 11,
        "output_text"@[2] == 't',
        "temperature"@.len() == 11,
        "temperature"@[2] == 'm',
        "tool_choice"@.len() == 11,
        "tool_choice"@[2] == 'o',
        "instructions"@.len() == 12,
        "instructions"@[0] == 'i',
        "service_tier"@.len() == 12,
        "service_tier"@[0] == 's',
        "tool_call_id"@.len() == 12,
        "tool_call_id"@[0] == 't',
        "function_call"@.len() == 13,
        "reasoning_text"@.len() == 14,
        "encrypted_content"@.len() == 17,
        "encrypted_content"@[0] == 'e',
        "max_output_tokens"@.len() == 17,
        "max_output_tokens"@[0] == 'm',
        "reasoning_content"@.len() == 17,
        "reasoning_content"@[0] == 'r',
        "parallel_tool_calls"@.len() == 19,
        "function_call_output"@.len() == 20,
        "function_call_output"@[0] == 'f',
        "previous_response_id"@.len() == 20,
        "previous_response_id"@[0] == 'p',
{
    reveal_strlit("id");
    reveal_strlit("name");
    reveal_strlit("role");
    reveal_strlit("text");
    reveal_strlit("tool");
    reveal_strlit("type");
    reveal_strlit("user");
    reveal_strlit("input");
    reveal_strlit("model");
    reveal_strlit("store");
    reveal_strlit("tools");
    reveal_strlit("top_p");
    reveal_strlit("output");
    reveal_strlit("stream");
    reveal_strlit("system");
    reveal_strlit("call_id");
    reveal_strlit("content");
    reveal_strlit("include");
    reveal_strlit("message");
    reveal_strlit("summary");
    reveal_strlit("function");
    reveal_strlit("messages");
    reveal_strlit("metadata");
    reveal_strlit("arguments");
    reveal_strlit("assistant");
    reveal_strlit("developer");
    reveal_strlit("reasoning");
    reveal_strlit("background");
    reveal_strlit("input_text");
    reveal_strlit("parameters");
    reveal_strlit("truncation");
    reveal_strlit("description");
    reveal_strlit("output_text");
    reveal_strlit("temperature");
    reveal_strlit("tool_choice");
    reveal_strlit("instructions");
    reveal_strlit("service_tier");
    reveal_strlit("tool_call_id");
    reveal_strlit("function_call");
    reveal_strlit("reasoning_text");
    reveal_strlit("encrypted_content");
    reveal_strlit("max_output_tokens");
    reveal_strlit("reasoning_content");
    reveal_strlit("parallel_tool_calls");
    reveal_strlit("function_call_output");
    reveal_strlit("previous_response_id");
}

// ---------------------------------------------------------------- the conversation

/// A message that says a text and nothing more.
pub open spec fn saying(role: Role, text: Seq<char>) -> InternalMessageV {
    InternalMessageV {
        role,
        content: MessageContentV::Text(text),
        tool_calls: None,
        tool_call_id: None,
        extra: Seq::empty(),
    }
}

/// A message that makes a call and nothing more.
pub open spec fn calling(c: ToolCallV) -> InternalMessageV {
    InternalMessageV { tool_calls: Some(seq![c]), ..saying(Role::Assistant, Seq::empty()) }
}

/// Who speaks.
pub open spec fn speaker(role: crate::protocol::ir::request::Role) -> Role {
    match role {
        crate::protocol::ir::request::Role::System => Role::System,
        crate::protocol::ir::request::Role::User => Role::User,
        crate::protocol::ir::request::Role::Assistant => Role::Assistant,
        crate::protocol::ir::request::Role::Tool => Role::Tool,
    }
}

/// What is heard of a message: its text and, one by one, its calls, or the output of a tool with
/// the call that it answers. The system's is not part of the talk.
pub open spec fn heard(m: MessageV) -> Seq<InternalMessageV> {
    let text = m.content.to_text();
    match m.role {
        crate::protocol::ir::request::Role::System => Seq::empty(),
        crate::protocol::ir::request::Role::Tool => seq![
            InternalMessageV { tool_call_id: m.tool_call_id, ..saying(Role::Tool, text) },
        ],
        _ => {
            let words = if text.len() == 0 {
                Seq::empty()
            } else {
                seq![saying(speaker(m.role), text)]
            };
            match m.tool_calls {
                Some(v) => words + Seq::new(v.len(), |i: int| calling(v[i])),
                None => words,
            }
        },
    }
}

/// What is heard of the first `n` messages.
pub open spec fn heard_upto(v: Seq<MessageV>, n: nat) -> Seq<InternalMessageV>
    decreases n,
{
    if n == 0 {
        Seq::empty()
    } else {
        heard_upto(v, (n - 1) as nat) + heard(v[n - 1])
    }
}

/// What the system says in the first `n` messages.
pub open spec fn told_upto(v: Seq<MessageV>, n: nat) -> Seq<Seq<char>>
    decreases n,
{
    if n == 0 {
        Seq::empty()
    } else {
        let before = told_upto(v, (n - 1) as nat);
        if v[n - 1].role == crate::protocol::ir::request::Role::System && v[n - 1].content.to_text().len() > 0 {
            before.push(v[n - 1].content.to_text())
        } else {
            before
        }
    }
}

/// Whether every call has an identifier and a name, and every answer names its call.
pub open spec fn addressed(m: MessageV) -> bool {
    &&& m.role == crate::protocol::ir::request::Role::Tool ==> m.tool_call_id is Some && crate::text::trim_of(
        m.tool_call_id->0,
    ).len() > 0
    &&& m.tool_calls matches Some(v) ==> forall|i: int|
        0 <= i < v.len() ==> crate::text::trim_of((#[trigger] v[i]).id).len() > 0
            && crate::text::trim_of(v[i].name).len() > 0
}

proof fn lemma_items_prefix(t: TalkV, a: Seq<JsonV>, b: Seq<JsonV>, n: nat)
    requires
        n <= a.len(),
        n <= b.len(),
        forall|i: int| 0 <= i < n ==> a[i] == b[i],
    ensures
        t.items(a, n) == t.items(b, n),
    decreases n,
{
    if n > 0 {
        lemma_items_prefix(t, a, b, (n - 1) as nat);
    }
}

proof fn lemma_items_push(t: TalkV, v: Seq<JsonV>, x: JsonV)
    ensures
        t.items(v.push(x), v.len() + 1) == match t.items(v, v.len()) {
            Ok(u) => u.item(x),
            Err(e) => Err(e),
        },
{
    lemma_items_prefix(t, v.push(x), v, v.len());
}

/// An item of a text is heard as the text, from whoever said it.
proof fn lemma_text_heard(t: TalkV, assistant: bool, text: Seq<char>)
    requires
        text.len() > 0,
        t.pending is None,
    ensures
        ({
            let item = if assistant {
                crate::protocol::codec::openai_responses::encoder::text_item("assistant"@, "output_text"@, text)
            } else {
                crate::protocol::codec::openai_responses::encoder::text_item("user"@, "input_text"@, text)
            };
            let role = if assistant {
                Role::Assistant
            } else {
                Role::User
            };
            t.item(item) == Ok::<TalkV, Seq<char>>(
                TalkV { attached: false, ..t.push(saying(role, text)) },
            )
        }),
{
    broadcast use crate::json::lemma_with_get;

    lemma_words();
    reveal_with_fuel(crate::protocol::codec::openai_responses::decoder::blocks_text, 2);
    reveal_with_fuel(crate::protocol::codec::openai_responses::decoder::thoughts_upto, 2);
    let (role, kind) = if assistant {
        ("assistant"@, "output_text"@)
    } else {
        ("user"@, "input_text"@)
    };
    let item = crate::protocol::codec::openai_responses::encoder::text_item(role, kind, text);
    let part = JsonV::obj().with("type"@, JsonV::Text(kind)).with("text"@, JsonV::Text(text));
    let parts = seq![part];
    assert(item.get("content"@) == Some(JsonV::Array(parts)));
    assert(item.get_str("type"@) == Some("message"@));
    assert(item.get_str("role"@) == Some(role));
    assert(part.get_str("type"@) == Some(kind));
    assert(part.get_str("text"@) == Some(text));
    assert(part.get("reasoning"@) is None);
    assert(Seq::<char>::empty() + text =~= text);
    assert(crate::protocol::codec::openai_responses::decoder::blocks_text(parts, 1) == text);
    assert(crate::protocol::codec::openai_responses::decoder::thoughts_upto(parts, 1) =~= Seq::empty());
    assert(item.get("summary"@) is None);
    assert(item.get("reasoning_content"@) is None);
    assert(item.get("encrypted_content"@) is None);
    assert(crate::protocol::codec::openai_responses::decoder::reasoning_of(item) is None);
}

proof fn lemma_call_heard(t: TalkV, c: ToolCallV)
    requires
        t.pending is None,
        crate::text::trim_of(c.id).len() > 0,
        crate::text::trim_of(c.name).len() > 0,
    ensures
        t.item(crate::protocol::codec::openai_responses::encoder::call_item(c)) == Ok::<TalkV, Seq<char>>(
            TalkV { attached: false, ..t.push(calling(c)) },
        ),
{
    broadcast use crate::json::lemma_with_get;

    lemma_words();
    let item = crate::protocol::codec::openai_responses::encoder::call_item(c);
    assert(item.get_str("type"@) == Some("function_call"@));
    assert(item.get_str("call_id"@) == Some(c.id));
    assert(item.get_str("name"@) == Some(c.name));
    assert(item.get_str("arguments"@) == Some(c.arguments));
    assert(item.get("summary"@) is None);
    assert(item.get("content"@) is None);
    assert(item.get("reasoning_content"@) is None);
    assert(item.get("encrypted_content"@) is None);
}

proof fn lemma_output_heard(t: TalkV, m: MessageV)
    requires
        t.pending is None,
        m.tool_call_id is Some,
        crate::text::trim_of(m.tool_call_id->0).len() > 0,
    ensures
        t.item(crate::protocol::codec::openai_responses::encoder::output_item(m)) == Ok::<TalkV, Seq<char>>(
            t.push(
                InternalMessageV {
                    tool_call_id: m.tool_call_id,
                    ..saying(Role::Tool, m.content.to_text())
                },
            ),
        ),
{
    broadcast use crate::json::lemma_with_get;

    lemma_words();
    let item = crate::protocol::codec::openai_responses::encoder::output_item(m);
    assert(item.get_str("type"@) == Some("function_call_output"@));
    assert(item.get_str("call_id"@) == m.tool_call_id);
    assert(item.get("output"@) == Some(JsonV::Text(m.content.to_text())));
}

proof fn lemma_calls_heard(t: TalkV, before: InputV, head: TalkV, v: Seq<ToolCallV>, n: nat)
    requires
        n <= v.len(),
        t.pending is None,
        !t.attached,
        head.items(before.items, before.items.len()) == Ok::<TalkV, Seq<char>>(t),
        forall|i: int|
            0 <= i < v.len() ==> crate::text::trim_of((#[trigger] v[i]).id).len() > 0
                && crate::text::trim_of(v[i].name).len() > 0,
    ensures
        ({
            let now = before.calls(v, n);
            &&& now.instructions == before.instructions
            &&& head.items(now.items, now.items.len()) == Ok::<TalkV, Seq<char>>(
                TalkV {
                    messages: t.messages + Seq::new(n, |i: int| calling(v[i])),
                    ..t
                },
            )
        }),
    decreases n,
{
    if n == 0 {
        assert(t.messages + Seq::new(0, |i: int| calling(v[i])) =~= t.messages);
    } else {
        let m = (n - 1) as nat;
        lemma_calls_heard(t, before, head, v, m);
        let now = before.calls(v, m);
        lemma_items_push(head, now.items, crate::protocol::codec::openai_responses::encoder::call_item(v[n - 1]));
        let u = TalkV { messages: t.messages + Seq::new(m, |i: int| calling(v[i])), ..t };
        lemma_call_heard(u, v[n - 1]);
        assert(u.messages.push(calling(v[n - 1])) =~= t.messages + Seq::new(
            n,
            |i: int| calling(v[i]),
        ));
    }
}

proof fn lemma_message_heard(v: Seq<MessageV>, n: nat, head: Seq<InternalMessageV>)
    requires
        n <= v.len(),
        forall|i: int| 0 <= i < v.len() ==> addressed(#[trigger] v[i]),
    ensures
        ({
            let input = InputV::of(v, n);
            let t = TalkV { messages: head, pending: None, attached: false };
            &&& input.instructions == told_upto(v, n)
            &&& t.items(input.items, input.items.len()) == Ok::<TalkV, Seq<char>>(
                TalkV { messages: head + heard_upto(v, n), ..t },
            )
        }),
    decreases n,
{
    let t = TalkV { messages: head, pending: None, attached: false };
    if n == 0 {
        assert(head + heard_upto(v, 0) =~= head);
    } else {
        let k = (n - 1) as nat;
        lemma_message_heard(v, k, head);
        let m = v[k as int];
        assert(addressed(m));
        let text = m.content.to_text();
        let before = InputV::of(v, k);
        let u = TalkV { messages: head + heard_upto(v, k), ..t };
        match m.role {
            crate::protocol::ir::request::Role::System => {
                assert(head + heard_upto(v, n) =~= head + heard_upto(v, k));
            },
            crate::protocol::ir::request::Role::Tool => {
                lemma_items_push(t, before.items, crate::protocol::codec::openai_responses::encoder::output_item(m));
                lemma_output_heard(u, m);
                assert(head + heard_upto(v, n) =~= u.messages + heard(m));
                assert(u.messages + heard(m) =~= u.messages.push(heard(m)[0]));
            },
            _ => {
                let assistant = m.role == crate::protocol::ir::request::Role::Assistant;
                let (role, kind) = if assistant {
                    ("assistant"@, "output_text"@)
                } else {
                    ("user"@, "input_text"@)
                };
                let spoken = if text.len() == 0 {
                    before
                } else {
                    before.push(crate::protocol::codec::openai_responses::encoder::text_item(role, kind, text))
                };
                let w = if text.len() == 0 {
                    u
                } else {
                    u.push(saying(speaker(m.role), text))
                };
                if text.len() > 0 {
                    lemma_items_push(t, before.items, crate::protocol::codec::openai_responses::encoder::text_item(role, kind, text));
                    lemma_text_heard(u, assistant, text);
                }
                assert(t.items(spoken.items, spoken.items.len()) == Ok::<TalkV, Seq<char>>(w));
                if let Some(calls) = m.tool_calls {
                    lemma_calls_heard(w, spoken, t, calls, calls.len());
                    assert(w.messages + Seq::new(calls.len(), |i: int| calling(calls[i]))
                        =~= head + heard_upto(v, n));
                } else {
                    assert(w.messages =~= head + heard_upto(v, n));
                }
            },
        }
    }
}

// ---------------------------------------------------------------- tools

/// Whether a tool is one of the client's own, not one that the provider runs.
pub open spec fn own_tool(t: ToolSpecV) -> bool {
    !crate::text::begins(t.name, "__builtin__"@)
}

/// What a tool declares.
pub open spec fn declared(t: ToolSpecV) -> ToolDefV {
    ToolDefV { name: t.name, description: t.description, parameters: t.parameters }
}

proof fn lemma_tools_read(v: Seq<ToolSpecV>, n: nat)
    requires
        n <= v.len(),
        forall|i: int| 0 <= i < v.len() ==> own_tool(#[trigger] v[i]),
    ensures
        crate::protocol::codec::openai_responses::decoder::tools_upto(
            Seq::new(v.len(), |i: int| crate::protocol::codec::openai_responses::encoder::tool_value(v[i])),
            n,
        ) == Ok::<Seq<ToolDefV>, Seq<char>>(Seq::new(n, |i: int| declared(v[i]))),
    decreases n,
{
    if n == 0 {
        assert(Seq::new(0, |i: int| declared(v[i])) =~= Seq::empty());
    } else {
        broadcast use crate::json::lemma_with_get;

        lemma_words();
        let m = (n - 1) as nat;
        lemma_tools_read(v, m);
        let t = v[m as int];
        let j = crate::protocol::codec::openai_responses::encoder::tool_value(t);
        assert(own_tool(t));
        assert(j.get_str("type"@) == Some("function"@));
        assert(j.get_str("name"@) == Some(t.name));
        assert(j.get_str("description"@) == t.description);
        assert(j.get("parameters"@) == Some(t.parameters));
        assert(Seq::new(m, |i: int| declared(v[i])).push(declared(t)) =~= Seq::new(
            n,
            |i: int| declared(v[i]),
        ));
    }
}

/// A tool that the provider runs is read and written again as it came.
pub proof fn lemma_builtin_kept(item: JsonV, t: ToolSpecV)
    requires
        item.get_str("type"@) == Some("web_search_preview"@) || item.get_str("type"@) == Some(
            "file_search"@,
        ) || item.get_str("type"@) == Some("computer_use_preview"@) || item.get_str("type"@)
            == Some("code_interpreter"@),
        crate::protocol::codec::openai_responses::decoder::tool_of(item) == Ok::<Option<ToolDefV>, Seq<char>>(Some(declared(t))),
    ensures
        crate::protocol::codec::openai_responses::encoder::tool_value(t) == item,
{
    reveal_strlit("web_search_preview");
    reveal_strlit("file_search");
    reveal_strlit("computer_use_preview");
    reveal_strlit("code_interpreter");
    reveal_strlit("function");
    reveal_strlit("__builtin__");
    let kind = item.get_str("type"@)->0;
    assert(t.name == "__builtin__"@ + kind);
    assert(crate::text::begins(t.name, "__builtin__"@)) by {
        assert(t.name.subrange(0, 11) =~= "__builtin__"@);
    }
}

// ---------------------------------------------------------------- the body

proof fn lemma_rest(
    f: Seq<(Seq<char>, JsonV)>,
    bag: Seq<(Seq<char>, JsonV)>,
    n: nat,
    k: Seq<char>,
)
    requires
        n <= bag.len(),
        crate::json::distinct_names(f),
    ensures
        crate::json::distinct_names(crate::protocol::codec::openai_responses::encoder::rest_upto(f, bag, n)),
        crate::json::get_field(f, k) is Some ==> crate::json::get_field(crate::protocol::codec::openai_responses::encoder::rest_upto(f, bag, n), k)
            == crate::json::get_field(f, k),
        crate::json::get_field(f, k) is None && crate::protocol::codec::openai_responses::encoder::is_own(k) ==> crate::json::get_field(
            crate::protocol::codec::openai_responses::encoder::rest_upto(f, bag, n),
            k,
        ) is None,
        crate::json::get_field(f, k) is None && !crate::protocol::codec::openai_responses::encoder::is_own(k) ==> crate::json::get_field(
            crate::protocol::codec::openai_responses::encoder::rest_upto(f, bag, n),
            k,
        ) == match crate::json::field_pos(bag, k, n) {
            Some(i) => Some(bag[i].1),
            None => None,
        },
    decreases n,
{
    if n > 0 {
        broadcast use crate::json::lemma_fields_put_absent;

        let m = (n - 1) as nat;
        lemma_rest(f, bag, m, k);
        crate::json::lemma_field_pos(bag, k, m);
        crate::json::lemma_field_pos(bag, k, n);
        let before = crate::protocol::codec::openai_responses::encoder::rest_upto(f, bag, m);
        crate::json::lemma_put_opt_absent_distinct(before, bag[m as int].0, Some(bag[m as int].1));
    }
}

proof fn lemma_distinct(req: AiRequestV)
    ensures
        crate::json::distinct_names(crate::protocol::codec::openai_responses::encoder::known_fields(req)),
{
    let input = InputV::of(req.messages, req.messages.len());
    let bag = JsonV::Object(req.meta.vendor.ingress);
    let f: Seq<(Seq<char>, JsonV)> = Seq::empty();
    crate::json::lemma_put_distinct(f, "model"@, JsonV::Text(req.model));
    let f = crate::json::put_field(f, "model"@, JsonV::Text(req.model));
    let store = JsonV::Bool(bag.get_bool("store"@) == Some(true));
    crate::json::lemma_put_distinct(f, "store"@, store);
    let f = crate::json::put_field(f, "store"@, store);
    crate::json::lemma_put_distinct(f, "stream"@, JsonV::Bool(true));
    let f = crate::json::put_field(f, "stream"@, JsonV::Bool(true));
    let text = JsonV::Text(crate::protocol::codec::openai_responses::encoder::instructions_of(input.instructions));
    crate::json::lemma_put_distinct(f, "instructions"@, text);
    let f = crate::json::put_field(f, "instructions"@, text);
    crate::json::lemma_put_distinct(f, "input"@, JsonV::Array(input.items));
    let f = crate::json::put_field(f, "input"@, JsonV::Array(input.items));
    let x = JsonV::opt_float(req.generation.temperature);
    crate::json::lemma_put_opt_absent_distinct(f, "temperature"@, x);
    let f = crate::json::put_opt(f, "temperature"@, x);
    let x = JsonV::opt_float(req.generation.top_p);
    crate::json::lemma_put_opt_absent_distinct(f, "top_p"@, x);
    let f = crate::json::put_opt(f, "top_p"@, x);
    let x = match req.tools {
        Some(v) => Some(crate::protocol::codec::openai_responses::encoder::tools_value(v)),
        None => None,
    };
    crate::json::lemma_put_opt_absent_distinct(f, "tools"@, x);
    let f = crate::json::put_opt(f, "tools"@, x);
    let x = match req.tool_choice {
        Some(c) => Some(crate::protocol::codec::openai_compatible::encoder::choice_value(c)),
        None => None,
    };
    crate::json::lemma_put_opt_absent_distinct(f, "tool_choice"@, x);
}

proof fn lemma_carried(
    f: Seq<(Seq<char>, JsonV)>,
    bag: Seq<(Seq<char>, JsonV)>,
    k: Seq<char>,
    x: Seq<char>,
)
    requires
        crate::json::distinct_names(f),
    ensures
        crate::json::distinct_names(crate::protocol::codec::openai_responses::encoder::carried(f, bag, k)),
        crate::json::get_field(f, x) is Some ==> crate::json::get_field(crate::protocol::codec::openai_responses::encoder::carried(f, bag, k), x)
            == crate::json::get_field(f, x),
        crate::json::get_field(f, x) is None && x != k ==> crate::json::get_field(
            crate::protocol::codec::openai_responses::encoder::carried(f, bag, k),
            x,
        ) is None,
        crate::json::get_field(f, x) is None && x == k ==> crate::json::get_field(
            crate::protocol::codec::openai_responses::encoder::carried(f, bag, k),
            x,
        ) == crate::json::get_field(bag, x),
{
    broadcast use crate::json::lemma_fields_put_opt_absent;

    crate::json::lemma_put_opt_absent_distinct(f, k, crate::json::get_field(bag, k));
}

/// A field of the body: what the request says where it says anything; else, but for the fields that
/// the body has of its own, what the client's body said there.
pub proof fn lemma_body_field(req: AiRequestV, x: Seq<char>)
    requires
        crate::protocol::codec::openai_responses::encoder::body_of(req) is Ok,
    ensures
        ({
            let body = crate::protocol::codec::openai_responses::encoder::body_of(req)->Ok_0;
            let known = crate::json::get_field(crate::protocol::codec::openai_responses::encoder::known_fields(req), x);
            &&& body is Object
            &&& crate::json::distinct_names(body->Object_0)
            &&& known is Some ==> body.get(x) == known
            &&& known is None && (x == "messages"@ || x == "input"@ || x == "instructions"@ || x
                == "stream"@ || x == "model"@) ==> body.get(x) is None
            &&& known is None && x != "messages"@ && x != "input"@ && x != "instructions"@ && x
                != "stream"@ && x != "model"@ ==> body.get(x) == crate::json::get_field(
                req.meta.vendor.ingress,
                x,
            )
        }),
{
    lemma_words();
    lemma_distinct(req);
    let bag = req.meta.vendor.ingress;
    let f = crate::protocol::codec::openai_responses::encoder::known_fields(req);
    lemma_carried(f, bag, "background"@, x);
    let f = crate::protocol::codec::openai_responses::encoder::carried(f, bag, "background"@);
    lemma_carried(f, bag, "previous_response_id"@, x);
    let f = crate::protocol::codec::openai_responses::encoder::carried(f, bag, "previous_response_id"@);
    lemma_carried(f, bag, "include"@, x);
    let f = crate::protocol::codec::openai_responses::encoder::carried(f, bag, "include"@);
    lemma_carried(f, bag, "truncation"@, x);
    let f = crate::protocol::codec::openai_responses::encoder::carried(f, bag, "truncation"@);
    lemma_carried(f, bag, "metadata"@, x);
    let f = crate::protocol::codec::openai_responses::encoder::carried(f, bag, "metadata"@);
    lemma_carried(f, bag, "text"@, x);
    let f = crate::protocol::codec::openai_responses::encoder::carried(f, bag, "text"@);
    lemma_carried(f, bag, "reasoning"@, x);
    let f = crate::protocol::codec::openai_responses::encoder::carried(f, bag, "reasoning"@);
    lemma_carried(f, bag, "parallel_tool_calls"@, x);
    let f = crate::protocol::codec::openai_responses::encoder::carried(f, bag, "parallel_tool_calls"@);
    lemma_carried(f, bag, "service_tier"@, x);
    let f = crate::protocol::codec::openai_responses::encoder::carried(f, bag, "service_tier"@);
    lemma_carried(f, bag, "user"@, x);
    let f = crate::protocol::codec::openai_responses::encoder::carried(f, bag, "user"@);
    lemma_rest(f, bag, bag.len(), x);
}

/// What is written of a request is read from the body: the model, that the answer is to be
/// streamed, the sampling, the tools and the choice among them, and all that was said, in order,
/// behind the instructions. Fields that the request does not know are kept as the client sent them.
/// Left out are calls without an identifier or a name, and answers that name no call.
#[verifier::rlimit(40)]
pub proof fn lemma_written_and_read(req: AiRequestV)
    requires
        heard_upto(req.messages, req.messages.len()).len() > 0,
        forall|i: int| 0 <= i < req.messages.len() ==> addressed(#[trigger] req.messages[i]),
        req.tools matches Some(v) ==> v.len() > 0 && forall|i: int|
            0 <= i < v.len() ==> own_tool(#[trigger] v[i]),
        req.tools is None ==> crate::json::get_field(req.meta.vendor.ingress, "tools"@) is None,
        req.generation.temperature is None ==> crate::json::get_field(
            req.meta.vendor.ingress,
            "temperature"@,
        ) is None,
        req.generation.top_p is None ==> crate::json::get_field(
            req.meta.vendor.ingress,
            "top_p"@,
        ) is None,
    ensures
        ({
            let told = told_upto(req.messages, req.messages.len());
            let head = saying(
                Role::System,
                if told.len() == 0 {
                    "You are a helpful assistant."@
                } else {
                    crate::text::join_of(told, "\n\n"@)
                },
            );
            &&& crate::protocol::codec::openai_responses::encoder::body_of(req) is Ok
            &&& crate::protocol::codec::openai_responses::decoder::request_of(crate::protocol::codec::openai_responses::encoder::body_of(req)->Ok_0) is Ok
            &&& ({
                let back = crate::protocol::codec::openai_responses::decoder::request_of(crate::protocol::codec::openai_responses::encoder::body_of(req)->Ok_0)->Ok_0;
                &&& back.model == req.model
                &&& back.stream
                &&& back.temperature == req.generation.temperature
                &&& back.top_p == req.generation.top_p
                &&& (match (back.tools, req.tools) {
                    (Some(a), Some(b)) => a == Seq::new(b.len(), |i: int| declared(b[i])),
                    (None, None) => true,
                    _ => false,
                })
                &&& told.len() == 0 || crate::text::join_of(told, "\n\n"@).len() > 0
                    ==> back.messages == seq![head] + heard_upto(req.messages, req.messages.len())
            })
        }),
{
    broadcast use {
        crate::json::lemma_fields_put,
        crate::json::lemma_fields_put_opt,
        crate::json::lemma_with_get,
    };

    lemma_words();
    let v = req.messages;
    lemma_message_heard(v, v.len(), Seq::empty());
    let items = InputV::of(v, v.len()).items;
    assert(items.len() > 0) by {
        if items.len() == 0 {
            let t = TalkV { messages: Seq::empty(), pending: None, attached: false };
            assert(t.items(items, 0) == Ok::<TalkV, Seq<char>>(t));
            assert(Seq::<InternalMessageV>::empty() + heard_upto(v, v.len()) =~= heard_upto(v, v.len()));
        }
    }
    let body = crate::protocol::codec::openai_responses::encoder::body_of(req)->Ok_0;
    lemma_body_field(req, "model"@);
    lemma_body_field(req, "stream"@);
    lemma_body_field(req, "instructions"@);
    lemma_body_field(req, "input"@);
    lemma_body_field(req, "temperature"@);
    lemma_body_field(req, "top_p"@);
    lemma_body_field(req, "tools"@);
    let told = told_upto(v, v.len());
    let text = crate::protocol::codec::openai_responses::encoder::instructions_of(told);
    assert(body.get("model"@) == Some(JsonV::Text(req.model)));
    assert(body.get("stream"@) == Some(JsonV::Bool(true)));
    assert(body.get("instructions"@) == Some(JsonV::Text(text)));
    assert(body.get("input"@) == Some(JsonV::Array(items)));
    assert(body.get("temperature"@) == JsonV::opt_float(req.generation.temperature));
    assert(body.get("top_p"@) == JsonV::opt_float(req.generation.top_p));
    if let Some(t) = req.tools {
        lemma_tools_read(t, t.len());
        let written = Seq::new(t.len(), |i: int| crate::protocol::codec::openai_responses::encoder::tool_value(t[i]));
        assert(body.get("tools"@) == Some(JsonV::Array(written)));
    } else {
        assert(body.get("tools"@) is None);
    }
    reveal_strlit("You are a helpful assistant.");
    let first = if text.len() > 0 {
        seq![saying(Role::System, text)]
    } else {
        Seq::empty()
    };
    lemma_message_heard(v, v.len(), first);
    let t = TalkV { messages: first, pending: None, attached: false };
    let u = TalkV { messages: first + heard_upto(v, v.len()), ..t };
    assert(t.items(items, items.len()) == Ok::<TalkV, Seq<char>>(u));
    assert(u.flushed().messages == u.messages);
    assert(crate::protocol::codec::openai_responses::decoder::messages_of(body) == Ok::<Seq<InternalMessageV>, Seq<char>>(u.messages));
}

// ---------------------------------------------------------------- what a body says

proof fn lemma_unknown_upto(f: Seq<(Seq<char>, JsonV)>, n: nat, k: Seq<char>)
    requires
        n <= f.len(),
        crate::json::distinct_names(f),
    ensures
        crate::json::get_field(crate::protocol::codec::openai_responses::decoder::unknown_upto(f, n), k) == if crate::protocol::codec::openai_responses::decoder::is_known(k) {
            None
        } else {
            match crate::json::field_pos(f, k, n) {
                Some(i) => Some(f[i].1),
                None => None,
            }
        },
    decreases n,
{
    if n > 0 {
        broadcast use crate::json::lemma_fields_put;

        lemma_unknown_upto(f, (n - 1) as nat, k);
        crate::json::lemma_field_pos(f, k, (n - 1) as nat);
    }
}

/// A body says its model, its limit of tokens and its choice of a tool under the protocol's names;
/// a bare text is what the client says, and fields without a place in the request are kept.
#[verifier::rlimit(40)]
pub proof fn lemma_body_read(body: JsonV, k: Seq<char>)
    requires
        body is Object,
        crate::json::distinct_names(body->Object_0),
        crate::protocol::codec::openai_responses::decoder::request_of(body) is Ok,
    ensures
        ({
            let r = crate::protocol::codec::openai_responses::decoder::request_of(body)->Ok_0;
            &&& body.get("model"@) == Some(JsonV::Text(r.model))
            &&& r.max_tokens == body.opt_count("max_output_tokens"@)
            &&& r.tool_choice == body.get("tool_choice"@)
            &&& body.get("stream"@) is None ==> !r.stream
            &&& body.get_str("input"@) matches Some(t) ==> r.messages.last() == saying(
                Role::User,
                t,
            )
            &&& k == "model"@ || k == "input"@ || k == "instructions"@ || k
                == "max_output_tokens"@ || k == "stream"@ || k == "temperature"@ || k == "top_p"@
                || k == "tools"@ || k == "tool_choice"@ ==> crate::json::get_field(r.extra, k)
                is None
            &&& k != "model"@ && k != "input"@ && k != "instructions"@ && k
                != "max_output_tokens"@ && k != "stream"@ && k != "temperature"@ && k != "top_p"@
                && k != "tools"@ && k != "tool_choice"@ ==> crate::json::get_field(r.extra, k)
                == body.get(k)
        }),
{
    broadcast use crate::json::lemma_fields_put_opt_absent;

    lemma_words();
    let f = body->Object_0;
    lemma_unknown_upto(f, f.len(), k);
}

/// Who speaks, by the name that the protocol gives the role.
pub proof fn lemma_roles(item: JsonV, t: Seq<char>)
    requires
        item.get("type"@) is None || item.get_str("type"@) == Some("message"@),
        item.get("content"@) == Some(JsonV::Text(t)),
    ensures
        ({
            let m = crate::protocol::codec::openai_responses::decoder::item_of(item);
            let is = |role: Role|
                m == Ok::<Option<InternalMessageV>, Seq<char>>(Some(saying(role, t)));
            &&& item.get_str("role"@) == Some("system"@) || item.get_str("role"@) == Some(
                "developer"@,
            ) ==> is(Role::System)
            &&& item.get_str("role"@) == Some("user"@) || item.get("role"@) is None ==> is(Role::User)
            &&& item.get_str("role"@) == Some("assistant"@) ==> is(Role::Assistant)
            &&& item.get_str("role"@) == Some("tool"@) ==> is(Role::Tool)
        }),
{
    lemma_words();
    assert(item is Object);
}

/// Thinking that comes before what the assistant does goes with it, whatever it does; thinking that
/// nothing follows is a message of its own.
pub proof fn lemma_thinking_goes_along(t: TalkV, thought: JsonV, item: JsonV, text: Seq<char>)
    requires
        thought.get_str("type"@) == Some("reasoning"@),
        thought.get_str("reasoning_content"@) == Some(text) || (thought.get("reasoning_content"@)
            is None && thought.get_str("encrypted_content"@) == Some(text)),
        text.len() > 0,
        item.get_str("type"@) != Some("reasoning"@),
        crate::protocol::codec::openai_responses::decoder::item_of(item) is Ok,
        crate::protocol::codec::openai_responses::decoder::item_of(item)->Ok_0 is Some,
        (crate::protocol::codec::openai_responses::decoder::item_of(item)->Ok_0)->0.role == Role::Assistant,
        crate::protocol::codec::openai_responses::decoder::reasoning_of(item) is None,
    ensures
        t.item(thought) is Ok,
        ({
            let u = t.item(thought)->Ok_0;
            let m = (crate::protocol::codec::openai_responses::decoder::item_of(item)->Ok_0)->0;
            &&& u.messages == t.messages
            &&& u.flushed().messages.len() == t.messages.len() + 1
            &&& crate::json::get_field(u.flushed().messages.last().extra, "reasoning_content"@)
                == Some(JsonV::Text(text))
            &&& u.item(item) is Ok
            &&& ({
                let w = u.item(item)->Ok_0;
                &&& w.messages.len() == t.messages.len() + 1
                &&& w.messages.drop_last() == t.messages
                &&& w.messages.last().role == Role::Assistant
                &&& w.messages.last().content == m.content
                &&& w.messages.last().tool_calls == m.tool_calls
                &&& crate::json::get_field(w.messages.last().extra, "reasoning_content"@) == Some(
                    JsonV::Text(text),
                )
                &&& w.flushed().messages == w.messages
            })
        }),
{
    broadcast use crate::json::lemma_fields_put;

    lemma_words();
}

} // verus!
