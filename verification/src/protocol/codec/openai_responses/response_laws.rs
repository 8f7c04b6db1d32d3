//! A whole response that is written and read again.
use vstd::prelude::*;

use crate::json::JsonV;
use crate::protocol::codec::openai_responses::parser::OutputV;
use crate::protocol::types::{InternalResponseV, ResponseItemV, ToolCallV};

verus! {

/// The words of the protocol differ.
proof fn lemma_words()
    ensures
        "id"@.len() == 2,
        "name"@.len() == 4,
        "name"@[1] == 'a',
        "role"@.len() == 4,
        "role"@[1] == 'o',
        "text"@.len() == 4,
        "text"@[1] == 'e',
        "type"@.len() == 4,
        "type"@[1] == 'y',
        "model"@.len() == 5,
        "model"@[0] == 'm',
        "usage"@.len() == 5,
        "usage"@[0] == 'u',
        "object"@.len() == 6,
        "object"@[1] == 'b',
        "output"@.len() == 6,
        "output"@[1] == 'u',
        "status"@.len() == 6,
        "status"@[1] == 't',
        "call_id"@.len() == 7,
        "call_id"@[1] == 'a',
        "content"@.len() == 7,
        "content"@[1] == 'o',
        "message"@.len() == 7,
        "message"@[1] == 'e',
        "summary"@.len() == 7,
        "summary"@[1] == 'u',
        "arguments"@.len() == 9,
        "arguments"@[0] == 'a',
        "completed"@.len() == 9,
        "completed"@[0] == 'c',
        "reasoning"@.len() == 9,
        "reasoning"@[0] == 'r',
        "annotations"@.len() == 11,
        "annotations"@[0] == 'a',
        "output_text"@.len() == 11,
        "output_text"@[0] == 'o',
        "input_tokens"@.len() == 12,
        "input_tokens"@[0] == 'i',
        "summary_text"@.len() == 12,
        "summary_text"@[0] == 's',
        "total_tokens"@.len() == 12,
        "total_tokens"@[0] == 't',
        "function_call"@.len() == 13,
        "function_call"@[0] == 'f',
        "output_tokens"@.len() == 13,
        "output_tokens"@[0] == 'o',
        "server_tool_use"@.len() == 15,
        "input_tokens_details"@.len() == 20,
        "cache_read_input_tokens"@.len() == 23,
        "cache_creation_input_tokens"@.len() == 27,
{
    reveal_strlit("id");
    reveal_strlit("name");
    reveal_strlit("role");
    reveal_strlit("text");
    reveal_strlit("type");
    reveal_strlit("model");
    reveal_strlit("usage");
    reveal_strlit("object");
    reveal_strlit("output");
    reveal_strlit("status");
    reveal_strlit("call_id");
    reveal_strlit("content");
    reveal_strlit("message");
    reveal_strlit("summary");
    reveal_strlit("arguments");
    reveal_strlit("completed");
    reveal_strlit("reasoning");
    reveal_strlit("annotations");
    reveal_strlit("output_text");
    reveal_strlit("input_tokens");
    reveal_strlit("summary_text");
    reveal_strlit("total_tokens");
    reveal_strlit("function_call");
    reveal_strlit("output_tokens");
    reveal_strlit("server_tool_use");
    reveal_strlit("input_tokens_details");
    reveal_strlit("cache_read_input_tokens");
    reveal_strlit("cache_creation_input_tokens");
}

/// The calls among the first `n` items.
pub open spec fn calls_in(items: Seq<ResponseItemV>, n: nat) -> Seq<ToolCallV>
    decreases n,
{
    if n == 0 {
        Seq::empty()
    } else {
        match items[n - 1] {
            ResponseItemV::FunctionCall { call_id, name, arguments } => calls_in(
                items,
                (n - 1) as nat,
            ).push(ToolCallV { id: call_id, name, arguments }),
            _ => calls_in(items, (n - 1) as nat),
        }
    }
}

/// The texts among the first `n` items, one behind the other.
pub open spec fn texts_in(items: Seq<ResponseItemV>, n: nat) -> Seq<char>
    decreases n,
{
    if n == 0 {
        Seq::empty()
    } else {
        match items[n - 1] {
            ResponseItemV::Message { text } => texts_in(items, (n - 1) as nat) + text,
            _ => texts_in(items, (n - 1) as nat),
        }
    }
}

/// Whether every call among the items has an identifier and a name.
pub open spec fn calls_named(items: Seq<ResponseItemV>) -> bool {
    forall|i: int|
        0 <= i < items.len() ==> match #[trigger] items[i] {
            ResponseItemV::FunctionCall { call_id, name, .. } => call_id.len() > 0 && name.len() > 0,
            _ => true,
        }
}

proof fn lemma_output_read(items: Seq<ResponseItemV>, fresh: Seq<Seq<char>>, n: nat)
    requires
        n <= items.len(),
        calls_named(items),
    ensures
        ({
            let out = crate::protocol::codec::openai_responses::formatter::output_upto(
                items,
                fresh,
                n,
            );
            OutputV::of(out, out.len()) == (OutputV {
                content: Seq::empty(),
                calls: calls_in(items, n),
            })
        }),
    decreases n,
{
    if n > 0 {
        broadcast use crate::json::lemma_with_get;

        lemma_words();
        let m = (n - 1) as nat;
        lemma_output_read(items, fresh, m);
        let before = crate::protocol::codec::openai_responses::formatter::output_upto(
            items,
            fresh,
            m,
        );
        let out = crate::protocol::codec::openai_responses::formatter::output_upto(items, fresh, n);
        if out.len() > before.len() {
            assert(out.drop_last() =~= before);
            lemma_of_prefix(out, before, before.len());
        }
        let i = items[m as int];
        if let ResponseItemV::FunctionCall { call_id, name, arguments } = i {
            let v = out.last();
            assert(v.get_str("call_id"@) == Some(call_id));
            assert(v.get_str("name"@) == Some(name));
            assert(v.get_str("arguments"@) == Some(arguments));
            assert(v.get_str("type"@) == Some("function_call"@));
        } else if let ResponseItemV::Reasoning { text } = i {
            assert(out.last().get_str("type"@) == Some("reasoning"@));
        }
    }
}

proof fn lemma_of_prefix(a: Seq<JsonV>, b: Seq<JsonV>, n: nat)
    requires
        n <= a.len(),
        n <= b.len(),
        forall|i: int| 0 <= i < n ==> a[i] == b[i],
    ensures
        OutputV::of(a, n) == OutputV::of(b, n),
    decreases n,
{
    if n > 0 {
        lemma_of_prefix(a, b, (n - 1) as nat);
    }
}

proof fn lemma_text_is(items: Seq<ResponseItemV>, n: nat)
    ensures
        crate::protocol::codec::openai_responses::formatter::text_upto(items, n) == texts_in(
            items,
            n,
        ),
    decreases n,
{
    if n > 0 {
        lemma_text_is(items, (n - 1) as nat);
    }
}

/// A response that is written and read again says the same: its calls with their identifiers,
/// names and arguments in order, its text, its model and its token counts.
pub proof fn lemma_written_and_read(resp: InternalResponseV, fresh: Seq<Seq<char>>)
    requires
        match resp.response_items {
            Some(v) => calls_named(v),
            None => forall|i: int|
                0 <= i < resp.tool_calls.len() ==> (#[trigger] resp.tool_calls[i]).id.len() > 0
                    && resp.tool_calls[i].name.len() > 0,
        },
    ensures
        ({
            let back = crate::protocol::codec::openai_responses::parser::response_of(
                crate::protocol::codec::openai_responses::formatter::response_value(resp, fresh),
            );
            &&& resp.id.len() > 0 ==> back.id == resp.id
            &&& resp.id.len() == 0 ==> back.id == "resp_"@ + fresh[0]
            &&& back.model == resp.model
            &&& match resp.response_items {
                Some(v) => back.tool_calls == calls_in(v, v.len()) && back.content == texts_in(
                    v,
                    v.len(),
                ),
                None => back.tool_calls == resp.tool_calls && back.content == resp.content,
            }
            &&& back.stop_reason == Some("completed"@)
            &&& back.usage.prompt_tokens == resp.usage.input_tokens
            &&& back.usage.completion_tokens == resp.usage.output_tokens
        }),
{
    broadcast use crate::json::lemma_with_get;

    lemma_words();
    let items = crate::protocol::codec::openai_responses::formatter::items_of(resp);
    if resp.response_items is None {
        lemma_plain_items(resp);
    }
    let text = crate::protocol::codec::openai_responses::formatter::text_upto(items, items.len());
    lemma_text_is(items, items.len());
    let output = crate::protocol::codec::openai_responses::formatter::output_upto(
        items,
        fresh.skip(2),
        items.len(),
    );
    lemma_output_read(items, fresh.skip(2), items.len());
    let whole = crate::protocol::codec::openai_responses::formatter::response_value(resp, fresh);
    let usage = crate::protocol::codec::openai_responses::formatter::usage_value(resp.usage);
    assert(whole.get("usage"@) == Some(usage));
    assert(usage.get_u64("input_tokens"@) == Some(resp.usage.input_tokens as u64));
    assert(usage.get_u64("output_tokens"@) == Some(resp.usage.output_tokens as u64));
    if text.len() > 0 {
        let msg = crate::protocol::codec::openai_responses::formatter::message_value(
            "msg_"@ + fresh[1],
            text,
        );
        let all = output.push(msg);
        assert(whole.get("output"@) == Some(JsonV::Array(all)));
        assert(all.drop_last() =~= output);
        lemma_of_prefix(all, output, output.len());
        let part = crate::protocol::codec::openai_responses::formatter::part_value(text);
        assert(part.get_str("text"@) == Some(text) && part.get_str("type"@) == Some(
            "output_text"@,
        ));
        let parts = seq![part];
        assert(msg.get("content"@) == Some(JsonV::Array(parts)));
        assert(parts.len() == 1 && parts[0] == part);
        assert(crate::protocol::codec::openai_responses::parser::blocks_text(parts, 0).len() == 0);
        assert(crate::protocol::codec::openai_responses::parser::blocks_text(parts, 1)
            =~= text);
        assert(msg.get_str("type"@) == Some("message"@));
        assert(Seq::<char>::empty() + text =~= text);
        assert(OutputV::of(all, all.len()).content =~= text);
    } else {
        assert(whole.get("output"@) == Some(JsonV::Array(output)));
        assert(text =~= Seq::<char>::empty());
    }
}

proof fn lemma_plain_items(resp: InternalResponseV)
    requires
        resp.response_items is None,
    ensures
        ({
            let items = crate::protocol::codec::openai_responses::formatter::items_of(resp);
            &&& calls_in(items, items.len()) == resp.tool_calls
            &&& texts_in(items, items.len()) == resp.content
            &&& (forall|i: int|
                0 <= i < resp.tool_calls.len() ==> (#[trigger] resp.tool_calls[i]).id.len() > 0
                    && resp.tool_calls[i].name.len() > 0) ==> calls_named(items)
        }),
{
    let items = crate::protocol::codec::openai_responses::formatter::items_of(resp);
    let head: nat = if resp.reasoning_content is Some {
        1
    } else {
        0
    };
    let n = resp.tool_calls.len();
    assert(items.len() == head + n + 1);
    if head == 1 {
        assert(calls_in(items, 1) =~= calls_in(items, 0));
        assert(texts_in(items, 1) =~= texts_in(items, 0));
    }
    lemma_plain_upto(resp, n);
    assert(resp.tool_calls.take(n as int) =~= resp.tool_calls);
    assert(items[(head + n) as int] == (ResponseItemV::Message { text: resp.content }));
    assert(Seq::<char>::empty() + resp.content =~= resp.content);
    if forall|i: int|
        0 <= i < resp.tool_calls.len() ==> (#[trigger] resp.tool_calls[i]).id.len() > 0
            && resp.tool_calls[i].name.len() > 0 {
        assert forall|i: int| 0 <= i < items.len() implies match #[trigger] items[i] {
            ResponseItemV::FunctionCall { call_id, name, .. } => call_id.len() > 0 && name.len() > 0,
            _ => true,
        } by {
            if head <= i < head + n {
                let c = resp.tool_calls[i - head];
            }
        }
    }
}

proof fn lemma_plain_upto(resp: InternalResponseV, k: nat)
    requires
        resp.response_items is None,
        k <= resp.tool_calls.len(),
    ensures
        ({
            let items = crate::protocol::codec::openai_responses::formatter::items_of(resp);
            let head: nat = if resp.reasoning_content is Some {
                1
            } else {
                0
            };
            &&& calls_in(items, head + k) == resp.tool_calls.take(k as int)
            &&& texts_in(items, head + k) == Seq::<char>::empty()
        }),
    decreases k,
{
    let items = crate::protocol::codec::openai_responses::formatter::items_of(resp);
    let head: nat = if resp.reasoning_content is Some {
        1
    } else {
        0
    };
    if k == 0 {
        assert(resp.tool_calls.take(0) =~= Seq::empty());
        if head == 1 {
            assert(calls_in(items, 1) == calls_in(items, 0));
            assert(texts_in(items, 1) == texts_in(items, 0));
        }
    } else {
        lemma_plain_upto(resp, (k - 1) as nat);
        let c = resp.tool_calls[k - 1];
        assert(items[head + k - 1]
            == crate::protocol::codec::openai_responses::formatter::call_item(c));
        assert(resp.tool_calls.take(k as int) =~= resp.tool_calls.take(k - 1).push(c));
    }
}

/// A call behind others in the output is read behind them: the item's own identifier, name and
/// arguments, and nothing else changes.
pub proof fn lemma_call_read(
    resp: JsonV,
    v: Seq<JsonV>,
    item: JsonV,
    id: Seq<char>,
    name: Seq<char>,
    arguments: Seq<char>,
)
    requires
        resp is Object,
        id.len() > 0,
        name.len() > 0,
        item.get_str("type"@) == Some("function_call"@),
        item.get_str("call_id"@) == Some(id),
        item.get_str("name"@) == Some(name),
        item.get_str("arguments"@) == Some(arguments),
    ensures
        ({
            let before = crate::protocol::codec::openai_responses::parser::response_of(
                resp.with("output"@, JsonV::Array(v)),
            );
            let after = crate::protocol::codec::openai_responses::parser::response_of(
                resp.with("output"@, JsonV::Array(v.push(item))),
            );
            &&& after.tool_calls == before.tool_calls.push(ToolCallV { id, name, arguments })
            &&& after.content == before.content
            &&& after.id == before.id
            &&& after.model == before.model
            &&& after.stop_reason == before.stop_reason
            &&& after.usage == before.usage
        }),
{
    broadcast use crate::json::lemma_with_get;

    lemma_words();
    let w = v.push(item);
    assert(w.drop_last() =~= v);
    lemma_of_prefix(w, v, v.len());
}

} // verus!
