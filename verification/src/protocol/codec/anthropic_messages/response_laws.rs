//! A whole response that is written and read again.
use vstd::prelude::*;

use crate::json::JsonV;
use crate::protocol::codec::anthropic_messages::stream::BlocksV;
use crate::protocol::types::{InternalResponseV, ToolCallV};

verus! {

/// The words of the protocol differ.
proof fn lemma_words()
    ensures
        "id"@.len() == 2,
        "name"@.len() == 4,
        "name"@[1] == 'a',
        "role"@.len() == 4,
        "role"@[1] == 'o',
        "stop"@.len() == 4,
        "stop"@[1] == 't',
        "text"@.len() == 4,
        "text"@[1] == 'e',
        "type"@.len() == 4,
        "type"@[1] == 'y',
        "input"@.len() == 5,
        "input"@[0] == 'i',
        "model"@.len() == 5,
        "model"@[0] == 'm',
        "usage"@.len() == 5,
        "usage"@[0] == 'u',
        "content"@.len() == 7,
        "content"@[0] == 'c',
        "message"@.len() == 7,
        "message"@[0] == 'm',
        "end_turn"@.len() == 8,
        "end_turn"@[1] == 'n',
        "thinking"@.len() == 8,
        "thinking"@[1] == 'h',
        "tool_use"@.len() == 8,
        "tool_use"@[1] == 'o',
        "assistant"@.len() == 9,
        "assistant"@[0] == 'a',
        "signature"@.len() == 9,
        "signature"@[0] == 's',
        "tool_calls"@.len() == 10,
        "stop_reason"@.len() == 11,
        "input_tokens"@.len() == 12,
        "output_tokens"@.len() == 13,
        "server_tool_use"@.len() == 15,
        "web_fetch_requests"@.len() == 18,
        "web_search_requests"@.len() == 19,
        "cache_read_input_tokens"@.len() == 23,
        "cache_creation_input_tokens"@.len() == 27,
{
    reveal_strlit("id");
    reveal_strlit("name");
    reveal_strlit("role");
    reveal_strlit("stop");
    reveal_strlit("text");
    reveal_strlit("type");
    reveal_strlit("input");
    reveal_strlit("model");
    reveal_strlit("usage");
    reveal_strlit("content");
    reveal_strlit("message");
    reveal_strlit("end_turn");
    reveal_strlit("thinking");
    reveal_strlit("tool_use");
    reveal_strlit("assistant");
    reveal_strlit("signature");
    reveal_strlit("tool_calls");
    reveal_strlit("stop_reason");
    reveal_strlit("input_tokens");
    reveal_strlit("output_tokens");
    reveal_strlit("server_tool_use");
    reveal_strlit("web_fetch_requests");
    reveal_strlit("web_search_requests");
    reveal_strlit("cache_read_input_tokens");
    reveal_strlit("cache_creation_input_tokens");
}

proof fn lemma_of_prefix(a: Seq<JsonV>, b: Seq<JsonV>, n: nat)
    requires
        n <= a.len(),
        n <= b.len(),
        forall|i: int| 0 <= i < n ==> a[i] == b[i],
    ensures
        BlocksV::of(a, n) == BlocksV::of(b, n),
    decreases n,
{
    if n > 0 {
        lemma_of_prefix(a, b, (n - 1) as nat);
    }
}

/// A call as it is read back: its arguments are written anew.
pub open spec fn read_back(c: ToolCallV) -> ToolCallV {
    ToolCallV {
        arguments: crate::json::text_of(JsonV::read_or_object(c.arguments)),
        ..c
    }
}

proof fn lemma_calls_read(resp: InternalResponseV, n: nat)
    requires
        n <= resp.tool_calls.len(),
    ensures
        ({
            let v = crate::protocol::codec::anthropic_messages::stream::response_blocks(resp, n);
            let head = crate::protocol::codec::anthropic_messages::stream::leading_blocks(resp);
            let b = BlocksV::of(v, v.len());
            let h = BlocksV::of(head, head.len());
            &&& v.len() == head.len() + n
            &&& b.text == h.text
            &&& b.thinking == h.thinking
            &&& b.signatures == h.signatures
            &&& b.calls == h.calls + Seq::new(n, |i: int| read_back(resp.tool_calls[i]))
        }),
    decreases n,
{
    let head = crate::protocol::codec::anthropic_messages::stream::leading_blocks(resp);
    let h = BlocksV::of(head, head.len());
    if n == 0 {
        assert(h.calls + Seq::<ToolCallV>::empty() =~= h.calls);
        assert(Seq::new(0, |i: int| read_back(resp.tool_calls[i])) =~= Seq::<ToolCallV>::empty());
    } else {
        broadcast use crate::json::lemma_with_get;

        lemma_words();
        lemma_calls_read(resp, (n - 1) as nat);
        let w = crate::protocol::codec::anthropic_messages::stream::response_blocks(
            resp,
            (n - 1) as nat,
        );
        let v = crate::protocol::codec::anthropic_messages::stream::response_blocks(resp, n);
        lemma_of_prefix(v, w, w.len());
        let c = resp.tool_calls[n - 1];
        let block = v.last();
        assert(block.get_str("type"@) == Some("tool_use"@));
        assert(block.get_str("id"@) == Some(c.id));
        assert(block.get_str("name"@) == Some(c.name));
        assert(block.get("input"@) == Some(JsonV::read_or_object(c.arguments)));
        assert(BlocksV::of(v, v.len()).calls =~= h.calls + Seq::new(
            n,
            |i: int| read_back(resp.tool_calls[i]),
        ));
    }
}

/// A response that is written and read again says the same: its text, its thinking without the
/// white space around it, its calls in order with their identifiers, names and inputs, why it
/// ended, and all token counts.
pub proof fn lemma_written_and_read(resp: InternalResponseV)
    ensures
        ({
            let out = crate::protocol::codec::anthropic_messages::stream::response_json(resp);
            let back = crate::protocol::codec::anthropic_messages::stream::response_of(out);
            &&& back.id == resp.id
            &&& back.model == resp.model
            &&& back.content == resp.content
            &&& back.reasoning_content == crate::text::trimmed(resp.reasoning_content)
            &&& back.reasoning_content is Some ==> back.reasoning_signature == crate::text::trimmed(
                resp.reasoning_signature,
            )
            &&& back.tool_calls == Seq::new(
                resp.tool_calls.len(),
                |i: int| read_back(resp.tool_calls[i]),
            )
            &&& back.usage == resp.usage
            &&& out.get_str("type"@) == Some("message"@)
            &&& out.get_str("role"@) == Some("assistant"@)
            &&& resp.stop_reason is None ==> back.stop_reason is None
            &&& resp.stop_reason matches Some(r) ==> {
                &&& r != "end_turn"@ && r != "tool_use"@ ==> back.stop_reason == Some(r)
                &&& r == "stop"@ ==> out.get_str("stop_reason"@) == Some("end_turn"@)
                &&& r == "tool_calls"@ ==> out.get_str("stop_reason"@) == Some("tool_use"@)
                &&& r != "stop"@ && r != "tool_calls"@ ==> out.get_str("stop_reason"@) == Some(r)
            }
        }),
{
    broadcast use crate::json::lemma_with_get;

    lemma_words();
    reveal_with_fuel(BlocksV::of, 3);
    reveal_with_fuel(crate::text::join_upto, 2);
    let out = crate::protocol::codec::anthropic_messages::stream::response_json(resp);
    let v = crate::protocol::codec::anthropic_messages::stream::response_blocks(
        resp,
        resp.tool_calls.len(),
    );
    assert(out.get("content"@) == Some(JsonV::Array(v)));
    lemma_calls_read(resp, resp.tool_calls.len());
    let head = crate::protocol::codec::anthropic_messages::stream::leading_blocks(resp);
    let h = BlocksV::of(head, head.len());
    let text = crate::protocol::codec::anthropic_messages::stream::text_block(resp.content);
    assert(text.get_str("type"@) == Some("text"@) && text.get_str("text"@) == Some(resp.content));
    assert(Seq::<char>::empty() + resp.content =~= resp.content);
    if let Some(t) = crate::text::trimmed(resp.reasoning_content) {
        let b = crate::protocol::codec::anthropic_messages::stream::thinking_block(t);
        let s = match crate::text::trimmed(resp.reasoning_signature) {
            Some(s) => b.with("signature"@, JsonV::Text(s)),
            None => b,
        };
        assert(head[0] == s);
        assert(s.get_str("type"@) == Some("thinking"@));
        assert(s.filled("thinking"@) == Some(t));
        assert(s.filled("signature"@) == crate::text::trimmed(resp.reasoning_signature));
        assert(BlocksV::of(head, 1) == BlocksV::none().add_block(s));
        assert(h.thinking =~= seq![t]);
        assert(crate::text::join_of(seq![t], "\n"@) =~= t);
        if let Some(g) = crate::text::trimmed(resp.reasoning_signature) {
            assert(h.signatures =~= seq![g]);
            assert(crate::text::join_of(seq![g], "\n"@) =~= g);
        }
        if resp.content.len() > 0 {
            assert(head[1] == text);
        } else {
            assert(resp.content =~= Seq::<char>::empty());
        }
    } else {
        if resp.content.len() > 0 {
            assert(head[0] == text);
        } else {
            assert(resp.content =~= Seq::<char>::empty());
        }
    }
    assert(h.calls =~= Seq::<ToolCallV>::empty());
    assert(Seq::<ToolCallV>::empty() + Seq::new(
        resp.tool_calls.len(),
        |i: int| read_back(resp.tool_calls[i]),
    ) =~= Seq::new(resp.tool_calls.len(), |i: int| read_back(resp.tool_calls[i])));
    assert(h.text =~= resp.content);
    let u = resp.usage;
    let usage = out.get("usage"@)->0;
    assert(usage.get_u64("input_tokens"@) == Some(u.input_tokens as u64));
    assert(usage.get_u64("output_tokens"@) == Some(u.output_tokens as u64));
    assert(usage.opt_count("cache_read_input_tokens"@) == u.cache_read_input_tokens);
    assert(usage.opt_count("cache_creation_input_tokens"@) == u.cache_creation_input_tokens);
    if let Some(s) = u.server_tool_use {
        let j = usage.get("server_tool_use"@)->0;
        assert(j.get_u64("web_search_requests"@) == Some(s.web_search_requests as u64));
        assert(j.get_u64("web_fetch_requests"@) == Some(s.web_fetch_requests as u64));
    } else {
        assert(usage.get("server_tool_use"@) is None);
    }
}

/// A block behind others is read behind them: a text adds to the text, a call is one call more, with
/// its identifier, its name and its input; nothing else changes.
pub proof fn lemma_block_read(resp: JsonV, v: Seq<JsonV>, block: JsonV)
    requires
        resp is Object,
    ensures
        ({
            let before = crate::protocol::codec::anthropic_messages::stream::response_of(
                resp.with("content"@, JsonV::Array(v)),
            );
            let after = crate::protocol::codec::anthropic_messages::stream::response_of(
                resp.with("content"@, JsonV::Array(v.push(block))),
            );
            &&& block.get_str("type"@) == Some("text"@) && block.get_str("text"@) is Some
                ==> after.content == before.content + block.get_str("text"@)->0 && after.tool_calls
                == before.tool_calls && after.reasoning_content == before.reasoning_content
            &&& block.get_str("type"@) == Some("tool_use"@) && block.get_str("id"@) is Some
                && block.get_str("name"@) is Some && block.get("input"@) is Some
                ==> after.tool_calls == before.tool_calls.push(
                ToolCallV {
                    id: block.get_str("id"@)->0,
                    name: block.get_str("name"@)->0,
                    arguments: crate::json::text_of(block.get("input"@)->0),
                },
            ) && after.content == before.content && after.reasoning_content
                == before.reasoning_content
            &&& block.get_str("type"@) == Some("thinking"@) && before.reasoning_content is None
                && block.filled("thinking"@) is Some ==> after.reasoning_content == block.get_str(
                "thinking"@,
            ) && after.content == before.content && after.tool_calls == before.tool_calls
            &&& after.id == before.id && after.model == before.model && after.stop_reason
                == before.stop_reason && after.usage == before.usage
        }),
{
    broadcast use crate::json::lemma_with_get;

    lemma_words();
    reveal_with_fuel(crate::text::join_upto, 2);
    let w = v.push(block);
    lemma_of_prefix(w, v, v.len());
    let b = BlocksV::of(v, v.len());
    if let Some(t) = block.filled("thinking"@) {
        if b.thinking.len() == 0 {
            assert(b.thinking.push(t) =~= seq![t]);
            assert(crate::text::join_of(seq![t], "\n"@) =~= t);
        }
    }
}

} // verus!
