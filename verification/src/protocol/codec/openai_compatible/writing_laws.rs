//! What is written is read again: whole responses, and the chunks of a stream.
use vstd::prelude::*;

use crate::json::JsonV;
use crate::protocol::codec::openai_compatible::stream::{FormatterV, ModeV, ReadV, WrittenV};
use crate::protocol::ir::response::AiResponseV;
use crate::protocol::ir::stream::DeltaV;
use crate::protocol::ir::usage::Usage;
use crate::protocol::types::ToolCallV;
use crate::protocol::SseV;

verus! {

/// The words of the protocol differ.
proof fn lemma_words()
    ensures
        "id"@.len() == 2,
        "name"@.len() == 4,
        "name"@[0] == 'n',
        "role"@.len() == 4,
        "role"@[0] == 'r',
        "type"@.len() == 4,
        "type"@[0] == 't',
        "delta"@.len() == 5,
        "delta"@[0] == 'd',
        "index"@.len() == 5,
        "index"@[0] == 'i',
        "model"@.len() == 5,
        "model"@[0] == 'm',
        "usage"@.len() == 5,
        "usage"@[0] == 'u',
        "object"@.len() == 6,
        "choices"@.len() == 7,
        "choices"@[1] == 'h',
        "content"@.len() == 7,
        "content"@[1] == 'o',
        "message"@.len() == 7,
        "message"@[1] == 'e',
        "function"@.len() == 8,
        "arguments"@.len() == 9,
        "arguments"@[1] == 'r',
        "assistant"@.len() == 9,
        "assistant"@[1] == 's',
        "reasoning"@.len() == 9,
        "reasoning"@[1] == 'e',
        "tool_calls"@.len() == 10,
        "input_tokens"@.len() == 12,
        "input_tokens"@[0] == 'i',
        "total_tokens"@.len() == 12,
        "total_tokens"@[0] == 't',
        "finish_reason"@.len() == 13,
        "finish_reason"@[0] == 'f',
        "output_tokens"@.len() == 13,
        "output_tokens"@[0] == 'o',
        "prompt_tokens"@.len() == 13,
        "prompt_tokens"@[0] == 'p',
        "usageMetadata"@.len() == 13,
        "usageMetadata"@[0] == 'u',
        "inputTokenCount"@.len() == 15,
        "outputTokenCount"@.len() == 16,
        "outputTokenCount"@[0] == 'o',
        "promptTokenCount"@.len() == 16,
        "promptTokenCount"@[0] == 'p',
        "completion_tokens"@.len() == 17,
        "completion_tokens"@[10] == '_',
        "reasoning_content"@.len() == 17,
        "reasoning_content"@[10] == 'c',
        "reasoning_details"@.len() == 17,
        "reasoning_details"@[10] == 'd',
        "candidatesTokenCount"@.len() == 20,
        "prompt_tokens_details"@.len() == 21,
        "prompt_cache_hit_tokens"@.len() == 23,
        "cached_content_token_count"@.len() == 26,
{
    reveal_strlit("id");
    reveal_strlit("name");
    reveal_strlit("role");
    reveal_strlit("type");
    reveal_strlit("delta");
    reveal_strlit("index");
    reveal_strlit("model");
    reveal_strlit("usage");
    reveal_strlit("object");
    reveal_strlit("choices");
    reveal_strlit("content");
    reveal_strlit("message");
    reveal_strlit("function");
    reveal_strlit("arguments");
    reveal_strlit("assistant");
    reveal_strlit("reasoning");
    reveal_strlit("tool_calls");
    reveal_strlit("input_tokens");
    reveal_strlit("total_tokens");
    reveal_strlit("finish_reason");
    reveal_strlit("output_tokens");
    reveal_strlit("prompt_tokens");
    reveal_strlit("usageMetadata");
    reveal_strlit("inputTokenCount");
    reveal_strlit("outputTokenCount");
    reveal_strlit("promptTokenCount");
    reveal_strlit("completion_tokens");
    reveal_strlit("reasoning_content");
    reveal_strlit("reasoning_details");
    reveal_strlit("candidatesTokenCount");
    reveal_strlit("prompt_tokens_details");
    reveal_strlit("prompt_cache_hit_tokens");
    reveal_strlit("cached_content_token_count");
}

// ---------------------------------------------------------------- whole responses

proof fn lemma_calls_read(calls: Seq<ToolCallV>, n: nat)
    requires
        n <= calls.len(),
    ensures
        crate::protocol::codec::openai_compatible::stream::calls_upto(
            crate::protocol::codec::openai_compatible::encoder::calls_value(calls)->Array_0,
            n,
        ) == calls.take(n as int),
    decreases n,
{
    if n == 0 {
        assert(calls.take(0) =~= Seq::empty());
    } else {
        broadcast use crate::json::lemma_with_get;

        lemma_words();
        lemma_calls_read(calls, (n - 1) as nat);
        let c = calls[n - 1];
        let v = crate::protocol::codec::openai_compatible::encoder::call_value(c);
        let f = v.get("function"@)->0;
        assert(f.get_str("name"@) == Some(c.name));
        assert(f.get_str("arguments"@) == Some(c.arguments));
        assert(v.get_str("id"@) == Some(c.id));
        assert(calls.take(n as int) =~= calls.take(n - 1).push(c));
    }
}

proof fn lemma_usage_read(u: Usage, v: JsonV)
    requires
        v.get("usage"@) == Some(
            crate::protocol::codec::openai_compatible::stream::usage_value(u),
        ),
    ensures
        crate::protocol::codec::openai_compatible::stream::usage_of(v).prompt_tokens
            == u.prompt_tokens,
        crate::protocol::codec::openai_compatible::stream::usage_of(v).completion_tokens
            == u.completion_tokens,
{
    broadcast use crate::json::lemma_with_get;

    lemma_words();
    let j = crate::protocol::codec::openai_compatible::stream::usage_value(u);
    assert(j.get_u64("prompt_tokens"@) == Some(u.prompt_tokens as u64));
    assert(j.get_u64("completion_tokens"@) == Some(u.completion_tokens as u64));
}

/// A response that is written and read again says the same: its text, its thinking, its calls in
/// order with identifiers, names and arguments, and its token counts. It ended for its calls where
/// it has any, else for its own reason.
pub proof fn lemma_written_and_read(resp: AiResponseV)
    ensures
        ({
            let out = crate::protocol::codec::openai_compatible::stream::response_value(resp);
            let back = crate::protocol::codec::openai_compatible::stream::response_of(out);
            &&& back.id == resp.id
            &&& back.model == resp.model
            &&& back.content == resp.content
            &&& back.reasoning_content == resp.reasoning_content
            &&& back.tool_calls == resp.tool_calls
            &&& back.stop_reason == if resp.tool_calls.len() > 0 {
                Some("tool_calls"@)
            } else {
                resp.stop_reason
            }
            &&& back.usage.prompt_tokens == resp.usage.prompt_tokens
            &&& back.usage.completion_tokens == resp.usage.completion_tokens
            &&& out.get2("usage"@, "total_tokens"@) == Some(
                JsonV::num((resp.usage.prompt_tokens + resp.usage.completion_tokens) as u64),
            )
        }),
{
    broadcast use crate::json::lemma_with_get;

    lemma_words();
    let out = crate::protocol::codec::openai_compatible::stream::response_value(resp);
    let choices = out.get("choices"@)->0->Array_0;
    let choice = choices[0];
    assert(crate::protocol::codec::openai_compatible::stream::choice_of(out) == Some(choice));
    let m = choice.get("message"@)->0;
    assert(m.get_str("content"@) == Some(resp.content));
    assert(m.get_str("reasoning_content"@) == resp.reasoning_content);
    assert(m.get("reasoning"@) is None && m.get("reasoning_details"@) is None);
    lemma_calls_read(resp.tool_calls, resp.tool_calls.len());
    assert(resp.tool_calls.take(resp.tool_calls.len() as int) =~= resp.tool_calls);
    if resp.tool_calls.len() == 0 {
        assert(resp.tool_calls =~= Seq::empty());
        assert(m.get("tool_calls"@) is None);
    }
    lemma_usage_read(resp.usage, out);
}

// ---------------------------------------------------------------- chunks

/// An event with a chunk.
pub open spec fn chunk_event(chunk: JsonV) -> SseV {
    SseV { event: None, data: crate::json::text_of(chunk) }
}

/// Every delta is written as one chunk that is read as just that delta: the beginning with its
/// identifier and model, text, thinking, the beginning of a call, and each piece of its arguments.
pub proof fn lemma_delta_read(w: WrittenV, d: DeltaV, r: ReadV)
    requires
        d is MessageStart || d is TextDelta || d is ThinkingDelta || d is ToolCallStart || d
            is ToolCallDelta,
        d is MessageStart || r.mode.started,
    ensures
        exists|chunk: JsonV|
            {
                &&& w.step(d).events == w.events.push(#[trigger] chunk_event(chunk))
                &&& match d {
                    DeltaV::MessageStart { .. } => !r.mode.started ==> r.chunk(chunk).deltas
                        == r.deltas.push(d) && r.chunk(chunk).mode.started,
                    DeltaV::TextDelta(t) => r.chunk(chunk) == r.text(t),
                    DeltaV::ThinkingDelta(t) => t.len() > 0 ==> r.chunk(chunk).deltas
                        == r.deltas.push(d),
                    DeltaV::ToolCallStart { .. } => r.chunk(chunk).deltas == r.deltas.push(d),
                    DeltaV::ToolCallDelta { arguments, .. } => arguments.len() > 0 ==> r.chunk(
                        chunk,
                    ).deltas == r.deltas.push(d),
                    _ => true,
                }
            },
{
    broadcast use crate::json::lemma_with_get;

    lemma_words();
    reveal_with_fuel(ReadV::calls, 2);
    reveal_strlit("");
    let v = w.step(d);
    let delta = match d {
        DeltaV::MessageStart { .. } => JsonV::obj().with("role"@, JsonV::Text("assistant"@)),
        DeltaV::ThinkingDelta(t) => JsonV::obj().with("reasoning_content"@, JsonV::Text(t)),
        DeltaV::TextDelta(t) => JsonV::obj().with("content"@, JsonV::Text(t)),
        DeltaV::ToolCallStart { index, id, name } =>
            crate::protocol::codec::openai_compatible::stream::call_delta(
            crate::protocol::codec::openai_compatible::stream::call_begin(index, id, name),
        ),
        DeltaV::ToolCallDelta { index, arguments } =>
            crate::protocol::codec::openai_compatible::stream::call_delta(
            crate::protocol::codec::openai_compatible::stream::call_more(index, arguments),
        ),
        _ => JsonV::Null,
    };
    let chunk = crate::protocol::codec::openai_compatible::stream::chunk_value(
        v.state.id,
        v.state.model,
        delta,
        JsonV::Null,
    );
    assert(v.events == w.events.push(chunk_event(chunk)));
    assert(chunk.get_str("id"@) == Some(v.state.id));
    assert(chunk.get_str("model"@) == Some(v.state.model));
    let choice = (chunk.get("choices"@)->0)->Array_0[0];
    assert(crate::protocol::codec::openai_compatible::stream::choice_of(chunk) == Some(choice));
    assert(choice.get("delta"@) == Some(delta));
    assert(choice.filled("finish_reason"@) is None);
    assert(chunk.get("usage"@) is None && chunk.get("usageMetadata"@) is None);
    assert(delta.get("reasoning"@) is None && delta.get("reasoning_details"@) is None);
    match d {
        DeltaV::ToolCallStart { index, id, name } => {
            let calls = delta.get("tool_calls"@)->0->Array_0;
            let tc = calls[0];
            assert(tc.get_u64("index"@) == Some(index as u64));
            assert(tc.get_str("id"@) == Some(id));
            let f = tc.get("function"@)->0;
            assert(f.get_str("name"@) == Some(name));
            assert(f.filled("arguments"@) is None);
            assert(calls.len() == 1);
        },
        DeltaV::ToolCallDelta { index, arguments } => {
            let calls = delta.get("tool_calls"@)->0->Array_0;
            let tc = calls[0];
            assert(tc.get_u64("index"@) == Some(index as u64));
            let f = tc.get("function"@)->0;
            assert(f.get_str("name"@) is None);
            assert(f.get_str("arguments"@) == Some(arguments));
            assert(calls.len() == 1);
        },
        _ => {},
    }
}

/// Whether the first `n` deltas hold a piece of a call.
pub open spec fn calls_tools(deltas: Seq<DeltaV>, n: nat) -> bool {
    exists|i: int|
        0 <= i < n && ((#[trigger] deltas[i]) is ToolCallStart || deltas[i] is ToolCallDelta)
}

/// The token counts that the first `n` deltas give last.
pub open spec fn counts_of(deltas: Seq<DeltaV>, n: nat) -> Usage
    decreases n,
{
    if n == 0 {
        Usage::zero()
    } else {
        match deltas[n - 1] {
            DeltaV::Usage(u) => u,
            _ => counts_of(deltas, (n - 1) as nat),
        }
    }
}

proof fn lemma_state(id: Seq<char>, deltas: Seq<DeltaV>, n: nat)
    requires
        n <= deltas.len(),
    ensures
        ({
            let s = crate::protocol::codec::openai_compatible::stream::written(
                FormatterV::fresh(id),
                Seq::empty(),
            ).steps(deltas, n).state;
            s.saw_tool_call == calls_tools(deltas, n) && s.usage == counts_of(deltas, n)
        }),
    decreases n,
{
    if n > 0 {
        lemma_state(id, deltas, (n - 1) as nat);
        let d = deltas[n - 1];
        if d is ToolCallStart || d is ToolCallDelta {
            assert(calls_tools(deltas, n));
        } else if calls_tools(deltas, n) {
            let i = choose|i: int|
                0 <= i < n && ((#[trigger] deltas[i]) is ToolCallStart || deltas[i]
                    is ToolCallDelta);
            assert(i < n - 1);
        }
    }
}

/// The end of a stream is written as two events: a chunk that is read as the end, for the calls
/// where there were any, else for the given reason, with the token counts that came last; and the
/// closing mark.
pub proof fn lemma_end_read(
    id: Seq<char>,
    deltas: Seq<DeltaV>,
    stop_reason: Seq<char>,
    r: ReadV,
)
    requires
        r.mode.started,
        !r.mode.done,
        calls_tools(deltas, deltas.len()) || stop_reason.len() > 0,
    ensures
        ({
            let w = crate::protocol::codec::openai_compatible::stream::written(
                FormatterV::fresh(id),
                Seq::empty(),
            ).steps(deltas, deltas.len());
            let u = counts_of(deltas, deltas.len());
            let reason = if calls_tools(deltas, deltas.len()) {
                "tool_calls"@
            } else {
                stop_reason
            };
            exists|chunk: JsonV|
                {
                    &&& w.step(DeltaV::Done { stop_reason }).events == w.events.push(
                        #[trigger] chunk_event(chunk),
                    ).push(SseV { event: None, data: "[DONE]"@ })
                    &&& r.chunk(chunk).mode.done
                    &&& u.prompt_tokens == 0 && u.completion_tokens == 0 ==> r.chunk(chunk).deltas
                        == r.deltas.push(DeltaV::Done { stop_reason: reason })
                    &&& u.prompt_tokens > 0 || u.completion_tokens > 0 ==> {
                        let back = r.chunk(chunk).deltas;
                        &&& back.len() == r.deltas.len() + 2
                        &&& back.drop_last() == r.deltas.push(
                            DeltaV::Done { stop_reason: reason },
                        )
                        &&& back.last() matches DeltaV::Usage(v) && v.prompt_tokens
                            == u.prompt_tokens && v.completion_tokens == u.completion_tokens
                    }
                }
        }),
{
    broadcast use crate::json::lemma_with_get;

    lemma_words();
    let w = crate::protocol::codec::openai_compatible::stream::written(
        FormatterV::fresh(id),
        Seq::empty(),
    ).steps(deltas, deltas.len());
    lemma_state(id, deltas, deltas.len());
    let u = counts_of(deltas, deltas.len());
    let reason = if calls_tools(deltas, deltas.len()) {
        "tool_calls"@
    } else {
        stop_reason
    };
    let chunk = crate::protocol::codec::openai_compatible::stream::chunk_value(
        w.state.id,
        w.state.model,
        JsonV::obj(),
        JsonV::Text(reason),
    ).with("usage"@, crate::protocol::codec::openai_compatible::stream::usage_value(u));
    assert(w.step(DeltaV::Done { stop_reason }).events == w.events.push(chunk_event(chunk)).push(
        SseV { event: None, data: "[DONE]"@ },
    ));
    lemma_usage_read(u, chunk);
    let choice = (chunk.get("choices"@)->0)->Array_0[0];
    assert(crate::protocol::codec::openai_compatible::stream::choice_of(chunk) == Some(choice));
    assert(choice.get("delta"@) == Some(JsonV::obj()));
    assert(choice.filled("finish_reason"@) == Some(reason));
    let back = r.chunk(chunk).deltas;
    if u.prompt_tokens > 0 || u.completion_tokens > 0 {
        assert(back.drop_last() =~= r.deltas.push(DeltaV::Done { stop_reason: reason }));
    }
}

} // verus!
