//! What is written to a stream is read again.
use vstd::prelude::*;

use crate::json::JsonV;
use crate::protocol::codec::openai_responses::parser::ReadV;
use crate::protocol::codec::openai_responses::stream::{FormatterV, WrittenV};
use crate::protocol::ir::stream::DeltaV;
use crate::protocol::SseV;

verus! {

/// The words of the protocol differ.
proof fn lemma_words()
    ensures
        "id"@.len() == 2,
        "item"@.len() == 4,
        "item"@[0] == 'i',
        "name"@.len() == 4,
        "name"@[0] == 'n',
        "type"@.len() == 4,
        "type"@[0] == 't',
        "delta"@.len() == 5,
        "delta"@[0] == 'd',
        "model"@.len() == 5,
        "model"@[0] == 'm',
        "usage"@.len() == 5,
        "usage"@[0] == 'u',
        "object"@.len() == 6,
        "object"@[1] == 'b',
        "output"@.len() == 6,
        "output"@[1] == 'u',
        "status"@.len() == 6,
        "status"@[1] == 't',
        "call_id"@.len() == 7,
        "call_id"@[0] == 'c',
        "item_id"@.len() == 7,
        "item_id"@[0] == 'i',
        "response"@.len() == 8,
        "arguments"@.len() == 9,
        "arguments"@[0] == 'a',
        "completed"@.len() == 9,
        "completed"@[0] == 'c',
        "output_text"@.len() == 11,
        "input_tokens"@.len() == 12,
        "input_tokens"@[0] == 'i',
        "output_index"@.len() == 12,
        "output_index"@[0] == 'o',
        "total_tokens"@.len() == 12,
        "total_tokens"@[0] == 't',
        "content_index"@.len() == 13,
        "content_index"@[0] == 'c',
        "function_call"@.len() == 13,
        "function_call"@[0] == 'f',
        "output_tokens"@.len() == 13,
        "output_tokens"@[0] == 'o',
        "summary_index"@.len() == 13,
        "summary_index"@[0] == 's',
        "response.created"@.len() == 16,
        "response.completed"@.len() == 18,
        "response.in_progress"@.len() == 20,
        "response.output_item.done"@.len() == 25,
        "response.output_item.added"@.len() == 26,
        "response.output_item.added"@[16] == 'i',
        "response.output_text.delta"@.len() == 26,
        "response.output_text.delta"@[16] == 't',
        "response.reasoning_summary_text.delta"@.len() == 37,
        "response.function_call_arguments.delta"@.len() == 38,
{
    reveal_strlit("id");
    reveal_strlit("item");
    reveal_strlit("name");
    reveal_strlit("type");
    reveal_strlit("delta");
    reveal_strlit("model");
    reveal_strlit("usage");
    reveal_strlit("object");
    reveal_strlit("output");
    reveal_strlit("status");
    reveal_strlit("call_id");
    reveal_strlit("item_id");
    reveal_strlit("response");
    reveal_strlit("arguments");
    reveal_strlit("completed");
    reveal_strlit("output_text");
    reveal_strlit("input_tokens");
    reveal_strlit("output_index");
    reveal_strlit("total_tokens");
    reveal_strlit("content_index");
    reveal_strlit("function_call");
    reveal_strlit("output_tokens");
    reveal_strlit("summary_index");
    reveal_strlit("response.created");
    reveal_strlit("response.completed");
    reveal_strlit("response.in_progress");
    reveal_strlit("response.output_item.done");
    reveal_strlit("response.output_item.added");
    reveal_strlit("response.output_text.delta");
    reveal_strlit("response.reasoning_summary_text.delta");
    reveal_strlit("response.function_call_arguments.delta");
}

/// Whether an event is read as a delta, once the response has begun.
pub open spec fn reads_as(e: SseV, d: DeltaV) -> bool {
    exists|kind: Seq<char>, body: JsonV|
        {
            &&& e == #[trigger] crate::protocol::codec::openai_responses::stream::typed_event(
                kind,
                body,
            )
            &&& forall|r: ReadV|
                r.started ==> (#[trigger] r.event(kind, body)).deltas == r.deltas.push(d)
        }
}

proof fn lemma_reads_as(kind: Seq<char>, body: JsonV, d: DeltaV)
    requires
        forall|r: ReadV| r.started ==> (#[trigger] r.event(kind, body)).deltas == r.deltas.push(d),
    ensures
        reads_as(
            crate::protocol::codec::openai_responses::stream::typed_event(kind, body),
            d,
        ),
{
    let e = crate::protocol::codec::openai_responses::stream::typed_event(kind, body);
    assert(e == crate::protocol::codec::openai_responses::stream::typed_event(kind, body));
}

/// Text, thinking, the beginning of a call and the pieces of its arguments are written so that the
/// last event is read as just that delta; a call and its pieces stand under the place of the call
/// in the output.
pub proof fn lemma_delta_read(w: WrittenV, d: DeltaV, item: Seq<char>, call: Seq<char>)
    ensures
        ({
            let v = w.step(d, item, call);
            let e = v.events.last();
            match d {
                DeltaV::TextDelta(t) => t.len() > 0 ==> v.events.len() > w.events.len() && reads_as(
                    e,
                    d,
                ),
                DeltaV::ThinkingDelta(t) => t.len() > 0 ==> v.events.len() > w.events.len()
                    && reads_as(e, d),
                DeltaV::ToolCallStart { id, name, .. } => name.len() > 0 ==> v.events.len()
                    > w.events.len() && v.state.calls.len() == w.state.calls.len() + 1 && reads_as(
                    e,
                    DeltaV::ToolCallStart {
                        index: v.state.calls.last().output_index,
                        id: if id.len() > 0 {
                            id
                        } else {
                            "call_"@ + call
                        },
                        name,
                    },
                ),
                DeltaV::ToolCallDelta { index, arguments } => match crate::slots::slot_get(
                    w.state.places,
                    index,
                ) {
                    Some(p) => p < w.state.calls.len() && arguments.len() > 0 ==> v.events
                        == w.events.push(e) && reads_as(
                        e,
                        DeltaV::ToolCallDelta {
                            index: w.state.calls[p as int].output_index,
                            arguments,
                        },
                    ),
                    None => v == w,
                },
                _ => true,
            }
        }),
{
    broadcast use crate::json::lemma_with_get;

    lemma_words();
    reveal_strlit("call_");
    let v = w.step(d, item, call);
    match d {
        DeltaV::TextDelta(t) => {
            let kind = "response.output_text.delta"@;
            let body = crate::protocol::codec::openai_responses::stream::headed(kind).with(
                "item_id"@,
                JsonV::Text(v.state.msg_id),
            ).with("output_index"@, JsonV::num(0)).with("content_index"@, JsonV::num(0)).with(
                "delta"@,
                JsonV::Text(t),
            );
            if t.len() > 0 {
                assert(body.filled("delta"@) == Some(t));
                lemma_reads_as(kind, body, d);
            }
        },
        DeltaV::ThinkingDelta(t) => {
            let kind = "response.reasoning_summary_text.delta"@;
            let (id, index) = v.state.thinking->0;
            let body = crate::protocol::codec::openai_responses::stream::headed(kind).with(
                "item_id"@,
                JsonV::Text(id),
            ).with("output_index"@, JsonV::num(index as u64)).with(
                "summary_index"@,
                JsonV::num(0),
            ).with("delta"@, JsonV::Text(t));
            if t.len() > 0 {
                assert(body.filled("delta"@) == Some(t));
                lemma_reads_as(kind, body, d);
            }
        },
        DeltaV::ToolCallStart { index, id, name } => {
            let kind = "response.output_item.added"@;
            let c = v.state.calls.last();
            let value = crate::protocol::codec::openai_responses::formatter::call_value(
                c.item_id,
                c.call_id,
                name,
                ""@,
                "in_progress"@,
            );
            let body = crate::protocol::codec::openai_responses::stream::headed(kind).with(
                "output_index"@,
                JsonV::num(c.output_index as u64),
            ).with("item"@, value);
            assert(body.get("item"@) == Some(value));
            assert(body.get_u64("output_index"@) == Some(c.output_index as u64));
            assert(value.get_str("type"@) == Some("function_call"@));
            assert(value.get_str("call_id"@) == Some(c.call_id));
            assert(value.get_str("name"@) == Some(name));
            assert(("call_"@ + call).len() >= 5);
            if name.len() > 0 {
                lemma_reads_as(
                    kind,
                    body,
                    DeltaV::ToolCallStart { index: c.output_index, id: c.call_id, name },
                );
            }
        },
        DeltaV::ToolCallDelta { index, arguments } => {
            if let Some(p) = crate::slots::slot_get(w.state.places, index) {
                if p < w.state.calls.len() && arguments.len() > 0 {
                    let kind = "response.function_call_arguments.delta"@;
                    let c = w.state.calls[p as int];
                    let body = crate::protocol::codec::openai_responses::stream::headed(kind).with(
                        "item_id"@,
                        JsonV::Text(c.item_id),
                    ).with("output_index"@, JsonV::num(c.output_index as u64)).with(
                        "delta"@,
                        JsonV::Text(arguments),
                    );
                    assert(body.filled("delta"@) == Some(arguments));
                    assert(body.get_u64("output_index"@) == Some(c.output_index as u64));
                    lemma_reads_as(
                        kind,
                        body,
                        DeltaV::ToolCallDelta { index: c.output_index, arguments },
                    );
                }
            }
        },
        _ => {},
    }
}

/// The beginning of a stream is read with its identifier and its model.
pub proof fn lemma_start_read(
    w: WrittenV,
    id: Seq<char>,
    model: Seq<char>,
    item: Seq<char>,
    call: Seq<char>,
    r: ReadV,
)
    requires
        !w.state.started,
        !r.started,
        id.len() > 0,
        model.len() > 0,
    ensures
        ({
            let v = w.step(DeltaV::MessageStart { id, model }, item, call);
            exists|body: JsonV|
                {
                    &&& v.events.len() > w.events.len()
                    &&& v.events[w.events.len() as int]
                        == #[trigger] crate::protocol::codec::openai_responses::stream::typed_event(
                        "response.created"@,
                        body,
                    )
                    &&& r.event("response.created"@, body) == (ReadV {
                        started: true,
                        deltas: r.deltas.push(DeltaV::MessageStart { id, model }),
                    })
                }
        }),
{
    broadcast use crate::json::lemma_with_get;

    lemma_words();
    let v = w.step(DeltaV::MessageStart { id, model }, item, call);
    let response = crate::protocol::codec::openai_responses::stream::open_response(id).with(
        "model"@,
        JsonV::Text(model),
    ).with("output"@, JsonV::Array(Seq::empty())).with("output_text"@, JsonV::Text(""@));
    let body = crate::protocol::codec::openai_responses::stream::headed("response.created"@).with(
        "response"@,
        response,
    );
    assert(response.get_str("id"@) == Some(id) && response.get_str("model"@) == Some(model));
    assert(body.get("response"@) == Some(response));
    assert(v.events[w.events.len() as int]
        == crate::protocol::codec::openai_responses::stream::typed_event(
        "response.created"@,
        body,
    ));
}

/// The end of a stream is read as the end, behind the token counts.
pub proof fn lemma_end_read(
    w: WrittenV,
    stop_reason: Seq<char>,
    item: Seq<char>,
    call: Seq<char>,
    r: ReadV,
)
    requires
        !w.state.completed,
    ensures
        ({
            let v = w.step(DeltaV::Done { stop_reason }, item, call);
            let u = w.state.usage;
            exists|body: JsonV|
                {
                    &&& v.events.last()
                        == #[trigger] crate::protocol::codec::openai_responses::stream::typed_event(
                        "response.completed"@,
                        body,
                    )
                    &&& ({
                        let back = r.event("response.completed"@, body).deltas;
                        &&& back.last() == (DeltaV::Done { stop_reason: "completed"@ })
                        &&& u.prompt_tokens == 0 && u.completion_tokens == 0 ==> back.drop_last()
                            == r.deltas
                        &&& u.prompt_tokens > 0 || u.completion_tokens > 0 ==> back.len()
                            == r.deltas.len() + 2 && (back[back.len() - 2] matches DeltaV::Usage(x)
                            && x.prompt_tokens == u.prompt_tokens && x.completion_tokens
                            == u.completion_tokens)
                    })
                }
        }),
{
    broadcast use crate::json::lemma_with_get;

    lemma_words();
    let s = FormatterV { completed: true, ..w.state };
    let response = s.done_response();
    let body = crate::protocol::codec::openai_responses::stream::headed("response.completed"@).with(
        "response"@,
        response,
    );
    let v = w.step(DeltaV::Done { stop_reason }, item, call);
    assert(v.events.last() == crate::protocol::codec::openai_responses::stream::typed_event(
        "response.completed"@,
        body,
    ));
    assert(body.get("response"@) == Some(response));
    assert(response.get_str("status"@) == Some("completed"@));
    let usage = response.get("usage"@)->0;
    assert(usage.get_u64("input_tokens"@) == Some(s.usage.prompt_tokens as u64));
    assert(usage.get_u64("output_tokens"@) == Some(s.usage.completion_tokens as u64));
    let back = r.event("response.completed"@, body).deltas;
    if s.usage.prompt_tokens == 0 && s.usage.completion_tokens == 0 {
        assert(back.drop_last() =~= r.deltas);
    }
}

} // verus!
