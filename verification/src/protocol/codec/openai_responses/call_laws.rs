//! What a written stream holds of the deltas that it is written from.
use vstd::prelude::*;

use crate::json::JsonV;
use crate::protocol::codec::openai_responses::stream::{FormatterV, PendingV, WrittenV};
use crate::protocol::ir::stream::DeltaV;
use crate::protocol::SseV;

verus! {

/// The words of the protocol differ.
proof fn lemma_words()
    ensures
        "id"@.len() == 2,
        "item"@.len() == 4,
        "item"@[1] == 't',
        "name"@.len() == 4,
        "name"@[1] == 'a',
        "role"@.len() == 4,
        "role"@[1] == 'o',
        "text"@.len() == 4,
        "text"@[1] == 'e',
        "type"@.len() == 4,
        "type"@[1] == 'y',
        "delta"@.len() == 5,
        "delta"@[0] == 'd',
        "model"@.len() == 5,
        "model"@[0] == 'm',
        "usage"@.len() == 5,
        "usage"@[0] == 'u',
        "object"@.len() == 6,
        "object"@[1] == 'b',
        "output"@.len() == 6,
        "output"@[1] == 'u',
        "status"@.len() == 6,
        "status"@[1] == 't',
        "call_id"@.len() == 7,
        "call_id"@[1] == 'a',
        "content"@.len() == 7,
        "content"@[1] == 'o',
        "item_id"@.len() == 7,
        "item_id"@[1] == 't',
        "message"@.len() == 7,
        "message"@[1] == 'e',
        "summary"@.len() == 7,
        "summary"@[1] == 'u',
        "response"@.len() == 8,
        "arguments"@.len() == 9,
        "arguments"@[0] == 'a',
        "reasoning"@.len() == 9,
        "reasoning"@[0] == 'r',
        "annotations"@.len() == 11,
        "annotations"@[0] == 'a',
        "output_text"@.len() == 11,
        "output_text"@[0] == 'o',
        "input_tokens"@.len() == 12,
        "input_tokens"@[0] == 'i',
        "output_index"@.len() == 12,
        "output_index"@[0] == 'o',
        "summary_text"@.len() == 12,
        "summary_text"@[0] == 's',
        "total_tokens"@.len() == 12,
        "total_tokens"@[0] == 't',
        "function_call"@.len() == 13,
        "function_call"@[0] == 'f',
        "output_tokens"@.len() == 13,
        "output_tokens"@[0] == 'o',
{
    reveal_strlit("id");
    reveal_strlit("item");
    reveal_strlit("name");
    reveal_strlit("role");
    reveal_strlit("text");
    reveal_strlit("type");
    reveal_strlit("delta");
    reveal_strlit("model");
    reveal_strlit("usage");
    reveal_strlit("object");
    reveal_strlit("output");
    reveal_strlit("status");
    reveal_strlit("call_id");
    reveal_strlit("content");
    reveal_strlit("item_id");
    reveal_strlit("message");
    reveal_strlit("summary");
    reveal_strlit("response");
    reveal_strlit("arguments");
    reveal_strlit("reasoning");
    reveal_strlit("annotations");
    reveal_strlit("output_text");
    reveal_strlit("input_tokens");
    reveal_strlit("output_index");
    reveal_strlit("summary_text");
    reveal_strlit("total_tokens");
    reveal_strlit("function_call");
    reveal_strlit("output_tokens");
}

// ---------------------------------------------------------------- calls

/// Where, among the first `n` deltas, the call that an index stands for was begun last.
pub open spec fn opener(deltas: Seq<DeltaV>, index: usize, n: nat) -> Option<int>
    decreases n,
{
    if n == 0 {
        None
    } else {
        match deltas[n - 1] {
            DeltaV::ToolCallStart { index: i, .. } => if i == index {
                Some(n - 1)
            } else {
                opener(deltas, index, (n - 1) as nat)
            },
            _ => opener(deltas, index, (n - 1) as nat),
        }
    }
}

/// Where the first `n` deltas begin a call.
pub open spec fn openings(deltas: Seq<DeltaV>, n: nat) -> Seq<int>
    decreases n,
{
    if n == 0 {
        Seq::empty()
    } else {
        match deltas[n - 1] {
            DeltaV::ToolCallStart { .. } => openings(deltas, (n - 1) as nat).push(n - 1),
            _ => openings(deltas, (n - 1) as nat),
        }
    }
}

/// The arguments that the first `n` deltas give the call begun at `at`: every piece under its
/// index, in order, until another call takes the index over.
pub open spec fn arguments_of(deltas: Seq<DeltaV>, at: int, n: nat) -> Seq<char>
    decreases n,
{
    if n == 0 || n <= at + 1 {
        Seq::empty()
    } else {
        let before = arguments_of(deltas, at, (n - 1) as nat);
        match deltas[n - 1] {
            DeltaV::ToolCallDelta { index, arguments } => if opener(deltas, index, (n - 1) as nat)
                == Some(at) {
                before + arguments
            } else {
                before
            },
            _ => before,
        }
    }
}

/// Whether a call is the one begun at `at`.
pub open spec fn is_call(
    c: PendingV,
    deltas: Seq<DeltaV>,
    calls: Seq<Seq<char>>,
    at: int,
    n: nat,
) -> bool {
    &&& deltas[at] is ToolCallStart
    &&& c.name == deltas[at]->ToolCallStart_name
    &&& deltas[at]->ToolCallStart_id.len() > 0 ==> c.call_id == deltas[at]->ToolCallStart_id
    &&& deltas[at]->ToolCallStart_id.len() == 0 ==> c.call_id == "call_"@ + calls[at]
    &&& c.arguments == arguments_of(deltas, at, n)
}

proof fn lemma_openings(deltas: Seq<DeltaV>, n: nat)
    ensures
        openings(deltas, n).len() <= n,
        forall|k: int|
            0 <= k < openings(deltas, n).len() ==> 0 <= #[trigger] openings(deltas, n)[k] < n
                && deltas[openings(deltas, n)[k]] is ToolCallStart,
        forall|k: int, l: int|
            0 <= k < l < openings(deltas, n).len() ==> #[trigger] openings(deltas, n)[k]
                < #[trigger] openings(deltas, n)[l],
    decreases n,
{
    if n > 0 {
        lemma_openings(deltas, (n - 1) as nat);
    }
}

proof fn lemma_calls_done_state(w: WrittenV, n: nat)
    ensures
        w.calls_done(n).state == w.state,
    decreases n,
{
    if n > 0 {
        lemma_calls_done_state(w, (n - 1) as nat);
    }
}

proof fn lemma_completed_state(w: WrittenV)
    ensures
        w.completed().state == (FormatterV { completed: true, ..w.state }),
{
    let start = WrittenV { state: FormatterV { completed: true, ..w.state }, ..w };
    let s = start.state;
    let mid = match s.thinking {
        Some((id, index)) => start.emit(
            crate::protocol::codec::openai_responses::stream::item_event(
                "response.output_item.done"@,
                index,
                crate::protocol::codec::openai_responses::formatter::reasoning_value(
                    id,
                    s.reasoning,
                ),
            ),
        ),
        None => start,
    };
    lemma_calls_done_state(mid, s.calls.len());
}

/// What a formatter holds of the calls in the first `n` deltas: each call that was begun, under its
/// name and identifier, with all its arguments, one piece behind the other.
pub proof fn lemma_calls_gathered(
    resp: Seq<char>,
    msg: Seq<char>,
    deltas: Seq<DeltaV>,
    items: Seq<Seq<char>>,
    calls: Seq<Seq<char>>,
    n: nat,
)
    requires
        n <= deltas.len() <= usize::MAX,
    ensures
        ({
            let s = crate::protocol::codec::openai_responses::stream::written(
                FormatterV::fresh(resp, msg),
                Seq::empty(),
            ).steps(deltas, items, calls, n).state;
            let at = openings(deltas, n);
            &&& s.calls.len() == at.len()
            &&& forall|k: int|
                0 <= k < at.len() ==> is_call(#[trigger] s.calls[k], deltas, calls, at[k], n)
            &&& forall|index: usize|
                match opener(deltas, index, n) {
                    Some(p) => #[trigger] crate::slots::slot_get(s.places, index) is Some
                        && crate::slots::slot_get(s.places, index)->0 < at.len()
                        && at[crate::slots::slot_get(s.places, index)->0 as int] == p,
                    None => crate::slots::slot_get(s.places, index) is None,
                }
        }),
    decreases n,
{
    let start = crate::protocol::codec::openai_responses::stream::written(
        FormatterV::fresh(resp, msg),
        Seq::empty(),
    );
    if n > 0 {
        let m = (n - 1) as nat;
        lemma_calls_gathered(resp, msg, deltas, items, calls, m);
        lemma_openings(deltas, m);
        lemma_openings(deltas, n);
        let w = start.steps(deltas, items, calls, m);
        let r = start.steps(deltas, items, calls, n);
        let at = openings(deltas, m);
        let d = deltas[m as int];
        assert(w.started().state == (FormatterV { started: true, ..w.state }));
        match d {
            DeltaV::ToolCallStart { index, id, name } => {
                assert forall|i: usize|
                    match opener(deltas, i, n) {
                        Some(p) => #[trigger] crate::slots::slot_get(r.state.places, i) is Some
                            && crate::slots::slot_get(r.state.places, i)->0 < at.len() + 1
                            && openings(deltas, n)[crate::slots::slot_get(r.state.places, i)->0 as int]
                            == p,
                        None => crate::slots::slot_get(r.state.places, i) is None,
                    } by {
                    crate::slots::lemma_slot_put_get(
                        w.state.places,
                        index,
                        w.state.calls.len() as usize,
                        i,
                    );
                    let g = crate::slots::slot_get(w.state.places, i);
                }
                assert forall|k: int| 0 <= k < at.len() implies is_call(
                    #[trigger] r.state.calls[k],
                    deltas,
                    calls,
                    at[k],
                    n,
                ) by {
                    assert(r.state.calls[k] == w.state.calls[k]);
                }
            },
            DeltaV::ToolCallDelta { index, arguments } => {
                let g = crate::slots::slot_get(w.state.places, index);
                assert forall|k: int| 0 <= k < at.len() implies is_call(
                    #[trigger] r.state.calls[k],
                    deltas,
                    calls,
                    at[k],
                    n,
                ) by {
                    assert(is_call(w.state.calls[k], deltas, calls, at[k], m));
                    if let Some(p) = opener(deltas, index, m) {
                        let q = g->0 as int;
                        if q < k {
                            assert(at[q] < at[k]);
                        } else if k < q {
                            assert(at[k] < at[q]);
                        }
                    }
                }
                assert(r.state.places == w.state.places);
            },
            _ => {
                lemma_completed_state(w);
                assert(r.state.calls == w.state.calls && r.state.places == w.state.places);
                assert forall|k: int| 0 <= k < at.len() implies is_call(
                    #[trigger] r.state.calls[k],
                    deltas,
                    calls,
                    at[k],
                    n,
                ) by {
                    assert(is_call(w.state.calls[k], deltas, calls, at[k], m));
                }
            },
        }
    }
}

// ---------------------------------------------------------------- the response at the end

/// Whether the first `n` deltas hold thinking.
pub open spec fn thinks(deltas: Seq<DeltaV>, n: nat) -> bool {
    exists|i: int| 0 <= i < n && #[trigger] deltas[i] is ThinkingDelta
}

/// The model that the first `n` deltas name last.
pub open spec fn model_of(deltas: Seq<DeltaV>, n: nat) -> Seq<char>
    decreases n,
{
    if n == 0 {
        Seq::empty()
    } else {
        match deltas[n - 1] {
            DeltaV::MessageStart { model, .. } => model,
            _ => model_of(deltas, (n - 1) as nat),
        }
    }
}

/// The count of read tokens that the first `n` deltas give last.
pub open spec fn prompt_of(deltas: Seq<DeltaV>, n: nat) -> u32
    decreases n,
{
    if n == 0 {
        0
    } else {
        match deltas[n - 1] {
            DeltaV::Usage(u) => if u.prompt_tokens > 0 {
                u.prompt_tokens
            } else {
                prompt_of(deltas, (n - 1) as nat)
            },
            _ => prompt_of(deltas, (n - 1) as nat),
        }
    }
}

/// The count of written tokens that the first `n` deltas give last.
pub open spec fn completion_of(deltas: Seq<DeltaV>, n: nat) -> u32
    decreases n,
{
    if n == 0 {
        0
    } else {
        match deltas[n - 1] {
            DeltaV::Usage(u) => if u.completion_tokens > 0 {
                u.completion_tokens
            } else {
                completion_of(deltas, (n - 1) as nat)
            },
            _ => completion_of(deltas, (n - 1) as nat),
        }
    }
}

/// The identifier that the first `n` deltas give the response last.
pub open spec fn id_of(deltas: Seq<DeltaV>, n: nat, own: Seq<char>) -> Seq<char>
    decreases n,
{
    if n == 0 {
        own
    } else {
        match deltas[n - 1] {
            DeltaV::MessageStart { id, .. } => if id.len() > 0 {
                id
            } else {
                id_of(deltas, (n - 1) as nat, own)
            },
            _ => id_of(deltas, (n - 1) as nat, own),
        }
    }
}

/// Whether an item is the call begun at `at`.
pub open spec fn is_call_item(
    item: JsonV,
    deltas: Seq<DeltaV>,
    calls: Seq<Seq<char>>,
    at: int,
) -> bool {
    &&& item.get_str("type"@) == Some("function_call"@)
    &&& item.get_str("name"@) == Some(deltas[at]->ToolCallStart_name)
    &&& item.get_str("call_id"@) == Some(
        if deltas[at]->ToolCallStart_id.len() > 0 {
            deltas[at]->ToolCallStart_id
        } else {
            "call_"@ + calls[at]
        },
    )
    &&& item.get_str("arguments"@) == Some(arguments_of(deltas, at, deltas.len()))
}

/// Whether an item is a message of the assistant with a text.
pub open spec fn is_message_item(item: JsonV, text: Seq<char>) -> bool {
    &&& item.get_str("type"@) == Some("message"@)
    &&& item.get_str("role"@) == Some("assistant"@)
    &&& item.get_array("content"@) matches Some(c) && c.len() == 1 && c[0].get_str("type"@) == Some(
        "output_text"@,
    ) && c[0].get_str("text"@) == Some(text)
}

/// Whether an item holds a thinking.
pub open spec fn is_thinking_item(item: JsonV, text: Seq<char>) -> bool {
    &&& item.get_str("type"@) == Some("reasoning"@)
    &&& item.get_array("summary"@) matches Some(c) && c.len() == 1 && c[0].get_str("text"@) == Some(
        text,
    )
}

/// Whether a response holds what the deltas say: all the thinking, every call with its arguments,
/// all the text, and the token counts.
pub open spec fn tells(
    response: JsonV,
    deltas: Seq<DeltaV>,
    calls: Seq<Seq<char>>,
    resp: Seq<char>,
) -> bool {
    let n = deltas.len();
    let at = openings(deltas, n);
    let head: int = if thinks(deltas, n) {
        1
    } else {
        0
    };
    let text = crate::protocol::codec::openai_responses::laws::said(deltas, n);
    &&& response.get_str("id"@) == Some(id_of(deltas, n, "resp_"@ + resp))
    &&& response.get_str("status"@) == Some("completed"@)
    &&& response.get_str("model"@) == Some(model_of(deltas, n))
    &&& response.get_str("output_text"@) == Some(text)
    &&& response.get_array("output"@) is Some
    &&& ({
        let out = response.get_array("output"@)->0;
        &&& out.len() == head + at.len() + 1
        &&& thinks(deltas, n) ==> is_thinking_item(
            out[0],
            crate::protocol::codec::openai_responses::laws::thought(deltas, n),
        )
        &&& forall|k: int|
            0 <= k < at.len() ==> is_call_item(#[trigger] out[head + k], deltas, calls, at[k])
        &&& is_message_item(out.last(), text)
    })
    &&& response.get2("usage"@, "input_tokens"@) == Some(JsonV::num(prompt_of(deltas, n) as u64))
    &&& response.get2("usage"@, "output_tokens"@) == Some(
        JsonV::num(completion_of(deltas, n) as u64),
    )
    &&& response.get2("usage"@, "total_tokens"@) == Some(
        JsonV::num((prompt_of(deltas, n) + completion_of(deltas, n)) as u64),
    )
}

proof fn lemma_output(s: FormatterV, n: nat)
    requires
        n <= s.calls.len(),
    ensures
        s.output_upto(n).len() == s.done_thinking().len() + n,
        forall|k: int|
            0 <= k < n ==> #[trigger] s.output_upto(n)[s.done_thinking().len() + k]
                == crate::protocol::codec::openai_responses::stream::done_call(s.calls[k]),
        s.thinking is Some ==> s.output_upto(n)[0] == s.done_thinking()[0],
    decreases n,
{
    if n > 0 {
        lemma_output(s, (n - 1) as nat);
        let before = s.output_upto((n - 1) as nat);
        let t = s.done_thinking().len();
        assert forall|k: int| 0 <= k < n implies #[trigger] s.output_upto(n)[t + k]
            == crate::protocol::codec::openai_responses::stream::done_call(s.calls[k]) by {
            if k < n - 1 {
                assert(s.output_upto(n)[t + k] == before[t + k]);
            }
        }
    }
}

proof fn lemma_state(
    resp: Seq<char>,
    msg: Seq<char>,
    deltas: Seq<DeltaV>,
    items: Seq<Seq<char>>,
    calls: Seq<Seq<char>>,
    n: nat,
)
    requires
        n <= deltas.len(),
    ensures
        ({
            let s = crate::protocol::codec::openai_responses::stream::written(
                FormatterV::fresh(resp, msg),
                Seq::empty(),
            ).steps(deltas, items, calls, n).state;
            &&& s.resp_id == id_of(deltas, n, "resp_"@ + resp)
            &&& s.msg_id == "msg_"@ + msg
            &&& s.model == model_of(deltas, n)
            &&& s.thinking is Some == thinks(deltas, n)
            &&& s.usage.prompt_tokens == prompt_of(deltas, n)
            &&& s.usage.completion_tokens == completion_of(deltas, n)
            &&& (forall|i: int| 0 <= i < n ==> !(#[trigger] deltas[i] is Done)) ==> !s.completed
        }),
    decreases n,
{
    let start = crate::protocol::codec::openai_responses::stream::written(
        FormatterV::fresh(resp, msg),
        Seq::empty(),
    );
    if n > 0 {
        let m = (n - 1) as nat;
        lemma_state(resp, msg, deltas, items, calls, m);
        let w = start.steps(deltas, items, calls, m);
        let d = deltas[m as int];
        assert(w.started().state == (FormatterV { started: true, ..w.state }));
        lemma_completed_state(w);
        if d is ThinkingDelta {
            assert(thinks(deltas, n));
        } else if thinks(deltas, n) {
            let i = choose|i: int| 0 <= i < n && #[trigger] deltas[i] is ThinkingDelta;
            assert(i < m);
        }
        if let DeltaV::MessageStart { id, model } = d {
            let v = WrittenV {
                state: FormatterV {
                    resp_id: if id.len() == 0 {
                        w.state.resp_id
                    } else {
                        id
                    },
                    model,
                    ..w.state
                },
                ..w
            };
            assert(v.started().state == (FormatterV { started: true, ..v.state }));
        }
    }
}

proof fn lemma_done_events(w: WrittenV, n: nat)
    requires
        n <= w.state.calls.len(),
    ensures
        w.calls_done(n).events.len() == w.events.len() + n,
        forall|k: int|
            0 <= k < n ==> #[trigger] w.calls_done(n).events[w.events.len() + k]
                == crate::protocol::codec::openai_responses::stream::item_event(
                "response.output_item.done"@,
                w.state.calls[k].output_index,
                crate::protocol::codec::openai_responses::stream::done_call(w.state.calls[k]),
            ),
    decreases n,
{
    if n > 0 {
        lemma_done_events(w, (n - 1) as nat);
        let e = w.events.len();
        let before = w.calls_done((n - 1) as nat).events;
        assert forall|k: int| 0 <= k < n implies #[trigger] w.calls_done(n).events[e + k]
            == crate::protocol::codec::openai_responses::stream::item_event(
            "response.output_item.done"@,
            w.state.calls[k].output_index,
            crate::protocol::codec::openai_responses::stream::done_call(w.state.calls[k]),
        ) by {
            if k < n - 1 {
                assert(w.calls_done(n).events[e + k] == before[e + k]);
            }
        }
    }
}

/// Whether an event says that an item of the output is done.
pub open spec fn done_event(e: SseV, item: JsonV) -> bool {
    exists|index: usize|
        e == #[trigger] crate::protocol::codec::openai_responses::stream::item_event(
            "response.output_item.done"@,
            index,
            item,
        )
}

/// The end of a stream: the last event holds the whole response, which tells what the deltas said,
/// and every call of it was reported done just as it stands there.
pub proof fn lemma_end_tells_all(
    resp: Seq<char>,
    msg: Seq<char>,
    deltas: Seq<DeltaV>,
    items: Seq<Seq<char>>,
    calls: Seq<Seq<char>>,
    stop_reason: Seq<char>,
    item: Seq<char>,
    call: Seq<char>,
)
    requires
        deltas.len() <= usize::MAX,
        forall|i: int| 0 <= i < deltas.len() ==> !(#[trigger] deltas[i] is Done),
    ensures
        ({
            let events = crate::protocol::codec::openai_responses::stream::written(
                FormatterV::fresh(resp, msg),
                Seq::empty(),
            ).steps(deltas, items, calls, deltas.len()).step(
                DeltaV::Done { stop_reason },
                item,
                call,
            ).events;
            exists|response: JsonV|
                {
                    &&& events.last()
                        == crate::protocol::codec::openai_responses::stream::typed_event(
                        "response.completed"@,
                        JsonV::obj().with("type"@, JsonV::Text("response.completed"@)).with(
                            "response"@,
                            response,
                        ),
                    )
                    &&& #[trigger] tells(response, deltas, calls, resp)
                    &&& forall|k: int|
                        0 <= k < response.get_array("output"@)->0.len() ==> exists|i: int|
                            0 <= i < events.len() && done_event(
                                #[trigger] events[i],
                                #[trigger] response.get_array("output"@)->0[k],
                            )
                }
        }),
{
    broadcast use crate::json::lemma_with_get;

    lemma_words();
    let n = deltas.len();
    let start = crate::protocol::codec::openai_responses::stream::written(
        FormatterV::fresh(resp, msg),
        Seq::empty(),
    );
    let w = start.steps(deltas, items, calls, n);
    lemma_calls_gathered(resp, msg, deltas, items, calls, n);
    lemma_openings(deltas, n);
    lemma_state(resp, msg, deltas, items, calls, n);
    crate::protocol::codec::openai_responses::laws::lemma_text_gathered(
        start,
        deltas,
        items,
        calls,
        n,
    );
    let text = crate::protocol::codec::openai_responses::laws::said(deltas, n);
    let thought = crate::protocol::codec::openai_responses::laws::thought(deltas, n);
    assert(Seq::<char>::empty() + text =~= text);
    assert(Seq::<char>::empty() + thought =~= thought);
    let begun = WrittenV { state: FormatterV { completed: true, ..w.state }, ..w };
    let s = begun.state;
    assert(s.text == text && s.reasoning == thought);
    lemma_output(s, s.calls.len());
    let at = openings(deltas, n);
    let response = s.done_response();
    let out = s.output_upto(s.calls.len()).push(s.done_message());
    assert(response.get("output"@) == Some(JsonV::Array(out)));
    let head: int = if thinks(deltas, n) {
        1
    } else {
        0
    };
    assert(s.done_thinking().len() == head);
    assert forall|k: int| 0 <= k < at.len() implies is_call_item(
        #[trigger] out[head + k],
        deltas,
        calls,
        at[k],
    ) by {
        let c = s.calls[k];
        assert(is_call(c, deltas, calls, at[k], n));
        assert(out[head + k] == s.output_upto(s.calls.len())[head + k]);
        assert(out[head + k] == crate::protocol::codec::openai_responses::stream::done_call(c));
    }
    assert(out.last() == s.done_message());
    let part = crate::protocol::codec::openai_responses::formatter::part_value(text);
    assert(part.get_str("text"@) == Some(text));
    assert(out.last().get("content"@) == Some(JsonV::Array(seq![part])));
    assert(seq![part][0] == part);
    if head == 1 {
        assert(out[0] == s.done_thinking()[0]);
        let summary = JsonV::obj().with("type"@, JsonV::Text("summary_text"@)).with(
            "text"@,
            JsonV::Text(thought),
        );
        assert(summary.get_str("text"@) == Some(thought));
        assert(out[0].get("summary"@) == Some(JsonV::Array(seq![summary])));
        assert(seq![summary][0] == summary);
    }
    assert(tells(response, deltas, calls, resp));
    let mid = match s.thinking {
        Some((id, index)) => begun.emit(
            crate::protocol::codec::openai_responses::stream::item_event(
                "response.output_item.done"@,
                index,
                crate::protocol::codec::openai_responses::formatter::reasoning_value(
                    id,
                    s.reasoning,
                ),
            ),
        ),
        None => begun,
    };
    lemma_done_events(mid, s.calls.len());
    let done = mid.calls_done(s.calls.len()).events;
    let events = begun.finished().events;
    assert(w.completed() == begun.finished());
    assert forall|k: int| 0 <= k < out.len() implies exists|i: int|
        0 <= i < events.len() && done_event(#[trigger] events[i], #[trigger] out[k]) by {
        if k == out.len() - 1 {
            assert(done_event(events[events.len() - 2], out[k]));
        } else if k < head {
            let i = w.events.len() as int;
            assert(events[i] == done[i]);
            lemma_done_prefix(mid, s.calls.len(), i);
            assert(done_event(events[i], out[k]));
        } else {
            let i = mid.events.len() + (k - head);
            assert(events[i] == done[i]);
            let c = s.calls[k - head];
            assert(s.output_upto(s.calls.len())[head + (k - head)]
                == crate::protocol::codec::openai_responses::stream::done_call(c));
            assert(done_event(events[i], out[k]));
        }
    }
}

proof fn lemma_done_prefix(w: WrittenV, n: nat, i: int)
    requires
        0 <= i < w.events.len(),
        n <= w.state.calls.len(),
    ensures
        w.calls_done(n).events.len() == w.events.len() + n,
        w.calls_done(n).events[i] == w.events[i],
    decreases n,
{
    if n > 0 {
        lemma_done_prefix(w, (n - 1) as nat, i);
    }
}

} // verus!
