//! Laws of reading and writing a stream.
use vstd::prelude::*;

use crate::json::JsonV;
use crate::protocol::codec::openai_responses::parser::{ParserV, ReadV};
use crate::protocol::codec::openai_responses::stream::{FormatterV, WrittenV};
use crate::protocol::ir::stream::DeltaV;
use crate::protocol::SseV;

verus! {

/// What was read behind other deltas.
pub open spec fn after(d: Seq<DeltaV>, r: ReadV) -> ReadV {
    ReadV { started: r.started, deltas: d + r.deltas }
}

proof fn lemma_push_after(d: Seq<DeltaV>, r: ReadV, x: DeltaV)
    ensures
        after(d, r).push(x) == after(d, r.push(x)),
{
    assert((d + r.deltas).push(x) =~= d + r.deltas.push(x));
}

proof fn lemma_event_after(d: Seq<DeltaV>, r: ReadV, name: Seq<char>, payload: JsonV)
    ensures
        after(d, r).event(name, payload) == after(d, r.event(name, payload)),
{
    let index = crate::protocol::codec::openai_responses::parser::index_of(payload);
    let response = crate::protocol::codec::openai_responses::parser::inside(
        payload,
        "response"@,
    );
    let item = crate::protocol::codec::openai_responses::parser::inside(payload, "item"@);
    let u = crate::protocol::codec::openai_responses::parser::usage_of(response);
    lemma_push_after(
        d,
        ReadV { started: true, ..r },
        DeltaV::MessageStart {
            id: response.str_or_empty("id"@),
            model: response.str_or_empty("model"@),
        },
    );
    if let Some(t) = payload.filled("delta"@) {
        lemma_push_after(d, r, DeltaV::TextDelta(t));
        lemma_push_after(d, r, DeltaV::ThinkingDelta(t));
        lemma_push_after(d, r, DeltaV::ToolCallDelta { index, arguments: t });
    }
    lemma_push_after(
        d,
        r,
        DeltaV::ToolCallStart {
            index,
            id: crate::protocol::codec::openai_responses::decoder::text_at(
                item,
                "call_id"@,
                "id"@,
            ),
            name: item.str_or_empty("name"@),
        },
    );
    let done = DeltaV::Done {
        stop_reason: crate::protocol::codec::openai_responses::decoder::text_or(
            response,
            "status"@,
            "completed"@,
        ),
    };
    lemma_push_after(d, r, DeltaV::Usage(u));
    lemma_push_after(d, r, done);
    lemma_push_after(d, r.push(DeltaV::Usage(u)), done);
}

proof fn lemma_lines_after(d: Seq<DeltaV>, r: ReadV, v: Seq<Seq<char>>, n: nat)
    ensures
        after(d, r).lines(v, n) == (after(d, r.lines(v, n).0), r.lines(v, n).1),
    decreases n,
{
    if n > 0 {
        lemma_lines_after(d, r, v, (n - 1) as nat);
        let (s, name) = r.lines(v, (n - 1) as nat);
        lemma_push_after(d, s, DeltaV::Done { stop_reason: "stop"@ });
        if let Some(data) = crate::text::after_prefix(v[n - 1], "data: "@) {
            if let Some(payload) = crate::json::json_read(crate::text::trim_of(data)) {
                lemma_event_after(d, s, name, payload);
            }
        }
    }
}

proof fn lemma_blocks_after(d: Seq<DeltaV>, r: ReadV, v: Seq<Seq<char>>, n: nat)
    ensures
        after(d, r).blocks(v, n) == after(d, r.blocks(v, n)),
    decreases n,
{
    if n > 0 {
        lemma_blocks_after(d, r, v, (n - 1) as nat);
        let l = crate::text::lines_of(v[n - 1]);
        lemma_lines_after(d, r.blocks(v, (n - 1) as nat), l, l.len());
    }
}

proof fn lemma_blocks_cat(r: ReadV, x: Seq<Seq<char>>, y: Seq<Seq<char>>, n: nat)
    requires
        n <= y.len(),
    ensures
        r.blocks(x + y, x.len() + n) == r.blocks(x, x.len()).blocks(y, n),
    decreases n,
{
    if n == 0 {
        lemma_blocks_prefix(r, x, y, x.len());
    } else {
        lemma_blocks_cat(r, x, y, (n - 1) as nat);
        assert((x + y)[x.len() + n - 1] == y[n - 1]);
    }
}

proof fn lemma_blocks_prefix(r: ReadV, x: Seq<Seq<char>>, y: Seq<Seq<char>>, n: nat)
    requires
        n <= x.len(),
    ensures
        r.blocks(x + y, n) == r.blocks(x, n),
    decreases n,
{
    if n > 0 {
        lemma_blocks_prefix(r, x, y, (n - 1) as nat);
        assert((x + y)[n - 1] == x[n - 1]);
    }
}

/// A stream in two pieces gives the deltas, and leaves the state, of the stream in one.
pub proof fn lemma_stream_chunking(p: ParserV, a: Seq<char>, b: Seq<char>)
    ensures
        p.read(a + b).deltas == p.read(a).deltas + p.behind(a).read(b).deltas,
        p.behind(a + b) == p.behind(a).behind(b),
{
    assert(p.buffer + (a + b) =~= (p.buffer + a) + b);
    crate::protocol::sse::lemma_chunking(p.buffer + a, b);
    let x = crate::protocol::sse::blocks_of(p.buffer + a);
    let y = crate::protocol::sse::blocks_of(crate::protocol::sse::rest_of(p.buffer + a) + b);
    let start = ReadV { started: p.started, deltas: Seq::empty() };
    lemma_blocks_cat(start, x, y, y.len());
    let first = p.read(a);
    let fresh = ReadV { started: first.started, deltas: Seq::empty() };
    lemma_blocks_after(first.deltas, fresh, y, y.len());
    assert(after(first.deltas, fresh).deltas =~= first.deltas);
}

// ---------------------------------------------------------------- the end is written once

/// How many events have a type.
pub open spec fn count(events: Seq<SseV>, kind: Seq<char>) -> nat
    decreases events.len(),
{
    if events.len() == 0 {
        0
    } else {
        count(events.drop_last(), kind) + if events.last().event == Some(kind) {
            1nat
        } else {
            0nat
        }
    }
}

proof fn lemma_emit_count(w: WrittenV, e: SseV, kind: Seq<char>)
    ensures
        count(w.emit(e).events, kind) == count(w.events, kind) + if e.event == Some(kind) {
            1nat
        } else {
            0nat
        },
{
    assert(w.events.push(e).drop_last() =~= w.events);
}

proof fn lemma_kinds_differ()
    ensures
        "response.completed"@.len() == 18,
        "response.created"@.len() == 16,
        "response.in_progress"@.len() == 20,
        "response.output_item.added"@.len() == 26,
        "response.content_part.added"@.len() == 27,
        "response.reasoning_summary_text.delta"@.len() == 37,
        "response.output_text.delta"@.len() == 26,
        "response.function_call_arguments.delta"@.len() == 38,
        "response.output_item.done"@.len() == 25,
        "response.output_text.done"@.len() == 25,
        "response.content_part.done"@.len() == 26,
{
    reveal_strlit("response.completed");
    reveal_strlit("response.created");
    reveal_strlit("response.in_progress");
    reveal_strlit("response.output_item.added");
    reveal_strlit("response.content_part.added");
    reveal_strlit("response.reasoning_summary_text.delta");
    reveal_strlit("response.output_text.delta");
    reveal_strlit("response.function_call_arguments.delta");
    reveal_strlit("response.output_item.done");
    reveal_strlit("response.output_text.done");
    reveal_strlit("response.content_part.done");
}

/// From one state to a later one the beginning and the end were each written exactly where they
/// had not been before and have been now.
pub open spec fn once(a: WrittenV, b: WrittenV) -> bool {
    &&& a.state.started ==> b.state.started
    &&& a.state.completed ==> b.state.completed
    &&& count(b.events, "response.created"@) == count(a.events, "response.created"@)
        + if b.state.started && !a.state.started {
        1nat
    } else {
        0nat
    }
    &&& count(b.events, "response.completed"@) == count(a.events, "response.completed"@)
        + if b.state.completed && !a.state.completed {
        1nat
    } else {
        0nat
    }
}

proof fn lemma_emit_other(w: WrittenV, e: SseV)
    requires
        e.event is Some,
        (e.event->0).len() != 16,
        (e.event->0).len() != 18,
    ensures
        once(w, w.emit(e)),
{
    lemma_kinds_differ();
    lemma_emit_count(w, e, "response.created"@);
    lemma_emit_count(w, e, "response.completed"@);
}

proof fn lemma_started_once(w: WrittenV)
    ensures
        once(w, w.started()),
        w.started().state.completed == w.state.completed,
{
    lemma_kinds_differ();
    if !w.state.started {
        let s = FormatterV { started: true, ..w.state };
        let r = w.started();
        let n = w.events.len() as int;
        let e = r.events;
        let w1 = WrittenV { state: s, events: w.events }.emit(e[n]);
        let w2 = w1.emit(e[n + 1]);
        let w3 = w2.emit(e[n + 2]);
        let w4 = w3.emit(e[n + 3]);
        assert(r.events =~= w4.events);
        lemma_emit_count(WrittenV { state: s, events: w.events }, e[n], "response.created"@);
        lemma_emit_count(
            WrittenV { state: s, events: w.events },
            e[n],
            "response.completed"@,
        );
        lemma_emit_other(w1, e[n + 1]);
        lemma_emit_other(w2, e[n + 2]);
        lemma_emit_other(w3, e[n + 3]);
    }
}

proof fn lemma_calls_done_once(w: WrittenV, n: nat)
    ensures
        once(w, w.calls_done(n)),
        w.calls_done(n).state == w.state,
    decreases n,
{
    if n > 0 {
        lemma_calls_done_once(w, (n - 1) as nat);
        lemma_kinds_differ();
        let r = w.calls_done(n);
        lemma_emit_other(w.calls_done((n - 1) as nat), r.events.last());
    }
}

proof fn lemma_completed_once(w: WrittenV)
    ensures
        once(w, w.completed()),
{
    lemma_kinds_differ();
    if !w.state.completed {
        let start = WrittenV { state: FormatterV { completed: true, ..w.state }, ..w };
        let s = start.state;
        let w1 = match s.thinking {
            Some((id, index)) => {
                let e = crate::protocol::codec::openai_responses::stream::item_event(
                    "response.output_item.done"@,
                    index,
                    crate::protocol::codec::openai_responses::formatter::reasoning_value(
                        id,
                        s.reasoning,
                    ),
                );
                lemma_emit_other(start, e);
                start.emit(e)
            },
            None => start,
        };
        lemma_calls_done_once(w1, s.calls.len());
        let w2 = w1.calls_done(s.calls.len());
        let r = w.completed();
        let n = w2.events.len() as int;
        let e = r.events;
        let w3 = w2.emit(e[n]);
        let w4 = w3.emit(e[n + 1]);
        let w5 = w4.emit(e[n + 2]);
        let w6 = w5.emit(e[n + 3]);
        assert(r.events =~= w6.events);
        lemma_emit_other(w2, e[n]);
        lemma_emit_other(w3, e[n + 1]);
        lemma_emit_other(w4, e[n + 2]);
        lemma_emit_count(w5, e[n + 3], "response.created"@);
        lemma_emit_count(w5, e[n + 3], "response.completed"@);
    }
}

proof fn lemma_step_once(w: WrittenV, d: DeltaV, item: Seq<char>, call: Seq<char>)
    ensures
        once(w, w.step(d, item, call)),
{
    lemma_kinds_differ();
    lemma_started_once(w);
    let s = w.started();
    match d {
        DeltaV::MessageStart { id, model } => {
            let m = WrittenV {
                state: FormatterV {
                    resp_id: if id.len() == 0 {
                        w.state.resp_id
                    } else {
                        id
                    },
                    model,
                    ..w.state
                },
                ..w
            };
            lemma_started_once(m);
        },
        DeltaV::ThinkingDelta(t) => {
            let b = s.thinking_begun(item);
            if s.state.thinking is None {
                lemma_emit_other(s, b.events.last());
            }
            let r = b.thought(t);
            lemma_emit_other(b, r.events.last());
            assert(r.events =~= b.emit(r.events.last()).events);
        },
        DeltaV::TextDelta(t) => {
            let r = s.said(t);
            lemma_emit_other(s, r.events.last());
        },
        DeltaV::ToolCallStart { index, id, name } => {
            let r = s.call_begun(index, id, name, item, call);
            lemma_emit_other(s, r.events.last());
        },
        DeltaV::ToolCallDelta { index, arguments } => {
            let r = w.call_more(index, arguments);
            if r.events.len() > w.events.len() {
                lemma_emit_other(w, r.events.last());
            }
        },
        DeltaV::Done { .. } => {
            lemma_completed_once(w);
        },
        _ => {},
    }
}

/// A stream is begun and completed at most once each, however many deltas say so.
pub proof fn lemma_begun_and_completed_once(
    w: WrittenV,
    deltas: Seq<DeltaV>,
    items: Seq<Seq<char>>,
    calls: Seq<Seq<char>>,
    n: nat,
)
    ensures
        once(w, w.steps(deltas, items, calls, n)),
    decreases n,
{
    if n > 0 {
        let m = (n - 1) as nat;
        lemma_begun_and_completed_once(w, deltas, items, calls, m);
        lemma_step_once(
            w.steps(deltas, items, calls, m),
            deltas[n - 1],
            items[n - 1],
            calls[n - 1],
        );
    }
}

/// The text in the first `n` deltas.
pub open spec fn said(deltas: Seq<DeltaV>, n: nat) -> Seq<char>
    decreases n,
{
    if n == 0 {
        Seq::empty()
    } else {
        match deltas[n - 1] {
            DeltaV::TextDelta(t) => said(deltas, (n - 1) as nat) + t,
            _ => said(deltas, (n - 1) as nat),
        }
    }
}

/// The thinking in the first `n` deltas.
pub open spec fn thought(deltas: Seq<DeltaV>, n: nat) -> Seq<char>
    decreases n,
{
    if n == 0 {
        Seq::empty()
    } else {
        match deltas[n - 1] {
            DeltaV::ThinkingDelta(t) => thought(deltas, (n - 1) as nat) + t,
            _ => thought(deltas, (n - 1) as nat),
        }
    }
}

/// The whole response at the end holds all the text and all the thinking of the stream, in order.
pub proof fn lemma_text_gathered(
    w: WrittenV,
    deltas: Seq<DeltaV>,
    items: Seq<Seq<char>>,
    calls: Seq<Seq<char>>,
    n: nat,
)
    ensures
        w.steps(deltas, items, calls, n).state.text == w.state.text + said(deltas, n),
        w.steps(deltas, items, calls, n).state.reasoning == w.state.reasoning + thought(deltas, n),
    decreases n,
{
    if n == 0 {
        assert(w.state.text + said(deltas, 0) =~= w.state.text);
        assert(w.state.reasoning + thought(deltas, 0) =~= w.state.reasoning);
    } else {
        let m = (n - 1) as nat;
        lemma_text_gathered(w, deltas, items, calls, m);
        let s = w.steps(deltas, items, calls, m);
        lemma_calls_done_once(s, s.state.calls.len());
        match deltas[n - 1] {
            DeltaV::TextDelta(t) => {
                assert(w.state.text + said(deltas, m) + t =~= w.state.text + said(deltas, n));
            },
            DeltaV::ThinkingDelta(t) => {
                assert(w.state.reasoning + thought(deltas, m) + t =~= w.state.reasoning + thought(
                    deltas,
                    n,
                ));
            },
            DeltaV::Done { .. } => {
                lemma_finished_state(s);
            },
            _ => {},
        }
    }
}

proof fn lemma_finished_state(w: WrittenV)
    ensures
        w.completed().state.text == w.state.text,
        w.completed().state.reasoning == w.state.reasoning,
{
    let start = WrittenV { state: FormatterV { completed: true, ..w.state }, ..w };
    let s = start.state;
    let w1 = match s.thinking {
        Some((id, index)) => start.emit(
            crate::protocol::codec::openai_responses::stream::item_event(
                "response.output_item.done"@,
                index,
                crate::protocol::codec::openai_responses::formatter::reasoning_value(
                    id,
                    s.reasoning,
                ),
            ),
        ),
        None => start,
    };
    lemma_calls_done_once(w1, s.calls.len());
}

} // verus!
