//! A law of a stream that is written: its blocks come one after the other.
use vstd::prelude::*;

use crate::json::JsonV;
use crate::protocol::codec::anthropic_messages::stream::{FormatterV, WrittenV};
use crate::protocol::types::StreamDeltaV;
use crate::protocol::SseV;

verus! {

// ---------------------------------------------------------------- block events

/// The event that opens a block.
pub open spec fn start_event(index: nat, block: JsonV) -> SseV {
    crate::protocol::codec::anthropic_messages::stream::json_event(
        "content_block_start"@,
        crate::protocol::codec::anthropic_messages::stream::block_event(
            "content_block_start"@,
            index as usize,
            "content_block"@,
            block,
        ),
    )
}

/// An event that adds to a block.
pub open spec fn delta_event(index: nat, delta: JsonV) -> SseV {
    crate::protocol::codec::anthropic_messages::stream::json_event(
        "content_block_delta"@,
        crate::protocol::codec::anthropic_messages::stream::block_event(
            "content_block_delta"@,
            index as usize,
            "delta"@,
            delta,
        ),
    )
}

/// The event that closes a block.
pub open spec fn stop_event(index: nat) -> SseV {
    crate::protocol::codec::anthropic_messages::stream::json_event(
        "content_block_stop"@,
        JsonV::obj().with("type"@, JsonV::Text("content_block_stop"@)).with(
            "index"@,
            JsonV::num(index as u64),
        ),
    )
}

/// Whether an event is about no block.
pub open spec fn is_aside(e: SseV) -> bool {
    e.event == Some("message_start"@) || e.event == Some("ping"@)
}

/// Whether the block events among the events are, in their order, runs of a start, deltas and a
/// stop, for the blocks 0, 1 and so on up to `index`; where a block is open, that of `index` has
/// been started and not stopped.
pub open spec fn in_runs(events: Seq<SseV>, index: nat, open: bool) -> bool
    decreases events.len(),
{
    if events.len() == 0 {
        index == 0 && !open
    } else {
        let e = events.last();
        let before = events.drop_last();
        ||| is_aside(e) && in_runs(before, index, open)
        ||| open && (exists|block: JsonV| e == #[trigger] start_event(index, block)) && in_runs(
            before,
            index,
            false,
        )
        ||| open && (exists|delta: JsonV| e == #[trigger] delta_event(index, delta)) && in_runs(
            before,
            index,
            true,
        )
        ||| !open && index > 0 && e == stop_event((index - 1) as nat) && in_runs(
            before,
            (index - 1) as nat,
            true,
        )
    }
}

/// Whether the start of the message is the first of the events, and comes once.
pub open spec fn headed(events: Seq<SseV>) -> bool {
    &&& events.len() > 0
    &&& events[0].event == Some("message_start"@)
    &&& forall|i: int|
        0 < i < events.len() ==> (#[trigger] events[i]).event != Some("message_start"@)
}

proof fn lemma_names()
    ensures
        "ping"@ != "message_start"@,
        "content_block_start"@ != "message_start"@,
        "content_block_delta"@ != "message_start"@,
        "content_block_stop"@ != "message_start"@,
        "message_delta"@ != "message_start"@,
        "message_stop"@ != "message_start"@,
{
    reveal_strlit("ping");
    reveal_strlit("message_start");
    reveal_strlit("content_block_start");
    reveal_strlit("content_block_delta");
    reveal_strlit("content_block_stop");
    reveal_strlit("message_delta");
    reveal_strlit("message_stop");
    assert("message_start"@.len() == 13);
    assert("ping"@.len() == 4 && "message_stop"@.len() == 12);
    assert("message_delta"@[8] == 'd' && "message_start"@[8] == 's');
}

proof fn lemma_push(events: Seq<SseV>, e: SseV, index: nat, open: bool)
    requires
        in_runs(events, index, open),
    ensures
        is_aside(e) ==> in_runs(events.push(e), index, open),
        !open && (exists|block: JsonV| e == #[trigger] start_event(index, block)) ==> in_runs(
            events.push(e),
            index,
            true,
        ),
        open && (exists|delta: JsonV| e == #[trigger] delta_event(index, delta)) ==> in_runs(
            events.push(e),
            index,
            true,
        ),
        open && e == stop_event(index) ==> in_runs(events.push(e), index + 1, false),
{
    assert(events.push(e).drop_last() =~= events);
    assert(events.push(e).last() == e);
}

// ---------------------------------------------------------------- what holds while writing

/// Whether a block is open.
pub open spec fn is_open(s: FormatterV) -> bool {
    s.in_text_block || s.in_thinking_block || s.in_tool_block
}

/// Whether at most one block is open.
pub open spec fn one_open(s: FormatterV) -> bool {
    &&& !(s.in_text_block && s.in_thinking_block)
    &&& !(s.in_text_block && s.in_tool_block)
    &&& !(s.in_thinking_block && s.in_tool_block)
}

/// What holds of a state and the events that led to it.
pub open spec fn sound(w: WrittenV) -> bool {
    &&& in_runs(w.events, w.state.block_index as nat, is_open(w.state))
    &&& one_open(w.state)
    &&& w.state.message_started ==> headed(w.events)
    &&& !w.state.message_started ==> w.events.len() == 0
}

proof fn lemma_emit(w: WrittenV, e: SseV)
    requires
        w.state.message_started,
        headed(w.events),
        e.event is Some,
        e.event->0 != "message_start"@,
    ensures
        headed(w.emit(e).events),
{
    let v = w.events.push(e);
    assert(v[0] == w.events[0]);
    assert forall|i: int| 0 < i < v.len() implies (#[trigger] v[i]).event != Some(
        "message_start"@,
    ) by {
        if i < w.events.len() {
            assert(v[i] == w.events[i]);
        }
    }
}

proof fn lemma_started(w: WrittenV)
    requires
        sound(w),
    ensures
        sound(w.started()),
        w.started().state == (FormatterV { message_started: true, ..w.state }),
{
    lemma_names();
    if !w.state.message_started {
        let a = crate::protocol::codec::anthropic_messages::stream::json_event(
            "message_start"@,
            crate::protocol::codec::anthropic_messages::stream::message_start_json(w.state),
        );
        let b = SseV::typed("ping"@, "{\"type\":\"ping\"}"@);
        let i = w.state.block_index as nat;
        let o = is_open(w.state);
        lemma_push(w.events, a, i, o);
        lemma_push(w.events.push(a), b, i, o);
        let v = w.events.push(a).push(b);
        assert(v[0] == a && v[1] == b);
    }
}

/// A block that is open is closed.
proof fn lemma_stopped(w: WrittenV)
    requires
        sound(w),
        w.state.message_started,
        is_open(w.state),
        w.state.block_index < usize::MAX,
    ensures
        headed(w.stopped().events),
        in_runs(w.stopped().events, (w.state.block_index + 1) as nat, false),
        w.stopped().state.block_index == w.state.block_index + 1,
{
    lemma_names();
    let e = stop_event(w.state.block_index as nat);
    lemma_push(w.events, e, w.state.block_index as nat, true);
    lemma_emit(w, e);
}

proof fn lemma_opened(w: WrittenV, block: JsonV)
    requires
        sound(w),
        w.state.message_started,
        !is_open(w.state),
    ensures
        headed(w.block_opened(block).events),
        in_runs(w.block_opened(block).events, w.state.block_index as nat, true),
{
    lemma_names();
    let e = start_event(w.state.block_index as nat, block);
    lemma_push(w.events, e, w.state.block_index as nat, false);
    lemma_emit(w, e);
}

proof fn lemma_grown(w: WrittenV, delta: JsonV)
    requires
        sound(w),
        w.state.message_started,
        is_open(w.state),
    ensures
        sound(w.block_grown(delta)),
{
    lemma_names();
    let e = delta_event(w.state.block_index as nat, delta);
    lemma_push(w.events, e, w.state.block_index as nat, true);
    lemma_emit(w, e);
}

/// The number of blocks begun.
pub open spec fn begun(s: FormatterV) -> nat {
    if is_open(s) {
        s.block_index as nat + 1
    } else {
        s.block_index as nat
    }
}

/// Closing the block of a kind, if it is the one that is open, and the others untouched.
proof fn lemma_closed(w: WrittenV)
    requires
        sound(w),
        w.state.message_started,
        w.state.block_index < usize::MAX,
    ensures
        sound(w.text_closed()),
        sound(w.thinking_closed()),
        sound(w.tool_closed()),
        begun(w.text_closed().state) == begun(w.state),
        begun(w.thinking_closed().state) == begun(w.state),
        begun(w.tool_closed().state) == begun(w.state),
{
    if is_open(w.state) {
        lemma_stopped(w);
    }
}

// ---------------------------------------------------------------- orderly deltas

/// Whether among the first `n` deltas a call was begun and no text came behind it.
pub open spec fn tool_open(deltas: Seq<StreamDeltaV>, n: nat) -> bool
    decreases n,
{
    if n == 0 {
        false
    } else {
        match deltas[n - 1] {
            StreamDeltaV::ToolCallStart { .. } => true,
            StreamDeltaV::TextDelta(t) => if crate::text::trim_of(t).len() > 0 {
                false
            } else {
                tool_open(deltas, (n - 1) as nat)
            },
            _ => tool_open(deltas, (n - 1) as nat),
        }
    }
}

/// Whether the first `n` deltas end with a call that was begun, and nothing but its arguments and
/// token counts behind it.
pub open spec fn at_call(deltas: Seq<StreamDeltaV>, n: nat) -> bool
    decreases n,
{
    if n == 0 {
        false
    } else {
        match deltas[n - 1] {
            StreamDeltaV::ToolCallStart { .. } => true,
            StreamDeltaV::ToolCallDelta { .. } => at_call(deltas, (n - 1) as nat),
            StreamDeltaV::Usage(_) => at_call(deltas, (n - 1) as nat),
            _ => false,
        }
    }
}

/// Whether deltas are those of one whole response: no foreign event, one end, which is the last;
/// no thinking behind a call unless text stands between; and arguments right behind their call.
pub open spec fn orderly(deltas: Seq<StreamDeltaV>) -> bool {
    &&& deltas.len() > 0
    &&& deltas.last() is Done
    &&& forall|i: int|
        0 <= i < deltas.len() ==> {
            &&& !(#[trigger] deltas[i] is RawEvent)
            &&& deltas[i] is Done ==> i == deltas.len() - 1
            &&& deltas[i] is ReasoningDelta || deltas[i] is ReasoningSignature ==> !tool_open(
                deltas,
                i as nat,
            )
            &&& deltas[i] is ToolCallDelta ==> at_call(deltas, i as nat)
        }
}

proof fn lemma_step(w: WrittenV, deltas: Seq<StreamDeltaV>, n: nat, fresh: Seq<char>)
    requires
        orderly(deltas),
        n < deltas.len() - 1,
        deltas.len() <= usize::MAX,
        sound(w),
        begun(w.state) <= n,
        w.state.in_tool_block ==> tool_open(deltas, n),
        at_call(deltas, n) ==> w.state.in_tool_block,
    ensures
        ({
            let v = w.step(deltas[n as int], fresh);
            &&& sound(v)
            &&& begun(v.state) <= n + 1
            &&& v.state.in_tool_block ==> tool_open(deltas, n + 1)
            &&& at_call(deltas, n + 1) ==> v.state.in_tool_block
        }),
{
    let d = deltas[n as int];
    assert(!(d is RawEvent) && !(d is Done));
    let s = w.started();
    lemma_started(w);
    lemma_closed(s);
    match d {
        StreamDeltaV::MessageStart { id, model } => {
            let v = WrittenV { state: FormatterV { id, model, ..w.state }, ..w };
            assert(sound(v));
            lemma_started(v);
        },
        StreamDeltaV::ReasoningDelta(t) => {
            let a = s.text_closed();
            if !a.state.in_thinking_block {
                lemma_opened(
                    a,
                    crate::protocol::codec::anthropic_messages::stream::thinking_block(
                        Seq::empty(),
                    ),
                );
            }
            let b = a.thinking_opened();
            assert(sound(b));
            lemma_grown(
                b,
                crate::protocol::codec::anthropic_messages::stream::delta_of(
                    "thinking_delta"@,
                    "thinking"@,
                    t,
                ),
            );
        },
        StreamDeltaV::ReasoningSignature(t) => {
            let a = s.text_closed();
            if !a.state.in_thinking_block {
                lemma_opened(
                    a,
                    crate::protocol::codec::anthropic_messages::stream::thinking_block(
                        Seq::empty(),
                    ),
                );
            }
            let b = a.thinking_opened();
            assert(sound(b));
            lemma_grown(
                b,
                crate::protocol::codec::anthropic_messages::stream::delta_of(
                    "signature_delta"@,
                    "signature"@,
                    t,
                ),
            );
        },
        StreamDeltaV::TextDelta(t) => {
            if w.state.in_text_block || crate::text::trim_of(t).len() > 0 {
                let a = s.thinking_closed();
                lemma_closed(a);
                let b = a.tool_closed();
                if !b.state.in_text_block {
                    lemma_opened(
                        b,
                        crate::protocol::codec::anthropic_messages::stream::text_block(
                            Seq::empty(),
                        ),
                    );
                }
                let c = b.text_opened();
                assert(sound(c));
                lemma_grown(
                    c,
                    crate::protocol::codec::anthropic_messages::stream::delta_of(
                        "text_delta"@,
                        "text"@,
                        t,
                    ),
                );
            }
        },
        StreamDeltaV::ToolCallStart { index, id, name } => {
            let a = s.thinking_closed();
            lemma_closed(a);
            let b = a.text_closed();
            lemma_closed(b);
            let c = b.tool_closed();
            assert(!is_open(c.state));
            let own = if crate::text::trim_of(id).len() == 0 {
                "toolu_"@ + fresh
            } else {
                id
            };
            lemma_opened(
                c,
                crate::protocol::codec::anthropic_messages::stream::tool_use_block(
                    own,
                    name,
                    JsonV::obj(),
                ),
            );
        },
        StreamDeltaV::ToolCallDelta { index, arguments } => {
            assert(at_call(deltas, n));
            lemma_open_started(w);
            lemma_grown(
                w,
                crate::protocol::codec::anthropic_messages::stream::delta_of(
                    "input_json_delta"@,
                    "partial_json"@,
                    arguments,
                ),
            );
        },
        _ => {},
    }
}

proof fn lemma_open_started(w: WrittenV)
    requires
        sound(w),
        is_open(w.state),
    ensures
        w.state.message_started,
{
}

proof fn lemma_steps(deltas: Seq<StreamDeltaV>, fresh: Seq<Seq<char>>, id: Seq<char>, n: nat)
    requires
        orderly(deltas),
        n < deltas.len(),
        deltas.len() <= usize::MAX,
    ensures
        ({
            let w = crate::protocol::codec::anthropic_messages::stream::written(
                FormatterV::fresh(id),
                Seq::empty(),
            ).steps(deltas, fresh, n);
            &&& sound(w)
            &&& begun(w.state) <= n
            &&& w.state.in_tool_block ==> tool_open(deltas, n)
            &&& at_call(deltas, n) ==> w.state.in_tool_block
        }),
    decreases n,
{
    if n > 0 {
        lemma_steps(deltas, fresh, id, (n - 1) as nat);
        let w = crate::protocol::codec::anthropic_messages::stream::written(
            FormatterV::fresh(id),
            Seq::empty(),
        ).steps(deltas, fresh, (n - 1) as nat);
        lemma_step(w, deltas, (n - 1) as nat, fresh[n - 1]);
    }
}

/// The events of a whole response: the start of the message comes once and first; the block events
/// are runs of a start, deltas and a stop, with consecutive indices, each block closed before the
/// next begins; and the last two events end the message.
pub proof fn lemma_blocks_in_runs(
    deltas: Seq<StreamDeltaV>,
    fresh: Seq<Seq<char>>,
    id: Seq<char>,
)
    requires
        orderly(deltas),
        deltas.len() <= usize::MAX,
    ensures
        ({
            let w = crate::protocol::codec::anthropic_messages::stream::written(
                FormatterV::fresh(id),
                Seq::empty(),
            ).steps(deltas, fresh, deltas.len());
            let n = w.events.len();
            &&& n >= 2
            &&& headed(w.events)
            &&& in_runs(w.events.take(n - 2), w.state.block_index as nat, false)
            &&& w.events[n - 2].event == Some("message_delta"@)
            &&& w.events[n - 1].event == Some("message_stop"@)
        }),
{
    let n = (deltas.len() - 1) as nat;
    lemma_steps(deltas, fresh, id, n);
    let w = crate::protocol::codec::anthropic_messages::stream::written(
        FormatterV::fresh(id),
        Seq::empty(),
    ).steps(deltas, fresh, n);
    let last = deltas[n as int];
    assert(last == deltas.last());
    let stop_reason = last->stop_reason;
    let s = w.started();
    lemma_started(w);
    lemma_closed(s);
    let a = s.thinking_closed();
    lemma_closed(a);
    let b = a.text_closed();
    lemma_closed(b);
    let c = b.tool_closed();
    assert(!is_open(c.state));
    lemma_names();
    let v = c.ended(stop_reason);
    assert(v.events.take(v.events.len() - 2) =~= c.events);
    let one = v.events[v.events.len() - 2];
    lemma_emit(c, one);
    lemma_emit(c.emit(one), v.events[v.events.len() - 1]);
    assert(v.events =~= c.emit(one).emit(v.events[v.events.len() - 1]).events);
}

} // verus!
