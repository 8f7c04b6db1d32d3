//! Laws of where a stream begins and ends.
use vstd::prelude::*;

use crate::json::JsonV;
use crate::protocol::codec::openai_compatible::stream::{ModeV, ParserV, ReadV};
use crate::protocol::ir::stream::DeltaV;

verus! {

/// The reasons of the ends, in their order.
pub open spec fn reasons(deltas: Seq<DeltaV>) -> Seq<Seq<char>>
    decreases deltas.len(),
{
    if deltas.len() == 0 {
        Seq::empty()
    } else {
        match deltas.last() {
            DeltaV::Done { stop_reason } => reasons(deltas.drop_last()).push(stop_reason),
            _ => reasons(deltas.drop_last()),
        }
    }
}

/// How many beginnings there are.
pub open spec fn starts(deltas: Seq<DeltaV>) -> nat
    decreases deltas.len(),
{
    if deltas.len() == 0 {
        0
    } else {
        starts(deltas.drop_last()) + if deltas.last() is MessageStart {
            1nat
        } else {
            0nat
        }
    }
}

// ---------------------------------------------------------------- marks of the end

/// The end that a chunk marks: a reason that is not empty.
pub open spec fn chunk_mark(chunk: JsonV) -> Option<Seq<char>> {
    match crate::protocol::codec::openai_compatible::stream::choice_of(chunk) {
        Some(c) => c.filled("finish_reason"@),
        None => None,
    }
}

/// The end that a line marks: that of its chunk, or the closing mark, which says `stop`.
pub open spec fn line_mark(line: Seq<char>) -> Option<Seq<char>> {
    match crate::text::after_prefix(line, "data: "@) {
        Some(data) => if crate::text::trim_of(data) == "[DONE]"@ {
            Some("stop"@)
        } else {
            match crate::json::json_read(crate::text::trim_of(data)) {
                Some(chunk) => chunk_mark(chunk),
                None => None,
            }
        },
        None => None,
    }
}

/// The first of two marks.
pub open spec fn first(a: Option<Seq<char>>, b: Option<Seq<char>>) -> Option<Seq<char>> {
    if a is Some {
        a
    } else {
        b
    }
}

/// The first mark among the first `n` lines.
pub open spec fn lines_mark(v: Seq<Seq<char>>, n: nat) -> Option<Seq<char>>
    decreases n,
{
    if n == 0 {
        None
    } else {
        first(lines_mark(v, (n - 1) as nat), line_mark(v[n - 1]))
    }
}

/// The first mark among the first `n` events.
pub open spec fn blocks_mark(v: Seq<Seq<char>>, n: nat) -> Option<Seq<char>>
    decreases n,
{
    if n == 0 {
        None
    } else {
        let l = crate::text::lines_of(v[n - 1]);
        first(blocks_mark(v, (n - 1) as nat), lines_mark(l, l.len()))
    }
}

/// The first mark in what `raw` completes.
pub open spec fn read_mark(p: ParserV, raw: Seq<char>) -> Option<Seq<char>> {
    let v = crate::protocol::sse::blocks_of(p.buffer + raw);
    blocks_mark(v, v.len())
}

/// The mark in what is left at the end of the stream.
pub open spec fn ended_mark(p: ParserV) -> Option<Seq<char>> {
    if crate::text::trim_of(p.buffer).len() == 0 {
        None
    } else {
        read_mark(ParserV { buffer: Seq::empty(), mode: p.mode }, p.buffer + "\n\n"@)
    }
}

// ---------------------------------------------------------------- from one state to a later one

/// From one state to a later one the stream began at most once and only if it had not, and it ended
/// with the mark unless it had ended before.
pub open spec fn goes(a: ReadV, b: ReadV, mark: Option<Seq<char>>) -> bool {
    &&& b.mode.done == (a.mode.done || mark is Some)
    &&& reasons(b.deltas) == if a.mode.done || mark is None {
        reasons(a.deltas)
    } else {
        reasons(a.deltas).push(mark->0)
    }
    &&& a.mode.started ==> b.mode.started
    &&& starts(b.deltas) == starts(a.deltas) + if b.mode.started && !a.mode.started {
        1nat
    } else {
        0nat
    }
}

proof fn lemma_push(r: ReadV, x: DeltaV)
    ensures
        reasons(r.push(x).deltas) == match x {
            DeltaV::Done { stop_reason } => reasons(r.deltas).push(stop_reason),
            _ => reasons(r.deltas),
        },
        starts(r.push(x).deltas) == starts(r.deltas) + if x is MessageStart {
            1nat
        } else {
            0nat
        },
{
    assert(r.deltas.push(x).drop_last() =~= r.deltas);
}

proof fn lemma_sorted(r: ReadV)
    ensures
        goes(r, r.sorted(), None),
        r.sorted().mode.started == r.mode.started,
    decreases r.mode.think.len(),
{
    reveal_strlit("<think>");
    reveal_strlit("</think>");
    let held = r.mode.think;
    crate::protocol::codec::openai_compatible::stream::lemma_cut_shrinks(held, "<think>"@);
    crate::protocol::codec::openai_compatible::stream::lemma_cut_shrinks(held, "</think>"@);
    if r.mode.in_think {
        if let Some((thought, rest)) = crate::text::cut(held, "</think>"@) {
            let t = crate::text::trim_of(thought);
            lemma_push(r, DeltaV::ThinkingDelta(t));
            lemma_sorted(r.muse(t).hold(rest, false));
        }
    } else {
        match crate::text::cut(held, "<think>"@) {
            Some((before, rest)) => {
                lemma_push(r, DeltaV::TextDelta(before));
                lemma_sorted(r.say(before).hold(rest, true));
            },
            None => {
                let n = held.len() - crate::protocol::codec::openai_compatible::stream::torn(
                    held,
                    "<think>"@,
                );
                lemma_push(r, DeltaV::TextDelta(held.subrange(0, n)));
            },
        }
    }
}

proof fn lemma_calls(r: ReadV, v: Seq<JsonV>, n: nat)
    ensures
        goes(r, r.calls(v, n), None),
    decreases n,
{
    if n > 0 {
        lemma_calls(r, v, (n - 1) as nat);
        let s = r.calls(v, (n - 1) as nat);
        let tc = v[n - 1];
        let index = match tc.get_u64("index"@) {
            Some(n) => n as usize,
            None => 0,
        };
        if let Some(f) = tc.get("function"@) {
            let named = match f.get_str("name"@) {
                Some(name) => {
                    let x = DeltaV::ToolCallStart { index, id: tc.str_or_empty("id"@), name };
                    lemma_push(s, x);
                    s.push(x)
                },
                None => s,
            };
            if let Some(arguments) = f.filled("arguments"@) {
                lemma_push(named, DeltaV::ToolCallDelta { index, arguments });
            }
        }
    }
}

proof fn lemma_end(r: ReadV, reason: Seq<char>)
    ensures
        goes(r, r.end(reason), Some(reason)),
{
    let m = ReadV { mode: ModeV { done: true, ..r.mode }, ..r };
    lemma_push(m, DeltaV::Done { stop_reason: reason });
}

proof fn lemma_delta(r: ReadV, x: JsonV)
    ensures
        goes(r, r.delta(x), None),
{
    let r1 = match crate::protocol::codec::openai_compatible::stream::reasoning_of(x) {
        Some(t) => {
            lemma_push(r, DeltaV::ThinkingDelta(t));
            r.muse(t)
        },
        None => r,
    };
    let r2 = match x.get_str("content"@) {
        Some(t) => {
            lemma_sorted(r1.hold(r1.mode.think + t, r1.mode.in_think));
            r1.text(t)
        },
        None => r1,
    };
    if let Some(v) = x.get_array("tool_calls"@) {
        lemma_calls(r2, v, v.len());
    }
}

proof fn lemma_chunk(r: ReadV, chunk: JsonV)
    ensures
        goes(r, r.chunk(chunk), chunk_mark(chunk)),
{
    if let (Some(id), Some(model)) = (chunk.get_str("id"@), chunk.get_str("model"@)) {
        let m = ReadV { mode: ModeV { started: true, ..r.mode }, ..r };
        lemma_push(m, DeltaV::MessageStart { id, model });
    }
    let r1 = r.start(chunk);
    let u = DeltaV::Usage(crate::protocol::codec::openai_compatible::stream::usage_of(chunk));
    match crate::protocol::codec::openai_compatible::stream::choice_of(chunk) {
        Some(c) => {
            let r2 = match c.get("delta"@) {
                Some(x) => {
                    lemma_delta(r1, x);
                    r1.delta(x)
                },
                None => r1,
            };
            let r3 = match c.filled("finish_reason"@) {
                Some(reason) => {
                    lemma_end(r2, reason);
                    r2.end(reason)
                },
                None => r2,
            };
            lemma_push(r3, u);
        },
        None => {
            lemma_push(r1, u);
        },
    }
}

proof fn lemma_lines(r: ReadV, v: Seq<Seq<char>>, n: nat)
    ensures
        goes(r, r.lines(v, n), lines_mark(v, n)),
    decreases n,
{
    if n > 0 {
        lemma_lines(r, v, (n - 1) as nat);
        let s = r.lines(v, (n - 1) as nat);
        lemma_end(s, "stop"@);
        if let Some(data) = crate::text::after_prefix(v[n - 1], "data: "@) {
            if let Some(chunk) = crate::json::json_read(crate::text::trim_of(data)) {
                lemma_chunk(s, chunk);
            }
        }
        assert(goes(s, s.line(v[n - 1]), line_mark(v[n - 1])));
    }
}

proof fn lemma_blocks(r: ReadV, v: Seq<Seq<char>>, n: nat)
    ensures
        goes(r, r.blocks(v, n), blocks_mark(v, n)),
    decreases n,
{
    if n > 0 {
        lemma_blocks(r, v, (n - 1) as nat);
        let l = crate::text::lines_of(v[n - 1]);
        lemma_lines(r.blocks(v, (n - 1) as nat), l, l.len());
    }
}

// ---------------------------------------------------------------- the laws

/// What one piece of a stream does: it has one end where none was read before and it holds a mark,
/// with the reason of the first mark, and otherwise none; it has one beginning where none was read
/// before and one is known behind it, and otherwise none.
pub proof fn lemma_one_end(p: ParserV, raw: Seq<char>)
    ensures
        reasons(p.read(raw).deltas) == match read_mark(p, raw) {
            Some(reason) => if p.mode.done {
                Seq::empty()
            } else {
                seq![reason]
            },
            None => Seq::empty(),
        },
        p.behind(raw).mode.done == (p.mode.done || read_mark(p, raw) is Some),
        starts(p.read(raw).deltas) == if p.behind(raw).mode.started && !p.mode.started {
            1nat
        } else {
            0nat
        },
        p.mode.started ==> p.behind(raw).mode.started,
{
    let v = crate::protocol::sse::blocks_of(p.buffer + raw);
    let r = ReadV { mode: p.mode, deltas: Seq::empty() };
    lemma_blocks(r, v, v.len());
    assert(reasons(r.deltas) =~= Seq::<Seq<char>>::empty());
}

/// The state behind the first `n` pieces of a stream.
pub open spec fn state_behind(pieces: Seq<Seq<char>>, n: nat) -> ParserV
    decreases n,
{
    if n == 0 {
        ParserV::fresh()
    } else {
        state_behind(pieces, (n - 1) as nat).behind(pieces[n - 1])
    }
}

/// All deltas of the first `n` pieces of a stream.
pub open spec fn deltas_behind(pieces: Seq<Seq<char>>, n: nat) -> Seq<DeltaV>
    decreases n,
{
    if n == 0 {
        Seq::empty()
    } else {
        deltas_behind(pieces, (n - 1) as nat) + state_behind(pieces, (n - 1) as nat).read(
            pieces[n - 1],
        ).deltas
    }
}

/// The first mark in the first `n` pieces of a stream.
pub open spec fn mark_behind(pieces: Seq<Seq<char>>, n: nat) -> Option<Seq<char>>
    decreases n,
{
    if n == 0 {
        None
    } else {
        first(
            mark_behind(pieces, (n - 1) as nat),
            read_mark(state_behind(pieces, (n - 1) as nat), pieces[n - 1]),
        )
    }
}

proof fn lemma_cat(a: Seq<DeltaV>, b: Seq<DeltaV>)
    ensures
        reasons(a + b) == reasons(a) + reasons(b),
        starts(a + b) == starts(a) + starts(b),
    decreases b.len(),
{
    if b.len() == 0 {
        assert(a + b =~= a);
        assert(reasons(a) + reasons(b) =~= reasons(a));
    } else {
        lemma_cat(a, b.drop_last());
        assert((a + b).drop_last() =~= a + b.drop_last());
        if let DeltaV::Done { stop_reason } = b.last() {
            assert(reasons(a) + reasons(b.drop_last()).push(stop_reason) =~= (reasons(a) + reasons(
                b.drop_last(),
            )).push(stop_reason));
        }
    }
}

proof fn lemma_pieces(pieces: Seq<Seq<char>>, n: nat)
    ensures
        reasons(deltas_behind(pieces, n)) == match mark_behind(pieces, n) {
            Some(reason) => seq![reason],
            None => Seq::empty(),
        },
        state_behind(pieces, n).mode.done == (mark_behind(pieces, n) is Some),
        starts(deltas_behind(pieces, n)) == if state_behind(pieces, n).mode.started {
            1nat
        } else {
            0nat
        },
    decreases n,
{
    if n > 0 {
        lemma_pieces(pieces, (n - 1) as nat);
        let p = state_behind(pieces, (n - 1) as nat);
        let d = deltas_behind(pieces, (n - 1) as nat);
        lemma_one_end(p, pieces[n - 1]);
        lemma_cat(d, p.read(pieces[n - 1]).deltas);
        assert(reasons(d) + Seq::<Seq<char>>::empty() =~= reasons(d));
        if let Some(reason) = read_mark(p, pieces[n - 1]) {
            assert(Seq::<Seq<char>>::empty() + seq![reason] =~= seq![reason]);
        }
    } else {
        assert(reasons(deltas_behind(pieces, n)) =~= Seq::<Seq<char>>::empty());
    }
}

/// A stream begins at most once and ends at most once, over all its pieces and its end. The end
/// carries the reason of the first mark: a reason that is not empty, or `stop` where the closing
/// mark comes first. Without a mark there is no end.
pub proof fn lemma_begun_and_ended_once(pieces: Seq<Seq<char>>)
    ensures
        ({
            let p = state_behind(pieces, pieces.len());
            let all = deltas_behind(pieces, pieces.len()) + p.ended().deltas;
            &&& reasons(all) == match first(mark_behind(pieces, pieces.len()), ended_mark(p)) {
                Some(reason) => seq![reason],
                None => Seq::empty(),
            }
            &&& starts(all) <= 1
        }),
{
    let p = state_behind(pieces, pieces.len());
    let d = deltas_behind(pieces, pieces.len());
    lemma_pieces(pieces, pieces.len());
    lemma_cat(d, p.ended().deltas);
    let last = if crate::text::trim_of(p.buffer).len() == 0 {
        ReadV { mode: p.mode, deltas: Seq::empty() }
    } else {
        let q = ParserV { buffer: Seq::empty(), mode: p.mode };
        lemma_one_end(q, p.buffer + "\n\n"@);
        q.read(p.buffer + "\n\n"@)
    };
    assert(reasons(Seq::<DeltaV>::empty()) =~= Seq::<Seq<char>>::empty());
    let t = if last.mode.in_think {
        "<think>"@ + last.mode.think
    } else {
        last.mode.think
    };
    lemma_push(last, DeltaV::TextDelta(t));
    assert(reasons(d) + Seq::<Seq<char>>::empty() =~= reasons(d));
    if let Some(reason) = ended_mark(p) {
        assert(Seq::<Seq<char>>::empty() + seq![reason] =~= seq![reason]);
    }
}

} // verus!
