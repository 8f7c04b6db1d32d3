//! Laws of reading a stream: how it is cut does not matter, and unclosed thinking is text.
use vstd::prelude::*;

use crate::json::JsonV;
use crate::protocol::codec::openai_compatible::stream::{ModeV, ParserV, ReadV};
use crate::protocol::ir::stream::DeltaV;

verus! {

// ---------------------------------------------------------------- what was read before stays

/// What was read behind other deltas.
pub open spec fn after(d: Seq<DeltaV>, r: ReadV) -> ReadV {
    ReadV { mode: r.mode, deltas: d + r.deltas }
}

proof fn lemma_push_after(d: Seq<DeltaV>, r: ReadV, x: DeltaV)
    ensures
        after(d, r).push(x) == after(d, r.push(x)),
{
    assert((d + r.deltas).push(x) =~= d + r.deltas.push(x));
}

proof fn lemma_sorted_after(d: Seq<DeltaV>, r: ReadV)
    ensures
        after(d, r).sorted() == after(d, r.sorted()),
    decreases r.mode.think.len(),
{
    reveal_strlit("<think>");
    reveal_strlit("</think>");
    let held = r.mode.think;
    crate::protocol::codec::openai_compatible::stream::lemma_cut_shrinks(held, "<think>"@);
    crate::protocol::codec::openai_compatible::stream::lemma_cut_shrinks(held, "</think>"@);
    if r.mode.in_think {
        if let Some((thought, rest)) = crate::text::cut(held, "</think>"@) {
            let t = crate::text::trim_of(thought);
            lemma_push_after(d, r, DeltaV::ThinkingDelta(t));
            lemma_sorted_after(d, r.muse(t).hold(rest, false));
        }
    } else {
        match crate::text::cut(held, "<think>"@) {
            Some((before, rest)) => {
                lemma_push_after(d, r, DeltaV::TextDelta(before));
                lemma_sorted_after(d, r.say(before).hold(rest, true));
            },
            None => {
                let n = held.len() - crate::protocol::codec::openai_compatible::stream::torn(
                    held,
                    "<think>"@,
                );
                lemma_push_after(d, r, DeltaV::TextDelta(held.subrange(0, n)));
            },
        }
    }
}

proof fn lemma_call_after(d: Seq<DeltaV>, r: ReadV, tc: JsonV)
    ensures
        after(d, r).call(tc) == after(d, r.call(tc)),
{
    let index = match tc.get_u64("index"@) {
        Some(n) => n as usize,
        None => 0,
    };
    if let Some(f) = tc.get("function"@) {
        let named = match f.get_str("name"@) {
            Some(name) => {
                let x = DeltaV::ToolCallStart { index, id: tc.str_or_empty("id"@), name };
                lemma_push_after(d, r, x);
                r.push(x)
            },
            None => r,
        };
        if let Some(arguments) = f.filled("arguments"@) {
            lemma_push_after(d, named, DeltaV::ToolCallDelta { index, arguments });
        }
    }
}

proof fn lemma_calls_after(d: Seq<DeltaV>, r: ReadV, v: Seq<JsonV>, n: nat)
    ensures
        after(d, r).calls(v, n) == after(d, r.calls(v, n)),
    decreases n,
{
    if n > 0 {
        lemma_calls_after(d, r, v, (n - 1) as nat);
        lemma_call_after(d, r.calls(v, (n - 1) as nat), v[n - 1]);
    }
}

proof fn lemma_delta_after(d: Seq<DeltaV>, r: ReadV, x: JsonV)
    ensures
        after(d, r).delta(x) == after(d, r.delta(x)),
{
    let r1 = match crate::protocol::codec::openai_compatible::stream::reasoning_of(x) {
        Some(t) => {
            lemma_push_after(d, r, DeltaV::ThinkingDelta(t));
            r.muse(t)
        },
        None => r,
    };
    let r2 = match x.get_str("content"@) {
        Some(t) => {
            lemma_sorted_after(d, r1.hold(r1.mode.think + t, r1.mode.in_think));
            r1.text(t)
        },
        None => r1,
    };
    if let Some(v) = x.get_array("tool_calls"@) {
        lemma_calls_after(d, r2, v, v.len());
    }
}

proof fn lemma_end_after(d: Seq<DeltaV>, r: ReadV, reason: Seq<char>)
    ensures
        after(d, r).end(reason) == after(d, r.end(reason)),
{
    let m = ReadV { mode: ModeV { done: true, ..r.mode }, ..r };
    lemma_push_after(d, m, DeltaV::Done { stop_reason: reason });
}

proof fn lemma_chunk_after(d: Seq<DeltaV>, r: ReadV, chunk: JsonV)
    ensures
        after(d, r).chunk(chunk) == after(d, r.chunk(chunk)),
{
    if let (Some(id), Some(model)) = (chunk.get_str("id"@), chunk.get_str("model"@)) {
        let m = ReadV { mode: ModeV { started: true, ..r.mode }, ..r };
        lemma_push_after(d, m, DeltaV::MessageStart { id, model });
    }
    let r1 = r.start(chunk);
    let u = DeltaV::Usage(crate::protocol::codec::openai_compatible::stream::usage_of(chunk));
    match crate::protocol::codec::openai_compatible::stream::choice_of(chunk) {
        Some(c) => {
            let r2 = match c.get("delta"@) {
                Some(x) => {
                    lemma_delta_after(d, r1, x);
                    r1.delta(x)
                },
                None => r1,
            };
            let r3 = match c.filled("finish_reason"@) {
                Some(reason) => {
                    lemma_end_after(d, r2, reason);
                    r2.end(reason)
                },
                None => r2,
            };
            lemma_push_after(d, r3, u);
        },
        None => {
            lemma_push_after(d, r1, u);
        },
    }
}

proof fn lemma_line_after(d: Seq<DeltaV>, r: ReadV, line: Seq<char>)
    ensures
        after(d, r).line(line) == after(d, r.line(line)),
{
    lemma_end_after(d, r, "stop"@);
    if let Some(data) = crate::text::after_prefix(line, "data: "@) {
        if let Some(chunk) = crate::json::json_read(crate::text::trim_of(data)) {
            lemma_chunk_after(d, r, chunk);
        }
    }
}

proof fn lemma_lines_after(d: Seq<DeltaV>, r: ReadV, v: Seq<Seq<char>>, n: nat)
    ensures
        after(d, r).lines(v, n) == after(d, r.lines(v, n)),
    decreases n,
{
    if n > 0 {
        lemma_lines_after(d, r, v, (n - 1) as nat);
        lemma_line_after(d, r.lines(v, (n - 1) as nat), v[n - 1]);
    }
}

proof fn lemma_blocks_after(d: Seq<DeltaV>, r: ReadV, v: Seq<Seq<char>>, n: nat)
    ensures
        after(d, r).blocks(v, n) == after(d, r.blocks(v, n)),
    decreases n,
{
    if n > 0 {
        lemma_blocks_after(d, r, v, (n - 1) as nat);
        let l = crate::text::lines_of(v[n - 1]);
        lemma_lines_after(d, r.blocks(v, (n - 1) as nat), l, l.len());
    }
}

proof fn lemma_blocks_cat(r: ReadV, x: Seq<Seq<char>>, y: Seq<Seq<char>>, n: nat)
    requires
        n <= y.len(),
    ensures
        r.blocks(x + y, x.len() + n) == r.blocks(x, x.len()).blocks(y, n),
    decreases n,
{
    if n == 0 {
        lemma_blocks_prefix(r, x, y, x.len());
    } else {
        lemma_blocks_cat(r, x, y, (n - 1) as nat);
        assert((x + y)[x.len() + n - 1] == y[n - 1]);
    }
}

proof fn lemma_blocks_prefix(r: ReadV, x: Seq<Seq<char>>, y: Seq<Seq<char>>, n: nat)
    requires
        n <= x.len(),
    ensures
        r.blocks(x + y, n) == r.blocks(x, n),
    decreases n,
{
    if n > 0 {
        lemma_blocks_prefix(r, x, y, (n - 1) as nat);
        assert((x + y)[n - 1] == x[n - 1]);
    }
}

/// A stream in two pieces gives the deltas, and leaves the state, of the stream in one.
pub proof fn lemma_stream_chunking(p: ParserV, a: Seq<char>, b: Seq<char>)
    ensures
        p.read(a + b).deltas == p.read(a).deltas + p.behind(a).read(b).deltas,
        p.behind(a + b) == p.behind(a).behind(b),
{
    assert(p.buffer + (a + b) =~= (p.buffer + a) + b);
    crate::protocol::sse::lemma_chunking(p.buffer + a, b);
    let x = crate::protocol::sse::blocks_of(p.buffer + a);
    let y = crate::protocol::sse::blocks_of(crate::protocol::sse::rest_of(p.buffer + a) + b);
    let start = ReadV { mode: p.mode, deltas: Seq::empty() };
    lemma_blocks_cat(start, x, y, y.len());
    let first = p.read(a);
    let fresh = ReadV { mode: first.mode, deltas: Seq::empty() };
    lemma_blocks_after(first.deltas, fresh, y, y.len());
    assert(after(first.deltas, fresh).deltas =~= first.deltas);
}

// ---------------------------------------------------------------- thinking

/// The text in deltas.
pub open spec fn said(deltas: Seq<DeltaV>) -> Seq<char>
    decreases deltas.len(),
{
    if deltas.len() == 0 {
        Seq::empty()
    } else {
        match deltas.last() {
            DeltaV::TextDelta(t) => said(deltas.drop_last()) + t,
            _ => said(deltas.drop_last()),
        }
    }
}

/// The thoughts in deltas.
pub open spec fn thought(deltas: Seq<DeltaV>) -> Seq<Seq<char>>
    decreases deltas.len(),
{
    if deltas.len() == 0 {
        Seq::empty()
    } else {
        match deltas.last() {
            DeltaV::ThinkingDelta(t) => thought(deltas.drop_last()).push(t),
            _ => thought(deltas.drop_last()),
        }
    }
}

/// What text comes to: what is said, what is thought, what is held back and whether that is
/// thinking.
pub struct SplitV {
    pub said: Seq<char>,
    pub thought: Seq<Seq<char>>,
    pub held: Seq<char>,
    pub in_think: bool,
}

impl SplitV {
    /// Behind something else.
    pub open spec fn behind(self, said: Seq<char>, thought: Seq<Seq<char>>) -> SplitV {
        SplitV { said: said + self.said, thought: thought + self.thought, ..self }
    }

    pub open spec fn of(held: Seq<char>, in_think: bool) -> SplitV
        decreases held.len(),
    {
        proof {
            reveal_strlit("<think>");
            reveal_strlit("</think>");
            crate::protocol::codec::openai_compatible::stream::lemma_cut_shrinks(
                held,
                "<think>"@,
            );
            crate::protocol::codec::openai_compatible::stream::lemma_cut_shrinks(
                held,
                "</think>"@,
            );
        }
        if in_think {
            match crate::text::cut(held, "</think>"@) {
                Some((t, rest)) => SplitV::of(rest, false).behind(
                    Seq::empty(),
                    if crate::text::trim_of(t).len() > 0 {
                        Seq::empty().push(crate::text::trim_of(t))
                    } else {
                        Seq::empty()
                    },
                ),
                None => SplitV { said: Seq::empty(), thought: Seq::empty(), held, in_think },
            }
        } else {
            match crate::text::cut(held, "<think>"@) {
                Some((before, rest)) => SplitV::of(rest, true).behind(before, Seq::empty()),
                None => {
                    let n = held.len() - crate::protocol::codec::openai_compatible::stream::torn(
                        held,
                        "<think>"@,
                    );
                    SplitV {
                        said: held.subrange(0, n),
                        thought: Seq::empty(),
                        held: held.subrange(n, held.len() as int),
                        in_think,
                    }
                },
            }
        }
    }
}

proof fn lemma_say(r: ReadV, t: Seq<char>)
    ensures
        said(r.say(t).deltas) == said(r.deltas) + t,
        thought(r.say(t).deltas) == thought(r.deltas),
{
    assert(r.deltas.push(DeltaV::TextDelta(t)).drop_last() =~= r.deltas);
    if t.len() == 0 {
        assert(said(r.deltas) + t =~= said(r.deltas));
    }
}

proof fn lemma_muse(r: ReadV, t: Seq<char>)
    ensures
        said(r.muse(t).deltas) == said(r.deltas),
        thought(r.muse(t).deltas) == thought(r.deltas) + if t.len() > 0 {
            Seq::empty().push(t)
        } else {
            Seq::empty()
        },
{
    assert(r.deltas.push(DeltaV::ThinkingDelta(t)).drop_last() =~= r.deltas);
    if t.len() == 0 {
        assert(thought(r.deltas) + Seq::<Seq<char>>::empty() =~= thought(r.deltas));
    } else {
        assert(thought(r.deltas) + Seq::<Seq<char>>::empty().push(t) =~= thought(r.deltas).push(
            t,
        ));
    }
}

proof fn lemma_sorted_is(r: ReadV)
    ensures
        ({
            let s = SplitV::of(r.mode.think, r.mode.in_think);
            &&& said(r.sorted().deltas) == said(r.deltas) + s.said
            &&& thought(r.sorted().deltas) == thought(r.deltas) + s.thought
            &&& r.sorted().mode == (ModeV { think: s.held, in_think: s.in_think, ..r.mode })
        }),
    decreases r.mode.think.len(),
{
    reveal_strlit("<think>");
    reveal_strlit("</think>");
    let held = r.mode.think;
    crate::protocol::codec::openai_compatible::stream::lemma_cut_shrinks(held, "<think>"@);
    crate::protocol::codec::openai_compatible::stream::lemma_cut_shrinks(held, "</think>"@);
    let none = Seq::<Seq<char>>::empty();
    assert(thought(r.deltas) + none =~= thought(r.deltas));
    assert(said(r.deltas) + Seq::<char>::empty() =~= said(r.deltas));
    if r.mode.in_think {
        if let Some((t, rest)) = crate::text::cut(held, "</think>"@) {
            let t = crate::text::trim_of(t);
            lemma_muse(r, t);
            let next = r.muse(t).hold(rest, false);
            lemma_sorted_is(next);
            let s = SplitV::of(rest, false);
            let own = if t.len() > 0 {
                none.push(t)
            } else {
                none
            };
            assert(thought(r.deltas) + own + s.thought =~= thought(r.deltas) + (own + s.thought));
            assert(Seq::<char>::empty() + s.said =~= s.said);
        }
    } else {
        match crate::text::cut(held, "<think>"@) {
            Some((before, rest)) => {
                lemma_say(r, before);
                let next = r.say(before).hold(rest, true);
                lemma_sorted_is(next);
                let s = SplitV::of(rest, true);
                assert(said(r.deltas) + before + s.said =~= said(r.deltas) + (before + s.said));
                assert(none + s.thought =~= s.thought);
            },
            None => {
                let n = held.len() - crate::protocol::codec::openai_compatible::stream::torn(
                    held,
                    "<think>"@,
                );
                lemma_say(r, held.subrange(0, n));
            },
        }
    }
}

proof fn lemma_cut_goes_on(h: Seq<char>, b: Seq<char>, p: Seq<char>)
    requires
        crate::text::cut(h, p) is Some,
    ensures
        crate::text::cut(h + b, p) == Some(((crate::text::cut(h, p)->0).0, (crate::text::cut(
            h,
            p,
        )->0).1 + b)),
{
    crate::text::lemma_find_least(h, p);
    crate::text::lemma_find_least(h + b, p);
    let i = crate::text::find_of(h, p)->0;
    assert((h + b).subrange(i, i + p.len()) =~= h.subrange(i, i + p.len()));
    assert(crate::text::occurs_at(h + b, p, i));
    let j = crate::text::find_of(h + b, p)->0;
    if j < i {
        assert((h + b).subrange(j, j + p.len()) =~= h.subrange(j, j + p.len()));
        assert(crate::text::occurs_at(h, p, j));
    }
    assert((h + b).subrange(0, i) =~= h.subrange(0, i));
    assert((h + b).subrange(i + p.len(), (h + b).len() as int) =~= h.subrange(
        i + p.len(),
        h.len() as int,
    ) + b);
}

proof fn lemma_no_early_tag(h: Seq<char>, b: Seq<char>, tag: Seq<char>, p: int)
    requires
        tag.len() > 0,
        crate::text::find_of(h, tag) is None,
        0 <= p < h.len() - crate::protocol::codec::openai_compatible::stream::torn(h, tag),
        p + tag.len() > h.len(),
        p + tag.len() <= (h + b).len(),
    ensures
        !crate::text::occurs_at(h + b, tag, p),
{
    let m = (tag.len() - 1) as nat;
    crate::protocol::codec::openai_compatible::stream::lemma_torn(h, tag, m);
    let k = h.len() - p;
    if crate::text::occurs_at(h + b, tag, p) {
        let whole = (h + b).subrange(p, p + tag.len());
        assert(whole =~= tag);
        assert(h.subrange(p, h.len() as int) =~= tag.take(k)) by {
            assert forall|j: int| 0 <= j < k implies h.subrange(p, h.len() as int)[j]
                == #[trigger] tag.take(k)[j] by {
                assert(whole[j] == tag[j]);
            }
        }
        assert(crate::text::ends(h, tag.take(k)));
    }
}

proof fn lemma_torn_suffix(h: Seq<char>, b: Seq<char>, tag: Seq<char>, n: nat)
    requires
        tag.len() > 0,
        n < tag.len(),
    ensures
        ({
            let c = h.len() - crate::protocol::codec::openai_compatible::stream::torn(h, tag);
            let g = h.subrange(c, h.len() as int) + b;
            crate::protocol::codec::openai_compatible::stream::torn_from(h + b, tag, n)
                == crate::protocol::codec::openai_compatible::stream::torn_from(g, tag, n)
        }),
    decreases n,
{
    let m = (tag.len() - 1) as nat;
    crate::protocol::codec::openai_compatible::stream::lemma_torn(h, tag, m);
    let c = h.len() - crate::protocol::codec::openai_compatible::stream::torn(h, tag);
    let g = h.subrange(c, h.len() as int) + b;
    if n > 0 {
        lemma_torn_suffix(h, b, tag, (n - 1) as nat);
        let t = tag.take(n as int);
        let w = h + b;
        if n <= g.len() {
            assert(w.subrange(w.len() - n, w.len() as int) =~= g.subrange(
                g.len() - n,
                g.len() as int,
            ));
        } else if crate::text::ends(w, t) {
            let q = w.len() - n;
            let k = h.len() - q;
            let tail = w.subrange(q, w.len() as int);
            assert(tail =~= t);
            assert(h.subrange(q, h.len() as int) =~= tag.take(k)) by {
                assert forall|j: int| 0 <= j < k implies h.subrange(q, h.len() as int)[j]
                    == #[trigger] tag.take(k)[j] by {
                    assert(tail[j] == t[j]);
                }
            }
            assert(crate::text::ends(h, tag.take(k)));
        }
    }
}

proof fn lemma_split_goes_on(h: Seq<char>, b: Seq<char>, in_think: bool)
    ensures
        ({
            let s = SplitV::of(h, in_think);
            SplitV::of(h + b, in_think) == SplitV::of(s.held + b, s.in_think).behind(
                s.said,
                s.thought,
            )
        }),
    decreases h.len(),
{
    reveal_strlit("<think>");
    reveal_strlit("</think>");
    crate::protocol::codec::openai_compatible::stream::lemma_cut_shrinks(h, "<think>"@);
    crate::protocol::codec::openai_compatible::stream::lemma_cut_shrinks(h, "</think>"@);
    let s = SplitV::of(h, in_think);
    let last = SplitV::of(s.held + b, s.in_think);
    let none = Seq::<Seq<char>>::empty();
    let mute = Seq::<char>::empty();
    if in_think {
        match crate::text::cut(h, "</think>"@) {
            Some((t, rest)) => {
                lemma_cut_goes_on(h, b, "</think>"@);
                lemma_split_goes_on(rest, b, false);
                let inner = SplitV::of(rest, false);
                let own = if crate::text::trim_of(t).len() > 0 {
                    none.push(crate::text::trim_of(t))
                } else {
                    none
                };
                assert(mute + (inner.said + last.said) =~= (mute + inner.said) + last.said);
                assert(own + (inner.thought + last.thought) =~= (own + inner.thought)
                    + last.thought);
            },
            None => {
                assert(mute + last.said =~= last.said);
                assert(none + last.thought =~= last.thought);
            },
        }
    } else {
        match crate::text::cut(h, "<think>"@) {
            Some((before, rest)) => {
                lemma_cut_goes_on(h, b, "<think>"@);
                lemma_split_goes_on(rest, b, true);
                let inner = SplitV::of(rest, true);
                assert(before + (inner.said + last.said) =~= (before + inner.said) + last.said);
                assert(none + (inner.thought + last.thought) =~= (none + inner.thought)
                    + last.thought);
            },
            None => {
                lemma_split_text(h, b);
            },
        }
    }
}

proof fn lemma_split_text(h: Seq<char>, b: Seq<char>)
    requires
        crate::text::cut(h, "<think>"@) is None,
    ensures
        ({
            let s = SplitV::of(h, false);
            SplitV::of(h + b, false) == SplitV::of(s.held + b, false).behind(s.said, s.thought)
        }),
{
    reveal_strlit("<think>");
    let tag = "<think>"@;
    let m = (tag.len() - 1) as nat;
    let none = Seq::<Seq<char>>::empty();
    crate::protocol::codec::openai_compatible::stream::lemma_torn(h, tag, m);
    let c = h.len() - crate::protocol::codec::openai_compatible::stream::torn(h, tag);
    let w = h + b;
    let g = h.subrange(c, h.len() as int) + b;
    let head = h.subrange(0, c);
    assert(w =~= head + g);
    crate::text::lemma_find_least(h, tag);
    crate::text::lemma_find_least(w, tag);
    crate::text::lemma_find_least(g, tag);
    assert forall|j: int| 0 <= j < c implies !crate::text::occurs_at(w, tag, j) by {
        if j + tag.len() <= h.len() {
            assert(w.subrange(j, j + tag.len()) =~= h.subrange(j, j + tag.len()));
            assert(!crate::text::occurs_at(h, tag, j));
        } else if j + tag.len() <= w.len() {
            lemma_no_early_tag(h, b, tag, j);
        }
    }
    assert forall|j: int| 0 <= j implies crate::text::occurs_at(g, tag, j)
        == #[trigger] crate::text::occurs_at(w, tag, c + j) by {
        if j + tag.len() <= g.len() {
            assert(g.subrange(j, j + tag.len()) =~= w.subrange(c + j, c + j + tag.len()));
        }
    }
    let last = SplitV::of(g, false);
    match crate::text::find_of(w, tag) {
        Some(p) => {
            assert(p >= c);
            assert(crate::text::occurs_at(w, tag, c + (p - c)));
            assert(crate::text::occurs_at(g, tag, p - c));
            let q = crate::text::find_of(g, tag)->0;
            assert(crate::text::occurs_at(w, tag, c + q));
            assert(q == p - c);
            assert(w.subrange(0, p) =~= head + g.subrange(0, q));
            assert(w.subrange(p + tag.len(), w.len() as int) =~= g.subrange(
                q + tag.len(),
                g.len() as int,
            ));
            let inner = SplitV::of(g.subrange(q + tag.len(), g.len() as int), true);
            assert((head + g.subrange(0, q)) + inner.said =~= head + (g.subrange(0, q)
                + inner.said));
            assert(none + (none + inner.thought) =~= none + inner.thought);
        },
        None => {
            assert(crate::text::find_of(g, tag) is None) by {
                if let Some(q) = crate::text::find_of(g, tag) {
                    assert(crate::text::occurs_at(w, tag, c + q));
                }
            }
            lemma_torn_suffix(h, b, tag, m);
            crate::protocol::codec::openai_compatible::stream::lemma_torn(g, tag, m);
            let k = crate::protocol::codec::openai_compatible::stream::torn(g, tag);
            assert(w.subrange(0, w.len() - k) =~= head + g.subrange(0, g.len() - k));
            assert(w.subrange(w.len() - k, w.len() as int) =~= g.subrange(
                g.len() - k,
                g.len() as int,
            ));
            assert(none + last.thought =~= none);
        },
    }
}

/// How text is cut does not matter to what is thinking: text that comes in two pieces leaves the
/// state, says the text and thinks the thoughts of the text in one, also where a tag is torn.
pub proof fn lemma_thinking_chunking(r: ReadV, a: Seq<char>, b: Seq<char>)
    ensures
        r.text(a).text(b).mode == r.text(a + b).mode,
        said(r.text(a).text(b).deltas) == said(r.text(a + b).deltas),
        thought(r.text(a).text(b).deltas) == thought(r.text(a + b).deltas),
{
    if a.len() == 0 {
        assert(a + b =~= b);
    } else if b.len() == 0 {
        assert(a + b =~= a);
    } else {
        let h = r.mode.think + a;
        let m = r.mode.in_think;
        assert(r.mode.think + (a + b) =~= h + b);
        lemma_split_goes_on(h, b, m);
        lemma_sorted_is(r.hold(h, m));
        lemma_sorted_is(r.hold(h + b, m));
        let first = r.text(a);
        lemma_sorted_is(first.hold(first.mode.think + b, first.mode.in_think));
        let s = SplitV::of(h, m);
        let l = SplitV::of(s.held + b, s.in_think);
        assert(said(r.deltas) + s.said + l.said =~= said(r.deltas) + (s.said + l.said));
        assert(thought(r.deltas) + s.thought + l.thought =~= thought(r.deltas) + (s.thought
            + l.thought));
    }
}

// ---------------------------------------------------------------- unclosed thinking

/// The first `n` pieces of a text, joined.
pub open spec fn joined(v: Seq<Seq<char>>, n: nat) -> Seq<char>
    decreases n,
{
    if n == 0 {
        Seq::empty()
    } else {
        joined(v, (n - 1) as nat) + v[n - 1]
    }
}

/// What is read of the first `n` pieces of a text.
pub open spec fn texts(r: ReadV, v: Seq<Seq<char>>, n: nat) -> ReadV
    decreases n,
{
    if n == 0 {
        r
    } else {
        texts(r, v, (n - 1) as nat).text(v[n - 1])
    }
}

/// Two readings say and think the same and hold back the same.
pub open spec fn alike(a: ReadV, b: ReadV) -> bool {
    a.mode == b.mode && said(a.deltas) == said(b.deltas) && thought(a.deltas) == thought(b.deltas)
}

proof fn lemma_alike_text(a: ReadV, b: ReadV, t: Seq<char>)
    requires
        alike(a, b),
    ensures
        alike(a.text(t), b.text(t)),
{
    if t.len() > 0 {
        lemma_sorted_is(a.hold(a.mode.think + t, a.mode.in_think));
        lemma_sorted_is(b.hold(b.mode.think + t, b.mode.in_think));
    }
}

proof fn lemma_texts_joined(r: ReadV, v: Seq<Seq<char>>, n: nat)
    ensures
        alike(texts(r, v, n), r.text(joined(v, n))),
    decreases n,
{
    if n > 0 {
        lemma_texts_joined(r, v, (n - 1) as nat);
        let a = joined(v, (n - 1) as nat);
        lemma_alike_text(texts(r, v, (n - 1) as nat), r.text(a), v[n - 1]);
        lemma_thinking_chunking(r, a, v[n - 1]);
    }
}

proof fn lemma_no_thought(deltas: Seq<DeltaV>)
    requires
        thought(deltas).len() == 0,
    ensures
        forall|i: int| 0 <= i < deltas.len() ==> !(#[trigger] deltas[i] is ThinkingDelta),
    decreases deltas.len(),
{
    if deltas.len() > 0 {
        lemma_no_thought(deltas.drop_last());
        assert forall|i: int| 0 <= i < deltas.len() implies !(#[trigger] deltas[i]
            is ThinkingDelta) by {
            if i < deltas.len() - 1 {
                assert(deltas.drop_last()[i] == deltas[i]);
            }
        }
    }
}

/// Thinking that is never closed is text: a stream whose text, in whatever pieces it came, closes
/// no tag that it opened and does not stop right behind one, thinks nothing, and says, with what is
/// given out at its end, just that text. Given out once more, nothing is left.
pub proof fn lemma_unclosed_thinking_is_text(pieces: Seq<Seq<char>>)
    requires
        match crate::text::cut(joined(pieces, pieces.len()), "<think>"@) {
            Some((_, rest)) => crate::text::cut(rest, "</think>"@) is None,
            None => true,
        },
        !crate::text::ends(joined(pieces, pieces.len()), "<think>"@),
    ensures
        ({
            let fresh = ReadV { mode: ParserV::fresh().mode, deltas: Seq::empty() };
            let r = texts(fresh, pieces, pieces.len());
            &&& forall|i: int| 0 <= i < r.deltas.len() ==> !(#[trigger] r.deltas[i] is ThinkingDelta)
            &&& said(r.flushed().deltas) == joined(pieces, pieces.len())
            &&& r.flushed().mode.think.len() == 0
            &&& r.flushed().flushed() == r.flushed()
        }),
{
    reveal_strlit("<think>");
    reveal_strlit("</think>");
    let fresh = ReadV { mode: ParserV::fresh().mode, deltas: Seq::<DeltaV>::empty() };
    let t = joined(pieces, pieces.len());
    let r = texts(fresh, pieces, pieces.len());
    lemma_texts_joined(fresh, pieces, pieces.len());
    assert(fresh.mode.think + t =~= t);
    assert(said(fresh.deltas) =~= Seq::<char>::empty());
    assert(thought(fresh.deltas) =~= Seq::<Seq<char>>::empty());
    if t.len() > 0 {
        lemma_sorted_is(fresh.hold(t, false));
        crate::text::lemma_find_least(t, "<think>"@);
        let s = SplitV::of(t, false);
        match crate::text::cut(t, "<think>"@) {
            Some((before, rest)) => {
                let i = crate::text::find_of(t, "<think>"@)->0;
                assert(t.subrange(i, i + 7) =~= "<think>"@);
                assert(t =~= before + ("<think>"@ + rest));
                if rest.len() == 0 {
                    assert(crate::text::ends(t, "<think>"@));
                }
                let inner = SplitV::of(rest, true);
                assert(s.said =~= before);
                assert(s.held == rest);
            },
            None => {
                crate::protocol::codec::openai_compatible::stream::lemma_torn(t, "<think>"@, 6);
                assert(t =~= s.said + s.held);
            },
        }
        assert(s.thought =~= Seq::<Seq<char>>::empty());
        assert(Seq::<char>::empty() + s.said =~= s.said);
    }
    assert(thought(r.deltas) =~= Seq::<Seq<char>>::empty());
    lemma_no_thought(r.deltas);
    if r.mode.think.len() > 0 {
        let x = if r.mode.in_think {
            "<think>"@ + r.mode.think
        } else {
            r.mode.think
        };
        assert(r.deltas.push(DeltaV::TextDelta(x)).drop_last() =~= r.deltas);
    } else {
        assert(said(r.deltas) =~= t);
    }
}

} // verus!
