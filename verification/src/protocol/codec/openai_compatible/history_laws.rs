//! Laws of the shape that a conversation is put into.
use vstd::prelude::*;

use crate::protocol::codec::openai_compatible::history::{GivenV, OrderV, RemapV};
use crate::protocol::ir::request::{MessageV, Role};
use crate::protocol::types::ToolCallV;

verus! {

// ---------------------------------------------------------------- made-up names

proof fn lemma_decimal(n: nat)
    ensures
        crate::text::number_of(crate::text::decimal(n)) == n,
        forall|i: int|
            0 <= i < crate::text::decimal(n).len() ==> '0' <= #[trigger] crate::text::decimal(n)[i]
                && crate::text::decimal(n)[i] <= '9',
        crate::text::decimal(n).len() > 0,
    decreases n,
{
    reveal_with_fuel(crate::text::number_of, 2);
    let d = crate::text::decimal(n);
    if n < 10 {
        assert(d.drop_last() =~= Seq::<char>::empty());
    } else {
        lemma_decimal(n / 10);
        assert(d.drop_last() =~= crate::text::decimal(n / 10));
    }
}

/// A name that was made up.
pub open spec fn made_up(s: Seq<char>) -> bool {
    exists|k: usize| s == #[trigger] crate::protocol::codec::openai_compatible::history::enc_id(k)
}

proof fn lemma_enc(k: usize)
    ensures
        crate::protocol::codec::openai_compatible::history::enc_id(k).len() >= 10,
        crate::protocol::codec::openai_compatible::history::enc_id(k).skip(9)
            == crate::text::decimal(k as nat),
        forall|i: int|
            0 <= i < crate::protocol::codec::openai_compatible::history::enc_id(k).len()
                ==> #[trigger] crate::protocol::codec::openai_compatible::history::enc_id(k)[i]
                != 'd',
        !crate::protocol::codec::openai_compatible::history::blank(
            crate::protocol::codec::openai_compatible::history::enc_id(k),
        ),
{
    reveal_strlit("call_enc_");
    lemma_decimal(k as nat);
    let d = crate::text::decimal(k as nat);
    let e = crate::protocol::codec::openai_compatible::history::enc_id(k);
    assert(e.skip(9) =~= d);
    assert forall|i: int| 0 <= i < e.len() implies #[trigger] e[i] != 'd' by {
        if i >= 9 {
            assert(e[i] == d[i - 9]);
        }
    }
    assert(e[0] == 'c');
    crate::text::lemma_solid_text(e);
}

proof fn lemma_enc_differ(j: usize, k: usize)
    requires
        j != k,
    ensures
        crate::protocol::codec::openai_compatible::history::enc_id(j)
            != crate::protocol::codec::openai_compatible::history::enc_id(k),
{
    lemma_enc(j);
    lemma_enc(k);
    lemma_decimal(j as nat);
    lemma_decimal(k as nat);
}

// ---------------------------------------------------------------- the shape

/// Every tool message stands directly behind an assistant message that makes the call which it
/// answers.
pub open spec fn answers_follow_calls(out: Seq<MessageV>) -> bool {
    forall|j: int|
        0 <= j < out.len() && (#[trigger] out[j]).role == Role::Tool ==> {
            &&& j > 0
            &&& out[j].tool_call_id is Some
            &&& crate::protocol::codec::openai_compatible::history::call_in(
                out[j - 1],
                out[j].tool_call_id->0,
            ) is Some
        }
}

/// No two tool messages answer the same call.
pub open spec fn one_answer_each(out: Seq<MessageV>) -> bool {
    forall|i: int, j: int|
        0 <= i < j < out.len() && (#[trigger] out[i]).role == Role::Tool && (
        #[trigger] out[j]).role == Role::Tool ==> out[i].tool_call_id != out[j].tool_call_id
}

/// Some tool message answers a call.
pub open spec fn is_answered(out: Seq<MessageV>, id: Seq<char>) -> bool {
    exists|j: int|
        0 <= j < out.len() && (#[trigger] out[j]).role == Role::Tool && out[j].tool_call_id
            == Some(id)
}

/// No call is left without an answer.
pub open spec fn calls_answered(out: Seq<MessageV>) -> bool {
    forall|i: int, c: int|
        0 <= i < out.len() && out[i].role == Role::Assistant && out[i].tool_calls is Some && 0 <= c
            < out[i].tool_calls->0.len() ==> is_answered(
            out,
            (#[trigger] out[i].tool_calls->0[c]).id,
        )
}

/// No call and no answer comes with a name that could be made up.
pub open spec fn no_made_up(messages: Seq<MessageV>) -> bool {
    &&& forall|i: int|
        0 <= i < messages.len() && (#[trigger] messages[i]).tool_call_id is Some ==> !made_up(
            messages[i].tool_call_id->0,
        )
    &&& forall|i: int|
        0 <= i < messages.len() && crate::protocol::codec::openai_compatible::history::payload(
            (#[trigger] messages[i]).content,
        ).1 is Some ==> !made_up(
            crate::protocol::codec::openai_compatible::history::payload(messages[i].content).1->0,
        )
    &&& forall|i: int, c: int|
        0 <= i < messages.len() && messages[i].tool_calls is Some && 0 <= c
            < messages[i].tool_calls->0.len() ==> !made_up(
            (#[trigger] messages[i].tool_calls->0[c]).id,
        )
}

/// How many names may be made up for the first `n` messages.
pub open spec fn weight(messages: Seq<MessageV>, n: nat) -> nat
    decreases n,
{
    if n == 0 {
        0
    } else {
        weight(messages, (n - 1) as nat) + 3 + match messages[n - 1].tool_calls {
            Some(calls) => calls.len(),
            None => 0,
        }
    }
}

/// What holds while a conversation is put in order.
pub open spec fn in_shape(st: OrderV) -> bool {
    &&& answers_follow_calls(st.out)
    &&& one_answer_each(st.out)
    &&& forall|j: int|
        0 <= j < st.out.len() && (#[trigger] st.out[j]).role == Role::Tool ==> {
            &&& st.consumed.contains(st.out[j].tool_call_id->0)
            &&& !crate::protocol::codec::openai_compatible::history::blank(
                st.out[j].tool_call_id->0,
            )
        }
    &&& forall|k: usize|
        st.consumed.contains(
            #[trigger] crate::protocol::codec::openai_compatible::history::enc_id(k),
        ) ==> k <= st.seq
}

proof fn lemma_fresh(st: OrderV)
    requires
        in_shape(st),
        st.seq < usize::MAX,
    ensures
        in_shape(st.fresh().1),
        !st.consumed.contains(st.fresh().0),
        !crate::protocol::codec::openai_compatible::history::blank(st.fresh().0),
        st.fresh().1.seq == st.seq + 1,
{
    lemma_enc((st.seq + 1) as usize);
}

proof fn lemma_call_found(m: MessageV, id: Seq<char>)
    ensures
        match crate::protocol::codec::openai_compatible::history::call_in(m, id) {
            Some(i) => m.role == Role::Assistant && m.tool_calls is Some && 0 <= i
                < m.tool_calls->0.len() && m.tool_calls->0[i].id == id,
            None => !(m.role == Role::Assistant && m.tool_calls is Some && exists|i: int|
                0 <= i < m.tool_calls->0.len() && (#[trigger] m.tool_calls->0[i]).id == id),
        },
{
    if m.role == Role::Assistant && m.tool_calls is Some {
        let calls = m.tool_calls->0;
        crate::protocol::codec::openai_compatible::history::lemma_call_pos(calls, id, calls.len());
    }
}

proof fn lemma_holder(out: Seq<MessageV>, id: Seq<char>, n: nat)
    requires
        n <= out.len(),
    ensures
        crate::protocol::codec::openai_compatible::history::holder(out, id, n) matches Some(i)
            ==> 0 <= i < n && crate::protocol::codec::openai_compatible::history::call_in(
            out[i],
            id,
        ) is Some,
    decreases n,
{
    if n > 0 {
        lemma_holder(out, id, (n - 1) as nat);
    }
}

proof fn lemma_without_call(m: MessageV, id: Seq<char>, other: Seq<char>)
    requires
        crate::protocol::codec::openai_compatible::history::call_in(m, id) is Some,
        crate::protocol::codec::openai_compatible::history::call_in(m, other) is Some,
        id != other,
    ensures
        crate::protocol::codec::openai_compatible::history::call_in(
            crate::protocol::codec::openai_compatible::history::without_call(m, id),
            other,
        ) is Some,
{
    lemma_call_found(m, id);
    lemma_call_found(m, other);
    let w = crate::protocol::codec::openai_compatible::history::without_call(m, id);
    lemma_call_found(w, other);
    let a = crate::protocol::codec::openai_compatible::history::call_in(m, id)->0;
    let b = crate::protocol::codec::openai_compatible::history::call_in(m, other)->0;
    let rest = m.tool_calls->0.remove(a);
    let c = if b < a {
        b
    } else {
        b - 1
    };
    assert(rest[c].id == other);
    assert(w.tool_calls == Some(rest));
    assert(w.tool_calls->0[c].id == other);
}

proof fn lemma_brought(out: Seq<MessageV>, id: Seq<char>)
    ensures
        ({
            let (found, r) =
                crate::protocol::codec::openai_compatible::history::brought_adjacent(out, id);
            &&& r.len() <= out.len()
            &&& forall|i: int| 0 <= i < r.len() ==> #[trigger] r[i] == out[i]
            &&& found ==> r.len() > 0
                && crate::protocol::codec::openai_compatible::history::call_in(r.last(), id)
                is Some
        }),
    decreases out.len(),
{
    if out.len() > 0 && !crate::protocol::codec::openai_compatible::history::makes_call(
        out.last(),
        id,
    ) && crate::protocol::codec::openai_compatible::history::droppable(out.last()) {
        lemma_brought(out.drop_last(), id);
    }
}

/// A beginning of a conversation in shape is in shape.
proof fn lemma_prefix_shape(st: OrderV, out: Seq<MessageV>)
    requires
        in_shape(st),
        out.len() <= st.out.len(),
        forall|i: int| 0 <= i < out.len() ==> #[trigger] out[i] == st.out[i],
    ensures
        in_shape(OrderV { out, ..st }),
{
    assert forall|j: int| 0 <= j < out.len() && (#[trigger] out[j]).role == Role::Tool implies {
        &&& j > 0
        &&& out[j].tool_call_id is Some
        &&& crate::protocol::codec::openai_compatible::history::call_in(
            out[j - 1],
            out[j].tool_call_id->0,
        ) is Some
    } by {
        assert(st.out[j].role == Role::Tool);
        assert(out[j - 1] == st.out[j - 1]);
    }
    assert forall|i: int, j: int|
        0 <= i < j < out.len() && (#[trigger] out[i]).role == Role::Tool && (
        #[trigger] out[j]).role == Role::Tool implies out[i].tool_call_id != out[j].tool_call_id by {
        assert(st.out[i].role == Role::Tool && st.out[j].role == Role::Tool);
    }
    assert forall|j: int| 0 <= j < out.len() && (#[trigger] out[j]).role == Role::Tool implies {
        &&& st.consumed.contains(out[j].tool_call_id->0)
        &&& !crate::protocol::codec::openai_compatible::history::blank(out[j].tool_call_id->0)
    } by {
        assert(st.out[j].role == Role::Tool);
    }
}

/// A message that is no answer keeps a conversation in shape.
proof fn lemma_push_shape(st: OrderV, m: MessageV)
    requires
        in_shape(st),
        m.role != Role::Tool,
    ensures
        in_shape(st.message(m)),
{
    let out = st.out.push(m);
    assert forall|j: int| 0 <= j < out.len() && (#[trigger] out[j]).role == Role::Tool implies {
        &&& j > 0
        &&& out[j].tool_call_id is Some
        &&& crate::protocol::codec::openai_compatible::history::call_in(
            out[j - 1],
            out[j].tool_call_id->0,
        ) is Some
    } by {
        assert(st.out[j] == out[j]);
        assert(out[j - 1] == st.out[j - 1]);
    }
    assert forall|i: int, j: int|
        0 <= i < j < out.len() && (#[trigger] out[i]).role == Role::Tool && (
        #[trigger] out[j]).role == Role::Tool implies out[i].tool_call_id != out[j].tool_call_id by {
        assert(st.out[i] == out[i] && st.out[j] == out[j]);
    }
    assert forall|j: int| 0 <= j < out.len() && (#[trigger] out[j]).role == Role::Tool implies {
        &&& st.consumed.contains(out[j].tool_call_id->0)
        &&& !crate::protocol::codec::openai_compatible::history::blank(out[j].tool_call_id->0)
    } by {
        assert(st.out[j] == out[j]);
    }
}

/// Taking an unanswered call out of a message keeps a conversation in shape.
proof fn lemma_taken_shape(st: OrderV, i: int, id: Seq<char>)
    requires
        in_shape(st),
        0 <= i < st.out.len(),
        crate::protocol::codec::openai_compatible::history::call_in(st.out[i], id) is Some,
        !st.consumed.contains(id),
    ensures
        in_shape(
            OrderV {
                out: st.out.update(
                    i,
                    crate::protocol::codec::openai_compatible::history::without_call(
                        st.out[i],
                        id,
                    ),
                ),
                ..st
            },
        ),
{
    lemma_call_found(st.out[i], id);
    let w = crate::protocol::codec::openai_compatible::history::without_call(st.out[i], id);
    let out = st.out.update(i, w);
    assert(w.role == Role::Assistant);
    assert forall|j: int| 0 <= j < out.len() && (#[trigger] out[j]).role == Role::Tool implies {
        &&& j > 0
        &&& out[j].tool_call_id is Some
        &&& crate::protocol::codec::openai_compatible::history::call_in(
            out[j - 1],
            out[j].tool_call_id->0,
        ) is Some
    } by {
        assert(j != i);
        assert(st.out[j] == out[j]);
        if j - 1 == i {
            lemma_without_call(st.out[i], id, out[j].tool_call_id->0);
        } else {
            assert(out[j - 1] == st.out[j - 1]);
        }
    }
    assert forall|a: int, b: int|
        0 <= a < b < out.len() && (#[trigger] out[a]).role == Role::Tool && (
        #[trigger] out[b]).role == Role::Tool implies out[a].tool_call_id != out[b].tool_call_id by {
        assert(st.out[a] == out[a] && st.out[b] == out[b]);
    }
    assert forall|j: int| 0 <= j < out.len() && (#[trigger] out[j]).role == Role::Tool implies {
        &&& st.consumed.contains(out[j].tool_call_id->0)
        &&& !crate::protocol::codec::openai_compatible::history::blank(out[j].tool_call_id->0)
    } by {
        assert(st.out[j] == out[j]);
    }
}

proof fn lemma_linked(st: OrderV, id: Seq<char>, fallback: Seq<char>)
    requires
        in_shape(st),
        !st.consumed.contains(id),
        !crate::protocol::codec::openai_compatible::history::blank(id),
        st.seq < usize::MAX,
    ensures
        ({
            let (got, r) = st.linked(id, fallback);
            &&& in_shape(r)
            &&& r.consumed == st.consumed
            &&& !r.consumed.contains(got)
            &&& !crate::protocol::codec::openai_compatible::history::blank(got)
            &&& r.out.len() > 0
            &&& crate::protocol::codec::openai_compatible::history::call_in(r.out.last(), got)
                is Some
            &&& st.seq <= r.seq <= st.seq + 1
            &&& got == id || got == crate::protocol::codec::openai_compatible::history::enc_id(
                r.seq,
            )
        }),
{
    let n = st.out.len();
    lemma_holder(st.out, id, n);
    match crate::protocol::codec::openai_compatible::history::holder(st.out, id, n) {
        Some(i) => {
            let m = st.out[i];
            lemma_call_found(m, id);
            lemma_taken_shape(st, i, id);
            let w = st.out.update(
                i,
                crate::protocol::codec::openai_compatible::history::without_call(m, id),
            );
            let mid = OrderV { out: w, ..st };
            crate::protocol::codec::openai_compatible::history::lemma_trimmed(w, i + 1);
            let t = crate::protocol::codec::openai_compatible::history::trimmed_to(w, i + 1);
            lemma_prefix_shape(mid, t);
            let c =
                m.tool_calls->0[crate::protocol::codec::openai_compatible::history::call_in(
                    m,
                    id,
                )->0];
            let cm = crate::protocol::codec::openai_compatible::history::call_message(
                c,
                t[i].meta,
            );
            lemma_push_shape(OrderV { out: t, ..st }, cm);
            lemma_call_found(cm, id);
            assert(cm.tool_calls->0[0].id == id);
            let r = st.linked(id, fallback).1;
            assert(in_shape(OrderV { seen: st.seen, ..r }));
        },
        None => {
            lemma_brought(st.out, id);
            let (found, out) =
                crate::protocol::codec::openai_compatible::history::brought_adjacent(st.out, id);
            lemma_prefix_shape(st, out);
            let mid = OrderV { out, ..st };
            if !found {
                lemma_fresh(mid);
                let (got, s2) = if mid.seen.contains(id) {
                    mid.fresh()
                } else {
                    (id, mid)
                };
                let made = ToolCallV { id: got, name: fallback, arguments: "{}"@ };
                let cm = crate::protocol::codec::openai_compatible::history::call_message(
                    made,
                    None,
                );
                lemma_push_shape(s2, cm);
                lemma_call_found(cm, got);
                assert(cm.tool_calls->0[0].id == got);
                let r = st.linked(id, fallback).1;
                assert(in_shape(OrderV { seen: s2.seen, ..r }));
            }
        },
    }
}

proof fn lemma_calls_seq(st: OrderV, v: Seq<ToolCallV>, fallback: Seq<char>, n: nat)
    requires
        st.seq + n <= usize::MAX,
    ensures
        ({
            let r = st.calls(v, fallback, n).1;
            &&& r.out == st.out
            &&& r.consumed == st.consumed
            &&& st.seq <= r.seq <= st.seq + n
        }),
    decreases n,
{
    if n > 0 {
        lemma_calls_seq(st, v, fallback, (n - 1) as nat);
    }
}

proof fn lemma_step_shape(st: OrderV, m: MessageV, fallback: Seq<char>)
    requires
        in_shape(st),
        st.seq + 3 + (match m.tool_calls {
            Some(calls) => calls.len(),
            None => 0,
        }) <= usize::MAX,
        m.role == Role::Tool ==> {
            &&& m.tool_call_id is Some ==> !made_up(m.tool_call_id->0)
            &&& crate::protocol::codec::openai_compatible::history::payload(m.content).1 is Some
                ==> !made_up(
                crate::protocol::codec::openai_compatible::history::payload(m.content).1->0,
            )
        },
    ensures
        in_shape(st.step(m, fallback)),
        st.step(m, fallback).seq <= st.seq + 3 + (match m.tool_calls {
            Some(calls) => calls.len(),
            None => 0,
        }),
{
    match m.role {
        Role::Assistant => match m.tool_calls {
            Some(calls) => {
                lemma_calls_seq(st, calls, fallback, calls.len());
                let (c, s) = st.calls(calls, fallback, calls.len());
                assert(in_shape(s));
                lemma_push_shape(s, MessageV { tool_calls: Some(c), ..m });
            },
            None => {
                lemma_push_shape(st, m);
            },
        },
        Role::Tool => {
            lemma_fresh(st);
            lemma_fresh(st.fresh().1);
            let (wanted, s1) = st.answered(m);
            assert(in_shape(s1));
            assert(!s1.consumed.contains(wanted));
            assert(s1.consumed == st.consumed);
            if let Some(id) = crate::text::solid(m.tool_call_id) {
                assert(!crate::protocol::codec::openai_compatible::history::blank(id));
            }
            assert(!crate::protocol::codec::openai_compatible::history::blank(wanted));
            lemma_linked(s1, wanted, fallback);
            let (id, s2) = s1.linked(wanted, fallback);
            let r = st.step(m, fallback);
            let last = MessageV { tool_call_id: Some(id), ..m };
            let out = s2.out.push(last);
            assert(r.out == out);
            assert(r.consumed == s2.consumed.push(id));
            assert forall|j: int|
                0 <= j < out.len() && (#[trigger] out[j]).role == Role::Tool implies {
                &&& j > 0
                &&& out[j].tool_call_id is Some
                &&& crate::protocol::codec::openai_compatible::history::call_in(
                    out[j - 1],
                    out[j].tool_call_id->0,
                ) is Some
            } by {
                if j < s2.out.len() {
                    assert(s2.out[j] == out[j]);
                    assert(out[j - 1] == s2.out[j - 1]);
                } else {
                    assert(out[j - 1] == s2.out.last());
                }
            }
            assert forall|j: int|
                0 <= j < out.len() && (#[trigger] out[j]).role == Role::Tool implies {
                &&& r.consumed.contains(out[j].tool_call_id->0)
                &&& !crate::protocol::codec::openai_compatible::history::blank(
                    out[j].tool_call_id->0,
                )
            } by {
                if j < s2.out.len() {
                    assert(s2.out[j] == out[j]);
                    let x = out[j].tool_call_id->0;
                    let p = choose|p: int| 0 <= p < s2.consumed.len() && s2.consumed[p] == x;
                    assert(r.consumed[p] == x);
                } else {
                    assert(r.consumed[s2.consumed.len() as int] == id);
                }
            }
            assert forall|a: int, b: int|
                0 <= a < b < out.len() && (#[trigger] out[a]).role == Role::Tool && (
                #[trigger] out[b]).role == Role::Tool implies out[a].tool_call_id
                != out[b].tool_call_id by {
                assert(s2.out[a] == out[a]);
                if b < s2.out.len() {
                    assert(s2.out[b] == out[b]);
                }
            }
            assert forall|k: usize|
                r.consumed.contains(
                    #[trigger] crate::protocol::codec::openai_compatible::history::enc_id(k),
                ) implies k <= r.seq by {
                let e = crate::protocol::codec::openai_compatible::history::enc_id(k);
                if !s2.consumed.contains(e) {
                    assert(e == id);
                    lemma_made_up_is(st, m, fallback, k);
                }
            }
        },
        _ => {
            lemma_push_shape(st, m);
        },
    }
}

proof fn lemma_made_up_is(st: OrderV, m: MessageV, fallback: Seq<char>, k: usize)
    requires
        in_shape(st),
        st.seq + 3 <= usize::MAX,
        m.role == Role::Tool,
        m.tool_call_id is Some ==> !made_up(m.tool_call_id->0),
        crate::protocol::codec::openai_compatible::history::payload(m.content).1 is Some
            ==> !made_up(
            crate::protocol::codec::openai_compatible::history::payload(m.content).1->0,
        ),
        ({
            let (wanted, s1) = st.answered(m);
            s1.linked(wanted, fallback).0
                == crate::protocol::codec::openai_compatible::history::enc_id(k)
        }),
    ensures
        ({
            let (wanted, s1) = st.answered(m);
            k <= s1.linked(wanted, fallback).1.seq
        }),
{
    lemma_fresh(st);
    lemma_fresh(st.fresh().1);
    let (wanted, s1) = st.answered(m);
    if let Some(id) = crate::text::solid(m.tool_call_id) {
        assert(!crate::protocol::codec::openai_compatible::history::blank(id));
    }
    lemma_linked(s1, wanted, fallback);
    let (got, s2) = s1.linked(wanted, fallback);
    let e = crate::protocol::codec::openai_compatible::history::enc_id(k);
    assert(made_up(e));
    if got != wanted {
        if k != s2.seq {
            lemma_enc_differ(k, s2.seq);
        }
    } else {
        assert(wanted == crate::protocol::codec::openai_compatible::history::enc_id(s1.seq));
        if k != s1.seq {
            lemma_enc_differ(k, s1.seq);
        }
    }
}

proof fn lemma_ordered(named: Seq<MessageV>, fallback: Seq<char>, n: nat)
    requires
        n <= named.len(),
        weight(named, n) <= usize::MAX,
        forall|i: int|
            0 <= i < named.len() && (#[trigger] named[i]).role == Role::Tool ==> {
                &&& named[i].tool_call_id is Some ==> !made_up(named[i].tool_call_id->0)
                &&& crate::protocol::codec::openai_compatible::history::payload(
                    named[i].content,
                ).1 is Some ==> !made_up(
                    crate::protocol::codec::openai_compatible::history::payload(
                        named[i].content,
                    ).1->0,
                )
            },
    ensures
        in_shape(OrderV::of(named, fallback, n)),
        OrderV::of(named, fallback, n).seq <= weight(named, n),
    decreases n,
{
    if n > 0 {
        lemma_ordered(named, fallback, (n - 1) as nat);
        let st = OrderV::of(named, fallback, (n - 1) as nat);
        assert(named[n - 1].role == Role::Tool ==> true);
        lemma_step_shape(st, named[n - 1], fallback);
    }
}

// ---------------------------------------------------------------- one name per call

/// What holds while calls are given names: a name that came with a call and is not made up has no
/// made-up one given for it.
pub open spec fn names_kept(st: RemapV) -> bool {
    forall|i: int|
        0 <= i < st.given.len() && !made_up((#[trigger] st.given[i]).original) ==> !made_up(
            st.given[i].unique,
        )
}

proof fn lemma_dup_not_made_up(a: Seq<char>, b: Seq<char>)
    ensures
        !made_up(a + "_dup"@ + b),
{
    reveal_strlit("_dup");
    let s = a + "_dup"@ + b;
    assert(s[a.len() as int + 1] == 'd');
    assert forall|k: usize| s
        != #[trigger] crate::protocol::codec::openai_compatible::history::enc_id(k) by {
        lemma_enc(k);
        let e = crate::protocol::codec::openai_compatible::history::enc_id(k);
        if s == e {
            assert(e[a.len() as int + 1] != 'd');
        }
    }
}

proof fn lemma_renamed(st: RemapV, c: ToolCallV)
    requires
        names_kept(st),
    ensures
        names_kept(crate::protocol::codec::openai_compatible::history::renamed(st, c).1),
{
    let (r, after) = crate::protocol::codec::openai_compatible::history::renamed(st, c);
    let g: GivenV = after.given.last();
    let before = crate::protocol::codec::openai_compatible::history::count_upto(
        st.given,
        g.original,
        st.given.len(),
    ) as usize;
    lemma_dup_not_made_up(
        g.original,
        crate::text::decimal(crate::protocol::succ(before) as nat),
    );
    assert forall|i: int|
        0 <= i < after.given.len() && !made_up((#[trigger] after.given[i]).original) implies
        !made_up(after.given[i].unique) by {
        if i < st.given.len() {
            assert(after.given[i] == st.given[i]);
        }
    }
}

proof fn lemma_renamed_upto(st: RemapV, calls: Seq<ToolCallV>, n: nat)
    requires
        names_kept(st),
    ensures
        names_kept(crate::protocol::codec::openai_compatible::history::renamed_upto(st, calls, n).1),
        crate::protocol::codec::openai_compatible::history::renamed_upto(st, calls, n).0.len()
            == n,
    decreases n,
{
    if n > 0 {
        lemma_renamed_upto(st, calls, (n - 1) as nat);
        let (before, mid) = crate::protocol::codec::openai_compatible::history::renamed_upto(
            st,
            calls,
            (n - 1) as nat,
        );
        lemma_renamed(mid, calls[n - 1]);
    }
}

proof fn lemma_last_open(given: Seq<GivenV>, original: Seq<char>, n: nat)
    requires
        n <= given.len(),
    ensures
        crate::protocol::codec::openai_compatible::history::last_open(
            given,
            original,
            n,
        ) matches Some(i) ==> 0 <= i < n && given[i].original == original,
    decreases n,
{
    if n > 0 {
        lemma_last_open(given, original, (n - 1) as nat);
    }
}

proof fn lemma_remapped(messages: Seq<MessageV>, n: nat)
    requires
        n <= messages.len(),
        no_made_up(messages),
    ensures
        ({
            let (out, st) = crate::protocol::codec::openai_compatible::history::remapped_upto(
                messages,
                n,
            );
            &&& out.len() == n
            &&& names_kept(st)
            &&& weight(out, n) == weight(messages, n)
            &&& forall|i: int|
                0 <= i < n && (#[trigger] out[i]).role == Role::Tool ==> {
                    &&& out[i].tool_call_id is Some ==> !made_up(out[i].tool_call_id->0)
                    &&& crate::protocol::codec::openai_compatible::history::payload(
                        out[i].content,
                    ).1 is Some ==> !made_up(
                        crate::protocol::codec::openai_compatible::history::payload(
                            out[i].content,
                        ).1->0,
                    )
                }
        }),
    decreases n,
{
    if n > 0 {
        lemma_remapped(messages, (n - 1) as nat);
        let (before, mid) = crate::protocol::codec::openai_compatible::history::remapped_upto(
            messages,
            (n - 1) as nat,
        );
        let m = messages[n - 1];
        let (r, after) = crate::protocol::codec::openai_compatible::history::renamed_message(
            mid,
            m,
        );
        let out = before.push(r);
        lemma_weight_prefix(before, out, (n - 1) as nat);
        match m.role {
            Role::Assistant => {
                if let Some(calls) = m.tool_calls {
                    lemma_renamed_upto(mid, calls, calls.len());
                }
            },
            Role::Tool => {
                if let Some(id) = crate::text::solid(m.tool_call_id) {
                    lemma_last_open(mid.given, id, mid.given.len());
                    if let Some(i) = crate::protocol::codec::openai_compatible::history::last_open(
                        mid.given,
                        id,
                        mid.given.len(),
                    ) {
                        assert(!made_up(mid.given[i].original));
                        assert forall|j: int|
                            0 <= j < after.given.len() && !made_up(
                                (#[trigger] after.given[j]).original,
                            ) implies !made_up(after.given[j].unique) by {
                            assert(after.given[j].original == mid.given[j].original);
                            assert(after.given[j].unique == mid.given[j].unique);
                        }
                    }
                }
            },
            _ => {},
        }
        assert forall|i: int| 0 <= i < n && (#[trigger] out[i]).role == Role::Tool implies {
            &&& out[i].tool_call_id is Some ==> !made_up(out[i].tool_call_id->0)
            &&& crate::protocol::codec::openai_compatible::history::payload(out[i].content).1
                is Some ==> !made_up(
                crate::protocol::codec::openai_compatible::history::payload(out[i].content).1->0,
            )
        } by {
            if i < n - 1 {
                assert(out[i] == before[i]);
            }
        }
    }
}

proof fn lemma_weight_prefix(a: Seq<MessageV>, b: Seq<MessageV>, n: nat)
    requires
        n <= a.len(),
        n <= b.len(),
        forall|i: int| 0 <= i < n ==> a[i] == b[i],
    ensures
        weight(a, n) == weight(b, n),
    decreases n,
{
    if n > 0 {
        lemma_weight_prefix(a, b, (n - 1) as nat);
    }
}

// ---------------------------------------------------------------- what is left in the end

proof fn lemma_answers(messages: Seq<MessageV>, n: nat, id: Seq<char>)
    requires
        n <= messages.len(),
    ensures
        crate::protocol::codec::openai_compatible::history::answers_upto(messages, n).contains(id)
            <==> exists|j: int|
            0 <= j < n && (#[trigger] messages[j]).role == Role::Tool && crate::text::solid(
                messages[j].tool_call_id,
            ) == Some(id),
    decreases n,
{
    let all = crate::protocol::codec::openai_compatible::history::answers_upto(messages, n);
    if n > 0 {
        lemma_answers(messages, (n - 1) as nat, id);
        let before = crate::protocol::codec::openai_compatible::history::answers_upto(
            messages,
            (n - 1) as nat,
        );
        let m = messages[n - 1];
        if let (Role::Tool, Some(x)) = (m.role, crate::text::solid(m.tool_call_id)) {
            if before.contains(id) {
                let p = choose|p: int| 0 <= p < before.len() && before[p] == id;
                assert(all[p] == id);
            }
            assert(all[before.len() as int] == x);
            if x == id {
                assert(all.contains(id));
            }
            if all.contains(id) && x != id {
                let p = choose|p: int| 0 <= p < all.len() && all[p] == id;
                assert(before[p] == id);
            }
        }
    }
}

proof fn lemma_kept(calls: Seq<ToolCallV>, answers: Seq<Seq<char>>, n: nat)
    requires
        n <= calls.len(),
    ensures
        ({
            let r = crate::protocol::codec::openai_compatible::history::kept_upto(
                calls,
                answers,
                n,
            );
            &&& forall|i: int| 0 <= i < r.len() ==> answers.contains((#[trigger] r[i]).id)
            &&& forall|i: int|
                0 <= i < n && answers.contains((#[trigger] calls[i]).id) ==> r.contains(calls[i])
        }),
    decreases n,
{
    if n > 0 {
        lemma_kept(calls, answers, (n - 1) as nat);
        let before = crate::protocol::codec::openai_compatible::history::kept_upto(
            calls,
            answers,
            (n - 1) as nat,
        );
        let r = crate::protocol::codec::openai_compatible::history::kept_upto(calls, answers, n);
        assert forall|i: int| 0 <= i < n && answers.contains((#[trigger] calls[i]).id) implies
            r.contains(calls[i]) by {
            if i < n - 1 {
                let p = choose|p: int| 0 <= p < before.len() && before[p] == calls[i];
                assert(r[p] == calls[i]);
            } else {
                assert(r[before.len() as int] == calls[i]);
            }
        }
    }
}

proof fn lemma_saying(messages: Seq<MessageV>, n: nat)
    requires
        n <= messages.len(),
        answers_follow_calls(messages),
        one_answer_each(messages),
    ensures
        ({
            let s = crate::protocol::codec::openai_compatible::history::saying_upto(messages, n);
            &&& answers_follow_calls(s)
            &&& one_answer_each(s)
            &&& n > 0 && crate::protocol::codec::openai_compatible::history::says(messages[n - 1])
                ==> s.len() > 0 && s.last() == messages[n - 1]
            &&& forall|i: int|
                0 <= i < n && (#[trigger] messages[i]).role == Role::Tool ==> s.contains(
                    messages[i],
                )
            &&& forall|i: int|
                0 <= i < s.len() ==> exists|j: int|
                    0 <= j < n && #[trigger] s[i] == #[trigger] messages[j]
        }),
    decreases n,
{
    if n > 0 {
        lemma_saying(messages, (n - 1) as nat);
        let b = crate::protocol::codec::openai_compatible::history::saying_upto(
            messages,
            (n - 1) as nat,
        );
        let s = crate::protocol::codec::openai_compatible::history::saying_upto(messages, n);
        let m = messages[n - 1];
        if crate::protocol::codec::openai_compatible::history::says(m) {
            assert(s == b.push(m));
            if m.role == Role::Tool {
                let prev = messages[n - 2];
                lemma_call_found(prev, m.tool_call_id->0);
                assert(crate::protocol::codec::openai_compatible::history::says(prev));
                assert(b.last() == prev);
            }
            assert forall|j: int|
                0 <= j < s.len() && (#[trigger] s[j]).role == Role::Tool implies {
                &&& j > 0
                &&& s[j].tool_call_id is Some
                &&& crate::protocol::codec::openai_compatible::history::call_in(
                    s[j - 1],
                    s[j].tool_call_id->0,
                ) is Some
            } by {
                if j < b.len() {
                    assert(s[j] == b[j]);
                    assert(s[j - 1] == b[j - 1]);
                } else {
                    assert(s[j - 1] == b.last());
                }
            }
            assert forall|i: int, j: int|
                0 <= i < j < s.len() && (#[trigger] s[i]).role == Role::Tool && (
                #[trigger] s[j]).role == Role::Tool implies s[i].tool_call_id
                != s[j].tool_call_id by {
                assert(s[i] == b[i]);
                if j < b.len() {
                    assert(s[j] == b[j]);
                } else {
                    let k = choose|k: int| 0 <= k < n - 1 && b[i] == #[trigger] messages[k];
                    assert(messages[k].role == Role::Tool);
                }
            }
            assert forall|i: int|
                0 <= i < n && (#[trigger] messages[i]).role == Role::Tool implies s.contains(
                messages[i],
            ) by {
                if i < n - 1 {
                    let p = choose|p: int| 0 <= p < b.len() && b[p] == messages[i];
                    assert(s[p] == messages[i]);
                } else {
                    assert(s[b.len() as int] == messages[i]);
                }
            }
            assert forall|i: int| 0 <= i < s.len() implies exists|j: int|
                0 <= j < n && #[trigger] s[i] == #[trigger] messages[j] by {
                if i < b.len() {
                    let k = choose|k: int| 0 <= k < n - 1 && b[i] == #[trigger] messages[k];
                    assert(s[i] == messages[k]);
                } else {
                    assert(s[i] == messages[n - 1]);
                }
            }
        } else {
            assert(s == b);
            assert forall|i: int| 0 <= i < s.len() implies exists|j: int|
                0 <= j < n && #[trigger] s[i] == #[trigger] messages[j] by {
                let k = choose|k: int| 0 <= k < n - 1 && b[i] == #[trigger] messages[k];
                assert(s[i] == messages[k]);
            }
        }
    }
}

proof fn lemma_pruned_shape(out: Seq<MessageV>)
    requires
        answers_follow_calls(out),
        one_answer_each(out),
        forall|j: int|
            0 <= j < out.len() && (#[trigger] out[j]).role == Role::Tool
                ==> !crate::protocol::codec::openai_compatible::history::blank(
                out[j].tool_call_id->0,
            ),
    ensures
        ({
            let p = crate::protocol::codec::openai_compatible::history::all_pruned(out);
            answers_follow_calls(p) && one_answer_each(p)
        }),
{
    let answers = crate::protocol::codec::openai_compatible::history::answers_upto(
        out,
        out.len(),
    );
    let p = crate::protocol::codec::openai_compatible::history::all_pruned(out);
    assert forall|j: int| 0 <= j < p.len() && (#[trigger] p[j]).role == Role::Tool implies {
        &&& j > 0
        &&& p[j].tool_call_id is Some
        &&& crate::protocol::codec::openai_compatible::history::call_in(
            p[j - 1],
            p[j].tool_call_id->0,
        ) is Some
    } by {
        assert(out[j].role == Role::Tool);
        assert(p[j] == out[j]);
        let id = out[j].tool_call_id->0;
        let m = out[j - 1];
        lemma_call_found(m, id);
        lemma_answers(out, out.len(), id);
        assert(crate::text::solid(out[j].tool_call_id) == Some(id));
        assert(answers.contains(id));
        let calls = m.tool_calls->0;
        lemma_kept(calls, answers, calls.len());
        let i = crate::protocol::codec::openai_compatible::history::call_in(m, id)->0;
        let kept = crate::protocol::codec::openai_compatible::history::kept_upto(
            calls,
            answers,
            calls.len(),
        );
        assert(calls[i].id == id);
        assert(kept.contains(calls[i]));
        let q = choose|q: int| 0 <= q < kept.len() && kept[q] == calls[i];
        assert(p[j - 1].tool_calls == Some(kept));
        lemma_call_found(p[j - 1], id);
        assert(p[j - 1].tool_calls->0[q].id == id);
    }
    assert forall|i: int, j: int|
        0 <= i < j < p.len() && (#[trigger] p[i]).role == Role::Tool && (
        #[trigger] p[j]).role == Role::Tool implies p[i].tool_call_id != p[j].tool_call_id by {
        assert(out[i].role == Role::Tool && out[j].role == Role::Tool);
        assert(p[i] == out[i] && p[j] == out[j]);
    }
}

/// A conversation comes out in the shape that the protocol asks for: every tool message stands
/// directly behind an assistant message that makes the call which it answers, no two tool messages
/// answer the same call, and no call is left without an answer. Names that could be mistaken for
/// made-up ones are left out, and so are conversations with more calls and answers than numbers
/// can be given to.
pub proof fn lemma_normalized_shape(messages: Seq<MessageV>, fallback: Seq<char>)
    requires
        no_made_up(messages),
        weight(messages, messages.len()) <= usize::MAX,
    ensures
        ({
            let r = crate::protocol::codec::openai_compatible::history::normalized(
                messages,
                fallback,
            );
            &&& answers_follow_calls(r)
            &&& one_answer_each(r)
            &&& calls_answered(r)
        }),
{
    let named = crate::protocol::codec::openai_compatible::history::remapped_upto(
        messages,
        messages.len(),
    ).0;
    lemma_remapped(messages, messages.len());
    lemma_ordered(named, fallback, named.len());
    let out = OrderV::of(named, fallback, named.len()).out;
    lemma_pruned_shape(out);
    let p = crate::protocol::codec::openai_compatible::history::all_pruned(out);
    lemma_saying(p, p.len());
    let r = crate::protocol::codec::openai_compatible::history::normalized(messages, fallback);
    let answers = crate::protocol::codec::openai_compatible::history::answers_upto(
        out,
        out.len(),
    );
    assert forall|i: int, c: int|
        0 <= i < r.len() && r[i].role == Role::Assistant && r[i].tool_calls is Some && 0 <= c
            < r[i].tool_calls->0.len() implies is_answered(
        r,
        (#[trigger] r[i].tool_calls->0[c]).id,
    ) by {
        let k = choose|k: int| 0 <= k < p.len() && r[i] == #[trigger] p[k];
        let id = r[i].tool_calls->0[c].id;
        let calls = out[k].tool_calls->0;
        lemma_kept(calls, answers, calls.len());
        let kept = crate::protocol::codec::openai_compatible::history::kept_upto(
            calls,
            answers,
            calls.len(),
        );
        assert(p[k].tool_calls->0 == kept);
        assert(answers.contains(kept[c].id));
        lemma_answers(out, out.len(), id);
        let j = choose|j: int|
            0 <= j < out.len() && (#[trigger] out[j]).role == Role::Tool && crate::text::solid(
                out[j].tool_call_id,
            ) == Some(id);
        assert(p[j] == out[j]);
        assert(p[j].role == Role::Tool);
        let q = choose|q: int| 0 <= q < r.len() && r[q] == p[j];
        assert(r[q].tool_call_id == Some(id));
    }
}

// ---------------------------------------------------------------- the other messages

/// A message but for the call that it names.
pub open spec fn but_answer(m: MessageV) -> MessageV {
    if m.role == Role::Tool {
        MessageV { tool_call_id: None, ..m }
    } else {
        m
    }
}

/// The messages that are not the assistant's, in their order, but for the calls that they name.
pub open spec fn others(v: Seq<MessageV>) -> Seq<MessageV>
    decreases v.len(),
{
    if v.len() == 0 {
        Seq::empty()
    } else if v.last().role == Role::Assistant {
        others(v.drop_last())
    } else {
        others(v.drop_last()).push(but_answer(v.last()))
    }
}

proof fn lemma_others_push(v: Seq<MessageV>, m: MessageV)
    ensures
        others(v.push(m)) == if m.role == Role::Assistant {
            others(v)
        } else {
            others(v).push(but_answer(m))
        },
{
    assert(v.push(m).drop_last() =~= v);
}

/// Two conversations of the same length that differ in the assistant's messages, and in what
/// answers name, alone.
proof fn lemma_others_alike(v: Seq<MessageV>, w: Seq<MessageV>)
    requires
        v.len() == w.len(),
        forall|i: int|
            0 <= i < v.len() ==> ((#[trigger] v[i]).role == Role::Assistant && w[i].role
                == Role::Assistant) || (v[i].role != Role::Assistant && w[i].role
                != Role::Assistant && but_answer(v[i]) == but_answer(w[i])),
    ensures
        others(v) == others(w),
    decreases v.len(),
{
    if v.len() > 0 {
        assert(v[v.len() - 1] == v.last());
        assert forall|i: int| 0 <= i < v.len() - 1 implies ((#[trigger] v.drop_last()[i]).role
            == Role::Assistant && w.drop_last()[i].role == Role::Assistant) || (v.drop_last()[i].role
            != Role::Assistant && w.drop_last()[i].role != Role::Assistant && but_answer(
            v.drop_last()[i],
        ) == but_answer(w.drop_last()[i])) by {
            assert(v.drop_last()[i] == v[i]);
        }
        lemma_others_alike(v.drop_last(), w.drop_last());
    }
}

proof fn lemma_others_trimmed(out: Seq<MessageV>, keep: int)
    ensures
        others(crate::protocol::codec::openai_compatible::history::trimmed_to(out, keep)) == others(out),
    decreases out.len(),
{
    if out.len() > 0 && out.len() > keep && crate::protocol::codec::openai_compatible::history::droppable(out.last()) {
        lemma_others_trimmed(out.drop_last(), keep);
    }
}

proof fn lemma_others_brought(out: Seq<MessageV>, id: Seq<char>)
    ensures
        others(crate::protocol::codec::openai_compatible::history::brought_adjacent(out, id).1) == others(out),
    decreases out.len(),
{
    if out.len() > 0 && !crate::protocol::codec::openai_compatible::history::makes_call(out.last(), id) && crate::protocol::codec::openai_compatible::history::droppable(out.last()) {
        lemma_others_brought(out.drop_last(), id);
    }
}

proof fn lemma_others_calls(st: OrderV, v: Seq<ToolCallV>, fallback: Seq<char>, n: nat)
    ensures
        st.calls(v, fallback, n).1.out == st.out,
    decreases n,
{
    if n > 0 {
        lemma_others_calls(st, v, fallback, (n - 1) as nat);
    }
}

proof fn lemma_others_linked(st: OrderV, id: Seq<char>, fallback: Seq<char>)
    ensures
        others(st.linked(id, fallback).1.out) == others(st.out),
{
    let n = st.out.len();
    lemma_holder(st.out, id, n);
    match crate::protocol::codec::openai_compatible::history::holder(st.out, id, n) {
        Some(i) => {
            let m = st.out[i];
            lemma_call_found(m, id);
            let w = st.out.update(i, crate::protocol::codec::openai_compatible::history::without_call(m, id));
            lemma_others_alike(st.out, w);
            lemma_others_trimmed(w, i + 1);
            let t = crate::protocol::codec::openai_compatible::history::trimmed_to(w, i + 1);
            lemma_others_push(
                t,
                crate::protocol::codec::openai_compatible::history::call_message(m.tool_calls->0[crate::protocol::codec::openai_compatible::history::call_in(m, id)->0], t[i].meta),
            );
        },
        None => {
            lemma_others_brought(st.out, id);
            let (found, out) = crate::protocol::codec::openai_compatible::history::brought_adjacent(st.out, id);
            let mid = OrderV { out, ..st };
            if !found {
                let got = if mid.seen.contains(id) {
                    mid.fresh().0
                } else {
                    id
                };
                lemma_others_push(
                    out,
                    crate::protocol::codec::openai_compatible::history::call_message(
                        ToolCallV { id: got, name: fallback, arguments: "{}"@ },
                        None,
                    ),
                );
            }
        },
    }
}

proof fn lemma_others_ordered(named: Seq<MessageV>, fallback: Seq<char>, n: nat)
    requires
        n <= named.len(),
    ensures
        others(OrderV::of(named, fallback, n).out) == others(named.take(n as int)),
    decreases n,
{
    if n == 0 {
        assert(named.take(0) =~= Seq::<MessageV>::empty());
    } else {
        lemma_others_ordered(named, fallback, (n - 1) as nat);
        let st = OrderV::of(named, fallback, (n - 1) as nat);
        let m = named[n - 1];
        assert(named.take(n as int) =~= named.take(n - 1).push(m));
        lemma_others_push(named.take(n - 1), m);
        match m.role {
            Role::Assistant => match m.tool_calls {
                Some(calls) => {
                    lemma_others_calls(st, calls, fallback, calls.len());
                    let c = st.calls(calls, fallback, calls.len()).0;
                    lemma_others_push(st.out, MessageV { tool_calls: Some(c), ..m });
                },
                None => {
                    lemma_others_push(st.out, m);
                },
            },
            Role::Tool => {
                let (wanted, s1) = st.answered(m);
                assert(s1.out == st.out);
                lemma_others_linked(s1, wanted, fallback);
                let (id, s2) = s1.linked(wanted, fallback);
                let last = MessageV { tool_call_id: Some(id), ..m };
                lemma_others_push(s2.out, last);
                assert(but_answer(last) == but_answer(m));
            },
            _ => {
                lemma_others_push(st.out, m);
            },
        }
    }
}

proof fn lemma_others_remapped(messages: Seq<MessageV>, n: nat)
    requires
        n <= messages.len(),
    ensures
        crate::protocol::codec::openai_compatible::history::remapped_upto(messages, n).0.len() == n,
        others(crate::protocol::codec::openai_compatible::history::remapped_upto(messages, n).0) == others(messages.take(n as int)),
    decreases n,
{
    if n == 0 {
        assert(messages.take(0) =~= Seq::<MessageV>::empty());
    } else {
        lemma_others_remapped(messages, (n - 1) as nat);
        let (before, mid) = crate::protocol::codec::openai_compatible::history::remapped_upto(messages, (n - 1) as nat);
        let m = messages[n - 1];
        let (r, after) = crate::protocol::codec::openai_compatible::history::renamed_message(mid, m);
        assert(messages.take(n as int) =~= messages.take(n - 1).push(m));
        lemma_others_push(messages.take(n - 1), m);
        lemma_others_push(before, r);
        assert(r.role == m.role);
        if m.role != Role::Assistant {
            assert(but_answer(r) == but_answer(m));
        }
    }
}

proof fn lemma_others_saying(messages: Seq<MessageV>, n: nat)
    requires
        n <= messages.len(),
    ensures
        others(crate::protocol::codec::openai_compatible::history::saying_upto(messages, n)) == others(messages.take(n as int)),
        forall|i: int|
            0 <= i < crate::protocol::codec::openai_compatible::history::saying_upto(messages, n).len() ==> crate::protocol::codec::openai_compatible::history::says(
                #[trigger] crate::protocol::codec::openai_compatible::history::saying_upto(messages, n)[i],
            ),
    decreases n,
{
    if n == 0 {
        assert(messages.take(0) =~= Seq::<MessageV>::empty());
    } else {
        lemma_others_saying(messages, (n - 1) as nat);
        let m = messages[n - 1];
        assert(messages.take(n as int) =~= messages.take(n - 1).push(m));
        lemma_others_push(messages.take(n - 1), m);
        lemma_others_push(crate::protocol::codec::openai_compatible::history::saying_upto(messages, (n - 1) as nat), m);
    }
}

/// Whether an assistant message neither makes a call nor says anything.
pub open spec fn is_empty_turn(m: MessageV) -> bool {
    &&& m.role == Role::Assistant
    &&& m.tool_calls is None || m.tool_calls->0.len() == 0
    &&& crate::protocol::codec::openai_compatible::history::blank(m.content.to_text())
}

/// A conversation keeps all messages that are not the assistant's, in their order and unchanged but
/// for the calls that answers name, and no message of the assistant is left that neither makes a
/// call nor says anything.
pub proof fn lemma_normalized_keeps(messages: Seq<MessageV>, fallback: Seq<char>)
    ensures
        others(crate::protocol::codec::openai_compatible::history::normalized(messages, fallback)) == others(messages),
        forall|i: int|
            0 <= i < crate::protocol::codec::openai_compatible::history::normalized(messages, fallback).len() ==> !is_empty_turn(
                #[trigger] crate::protocol::codec::openai_compatible::history::normalized(messages, fallback)[i],
            ),
{
    let named = crate::protocol::codec::openai_compatible::history::remapped_upto(messages, messages.len()).0;
    lemma_others_remapped(messages, messages.len());
    assert(messages.take(messages.len() as int) =~= messages);
    lemma_others_ordered(named, fallback, named.len());
    assert(named.take(named.len() as int) =~= named);
    let out = OrderV::of(named, fallback, named.len()).out;
    let p = crate::protocol::codec::openai_compatible::history::all_pruned(out);
    lemma_others_alike(out, p);
    lemma_others_saying(p, p.len());
    assert(p.take(p.len() as int) =~= p);
    let r = crate::protocol::codec::openai_compatible::history::normalized(messages, fallback);
    assert forall|i: int| 0 <= i < r.len() implies !is_empty_turn(#[trigger] r[i]) by {
        assert(crate::protocol::codec::openai_compatible::history::says(r[i]));
    }
}

} // verus!
