//! What a written request holds of the conversation.
use vstd::prelude::*;

use crate::json::JsonV;
use crate::protocol::codec::anthropic_messages::encoder::TurnV;
use crate::protocol::types::{
    ContentBlockV, InternalMessageV, InternalRequestV, MessageContentV, Role, ToolCallV,
};

verus! {

/// The words of the protocol differ.
proof fn lemma_words()
    ensures
        "id"@.len() == 2,
        "name"@.len() == 4,
        "name"@[1] == 'a',
        "role"@.len() == 4,
        "role"@[1] == 'o',
        "text"@.len() == 4,
        "text"@[1] == 'e',
        "type"@.len() == 4,
        "type"@[1] == 'y',
        "user"@.len() == 4,
        "user"@[1] == 's',
        "image"@.len() == 5,
        "image"@[1] == 'm',
        "input"@.len() == 5,
        "input"@[1] == 'n',
        "source"@.len() == 6,
        "content"@.len() == 7,
        "thinking"@.len() == 8,
        "thinking"@[1] == 'h',
        "tool_use"@.len() == 8,
        "tool_use"@[1] == 'o',
        "assistant"@.len() == 9,
        "assistant"@[0] == 'a',
        "signature"@.len() == 9,
        "signature"@[0] == 's',
        "tool_result"@.len() == 11,
        "tool_result"@[5] == 'r',
        "tool_use_id"@.len() == 11,
        "tool_use_id"@[5] == 'u',
{
    reveal_strlit("id");
    reveal_strlit("name");
    reveal_strlit("role");
    reveal_strlit("text");
    reveal_strlit("type");
    reveal_strlit("user");
    reveal_strlit("image");
    reveal_strlit("input");
    reveal_strlit("source");
    reveal_strlit("content");
    reveal_strlit("thinking");
    reveal_strlit("tool_use");
    reveal_strlit("assistant");
    reveal_strlit("signature");
    reveal_strlit("tool_result");
    reveal_strlit("tool_use_id");
}

// ---------------------------------------------------------------- what is written

/// The blocks of a kind among the first `n`.
pub open spec fn of_kind(blocks: Seq<JsonV>, kind: Seq<char>, n: nat) -> Seq<JsonV>
    decreases n,
{
    if n == 0 {
        Seq::empty()
    } else {
        let before = of_kind(blocks, kind, (n - 1) as nat);
        if blocks[n - 1].str_or_empty("type"@) == kind {
            before.push(blocks[n - 1])
        } else {
            before
        }
    }
}

/// Blocks with the side that says them.
pub open spec fn by_side(side: Seq<char>, blocks: Seq<JsonV>) -> Seq<(Seq<char>, JsonV)> {
    Seq::new(blocks.len(), |i: int| (side, blocks[i]))
}

/// The blocks of a written turn.
pub open spec fn blocks_in(turn: JsonV) -> Seq<JsonV> {
    match turn.get_array("content"@) {
        Some(v) => v,
        None => Seq::empty(),
    }
}

/// The blocks of a kind in the first `n` turns, in order, each with the side that says it.
pub open spec fn spoken(turns: Seq<JsonV>, kind: Seq<char>, n: nat) -> Seq<(Seq<char>, JsonV)>
    decreases n,
{
    if n == 0 {
        Seq::empty()
    } else {
        let turn = turns[n - 1];
        spoken(turns, kind, (n - 1) as nat) + by_side(
            turn.str_or_empty("role"@),
            of_kind(blocks_in(turn), kind, blocks_in(turn).len()),
        )
    }
}

// ---------------------------------------------------------------- what is meant

/// The side of a message: the model's own, or the one that it talks to.
pub open spec fn side(role: Role) -> Seq<char> {
    if role is Assistant {
        "assistant"@
    } else {
        "user"@
    }
}

/// The texts among the first `n` blocks that are not blank.
pub open spec fn block_texts(blocks: Seq<ContentBlockV>, n: nat) -> Seq<Seq<char>>
    decreases n,
{
    if n == 0 {
        Seq::empty()
    } else {
        let before = block_texts(blocks, (n - 1) as nat);
        match blocks[n - 1] {
            ContentBlockV::Text { text } => if crate::text::trim_of(text).len() > 0 {
                before.push(text)
            } else {
                before
            },
            _ => before,
        }
    }
}

/// The texts of a message that are not blank; what a tool answers is no text of its own.
pub open spec fn texts_of(m: InternalMessageV) -> Seq<Seq<char>> {
    if m.role is Tool {
        Seq::empty()
    } else {
        match m.content {
            MessageContentV::Text(t) => if crate::text::trim_of(t).len() > 0 {
                seq![t]
            } else {
                Seq::empty()
            },
            MessageContentV::Blocks(v) => block_texts(v, v.len()),
        }
    }
}

/// The texts of the first `n` messages but the system's, in order, each with its side.
pub open spec fn texts_told(messages: Seq<InternalMessageV>, n: nat) -> Seq<(Seq<char>, Seq<char>)>
    decreases n,
{
    if n == 0 {
        Seq::empty()
    } else {
        let m = messages[n - 1];
        let before = texts_told(messages, (n - 1) as nat);
        if m.role is System {
            before
        } else {
            before + Seq::new(texts_of(m).len(), |i: int| (side(m.role), texts_of(m)[i]))
        }
    }
}

/// A call: its identifier, its tool and its input.
pub struct CallV {
    pub id: Seq<char>,
    pub name: Seq<char>,
    pub input: JsonV,
}

/// The calls among the first `n` blocks.
pub open spec fn block_calls(blocks: Seq<ContentBlockV>, n: nat) -> Seq<CallV>
    decreases n,
{
    if n == 0 {
        Seq::empty()
    } else {
        let before = block_calls(blocks, (n - 1) as nat);
        match blocks[n - 1] {
            ContentBlockV::ToolUse { id, name, input } => before.push(CallV { id, name, input }),
            _ => before,
        }
    }
}

/// The calls of a message: beside a text those listed with it, else those among its blocks.
pub open spec fn calls_of(m: InternalMessageV) -> Seq<CallV> {
    if m.role is Tool {
        Seq::empty()
    } else {
        match m.content {
            MessageContentV::Text(_) => match m.tool_calls {
                Some(v) => Seq::new(
                    v.len(),
                    |i: int|
                        CallV {
                            id: v[i].id,
                            name: v[i].name,
                            input: JsonV::read_or_object(v[i].arguments),
                        },
                ),
                None => Seq::empty(),
            },
            MessageContentV::Blocks(v) => block_calls(v, v.len()),
        }
    }
}

/// The calls of the first `n` messages but the system's, in order, each with its side.
pub open spec fn calls_told(messages: Seq<InternalMessageV>, n: nat) -> Seq<(Seq<char>, CallV)>
    decreases n,
{
    if n == 0 {
        Seq::empty()
    } else {
        let m = messages[n - 1];
        let before = calls_told(messages, (n - 1) as nat);
        if m.role is System {
            before
        } else {
            before + Seq::new(calls_of(m).len(), |i: int| (side(m.role), calls_of(m)[i]))
        }
    }
}

/// The answers among the first `n` blocks: the call that is answered, and the content.
pub open spec fn block_answers(blocks: Seq<ContentBlockV>, n: nat) -> Seq<(Seq<char>, JsonV)>
    decreases n,
{
    if n == 0 {
        Seq::empty()
    } else {
        let before = block_answers(blocks, (n - 1) as nat);
        match blocks[n - 1] {
            ContentBlockV::ToolResult { tool_use_id, content } => before.push(
                (tool_use_id, content),
            ),
            _ => before,
        }
    }
}

/// The answers of a message: a tool's one answer, to the call that it names, or those among its
/// blocks.
pub open spec fn answers_of(m: InternalMessageV) -> Seq<(Seq<char>, JsonV)> {
    if m.role is Tool {
        let listed = match m.content {
            MessageContentV::Text(_) => Seq::empty(),
            MessageContentV::Blocks(v) => block_answers(v, v.len()),
        };
        let id = match m.tool_call_id {
            Some(i) => if crate::text::trim_of(i).len() > 0 {
                i
            } else if listed.len() > 0 {
                listed[0].0
            } else {
                "tool_result"@
            },
            None => if listed.len() > 0 {
                listed[0].0
            } else {
                "tool_result"@
            },
        };
        seq![
            (
                id,
                if listed.len() > 0 {
                    listed[0].1
                } else {
                    JsonV::Text(m.content.as_text())
                },
            ),
        ]
    } else {
        match m.content {
            MessageContentV::Text(_) => Seq::empty(),
            MessageContentV::Blocks(v) => block_answers(v, v.len()),
        }
    }
}

/// The answers of the first `n` messages but the system's, in order, each with its side.
pub open spec fn answers_told(messages: Seq<InternalMessageV>, n: nat) -> Seq<
    (Seq<char>, (Seq<char>, JsonV)),
>
    decreases n,
{
    if n == 0 {
        Seq::empty()
    } else {
        let m = messages[n - 1];
        let before = answers_told(messages, (n - 1) as nat);
        if m.role is System {
            before
        } else {
            before + Seq::new(answers_of(m).len(), |i: int| (side(m.role), answers_of(m)[i]))
        }
    }
}

// ---------------------------------------------------------------- turns keep what is said

proof fn lemma_kind_cat(a: Seq<JsonV>, b: Seq<JsonV>, kind: Seq<char>, n: nat)
    requires
        n <= b.len(),
    ensures
        of_kind(a + b, kind, a.len() + n) == of_kind(a, kind, a.len()) + of_kind(b, kind, n),
    decreases n,
{
    if n == 0 {
        lemma_kind_prefix(a, b, kind, a.len());
        assert(of_kind(a, kind, a.len()) + Seq::<JsonV>::empty() =~= of_kind(a, kind, a.len()));
    } else {
        lemma_kind_cat(a, b, kind, (n - 1) as nat);
        let x = of_kind(a, kind, a.len());
        let y = of_kind(b, kind, (n - 1) as nat);
        assert((a + b)[a.len() + n - 1] == b[n - 1]);
        assert((x + y).push(b[n - 1]) =~= x + y.push(b[n - 1]));
    }
}

proof fn lemma_kind_prefix(a: Seq<JsonV>, b: Seq<JsonV>, kind: Seq<char>, n: nat)
    requires
        n <= a.len(),
    ensures
        of_kind(a + b, kind, n) == of_kind(a, kind, n),
    decreases n,
{
    if n > 0 {
        lemma_kind_prefix(a, b, kind, (n - 1) as nat);
        assert((a + b)[n - 1] == a[n - 1]);
    }
}

proof fn lemma_kind_push(a: Seq<JsonV>, x: JsonV, kind: Seq<char>)
    ensures
        of_kind(a.push(x), kind, a.len() + 1) == if x.str_or_empty("type"@) == kind {
            of_kind(a, kind, a.len()).push(x)
        } else {
            of_kind(a, kind, a.len())
        },
{
    assert(a.push(x) =~= a + seq![x]);
    lemma_kind_prefix(a, seq![x], kind, a.len());
}

/// The place of the blocks of a kind.
spec fn kind_place(kind: Seq<char>) -> int {
    if kind == "thinking"@ {
        0
    } else if kind == "tool_use"@ {
        2
    } else {
        1
    }
}

proof fn lemma_kind_at_place(blocks: Seq<JsonV>, kind: Seq<char>, p: int, n: nat)
    requires
        n <= blocks.len(),
    ensures
        ({
            let q = crate::protocol::codec::anthropic_messages::encoder::at_place(blocks, p, n);
            of_kind(q, kind, q.len()) == if kind_place(kind) == p {
                of_kind(blocks, kind, n)
            } else {
                Seq::empty()
            }
        }),
    decreases n,
{
    if n > 0 {
        lemma_kind_at_place(blocks, kind, p, (n - 1) as nat);
        let before = crate::protocol::codec::anthropic_messages::encoder::at_place(
            blocks,
            p,
            (n - 1) as nat,
        );
        lemma_kind_push(before, blocks[n - 1], kind);
    }
}

proof fn lemma_kind_ordered(t: TurnV, kind: Seq<char>)
    ensures
        ({
            let v = crate::protocol::codec::anthropic_messages::encoder::ordered(t);
            of_kind(v, kind, v.len()) == of_kind(t.blocks, kind, t.blocks.len())
        }),
{
    let n = t.blocks.len();
    let a = crate::protocol::codec::anthropic_messages::encoder::at_place(t.blocks, 0, n);
    let b = crate::protocol::codec::anthropic_messages::encoder::at_place(t.blocks, 1, n);
    let c = crate::protocol::codec::anthropic_messages::encoder::at_place(t.blocks, 2, n);
    lemma_kind_at_place(t.blocks, kind, 0, n);
    lemma_kind_at_place(t.blocks, kind, 1, n);
    lemma_kind_at_place(t.blocks, kind, 2, n);
    lemma_kind_cat(a, b, kind, b.len());
    lemma_kind_cat(a + b, c, kind, c.len());
    let all = of_kind(t.blocks, kind, n);
    assert((a + b).len() == a.len() + b.len());
    assert(((a + b) + c).len() == a.len() + b.len() + c.len());
    assert(Seq::<JsonV>::empty() + all =~= all);
    assert(all + Seq::<JsonV>::empty() =~= all);
    assert(Seq::<JsonV>::empty() + Seq::<JsonV>::empty() =~= Seq::<JsonV>::empty());
}

/// What turns say of a kind.
spec fn turned(turns: Seq<TurnV>, kind: Seq<char>, n: nat) -> Seq<(Seq<char>, JsonV)>
    decreases n,
{
    if n == 0 {
        Seq::empty()
    } else {
        let t = turns[n - 1];
        turned(turns, kind, (n - 1) as nat) + by_side(
            t.role,
            of_kind(t.blocks, kind, t.blocks.len()),
        )
    }
}

proof fn lemma_turned_prefix(a: Seq<TurnV>, b: Seq<TurnV>, kind: Seq<char>, n: nat)
    requires
        n <= a.len(),
        n <= b.len(),
        forall|i: int| 0 <= i < n ==> a[i] == b[i],
    ensures
        turned(a, kind, n) == turned(b, kind, n),
    decreases n,
{
    if n > 0 {
        lemma_turned_prefix(a, b, kind, (n - 1) as nat);
    }
}

/// What messages of the protocol say of a kind.
spec fn sent(messages: Seq<JsonV>, kind: Seq<char>, n: nat) -> Seq<(Seq<char>, JsonV)>
    decreases n,
{
    if n == 0 {
        Seq::empty()
    } else {
        sent(messages, kind, (n - 1) as nat) + sent_by(messages[n - 1], kind)
    }
}

spec fn sent_by(m: JsonV, kind: Seq<char>) -> Seq<(Seq<char>, JsonV)> {
    let v = crate::protocol::codec::anthropic_messages::encoder::content_blocks(
        m.get_or_null("content"@),
    );
    match m.get_str("role"@) {
        Some(role) => by_side(role, of_kind(v, kind, v.len())),
        None => Seq::empty(),
    }
}

proof fn lemma_turns_keep(messages: Seq<JsonV>, kind: Seq<char>, n: nat)
    requires
        n <= messages.len(),
    ensures
        ({
            let turns = crate::protocol::codec::anthropic_messages::encoder::turns_of(messages, n);
            turned(turns, kind, turns.len()) == sent(messages, kind, n)
        }),
    decreases n,
{
    if n > 0 {
        lemma_turns_keep(messages, kind, (n - 1) as nat);
        let before = crate::protocol::codec::anthropic_messages::encoder::turns_of(
            messages,
            (n - 1) as nat,
        );
        let after = crate::protocol::codec::anthropic_messages::encoder::turns_of(messages, n);
        let m = messages[n - 1];
        let v = crate::protocol::codec::anthropic_messages::encoder::content_blocks(
            m.get_or_null("content"@),
        );
        let old = turned(before, kind, before.len());
        match m.get_str("role"@) {
            Some(role) => {
                let more = by_side(role, of_kind(v, kind, v.len()));
                if v.len() == 0 {
                    assert(old + more =~= old);
                } else if before.len() > 0 && before.last().role == role {
                    let last = before.last();
                    lemma_turned_prefix(after, before, kind, (before.len() - 1) as nat);
                    lemma_kind_cat(last.blocks, v, kind, v.len());
                    assert((last.blocks + v).len() == last.blocks.len() + v.len());
                    let x = of_kind(last.blocks, kind, last.blocks.len());
                    let y = of_kind(v, kind, v.len());
                    let head = turned(before, kind, (before.len() - 1) as nat);
                    assert(head + by_side(role, x + y) =~= (head + by_side(role, x)) + by_side(
                        role,
                        y,
                    ));
                } else {
                    lemma_turned_prefix(after, before, kind, before.len());
                }
            },
            None => {
                assert(old + Seq::<(Seq<char>, JsonV)>::empty() =~= old);
            },
        }
    }
}

proof fn lemma_spoken_turned(turns: Seq<TurnV>, written: Seq<JsonV>, kind: Seq<char>, n: nat)
    requires
        n <= turns.len() == written.len(),
        forall|i: int|
            0 <= i < turns.len() ==> #[trigger] written[i]
                == crate::protocol::codec::anthropic_messages::encoder::turn_json(turns[i]),
    ensures
        spoken(written, kind, n) == turned(turns, kind, n),
    decreases n,
{
    if n > 0 {
        broadcast use crate::json::lemma_with_get;

        lemma_words();
        lemma_spoken_turned(turns, written, kind, (n - 1) as nat);
        let t = turns[n - 1];
        let w = written[n - 1];
        assert(w == crate::protocol::codec::anthropic_messages::encoder::turn_json(t));
        assert(w.get_str("role"@) == Some(t.role));
        assert(blocks_in(w) == crate::protocol::codec::anthropic_messages::encoder::ordered(t));
        lemma_kind_ordered(t, kind);
    }
}

proof fn lemma_spoken_sent(messages: Seq<JsonV>, kind: Seq<char>)
    ensures
        ({
            let v = crate::protocol::codec::anthropic_messages::encoder::normalized(messages);
            spoken(v, kind, v.len()) == sent(messages, kind, messages.len())
        }),
{
    let v = crate::protocol::codec::anthropic_messages::encoder::normalized(messages);
    let turns = crate::protocol::codec::anthropic_messages::encoder::turns_of(
        messages,
        messages.len(),
    );
    lemma_spoken_turned(turns, v, kind, v.len());
    lemma_turns_keep(messages, kind, messages.len());
}

// ---------------------------------------------------------------- messages keep what is said

proof fn lemma_staying(a: Seq<JsonV>, kind: Seq<char>, n: nat)
    requires
        n <= a.len(),
        kind != "text"@,
    ensures
        ({
            let s = crate::protocol::codec::anthropic_messages::encoder::staying(a, n);
            of_kind(s, kind, s.len()) == of_kind(a, kind, n)
        }),
    decreases n,
{
    if n > 0 {
        lemma_staying(a, kind, (n - 1) as nat);
        lemma_kind_push(
            crate::protocol::codec::anthropic_messages::encoder::staying(a, (n - 1) as nat),
            a[n - 1],
            kind,
        );
    }
}

/// The content of a message as the protocol has it, before turns are made.
spec fn blocks_sent(m: InternalMessageV) -> Seq<JsonV> {
    crate::protocol::codec::anthropic_messages::encoder::content_blocks(
        crate::protocol::codec::anthropic_messages::encoder::message_json(m).get_or_null(
            "content"@,
        ),
    )
}

/// Whether blocks are texts, one for one.
spec fn are_texts(v: Seq<JsonV>, t: Seq<Seq<char>>) -> bool {
    v.len() == t.len() && forall|i: int|
        0 <= i < v.len() ==> (#[trigger] v[i]).get_str("text"@) == Some(t[i])
}

/// Whether a block is a call.
pub open spec fn is_call(b: JsonV, c: CallV) -> bool {
    &&& b.get_str("id"@) == Some(
        crate::protocol::codec::anthropic_messages::encoder::tool_id(c.id),
    )
    &&& b.get_str("name"@) == Some(c.name)
    &&& b.get("input"@) == Some(c.input)
}

spec fn are_calls(v: Seq<JsonV>, t: Seq<CallV>) -> bool {
    v.len() == t.len() && forall|i: int| 0 <= i < v.len() ==> is_call(#[trigger] v[i], t[i])
}

/// Whether a block is an answer.
pub open spec fn is_answer(b: JsonV, a: (Seq<char>, JsonV)) -> bool {
    &&& b.get_str("tool_use_id"@) == Some(
        crate::protocol::codec::anthropic_messages::encoder::tool_id(a.0),
    )
    &&& b.get("content"@) == Some(a.1)
}

spec fn are_answers(v: Seq<JsonV>, t: Seq<(Seq<char>, JsonV)>) -> bool {
    v.len() == t.len() && forall|i: int| 0 <= i < v.len() ==> is_answer(#[trigger] v[i], t[i])
}

proof fn lemma_block_kinds(b: ContentBlockV)
    ensures
        ({
            let j = crate::protocol::codec::anthropic_messages::encoder::block_json(b);
            &&& j.str_or_empty("type"@) == match b {
                ContentBlockV::Text { .. } => "text"@,
                ContentBlockV::Image { .. } => "image"@,
                ContentBlockV::Reasoning { .. } => "thinking"@,
                ContentBlockV::ToolUse { .. } => "tool_use"@,
                ContentBlockV::ToolResult { .. } => "tool_result"@,
            }
            &&& b matches ContentBlockV::Text { text } ==> j.get_str("text"@) == Some(text)
            &&& b matches ContentBlockV::ToolUse { id, name, input } ==> is_call(
                j,
                CallV { id, name, input },
            )
            &&& b matches ContentBlockV::ToolResult { tool_use_id, content } ==> is_answer(
                j,
                (tool_use_id, content),
            )
        }),
{
    broadcast use crate::json::lemma_with_get;

    lemma_words();
}

proof fn lemma_blocks_texts(v: Seq<ContentBlockV>, a: Seq<JsonV>, n: nat)
    requires
        n <= v.len() == a.len(),
        forall|i: int|
            0 <= i < a.len() ==> #[trigger] a[i]
                == crate::protocol::codec::anthropic_messages::encoder::block_json(v[i]),
    ensures
        ({
            let s = crate::protocol::codec::anthropic_messages::encoder::staying(a, n);
            are_texts(of_kind(s, "text"@, s.len()), block_texts(v, n))
        }),
    decreases n,
{
    if n > 0 {
        lemma_blocks_texts(v, a, (n - 1) as nat);
        lemma_words();
        assert(a[n - 1] == crate::protocol::codec::anthropic_messages::encoder::block_json(
            v[n - 1],
        ));
        lemma_block_kinds(v[n - 1]);
        lemma_kind_push(
            crate::protocol::codec::anthropic_messages::encoder::staying(a, (n - 1) as nat),
            a[n - 1],
            "text"@,
        );
    }
}

proof fn lemma_blocks_calls(v: Seq<ContentBlockV>, a: Seq<JsonV>, n: nat)
    requires
        n <= v.len() == a.len(),
        forall|i: int|
            0 <= i < a.len() ==> #[trigger] a[i]
                == crate::protocol::codec::anthropic_messages::encoder::block_json(v[i]),
    ensures
        are_calls(of_kind(a, "tool_use"@, n), block_calls(v, n)),
        are_answers(of_kind(a, "tool_result"@, n), block_answers(v, n)),
    decreases n,
{
    if n > 0 {
        lemma_blocks_calls(v, a, (n - 1) as nat);
        lemma_words();
        assert(a[n - 1] == crate::protocol::codec::anthropic_messages::encoder::block_json(
            v[n - 1],
        ));
        lemma_block_kinds(v[n - 1]);
    }
}

proof fn lemma_call_blocks(before: Seq<JsonV>, calls: Seq<ToolCallV>, n: nat)
    requires
        n <= calls.len(),
        forall|i: int|
            0 <= i < before.len() ==> (#[trigger] before[i]).str_or_empty("type"@) != "tool_use"@
                && before[i].str_or_empty("type"@) != "tool_result"@,
    ensures
        ({
            let v = crate::protocol::codec::anthropic_messages::encoder::call_blocks(
                before,
                calls,
                n,
            );
            &&& v.len() == before.len() + n
            &&& of_kind(v, "tool_result"@, v.len()).len() == 0
            &&& are_calls(
                of_kind(v, "tool_use"@, v.len()),
                Seq::new(
                    n,
                    |i: int|
                        CallV {
                            id: calls[i].id,
                            name: calls[i].name,
                            input: JsonV::read_or_object(calls[i].arguments),
                        },
                ),
            )
            &&& of_kind(v, "text"@, v.len()) == of_kind(before, "text"@, before.len())
            &&& forall|i: int| 0 <= i < before.len() ==> v[i] == before[i]
            &&& forall|i: int|
                before.len() <= i < v.len() ==> (#[trigger] v[i]).str_or_empty("type"@)
                    == "tool_use"@
        }),
    decreases n,
{
    broadcast use crate::json::lemma_with_get;

    lemma_words();
    if n == 0 {
        lemma_none_of_kind(before, "tool_use"@, before.len());
        lemma_none_of_kind(before, "tool_result"@, before.len());
    } else {
        lemma_call_blocks(before, calls, (n - 1) as nat);
        let w = crate::protocol::codec::anthropic_messages::encoder::call_blocks(
            before,
            calls,
            (n - 1) as nat,
        );
        let c = calls[n - 1];
        let b = crate::protocol::codec::anthropic_messages::stream::tool_use_block(
            crate::protocol::codec::anthropic_messages::encoder::tool_id(c.id),
            c.name,
            JsonV::read_or_object(c.arguments),
        );
        assert(b.str_or_empty("type"@) == "tool_use"@);
        lemma_kind_push(w, b, "tool_use"@);
        lemma_kind_push(w, b, "tool_result"@);
        lemma_kind_push(w, b, "text"@);
    }
}

proof fn lemma_none_of_kind(v: Seq<JsonV>, kind: Seq<char>, n: nat)
    requires
        n <= v.len(),
        forall|i: int| 0 <= i < v.len() ==> (#[trigger] v[i]).str_or_empty("type"@) != kind,
    ensures
        of_kind(v, kind, n).len() == 0,
    decreases n,
{
    if n > 0 {
        lemma_none_of_kind(v, kind, (n - 1) as nat);
    }
}

proof fn lemma_first_answer(v: Seq<ContentBlockV>, i: int)
    requires
        0 <= i <= v.len(),
    ensures
        match crate::protocol::codec::anthropic_messages::encoder::first_result(v, i) {
            Some(r) => exists|j: int|
                {
                    &&& i <= j < v.len()
                    &&& #[trigger] v[j] == (ContentBlockV::ToolResult {
                        tool_use_id: r.0,
                        content: r.1,
                    })
                    &&& forall|k: int| i <= k < j ==> !(#[trigger] v[k] is ToolResult)
                },
            None => forall|k: int| i <= k < v.len() ==> !(#[trigger] v[k] is ToolResult),
        },
    decreases v.len() - i,
{
    if i < v.len() && !(v[i] is ToolResult) {
        lemma_first_answer(v, i + 1);
        if let Some(r) = crate::protocol::codec::anthropic_messages::encoder::first_result(
            v,
            i + 1,
        ) {
            let j = choose|j: int|
                {
                    &&& i + 1 <= j < v.len()
                    &&& #[trigger] v[j] == (ContentBlockV::ToolResult {
                        tool_use_id: r.0,
                        content: r.1,
                    })
                    &&& forall|k: int| i + 1 <= k < j ==> !(#[trigger] v[k] is ToolResult)
                };
            assert(forall|k: int| i <= k < j ==> !(#[trigger] v[k] is ToolResult));
        }
    }
}

proof fn lemma_answers_first(v: Seq<ContentBlockV>, j: int, n: nat)
    requires
        0 <= j < v.len(),
        v[j] is ToolResult,
        forall|k: int| 0 <= k < j ==> !(#[trigger] v[k] is ToolResult),
        n <= v.len(),
    ensures
        n <= j ==> block_answers(v, n).len() == 0,
        n > j ==> block_answers(v, n).len() > 0 && block_answers(v, n)[0] == (
            v[j]->tool_use_id,
            v[j]->ToolResult_content,
        ),
    decreases n,
{
    if n > 0 {
        lemma_answers_first(v, j, (n - 1) as nat);
    }
}

proof fn lemma_no_answers(v: Seq<ContentBlockV>, n: nat)
    requires
        n <= v.len(),
        forall|k: int| 0 <= k < v.len() ==> !(#[trigger] v[k] is ToolResult),
    ensures
        block_answers(v, n).len() == 0,
    decreases n,
{
    if n > 0 {
        lemma_no_answers(v, (n - 1) as nat);
    }
}

proof fn lemma_message_sent(m: InternalMessageV)
    requires
        !(m.role is System),
    ensures
        crate::protocol::codec::anthropic_messages::encoder::message_json(m).get_str("role"@)
            == Some(side(m.role)),
        ({
            let v = blocks_sent(m);
            &&& are_texts(of_kind(v, "text"@, v.len()), texts_of(m))
            &&& are_calls(of_kind(v, "tool_use"@, v.len()), calls_of(m))
            &&& are_answers(of_kind(v, "tool_result"@, v.len()), answers_of(m))
        }),
{
    broadcast use crate::json::lemma_with_get;

    lemma_words();
    let j = crate::protocol::codec::anthropic_messages::encoder::message_json(m);
    let v = blocks_sent(m);
    reveal_with_fuel(of_kind, 2);
    if m.role is Tool {
        let (content, hint) = crate::protocol::codec::anthropic_messages::encoder::result_payload(
            m.content,
        );
        if let MessageContentV::Blocks(b) = m.content {
            lemma_first_answer(b, 0);
            match crate::protocol::codec::anthropic_messages::encoder::first_result(b, 0) {
                Some(r) => {
                    let k = choose|k: int|
                        {
                            &&& 0 <= k < b.len()
                            &&& #[trigger] b[k] == (ContentBlockV::ToolResult {
                                tool_use_id: r.0,
                                content: r.1,
                            })
                            &&& forall|l: int| 0 <= l < k ==> !(#[trigger] b[l] is ToolResult)
                        };
                    lemma_answers_first(b, k, b.len());
                },
                None => {
                    lemma_no_answers(b, b.len());
                },
            }
        }
        let id = crate::protocol::codec::anthropic_messages::encoder::tool_id(answers_of(m)[0].0);
        let block = crate::protocol::codec::anthropic_messages::encoder::tool_result_block(
            id,
            content,
        );
        let a = seq![block];
        assert(j.get("content"@) == Some(JsonV::Array(a)));
        assert(block.str_or_empty("type"@) == "tool_result"@);
        assert(a.len() == 1 && a[0] == block);
        assert(crate::protocol::codec::anthropic_messages::encoder::staying(a, 0).len() == 0);
        assert(crate::protocol::codec::anthropic_messages::encoder::staying(a, 1) =~= a);
        assert(v =~= a);
        assert(of_kind(v, "tool_result"@, 1)[0] == block);
    } else {
        match m.content {
            MessageContentV::Text(t) => {
                let reasoning = crate::protocol::codec::anthropic_messages::encoder::extra_text(
                    m.extra,
                    "reasoning_content"@,
                );
                if reasoning is None && m.tool_calls is None {
                    assert(j.get("content"@) == Some(JsonV::Text(t)));
                    let b = crate::protocol::codec::anthropic_messages::stream::text_block(t);
                    assert(b.get_str("text"@) == Some(t) && b.str_or_empty("type"@) == "text"@);
                } else {
                    lemma_text_message(m, t);
                }
            },
            MessageContentV::Blocks(b) => {
                let a = Seq::new(
                    b.len(),
                    |i: int|
                        crate::protocol::codec::anthropic_messages::encoder::block_json(b[i]),
                );
                assert(j.get("content"@) == Some(JsonV::Array(a)));
                lemma_blocks_texts(b, a, b.len());
                lemma_blocks_calls(b, a, b.len());
                lemma_staying(a, "tool_use"@, b.len());
                lemma_staying(a, "tool_result"@, b.len());
            },
        }
    }
}

proof fn lemma_staying_texts(a: Seq<JsonV>, n: nat)
    requires
        n <= a.len(),
    ensures
        ({
            let s = crate::protocol::codec::anthropic_messages::encoder::staying(a, n);
            (forall|i: int|
                0 <= i < n ==> crate::protocol::codec::anthropic_messages::encoder::block_stays(
                    #[trigger] a[i],
                )) ==> s == a.take(n as int)
        }),
    decreases n,
{
    if n > 0 {
        lemma_staying_texts(a, (n - 1) as nat);
        assert(a.take(n as int) =~= a.take(n - 1).push(a[n - 1]));
    } else {
        assert(a.take(0) =~= Seq::empty());
    }
}

/// A text with thinking or calls beside it.
proof fn lemma_text_message(m: InternalMessageV, t: Seq<char>)
    requires
        !(m.role is System),
        !(m.role is Tool),
        m.content == MessageContentV::Text(t),
        crate::protocol::codec::anthropic_messages::encoder::extra_text(
            m.extra,
            "reasoning_content"@,
        ) is Some || m.tool_calls is Some,
    ensures
        ({
            let v = blocks_sent(m);
            &&& are_texts(of_kind(v, "text"@, v.len()), texts_of(m))
            &&& are_calls(of_kind(v, "tool_use"@, v.len()), calls_of(m))
            &&& are_answers(of_kind(v, "tool_result"@, v.len()), answers_of(m))
        }),
{
    broadcast use crate::json::lemma_with_get;

    lemma_words();
    let j = crate::protocol::codec::anthropic_messages::encoder::message_json(m);
    let reasoning = crate::protocol::codec::anthropic_messages::encoder::extra_text(
        m.extra,
        "reasoning_content"@,
    );
    let thinking: Seq<JsonV> = match reasoning {
        Some(text) => seq![
            crate::protocol::codec::anthropic_messages::encoder::thinking_json(
                text,
                crate::protocol::codec::anthropic_messages::encoder::extra_text(
                    m.extra,
                    "reasoning_signature"@,
                ),
            ),
        ],
        None => Seq::empty(),
    };
    let b = crate::protocol::codec::anthropic_messages::stream::text_block(t);
    assert(b.get_str("text"@) == Some(t) && b.str_or_empty("type"@) == "text"@);
    let texts = if t.len() > 0 {
        thinking.push(b)
    } else {
        thinking
    };
    let calls = match m.tool_calls {
        Some(c) => c,
        None => Seq::empty(),
    };
    let a = crate::protocol::codec::anthropic_messages::encoder::call_blocks(
        texts,
        calls,
        calls.len(),
    );
    assert(j.get("content"@) == Some(JsonV::Array(a)));
    assert forall|i: int| 0 <= i < thinking.len() implies (#[trigger] thinking[i]).str_or_empty(
        "type"@,
    ) == "thinking"@ by {}
    assert forall|i: int| 0 <= i < texts.len() implies (#[trigger] texts[i]).str_or_empty("type"@)
        != "tool_use"@ && texts[i].str_or_empty("type"@) != "tool_result"@ by {
        if i < thinking.len() {
            assert(texts[i] == thinking[i]);
        }
    }
    lemma_call_blocks(texts, calls, calls.len());
    lemma_staying(a, "tool_use"@, a.len());
    lemma_staying(a, "tool_result"@, a.len());
    lemma_none_of_kind(thinking, "text"@, thinking.len());
    assert(of_kind(thinking, "text"@, thinking.len()) =~= Seq::empty());
    lemma_kind_push(thinking, b, "text"@);
    let v = blocks_sent(m);
    assert(v == crate::protocol::codec::anthropic_messages::encoder::staying(a, a.len()));
    if crate::text::trim_of(t).len() > 0 {
        assert(t.len() > 0) by {
            if t.len() == 0 {
                crate::text::lemma_solid_text(t);
            }
        }
        assert forall|i: int| 0 <= i < a.len() implies
            crate::protocol::codec::anthropic_messages::encoder::block_stays(#[trigger] a[i]) by {
            if i < thinking.len() {
                assert(a[i] == texts[i] && texts[i] == thinking[i]);
            } else if i < texts.len() {
                assert(a[i] == texts[i] && texts[i] == b);
            }
        }
        lemma_staying_texts(a, a.len());
        assert(a.take(a.len() as int) =~= a);
        assert(of_kind(texts, "text"@, texts.len()) =~= seq![b]);
    } else {
        lemma_blank_gone(a, texts, thinking.len(), a.len());
    }
}

/// Where the only text is blank, no text stays.
proof fn lemma_blank_gone(a: Seq<JsonV>, texts: Seq<JsonV>, k: nat, n: nat)
    requires
        n <= a.len(),
        k <= texts.len() <= k + 1,
        texts.len() <= a.len(),
        forall|i: int| 0 <= i < texts.len() ==> a[i] == texts[i],
        forall|i: int|
            0 <= i < k ==> (#[trigger] texts[i]).str_or_empty("type"@) == "thinking"@,
        texts.len() > k ==> !crate::protocol::codec::anthropic_messages::encoder::block_stays(
            texts[k as int],
        ),
        forall|i: int|
            texts.len() <= i < a.len() ==> (#[trigger] a[i]).str_or_empty("type"@) == "tool_use"@,
    ensures
        ({
            let s = crate::protocol::codec::anthropic_messages::encoder::staying(a, n);
            of_kind(s, "text"@, s.len()).len() == 0
        }),
    decreases n,
{
    if n > 0 {
        lemma_words();
        lemma_blank_gone(a, texts, k, (n - 1) as nat);
        let i = n - 1;
        if i < texts.len() {
            assert(a[i] == texts[i]);
        }
        lemma_kind_push(
            crate::protocol::codec::anthropic_messages::encoder::staying(a, (n - 1) as nat),
            a[n - 1],
            "text"@,
        );
    }
}

proof fn lemma_all_sent(messages: Seq<InternalMessageV>, n: nat)
    requires
        n <= messages.len(),
    ensures
        ({
            let p = crate::protocol::codec::anthropic_messages::encoder::plain_messages(
                messages,
                n,
            );
            let t = sent(p, "text"@, p.len());
            let c = sent(p, "tool_use"@, p.len());
            let r = sent(p, "tool_result"@, p.len());
            &&& t.len() == texts_told(messages, n).len()
            &&& forall|i: int|
                0 <= i < t.len() ==> (#[trigger] t[i]).0 == texts_told(messages, n)[i].0
                    && t[i].1.get_str("text"@) == Some(texts_told(messages, n)[i].1)
            &&& c.len() == calls_told(messages, n).len()
            &&& forall|i: int|
                0 <= i < c.len() ==> (#[trigger] c[i]).0 == calls_told(messages, n)[i].0 && is_call(
                    c[i].1,
                    calls_told(messages, n)[i].1,
                )
            &&& r.len() == answers_told(messages, n).len()
            &&& forall|i: int|
                0 <= i < r.len() ==> (#[trigger] r[i]).0 == answers_told(messages, n)[i].0
                    && is_answer(r[i].1, answers_told(messages, n)[i].1)
        }),
    decreases n,
{
    if n > 0 {
        lemma_all_sent(messages, (n - 1) as nat);
        let m = messages[n - 1];
        let p = crate::protocol::codec::anthropic_messages::encoder::plain_messages(
            messages,
            (n - 1) as nat,
        );
        let q = crate::protocol::codec::anthropic_messages::encoder::plain_messages(messages, n);
        if !(m.role is System) {
            lemma_message_sent(m);
            lemma_sent_prefix(q, p, "text"@, p.len());
            lemma_sent_prefix(q, p, "tool_use"@, p.len());
            lemma_sent_prefix(q, p, "tool_result"@, p.len());
            assert(q[p.len() as int]
                == crate::protocol::codec::anthropic_messages::encoder::message_json(m));
        }
    }
}

proof fn lemma_sent_prefix(a: Seq<JsonV>, b: Seq<JsonV>, kind: Seq<char>, n: nat)
    requires
        n <= a.len(),
        n <= b.len(),
        forall|i: int| 0 <= i < n ==> a[i] == b[i],
    ensures
        sent(a, kind, n) == sent(b, kind, n),
    decreases n,
{
    if n > 0 {
        lemma_sent_prefix(a, b, kind, (n - 1) as nat);
    }
}

/// The conversation in a written request is the one that was given: the texts that are not blank,
/// the calls and the answers stand there in their order, none more and none less, each said by its
/// own side: the model's messages by the assistant, all others by the user. Neighbouring turns are
/// of different sides.
pub proof fn lemma_conversation_kept(req: InternalRequestV)
    requires
        crate::json::get_field(req.extra, "__anthropic_raw_messages"@) is None,
    ensures
        ({
            let messages = crate::protocol::codec::anthropic_messages::encoder::messages_of(req);
            let v = messages->Array_0;
            let n = req.messages.len();
            let t = spoken(v, "text"@, v.len());
            let c = spoken(v, "tool_use"@, v.len());
            let r = spoken(v, "tool_result"@, v.len());
            &&& messages is Array
            &&& forall|i: int|
                0 < i < v.len() ==> (#[trigger] v[i]).get_str("role"@) != v[i - 1].get_str("role"@)
            &&& t.len() == texts_told(req.messages, n).len()
            &&& forall|i: int|
                0 <= i < t.len() ==> (#[trigger] t[i]).0 == texts_told(req.messages, n)[i].0
                    && t[i].1.get_str("text"@) == Some(texts_told(req.messages, n)[i].1)
            &&& c.len() == calls_told(req.messages, n).len()
            &&& forall|i: int|
                0 <= i < c.len() ==> (#[trigger] c[i]).0 == calls_told(req.messages, n)[i].0
                    && is_call(c[i].1, calls_told(req.messages, n)[i].1)
            &&& r.len() == answers_told(req.messages, n).len()
            &&& forall|i: int|
                0 <= i < r.len() ==> (#[trigger] r[i]).0 == answers_told(req.messages, n)[i].0
                    && is_answer(r[i].1, answers_told(req.messages, n)[i].1)
        }),
{
    broadcast use crate::json::lemma_with_get;

    lemma_words();
    let p = crate::protocol::codec::anthropic_messages::encoder::plain_messages(
        req.messages,
        req.messages.len(),
    );
    lemma_spoken_sent(p, "text"@);
    lemma_spoken_sent(p, "tool_use"@);
    lemma_spoken_sent(p, "tool_result"@);
    lemma_all_sent(req.messages, req.messages.len());
    let v = crate::protocol::codec::anthropic_messages::encoder::normalized(p);
    let turns = crate::protocol::codec::anthropic_messages::encoder::turns_of(p, p.len());
    crate::protocol::codec::anthropic_messages::encoder::lemma_turns_alternate(p, p.len());
    assert forall|i: int| 0 < i < v.len() implies (#[trigger] v[i]).get_str("role"@)
        != v[i - 1].get_str("role"@) by {
        assert(v[i].get_str("role"@) == Some(turns[i].role));
        assert(v[i - 1].get_str("role"@) == Some(turns[i - 1].role));
        assert(turns[i - 1].role != turns[i].role);
    }
}

} // verus!
