//! Answers of tools in conversations of the first representation.
use vstd::prelude::*;

use crate::json::Fields;
use crate::protocol::codec::correlation::{Calls, CallsV};
use crate::protocol::types::{
    ContentBlock, ContentBlockV, InternalMessage, InternalMessageV, InternalRequest,
    InternalRequestV, MessageContent, MessageContentV, Role, ToolCall, ToolCallV,
};
use crate::views::Views;

verus! {

/// The first block from the `i`-th on that is a result with a name.
pub open spec fn hint_from(blocks: Seq<ContentBlockV>, i: int) -> Option<Seq<char>>
    decreases blocks.len() - i,
{
    if i < 0 || i >= blocks.len() {
        None
    } else {
        match blocks[i] {
            ContentBlockV::ToolResult { tool_use_id, .. } => if crate::text::trim_of(
                tool_use_id,
            ).len() > 0 {
                Some(tool_use_id)
            } else {
                hint_from(blocks, i + 1)
            },
            _ => hint_from(blocks, i + 1),
        }
    }
}

/// The call or the function that the results of a message name.
pub open spec fn hint_of(c: MessageContentV) -> Option<Seq<char>> {
    match c {
        MessageContentV::Text(_) => None,
        MessageContentV::Blocks(b) => hint_from(b, 0),
    }
}

/// Reads the call or the function that the results of a message name.
pub fn extract_tool_result_hint(content: &MessageContent) -> (r: Option<String>)
    ensures
        r.views() == hint_of(content@),
{
    match content {
        MessageContent::Text(_) => None,
        MessageContent::Blocks(blocks) => {
            let n: usize = blocks.len();
            let mut i: usize = 0;
            while i < n
                invariant
                    n == blocks@.len(),
                    i <= n,
                    content@ == MessageContentV::Blocks(blocks.views()),
                    hint_from(blocks.views(), 0) == hint_from(blocks.views(), i as int),
                decreases n - i,
            {
                assert(blocks.views()[i as int] == blocks@[i as int]@);
                match &blocks[i] {
                    ContentBlock::ToolResult { tool_use_id, .. } => {
                        if !crate::text::is_blank(tool_use_id.as_str()) {
                            return Some(tool_use_id.clone());
                        }
                    },
                    _ => {},
                }
                i = i + 1;
            }
            None
        },
    }
}

/// What has been put in order so far.
pub struct OrderV {
    pub calls: CallsV,
    pub out: Seq<InternalMessageV>,
}

/// An assistant message with one call and no text.
pub open spec fn call_message(c: ToolCallV) -> InternalMessageV {
    InternalMessageV {
        role: Role::Assistant,
        content: MessageContentV::Text(Seq::empty()),
        tool_calls: Some(seq![c]),
        tool_call_id: None,
        extra: Seq::empty(),
    }
}

impl OrderV {
    pub open spec fn start() -> OrderV {
        OrderV { calls: CallsV::start(), out: Seq::empty() }
    }

    pub open spec fn push(self, m: InternalMessageV) -> OrderV {
        OrderV { out: self.out.push(m), ..self }
    }

    /// The first `n` calls of a message, with names.
    pub open spec fn named(calls: CallsV, v: Seq<ToolCallV>, n: nat) -> (Seq<ToolCallV>, CallsV)
        decreases n,
    {
        if n == 0 {
            (Seq::empty(), calls)
        } else {
            let (before, mid) = Self::named(calls, v, (n - 1) as nat);
            let (id, after) = mid.made(v[n - 1].id, v[n - 1].name);
            (before.push(ToolCallV { id, ..v[n - 1] }), after)
        }
    }

    /// One message more.
    pub open spec fn step(self, m: InternalMessageV) -> OrderV {
        match m.role {
            Role::Assistant => match m.tool_calls {
                Some(v) => {
                    let (c, calls) = Self::named(self.calls, v, v.len());
                    OrderV { calls, ..self }.push(InternalMessageV { tool_calls: Some(c), ..m })
                },
                None => self.push(m),
            },
            Role::Tool => {
                let hint = hint_of(m.content);
                let (id, waited, calls) = self.calls.answered(
                    crate::text::solid(m.tool_call_id),
                    hint,
                );
                let st = OrderV { calls, ..self };
                let st = if waited {
                    st
                } else {
                    let name = match hint {
                        Some(h) => h,
                        None => "unknown_tool"@,
                    };
                    st.push(call_message(ToolCallV { id, name, arguments: "{}"@ }))
                };
                st.push(InternalMessageV { tool_call_id: Some(id), ..m })
            },
            _ => self.push(m),
        }
    }

    /// The first `n` messages.
    pub open spec fn of(v: Seq<InternalMessageV>, n: nat) -> OrderV
        decreases n,
    {
        if n == 0 {
            OrderV::start()
        } else {
            OrderV::of(v, (n - 1) as nat).step(v[n - 1])
        }
    }
}

/// A conversation in which every call has a name and every answer names a call.
pub open spec fn correlated(v: Seq<InternalMessageV>) -> Seq<InternalMessageV> {
    OrderV::of(v, v.len()).out
}

fn name_calls(calls: &mut Calls, v: &Vec<ToolCall>) -> (r: Vec<ToolCall>)
    ensures
        (r.views(), final(calls)@) == OrderV::named(old(calls)@, v.views(), v@.len()),
{
    let mut out: Vec<ToolCall> = crate::views::none();
    for i in 0..v.len()
        invariant
            (out.views(), calls@) == OrderV::named(old(calls)@, v.views(), i as nat),
    {
        assert(v.views()[i as int] == v@[i as int]@);
        let id = calls.made(v[i].id.as_str(), v[i].name.as_str());
        let c = ToolCall { id, name: v[i].name.clone(), arguments: v[i].arguments.clone() };
        crate::views::push(&mut out, c);
    }
    out
}

fn one_call(c: ToolCall) -> (r: InternalMessage)
    ensures
        r@ == call_message(c@),
{
    let empty = String::new();
    assert(empty@ =~= Seq::<char>::empty());
    let mut calls: Vec<ToolCall> = crate::views::none();
    crate::views::push(&mut calls, c);
    assert(calls.views() =~= seq![c@]);
    InternalMessage {
        role: Role::Assistant,
        content: MessageContent::Text(empty),
        tool_calls: Some(calls),
        tool_call_id: None,
        extra: Fields::new(),
    }
}

fn step(calls: &mut Calls, out: &mut Vec<InternalMessage>, m: &InternalMessage)
    ensures
        (OrderV { calls: final(calls)@, out: final(out).views() }) == (OrderV {
            calls: old(calls)@,
            out: old(out).views(),
        }).step(m@),
{
    let mut copy = m.dup();
    match m.role {
        Role::Assistant => {
            if let Some(v) = &m.tool_calls {
                copy.tool_calls = Some(name_calls(calls, v));
            }
        },
        Role::Tool => {
            let given = match &m.tool_call_id {
                Some(id) => if crate::text::is_blank(id.as_str()) {
                    None
                } else {
                    Some(id.clone())
                },
                None => None,
            };
            let hint = extract_tool_result_hint(&m.content);
            let (id, waited) = calls.answered(&given, &hint);
            if !waited {
                let name = match hint {
                    Some(h) => h,
                    None => "unknown_tool".to_string(),
                };
                let c = ToolCall { id: id.clone(), name, arguments: "{}".to_string() };
                crate::views::push(out, one_call(c));
            }
            copy.tool_call_id = Some(id);
        },
        _ => {},
    }
    crate::views::push(out, copy);
}

/// Gives every call a name, and every answer the name of its call; an answer without any call gets
/// a made-up one before it.
pub fn normalize_request_tool_results(req: &mut InternalRequest)
    ensures
        final(req)@ == (InternalRequestV { messages: correlated(old(req)@.messages), ..old(req)@ }),
{
    let mut calls = Calls::new();
    let mut out: Vec<InternalMessage> = crate::views::none();
    for i in 0..req.messages.len()
        invariant
            *req == *old(req),
            (OrderV { calls: calls@, out: out.views() }) == OrderV::of(
                req.messages.views(),
                i as nat,
            ),
    {
        assert(req.messages.views()[i as int] == req.messages@[i as int]@);
        step(&mut calls, &mut out, &req.messages[i]);
    }
    req.messages = out;
}

/// Whether an assistant message among the first `n` makes a call.
pub open spec fn calls_before(v: Seq<InternalMessageV>, id: Seq<char>, n: int) -> bool {
    exists|j: int, k: int|
        0 <= j < n && j < v.len() && v[j].role == Role::Assistant && v[j].tool_calls is Some && 0
            <= k < v[j].tool_calls->0.len() && (#[trigger] v[j].tool_calls->0[k]).id == id
}

/// Whether a tool message names a call that was made before it.
pub open spec fn answers_a_call(v: Seq<InternalMessageV>, i: int) -> bool {
    v[i].role == Role::Tool ==> v[i].tool_call_id is Some && calls_before(
        v,
        v[i].tool_call_id->0,
        i,
    )
}

proof fn lemma_named(calls: CallsV, v: Seq<ToolCallV>, n: nat)
    requires
        n <= v.len(),
    ensures
        OrderV::named(calls, v, n).0.len() == n,
        OrderV::named(calls, v, n).1.waiting.len() == calls.waiting.len() + n,
        forall|i: int|
            0 <= i < calls.waiting.len() ==> #[trigger] OrderV::named(calls, v, n).1.waiting[i]
                == calls.waiting[i],
        forall|i: int|
            0 <= i < n ==> (#[trigger] OrderV::named(calls, v, n).1.waiting[calls.waiting.len() + i]).id
                == OrderV::named(calls, v, n).0[i].id,
    decreases n,
{
    if n > 0 {
        lemma_named(calls, v, (n - 1) as nat);
        let (before, mid) = OrderV::named(calls, v, (n - 1) as nat);
        let (id, after) = mid.made(v[n - 1].id, v[n - 1].name);
        assert(after.waiting[calls.waiting.len() + (n - 1)].id == id);
        assert forall|i: int| 0 <= i < n implies (#[trigger] OrderV::named(calls, v, n).1.waiting[calls.waiting.len() + i]).id
            == OrderV::named(calls, v, n).0[i].id by {
            if i < n - 1 {
                assert(mid.waiting[calls.waiting.len() + i].id == before[i].id);
            }
        }
    }
}

proof fn lemma_calls_grow(v: Seq<InternalMessageV>, w: Seq<InternalMessageV>, id: Seq<char>, n: int)
    requires
        calls_before(v, id, n),
        v.len() <= w.len(),
        forall|i: int| 0 <= i < v.len() ==> v[i] == w[i],
    ensures
        calls_before(w, id, n),
        calls_before(w, id, w.len() as int),
{
    let (j, k) = choose|j: int, k: int|
        0 <= j < n && j < v.len() && v[j].role == Role::Assistant && v[j].tool_calls is Some && 0
            <= k < v[j].tool_calls->0.len() && (#[trigger] v[j].tool_calls->0[k]).id == id;
    assert(w[j].tool_calls->0[k].id == id);
}

proof fn lemma_order(v: Seq<InternalMessageV>, n: nat)
    requires
        n <= v.len(),
    ensures
        ({
            let st = OrderV::of(v, n);
            &&& forall|i: int| 0 <= i < st.out.len() ==> #[trigger] answers_a_call(st.out, i)
            &&& forall|i: int|
                0 <= i < st.calls.waiting.len() ==> calls_before(
                    st.out,
                    (#[trigger] st.calls.waiting[i]).id,
                    st.out.len() as int,
                )
        }),
    decreases n,
{
    if n > 0 {
        lemma_order(v, (n - 1) as nat);
        let st = OrderV::of(v, (n - 1) as nat);
        let m = v[n - 1];
        let next = st.step(m);
        let out = next.out;
        assert forall|i: int| 0 <= i < st.out.len() implies #[trigger] answers_a_call(out, i) by {
            assert(answers_a_call(st.out, i));
            if st.out[i].role == Role::Tool {
                lemma_calls_grow(st.out, out, st.out[i].tool_call_id->0, i);
            }
        }
        assert forall|i: int| 0 <= i < st.calls.waiting.len() implies calls_before(
            out,
            (#[trigger] st.calls.waiting[i]).id,
            out.len() as int,
        ) by {
            lemma_calls_grow(st.out, out, st.calls.waiting[i].id, st.out.len() as int);
        }
        if m.role == Role::Assistant && m.tool_calls is Some {
            let calls = m.tool_calls->0;
            lemma_named(st.calls, calls, calls.len());
            let (c, after) = OrderV::named(st.calls, calls, calls.len());
            assert forall|i: int| 0 <= i < after.waiting.len() implies calls_before(
                out,
                (#[trigger] after.waiting[i]).id,
                out.len() as int,
            ) by {
                if i < st.calls.waiting.len() {
                    assert(after.waiting[i] == st.calls.waiting[i]);
                } else {
                    let k = i - st.calls.waiting.len();
                    assert(after.waiting[st.calls.waiting.len() + k].id == c[k].id);
                    assert(out[out.len() - 1].tool_calls->0[k].id == after.waiting[i].id);
                }
            }
        } else if m.role == Role::Tool {
            let hint = hint_of(m.content);
            let given = crate::text::solid(m.tool_call_id);
            let (id, waited, calls) = st.calls.answered(given, hint);
            match given {
                Some(g) => crate::protocol::codec::correlation::lemma_sought(
                    st.calls.waiting,
                    g,
                    0,
                ),
                None => {},
            }
            match hint {
                Some(h) => crate::protocol::codec::correlation::lemma_sought(
                    st.calls.waiting,
                    h,
                    0,
                ),
                None => {},
            }
            let last = out.len() - 1;
            if waited {
                let i = st.calls.sought(given, hint)->0;
                assert(calls_before(st.out, st.calls.waiting[i].id, st.out.len() as int));
                lemma_calls_grow(st.out, out, id, st.out.len() as int);
                assert forall|k: int| 0 <= k < calls.waiting.len() implies calls_before(
                    out,
                    (#[trigger] calls.waiting[k]).id,
                    out.len() as int,
                ) by {
                    let from = if k < i {
                        k
                    } else {
                        k + 1
                    };
                    assert(calls.waiting[k] == st.calls.waiting[from]);
                }
            } else {
                assert(out[last - 1].tool_calls->0[0].id == id);
                assert(answers_a_call(out, last - 1));
            }
            assert(answers_a_call(out, last));
        }
    }
}

/// In a correlated conversation every tool message names a call that an assistant message before
/// it makes.
pub proof fn lemma_answers_name_calls(v: Seq<InternalMessageV>, i: int)
    requires
        0 <= i < correlated(v).len(),
    ensures
        answers_a_call(correlated(v), i),
{
    lemma_order(v, v.len());
}

} // verus!
