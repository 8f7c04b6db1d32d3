//! Repairs of requests as clients really send them. A repair fills gaps and never refuses.
use vstd::prelude::*;

use crate::protocol::codec::correlation::{Calls, CallsV};
use crate::protocol::ir::request::{
    AiRequest, AiRequestV, BlockV, ContentBlock, ContentV, Message, MessageContent, MessageV, Role,
    ToolCall,
};
use crate::protocol::types::ToolCallV;
use crate::views::Views;

verus! {

/// The first block from the `i`-th on that is a result with a name.
pub open spec fn hint_from(blocks: Seq<BlockV>, i: int) -> Option<Seq<char>>
    decreases blocks.len() - i,
{
    if i < 0 || i >= blocks.len() {
        None
    } else {
        match blocks[i] {
            BlockV::ToolResult { tool_use_id, .. } => if crate::text::trim_of(
                tool_use_id,
            ).len() > 0 {
                Some(tool_use_id)
            } else {
                hint_from(blocks, i + 1)
            },
            _ => hint_from(blocks, i + 1),
        }
    }
}

/// The call or the function that the results of a message name.
pub open spec fn hint_of(c: ContentV) -> Option<Seq<char>> {
    match c {
        ContentV::Text(_) => None,
        ContentV::Blocks(b) => hint_from(b, 0),
    }
}

/// Reads the call or the function that the results of a message name.
pub fn extract_tool_result_hint(content: &MessageContent) -> (r: Option<String>)
    ensures
        r.views() == hint_of(content@),
{
    match content {
        MessageContent::Text(_) => None,
        MessageContent::Blocks(blocks) => {
            let n: usize = blocks.len();
            let mut i: usize = 0;
            while i < n
                invariant
                    n == blocks@.len(),
                    i <= n,
                    content@ == ContentV::Blocks(blocks.views()),
                    hint_from(blocks.views(), 0) == hint_from(blocks.views(), i as int),
                decreases n - i,
            {
                assert(blocks.views()[i as int] == blocks@[i as int]@);
                match &blocks[i] {
                    ContentBlock::ToolResult { tool_use_id, .. } => {
                        if !crate::text::is_blank(tool_use_id.as_str()) {
                            return Some(tool_use_id.clone());
                        }
                    },
                    _ => {},
                }
                i = i + 1;
            }
            None
        },
    }
}

/// What has been put in order so far.
pub struct OrderV {
    pub calls: CallsV,
    pub out: Seq<MessageV>,
}

/// An assistant message with one call and no text.
pub open spec fn call_message(c: ToolCallV) -> MessageV {
    MessageV {
        role: Role::Assistant,
        content: ContentV::Text(Seq::empty()),
        tool_calls: Some(seq![c]),
        tool_call_id: None,
        meta: None,
    }
}

impl OrderV {
    pub open spec fn start() -> OrderV {
        OrderV { calls: CallsV::start(), out: Seq::empty() }
    }

    pub open spec fn push(self, m: MessageV) -> OrderV {
        OrderV { out: self.out.push(m), ..self }
    }

    /// The first `n` calls of a message, with names.
    pub open spec fn named(calls: CallsV, v: Seq<ToolCallV>, n: nat) -> (Seq<ToolCallV>, CallsV)
        decreases n,
    {
        if n == 0 {
            (Seq::empty(), calls)
        } else {
            let (before, mid) = Self::named(calls, v, (n - 1) as nat);
            let (id, after) = mid.made(v[n - 1].id, v[n - 1].name);
            (before.push(ToolCallV { id, ..v[n - 1] }), after)
        }
    }

    /// One message more.
    pub open spec fn step(self, m: MessageV) -> OrderV {
        match m.role {
            Role::Assistant => match m.tool_calls {
                Some(v) => {
                    let (c, calls) = Self::named(self.calls, v, v.len());
                    OrderV { calls, ..self }.push(MessageV { tool_calls: Some(c), ..m })
                },
                None => self.push(m),
            },
            Role::Tool => {
                let hint = hint_of(m.content);
                let (id, waited, calls) = self.calls.answered(
                    crate::text::solid(m.tool_call_id),
                    hint,
                );
                let st = OrderV { calls, ..self };
                let st = if waited {
                    st
                } else {
                    let name = match hint {
                        Some(h) => h,
                        None => "unknown_tool"@,
                    };
                    st.push(call_message(ToolCallV { id, name, arguments: "{}"@ }))
                };
                st.push(MessageV { tool_call_id: Some(id), ..m })
            },
            _ => self.push(m),
        }
    }

    /// The first `n` messages.
    pub open spec fn of(v: Seq<MessageV>, n: nat) -> OrderV
        decreases n,
    {
        if n == 0 {
            OrderV::start()
        } else {
            OrderV::of(v, (n - 1) as nat).step(v[n - 1])
        }
    }
}

/// A conversation in which every call has a name and every answer names a call.
pub open spec fn correlated(v: Seq<MessageV>) -> Seq<MessageV> {
    OrderV::of(v, v.len()).out
}

fn name_calls(calls: &mut Calls, v: &Vec<ToolCall>) -> (r: Vec<ToolCall>)
    ensures
        (r.views(), final(calls)@) == OrderV::named(old(calls)@, v.views(), v@.len()),
{
    let mut out: Vec<ToolCall> = crate::views::none();
    for i in 0..v.len()
        invariant
            (out.views(), calls@) == OrderV::named(old(calls)@, v.views(), i as nat),
    {
        assert(v.views()[i as int] == v@[i as int]@);
        let id = calls.made(v[i].id.as_str(), v[i].name.as_str());
        let c = ToolCall { id, name: v[i].name.clone(), arguments: v[i].arguments.clone() };
        crate::views::push(&mut out, c);
    }
    out
}

fn one_call(c: ToolCall) -> (r: Message)
    ensures
        r@ == call_message(c@),
{
    let empty = String::new();
    assert(empty@ =~= Seq::<char>::empty());
    let mut calls: Vec<ToolCall> = crate::views::none();
    crate::views::push(&mut calls, c);
    assert(calls.views() =~= seq![c@]);
    Message {
        role: Role::Assistant,
        content: MessageContent::Text(empty),
        tool_calls: Some(calls),
        tool_call_id: None,
        meta: None,
    }
}

fn step(calls: &mut Calls, out: &mut Vec<Message>, m: &Message)
    ensures
        (OrderV { calls: final(calls)@, out: final(out).views() }) == (OrderV {
            calls: old(calls)@,
            out: old(out).views(),
        }).step(m@),
{
    let mut copy = m.dup();
    match m.role {
        Role::Assistant => {
            if let Some(v) = &m.tool_calls {
                copy.tool_calls = Some(name_calls(calls, v));
            }
        },
        Role::Tool => {
            let given = match &m.tool_call_id {
                Some(id) => if crate::text::is_blank(id.as_str()) {
                    None
                } else {
                    Some(id.clone())
                },
                None => None,
            };
            let hint = extract_tool_result_hint(&m.content);
            let (id, waited) = calls.answered(&given, &hint);
            if !waited {
                let name = match hint {
                    Some(h) => h,
                    None => "unknown_tool".to_string(),
                };
                let c = ToolCall { id: id.clone(), name, arguments: "{}".to_string() };
                crate::views::push(out, one_call(c));
            }
            copy.tool_call_id = Some(id);
        },
        _ => {},
    }
    crate::views::push(out, copy);
}

/// Gives every call a name, and every answer the name of its call; an answer without any call gets
/// a made-up one before it.
pub fn fill_tool_call_ids(req: &mut AiRequest)
    ensures
        final(req)@ == (AiRequestV { messages: correlated(old(req)@.messages), ..old(req)@ }),
{
    let mut calls = Calls::new();
    let mut out: Vec<Message> = crate::views::none();
    for i in 0..req.messages.len()
        invariant
            *req == *old(req),
            (OrderV { calls: calls@, out: out.views() }) == OrderV::of(
                req.messages.views(),
                i as nat,
            ),
    {
        assert(req.messages.views()[i as int] == req.messages@[i as int]@);
        step(&mut calls, &mut out, &req.messages[i]);
    }
    req.messages = out;
}

/// A conversation that does not begin with the assistant: an empty message of the user stands
/// before it where it would.
pub open spec fn opened(v: Seq<MessageV>) -> Seq<MessageV> {
    if v.len() > 0 && v[0].role == Role::Assistant {
        seq![MessageV::plain(Role::User, ContentV::Text(Seq::empty()))] + v
    } else {
        v
    }
}

/// Sees to it that a conversation does not begin with the assistant.
pub fn patch_broken_conversation(req: &mut AiRequest)
    ensures
        final(req)@ == (AiRequestV { messages: opened(old(req)@.messages), ..old(req)@ }),
{
    if req.messages.len() > 0 {
        assert(req.messages.views()[0] == req.messages@[0]@);
        if req.messages[0].role == Role::Assistant {
            let ghost before = req.messages.views();
            let empty = String::new();
            assert(empty@ =~= Seq::<char>::empty());
            let mut out: Vec<Message> = crate::views::none();
            crate::views::push(
                &mut out,
                Message::plain(Role::User, MessageContent::Text(empty)),
            );
            for i in 0..req.messages.len()
                invariant
                    *req == *old(req),
                    before == req.messages.views(),
                    out.views() == seq![
                        MessageV::plain(Role::User, ContentV::Text(Seq::empty())),
                    ] + before.take(i as int),
            {
                crate::views::push(&mut out, req.messages[i].dup());
                assert(before[i as int] == req.messages@[i as int]@);
                assert(out.views() =~= seq![
                    MessageV::plain(Role::User, ContentV::Text(Seq::empty())),
                ] + before.take(i + 1));
            }
            assert(before.take(before.len() as int) =~= before);
            req.messages = out;
        }
    }
}

/// Whether an assistant message among the first `n` makes a call.
pub open spec fn calls_before(v: Seq<MessageV>, id: Seq<char>, n: int) -> bool {
    exists|j: int, k: int|
        0 <= j < n && j < v.len() && v[j].role == Role::Assistant && v[j].tool_calls is Some && 0
            <= k < v[j].tool_calls->0.len() && (#[trigger] v[j].tool_calls->0[k]).id == id
}

/// Whether a tool message names a call that was made before it.
pub open spec fn answers_a_call(v: Seq<MessageV>, i: int) -> bool {
    v[i].role == Role::Tool ==> v[i].tool_call_id is Some && calls_before(
        v,
        v[i].tool_call_id->0,
        i,
    )
}

proof fn lemma_named(calls: CallsV, v: Seq<ToolCallV>, n: nat)
    requires
        n <= v.len(),
    ensures
        OrderV::named(calls, v, n).0.len() == n,
        OrderV::named(calls, v, n).1.waiting.len() == calls.waiting.len() + n,
        forall|i: int|
            0 <= i < calls.waiting.len() ==> #[trigger] OrderV::named(calls, v, n).1.waiting[i]
                == calls.waiting[i],
        forall|i: int|
            0 <= i < n ==> (#[trigger] OrderV::named(calls, v, n).1.waiting[calls.waiting.len() + i]).id
                == OrderV::named(calls, v, n).0[i].id,
    decreases n,
{
    if n > 0 {
        lemma_named(calls, v, (n - 1) as nat);
        let (before, mid) = OrderV::named(calls, v, (n - 1) as nat);
        let (id, after) = mid.made(v[n - 1].id, v[n - 1].name);
        assert(after.waiting[calls.waiting.len() + (n - 1)].id == id);
        assert forall|i: int| 0 <= i < n implies (#[trigger] OrderV::named(calls, v, n).1.waiting[calls.waiting.len() + i]).id
            == OrderV::named(calls, v, n).0[i].id by {
            if i < n - 1 {
                assert(mid.waiting[calls.waiting.len() + i].id == before[i].id);
            }
        }
    }
}

proof fn lemma_calls_grow(v: Seq<MessageV>, w: Seq<MessageV>, id: Seq<char>, n: int)
    requires
        calls_before(v, id, n),
        v.len() <= w.len(),
        forall|i: int| 0 <= i < v.len() ==> v[i] == w[i],
    ensures
        calls_before(w, id, n),
        calls_before(w, id, w.len() as int),
{
    let (j, k) = choose|j: int, k: int|
        0 <= j < n && j < v.len() && v[j].role == Role::Assistant && v[j].tool_calls is Some && 0
            <= k < v[j].tool_calls->0.len() && (#[trigger] v[j].tool_calls->0[k]).id == id;
    assert(w[j].tool_calls->0[k].id == id);
}

proof fn lemma_order(v: Seq<MessageV>, n: nat)
    requires
        n <= v.len(),
    ensures
        ({
            let st = OrderV::of(v, n);
            &&& forall|i: int| 0 <= i < st.out.len() ==> #[trigger] answers_a_call(st.out, i)
            &&& forall|i: int|
                0 <= i < st.calls.waiting.len() ==> calls_before(
                    st.out,
                    (#[trigger] st.calls.waiting[i]).id,
                    st.out.len() as int,
                )
        }),
    decreases n,
{
    if n > 0 {
        lemma_order(v, (n - 1) as nat);
        let st = OrderV::of(v, (n - 1) as nat);
        let m = v[n - 1];
        let next = st.step(m);
        let out = next.out;
        assert forall|i: int| 0 <= i < st.out.len() implies #[trigger] answers_a_call(out, i) by {
            assert(answers_a_call(st.out, i));
            if st.out[i].role == Role::Tool {
                lemma_calls_grow(st.out, out, st.out[i].tool_call_id->0, i);
            }
        }
        assert forall|i: int| 0 <= i < st.calls.waiting.len() implies calls_before(
            out,
            (#[trigger] st.calls.waiting[i]).id,
            out.len() as int,
        ) by {
            lemma_calls_grow(st.out, out, st.calls.waiting[i].id, st.out.len() as int);
        }
        if m.role == Role::Assistant && m.tool_calls is Some {
            let calls = m.tool_calls->0;
            lemma_named(st.calls, calls, calls.len());
            let (c, after) = OrderV::named(st.calls, calls, calls.len());
            assert forall|i: int| 0 <= i < after.waiting.len() implies calls_before(
                out,
                (#[trigger] after.waiting[i]).id,
                out.len() as int,
            ) by {
                if i < st.calls.waiting.len() {
                    assert(after.waiting[i] == st.calls.waiting[i]);
                } else {
                    let k = i - st.calls.waiting.len();
                    assert(after.waiting[st.calls.waiting.len() + k].id == c[k].id);
                    assert(out[out.len() - 1].tool_calls->0[k].id == after.waiting[i].id);
                }
            }
        } else if m.role == Role::Tool {
            let hint = hint_of(m.content);
            let given = crate::text::solid(m.tool_call_id);
            let (id, waited, calls) = st.calls.answered(given, hint);
            match given {
                Some(g) => crate::protocol::codec::correlation::lemma_sought(
                    st.calls.waiting,
                    g,
                    0,
                ),
                None => {},
            }
            match hint {
                Some(h) => crate::protocol::codec::correlation::lemma_sought(
                    st.calls.waiting,
                    h,
                    0,
                ),
                None => {},
            }
            let last = out.len() - 1;
            if waited {
                let i = st.calls.sought(given, hint)->0;
                assert(calls_before(st.out, st.calls.waiting[i].id, st.out.len() as int));
                lemma_calls_grow(st.out, out, id, st.out.len() as int);
                assert forall|k: int| 0 <= k < calls.waiting.len() implies calls_before(
                    out,
                    (#[trigger] calls.waiting[k]).id,
                    out.len() as int,
                ) by {
                    let from = if k < i {
                        k
                    } else {
                        k + 1
                    };
                    assert(calls.waiting[k] == st.calls.waiting[from]);
                }
            } else {
                assert(out[last - 1].tool_calls->0[0].id == id);
                assert(answers_a_call(out, last - 1));
            }
            assert(answers_a_call(out, last));
        }
    }
}

/// In a correlated conversation every tool message names a call that an assistant message before
/// it makes.
pub proof fn lemma_answers_name_calls(v: Seq<MessageV>, i: int)
    requires
        0 <= i < correlated(v).len(),
    ensures
        answers_a_call(correlated(v), i),
{
    lemma_order(v, v.len());
}

// ---------------------------------------------------------------- names are not blank

/// Whether a text is more than white space.
pub open spec fn solid_name(s: Seq<char>) -> bool {
    crate::text::trim_of(s).len() > 0
}

/// Whether every call of a message has a name, and an answer gives one.
pub open spec fn all_named(m: MessageV) -> bool {
    &&& m.role == Role::Assistant && m.tool_calls is Some ==> forall|k: int|
        0 <= k < m.tool_calls->0.len() ==> solid_name((#[trigger] m.tool_calls->0[k]).id)
    &&& m.role == Role::Tool ==> m.tool_call_id is Some && solid_name(m.tool_call_id->0)
}

proof fn lemma_made_names(n: nat)
    ensures
        solid_name("call_nyro_"@ + crate::text::decimal(n)),
        solid_name("call_nyro_synth_"@ + crate::text::decimal(n)),
{
    reveal_strlit("call_nyro_");
    reveal_strlit("call_nyro_synth_");
    let a = "call_nyro_"@ + crate::text::decimal(n);
    let b = "call_nyro_synth_"@ + crate::text::decimal(n);
    assert(a[0] == 'c' && b[0] == 'c');
    crate::text::lemma_solid_text(a);
    crate::text::lemma_solid_text(b);
}

proof fn lemma_named_solid(calls: CallsV, v: Seq<ToolCallV>, n: nat)
    requires
        n <= v.len(),
        forall|i: int| 0 <= i < calls.waiting.len() ==> solid_name((#[trigger] calls.waiting[i]).id),
    ensures
        ({
            let (c, after) = OrderV::named(calls, v, n);
            &&& c.len() == n
            &&& forall|i: int|
                0 <= i < n ==> solid_name((#[trigger] c[i]).id) && c[i].name == v[i].name
                    && c[i].arguments == v[i].arguments && (solid_name(v[i].id) ==> c[i].id
                    == v[i].id)
            &&& forall|i: int|
                0 <= i < after.waiting.len() ==> solid_name((#[trigger] after.waiting[i]).id)
        }),
    decreases n,
{
    if n > 0 {
        lemma_named_solid(calls, v, (n - 1) as nat);
        let (before, mid) = OrderV::named(calls, v, (n - 1) as nat);
        let (id, after) = mid.made(v[n - 1].id, v[n - 1].name);
        lemma_made_names(crate::protocol::succ(mid.seq) as nat);
        assert(solid_name(id));
        let c = OrderV::named(calls, v, n).0;
        assert forall|i: int| 0 <= i < n implies solid_name((#[trigger] c[i]).id) && c[i].name
            == v[i].name && c[i].arguments == v[i].arguments && (solid_name(v[i].id) ==> c[i].id
            == v[i].id) by {
            if i < n - 1 {
                assert(c[i] == before[i]);
            }
        }
        assert forall|i: int| 0 <= i < after.waiting.len() implies solid_name(
            (#[trigger] after.waiting[i]).id,
        ) by {
            if i < mid.waiting.len() {
                assert(after.waiting[i] == mid.waiting[i]);
            }
        }
    }
}

proof fn lemma_answered_solid(
    calls: CallsV,
    given: Option<Seq<char>>,
    hint: Option<Seq<char>>,
)
    requires
        forall|i: int| 0 <= i < calls.waiting.len() ==> solid_name((#[trigger] calls.waiting[i]).id),
        given is Some ==> solid_name(given->0),
    ensures
        ({
            let (id, waited, after) = calls.answered(given, hint);
            &&& solid_name(id)
            &&& forall|i: int|
                0 <= i < after.waiting.len() ==> solid_name((#[trigger] after.waiting[i]).id)
        }),
{
    if let Some(g) = given {
        crate::protocol::codec::correlation::lemma_sought(calls.waiting, g, 0);
    }
    if let Some(h) = hint {
        crate::protocol::codec::correlation::lemma_sought(calls.waiting, h, 0);
    }
    lemma_made_names(crate::protocol::succ(calls.seq) as nat);
    let (id, waited, after) = calls.answered(given, hint);
    if let Some(i) = calls.sought(given, hint) {
        assert(solid_name(calls.waiting[i].id));
        assert forall|k: int| 0 <= k < after.waiting.len() implies solid_name(
            (#[trigger] after.waiting[k]).id,
        ) by {
            let from = if k < i {
                k
            } else {
                k + 1
            };
            assert(after.waiting[k] == calls.waiting[from]);
        }
    }
}

// ---------------------------------------------------------------- only names change

/// Whether a message is another one but for the names of its calls and of its answer. A call that
/// had a name keeps it.
pub open spec fn same_but_names(a: MessageV, b: MessageV) -> bool {
    &&& b.role == a.role
    &&& b.content == a.content
    &&& b.meta == a.meta
    &&& a.role != Role::Tool ==> b.tool_call_id == a.tool_call_id
    &&& match (a.tool_calls, b.tool_calls) {
        (Some(v), Some(w)) => w.len() == v.len() && forall|k: int|
            0 <= k < v.len() ==> (#[trigger] w[k]).name == v[k].name && w[k].arguments
                == v[k].arguments && (solid_name(v[k].id) ==> w[k].id == v[k].id),
        (None, None) => true,
        _ => false,
    }
}

/// Whether a message was made up: an assistant without text that makes one call without arguments,
/// right before the tool message that answers it.
pub open spec fn made_up_at(out: Seq<MessageV>, p: int) -> bool {
    &&& p + 1 < out.len()
    &&& out[p].tool_calls is Some
    &&& out[p].tool_calls->0.len() == 1
    &&& out[p] == call_message(out[p].tool_calls->0[0])
    &&& out[p].tool_calls->0[0].arguments == "{}"@
    &&& out[p + 1].role == Role::Tool
    &&& out[p + 1].tool_call_id == Some(out[p].tool_calls->0[0].id)
}

/// Where the first `n` messages stand in what was put in order.
pub open spec fn places(v: Seq<MessageV>, n: nat) -> Seq<int>
    decreases n,
{
    if n == 0 {
        Seq::empty()
    } else {
        places(v, (n - 1) as nat).push(OrderV::of(v, n).out.len() - 1)
    }
}

/// What holds of the first `n` messages.
pub open spec fn only_names_change(v: Seq<MessageV>, n: nat) -> bool {
    let st = OrderV::of(v, n);
    let at = places(v, n);
    &&& at.len() == n
    &&& forall|i: int| 0 <= i < n ==> 0 <= #[trigger] at[i] < st.out.len()
    &&& forall|i: int, j: int| 0 <= i < j < n ==> #[trigger] at[i] < #[trigger] at[j]
    &&& forall|i: int| 0 <= i < n ==> same_but_names(v[i], st.out[#[trigger] at[i]])
    &&& forall|p: int|
        0 <= p < st.out.len() ==> at.contains(p) || #[trigger] made_up_at(st.out, p)
    &&& forall|p: int| 0 <= p < st.out.len() ==> all_named(#[trigger] st.out[p])
    &&& forall|i: int|
        0 <= i < st.calls.waiting.len() ==> solid_name((#[trigger] st.calls.waiting[i]).id)
}

proof fn lemma_only_names(v: Seq<MessageV>, n: nat)
    requires
        n <= v.len(),
    ensures
        only_names_change(v, n),
    decreases n,
{
    if n > 0 {
        lemma_only_names(v, (n - 1) as nat);
        let st = OrderV::of(v, (n - 1) as nat);
        let m = v[n - 1];
        let next = OrderV::of(v, n);
        let out = next.out;
        let before = places(v, (n - 1) as nat);
        let at = places(v, n);
        let given = crate::text::solid(m.tool_call_id);
        let hint = hint_of(m.content);
        lemma_answered_solid(st.calls, given, hint);
        if m.tool_calls is Some {
            lemma_named_solid(st.calls, m.tool_calls->0, m.tool_calls->0.len());
        }
        let last = out.len() - 1;
        assert(last >= st.out.len());
        assert forall|p: int| 0 <= p < st.out.len() implies #[trigger] out[p] == st.out[p] by {}
        assert(same_but_names(m, out[last]));
        assert(all_named(out[last]));
        assert forall|i: int| 0 <= i < n implies same_but_names(v[i], out[#[trigger] at[i]]) by {
            if i < n - 1 {
                assert(at[i] == before[i]);
            }
        }
        assert forall|i: int| 0 <= i < n implies 0 <= #[trigger] at[i] < out.len() by {
            if i < n - 1 {
                assert(at[i] == before[i]);
            }
        }
        assert forall|i: int, j: int| 0 <= i < j < n implies #[trigger] at[i]
            < #[trigger] at[j] by {
            assert(at[i] == before[i]);
            if j < n - 1 {
                assert(at[j] == before[j]);
            }
        }
        assert forall|p: int| 0 <= p < out.len() implies at.contains(p) || #[trigger] made_up_at(
            out,
            p,
        ) by {
            if p == last {
                assert(at[n - 1] == last);
            } else if p < st.out.len() {
                assert(before.contains(p) || made_up_at(st.out, p));
                if before.contains(p) {
                    let i = choose|i: int| 0 <= i < before.len() && before[i] == p;
                    assert(at[i] == p);
                } else {
                    assert(out[p + 1] == st.out[p + 1]);
                    assert(made_up_at(out, p));
                }
            } else {
                assert(m.role == Role::Tool);
                assert(p == last - 1);
                assert(made_up_at(out, p));
            }
        }
        assert forall|p: int| 0 <= p < out.len() implies all_named(#[trigger] out[p]) by {
            if p < st.out.len() {
                assert(all_named(st.out[p]));
            }
        }
    }
}

/// Correlating a conversation leaves no call and no answer without a name, and changes nothing but
/// names: without the messages that were made up, each right before the answer that it is for, the
/// messages are the same in the same order.
pub proof fn lemma_correlated_keeps(v: Seq<MessageV>)
    ensures
        ({
            let out = correlated(v);
            let at = places(v, v.len());
            &&& forall|p: int| 0 <= p < out.len() ==> all_named(#[trigger] out[p])
            &&& at.len() == v.len()
            &&& forall|i: int| 0 <= i < v.len() ==> 0 <= #[trigger] at[i] < out.len()
            &&& forall|i: int, j: int| 0 <= i < j < v.len() ==> #[trigger] at[i] < #[trigger] at[j]
            &&& forall|i: int| 0 <= i < v.len() ==> same_but_names(v[i], out[#[trigger] at[i]])
            &&& forall|p: int|
                0 <= p < out.len() ==> at.contains(p) || #[trigger] made_up_at(out, p)
        }),
{
    lemma_only_names(v, v.len());
}

/// A patched conversation never begins with the assistant, and patching it again changes nothing.
pub proof fn lemma_opened(v: Seq<MessageV>)
    ensures
        opened(v).len() > 0 ==> opened(v)[0].role != Role::Assistant,
        opened(opened(v)) == opened(v),
{
}

} // verus!
