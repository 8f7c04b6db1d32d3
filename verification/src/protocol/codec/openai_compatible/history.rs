//! Conversations in the shape that Chat Completions asks for: every tool message stands directly
//! behind an assistant message with the call that it answers, no two answers name the same call,
//! and no call is left without an answer.
use vstd::prelude::*;

use crate::json::{Json, JsonV};
use crate::protocol::ir::request::{
    BlockV, ContentBlock, ContentV, Message, MessageContent, MessageV, Role, ToolCall,
};
use crate::protocol::types::ToolCallV;
use crate::views::Views;

verus! {

/// The name of the `n`-th call that had none.
pub open spec fn enc_id(n: usize) -> Seq<char> {
    "call_enc_"@ + crate::text::decimal(n as nat)
}

fn make_id(n: usize) -> (r: String)
    ensures
        r@ == enc_id(n),
{
    crate::text::cat("call_enc_", crate::text::decimal_text(n as u64).as_str())
}

pub open spec fn blank(s: Seq<char>) -> bool {
    crate::text::trim_of(s).len() == 0
}

// ---------------------------------------------------------------- one name per call

/// A name that a call was given.
pub struct GivenV {
    /// The name that the call came with.
    pub original: Seq<char>,
    /// The name that no other call has.
    pub unique: Seq<char>,
    /// Whether no answer has been seen.
    pub open: bool,
}

struct Given {
    original: String,
    unique: String,
    open: bool,
}

impl View for Given {
    type V = GivenV;

    closed spec fn view(&self) -> GivenV {
        GivenV { original: self.original@, unique: self.unique@, open: self.open }
    }
}

/// How many of the first `n` calls came with a name.
pub open spec fn count_upto(given: Seq<GivenV>, original: Seq<char>, n: nat) -> nat
    decreases n,
{
    if n == 0 {
        0
    } else {
        count_upto(given, original, (n - 1) as nat) + if given[n - 1].original == original {
            1nat
        } else {
            0nat
        }
    }
}

/// The last of the first `n` calls that came with a name and has no answer.
pub open spec fn last_open(given: Seq<GivenV>, original: Seq<char>, n: nat) -> Option<int>
    decreases n,
{
    if n == 0 {
        None
    } else if given[n - 1].open && given[n - 1].original == original {
        Some(n - 1)
    } else {
        last_open(given, original, (n - 1) as nat)
    }
}

/// The names given so far.
pub struct RemapV {
    pub given: Seq<GivenV>,
    pub seq: usize,
}

/// A call under a name of its own: the name that it came with, or a made-up one where that is
/// blank; from the second call of a name on with a number behind it.
pub open spec fn renamed(st: RemapV, c: ToolCallV) -> (ToolCallV, RemapV) {
    let seq = if blank(c.id) {
        crate::protocol::succ(st.seq)
    } else {
        st.seq
    };
    let original = if blank(c.id) {
        enc_id(seq)
    } else {
        c.id
    };
    let before = count_upto(st.given, original, st.given.len()) as usize;
    let unique = if before == 0 {
        original
    } else {
        original + "_dup"@ + crate::text::decimal(crate::protocol::succ(before) as nat)
    };
    (
        ToolCallV { id: unique, ..c },
        RemapV { given: st.given.push(GivenV { original, unique, open: true }), seq },
    )
}

/// The first `n` calls of a message under names of their own.
pub open spec fn renamed_upto(st: RemapV, calls: Seq<ToolCallV>, n: nat) -> (
    Seq<ToolCallV>,
    RemapV,
)
    decreases n,
{
    if n == 0 {
        (Seq::empty(), st)
    } else {
        let (before, mid) = renamed_upto(st, calls, (n - 1) as nat);
        let (c, after) = renamed(mid, calls[n - 1]);
        (before.push(c), after)
    }
}

/// A message with its calls under names of their own. An answer goes to the last call of its name
/// that has none.
pub open spec fn renamed_message(st: RemapV, m: MessageV) -> (MessageV, RemapV) {
    match m.role {
        Role::Assistant => match m.tool_calls {
            Some(calls) => {
                let (c, after) = renamed_upto(st, calls, calls.len());
                (MessageV { tool_calls: Some(c), ..m }, after)
            },
            None => (m, st),
        },
        Role::Tool => match crate::text::solid(m.tool_call_id) {
            Some(id) => match last_open(st.given, id, st.given.len()) {
                Some(i) => (
                    MessageV { tool_call_id: Some(st.given[i].unique), ..m },
                    RemapV {
                        given: st.given.update(i, GivenV { open: false, ..st.given[i] }),
                        ..st
                    },
                ),
                None => (m, st),
            },
            None => (m, st),
        },
        _ => (m, st),
    }
}

/// The first `n` messages with calls under names of their own.
pub open spec fn remapped_upto(messages: Seq<MessageV>, n: nat) -> (Seq<MessageV>, RemapV)
    decreases n,
{
    if n == 0 {
        (Seq::empty(), RemapV { given: Seq::empty(), seq: 0 })
    } else {
        let (before, mid) = remapped_upto(messages, (n - 1) as nat);
        let (m, after) = renamed_message(mid, messages[n - 1]);
        (before.push(m), after)
    }
}

struct Remap {
    given: Vec<Given>,
    seq: usize,
}

impl View for Remap {
    type V = RemapV;

    closed spec fn view(&self) -> RemapV {
        RemapV { given: self.given.views(), seq: self.seq }
    }
}

impl Remap {
    fn count(&self, original: &str) -> (r: usize)
        ensures
            r == count_upto(self@.given, original@, self@.given.len()),
            r <= self.given@.len(),
    {
        let mut n: usize = 0;
        for i in 0..self.given.len()
            invariant
                n == count_upto(self.given.views(), original@, i as nat),
                n <= i,
        {
            assert(self.given.views()[i as int] == self.given@[i as int]@);
            if crate::text::same(self.given[i].original.as_str(), original) {
                n = n + 1;
            }
        }
        n
    }

    fn last_open(&self, original: &str) -> (r: Option<usize>)
        ensures
            match r {
                Some(i) => i < self.given@.len() && last_open(
                    self@.given,
                    original@,
                    self@.given.len(),
                ) == Some(i as int),
                None => last_open(self@.given, original@, self@.given.len()) is None,
            },
    {
        let mut n: usize = self.given.len();
        while n > 0
            invariant
                n <= self.given@.len(),
                last_open(self.given.views(), original@, self.given@.len()) == last_open(
                    self.given.views(),
                    original@,
                    n as nat,
                ),
            decreases n,
        {
            assert(self.given.views()[n - 1] == self.given@[n - 1]@);
            let g = &self.given[n - 1];
            if g.open && crate::text::same(g.original.as_str(), original) {
                return Some(n - 1);
            }
            n = n - 1;
        }
        None
    }

    fn rename(&mut self, c: &ToolCall) -> (r: ToolCall)
        ensures
            (r@, final(self)@) == renamed(old(self)@, c@),
    {
        let original = if crate::text::is_blank(c.id.as_str()) {
            self.seq = crate::protocol::next_index(self.seq);
            make_id(self.seq)
        } else {
            c.id.clone()
        };
        let before: usize = self.count(original.as_str());
        let unique = if before == 0 {
            original.clone()
        } else {
            let number = crate::text::decimal_text(crate::protocol::next_index(before) as u64);
            crate::text::cat3(original.as_str(), "_dup", number.as_str())
        };
        let id = unique.clone();
        crate::views::push(&mut self.given, Given { original, unique, open: true });
        ToolCall { id, name: c.name.clone(), arguments: c.arguments.clone() }
    }

    fn rename_all(&mut self, calls: &Vec<ToolCall>) -> (r: Vec<ToolCall>)
        ensures
            (r.views(), final(self)@) == renamed_upto(old(self)@, calls.views(), calls@.len()),
    {
        let mut out: Vec<ToolCall> = crate::views::none();
        for i in 0..calls.len()
            invariant
                (out.views(), self@) == renamed_upto(old(self)@, calls.views(), i as nat),
        {
            assert(calls.views()[i as int] == calls@[i as int]@);
            let c = self.rename(&calls[i]);
            crate::views::push(&mut out, c);
        }
        out
    }

    fn message(&mut self, m: &Message) -> (r: Message)
        ensures
            (r@, final(self)@) == renamed_message(old(self)@, m@),
    {
        let mut out = m.dup();
        match m.role {
            Role::Assistant => {
                if let Some(calls) = &m.tool_calls {
                    out.tool_calls = Some(self.rename_all(calls));
                }
            },
            Role::Tool => {
                if let Some(id) = &m.tool_call_id {
                    if !crate::text::is_blank(id.as_str()) {
                        match self.last_open(id.as_str()) {
                            Some(i) => {
                                let ghost before = self@;
                                assert(self.given.views()[i as int] == self.given@[i as int]@);
                                out.tool_call_id = Some(self.given[i].unique.clone());
                                let g = Given {
                                    original: self.given[i].original.clone(),
                                    unique: self.given[i].unique.clone(),
                                    open: false,
                                };
                                self.given.set(i, g);
                                assert(self.given.views() =~= before.given.update(
                                    i as int,
                                    GivenV { open: false, ..before.given[i as int] },
                                ));
                            },
                            None => {},
                        }
                    }
                }
            },
            _ => {},
        }
        out
    }
}

/// Gives every call a name of its own, and answers the names of their calls.
pub fn remap_duplicate_tool_call_ids(messages: &Vec<Message>) -> (r: Vec<Message>)
    ensures
        r.views() == remapped_upto(messages.views(), messages@.len()).0,
{
    let mut st = Remap { given: crate::views::none(), seq: 0 };
    let mut out: Vec<Message> = crate::views::none();
    for i in 0..messages.len()
        invariant
            (out.views(), st@) == remapped_upto(messages.views(), i as nat),
    {
        assert(messages.views()[i as int] == messages@[i as int]@);
        let m = st.message(&messages[i]);
        crate::views::push(&mut out, m);
    }
    out
}

// ---------------------------------------------------------------- answers behind their calls

/// The text of a tool's result.
pub open spec fn result_text(v: JsonV) -> Seq<char> {
    match v {
        JsonV::Text(s) => s,
        JsonV::Null => Seq::empty(),
        _ => crate::json::text_of(v),
    }
}

/// Writes a tool's result as text.
pub fn text_of_result(v: &Json) -> (r: String)
    ensures
        r@ == result_text(v@),
{
    match v {
        Json::Text(s) => s.clone(),
        Json::Null => {
            let empty = String::new();
            assert(empty@ =~= Seq::<char>::empty());
            empty
        },
        _ => v.to_text(),
    }
}

/// The first tool result among the blocks from the `i`-th on.
pub open spec fn result_from(blocks: Seq<BlockV>, i: int) -> Option<int>
    decreases blocks.len() - i,
{
    if i < 0 || i >= blocks.len() {
        None
    } else if blocks[i] is ToolResult {
        Some(i)
    } else {
        result_from(blocks, i + 1)
    }
}

/// The text of a tool message, and the call that its first result names.
pub open spec fn payload(c: ContentV) -> (Seq<char>, Option<Seq<char>>) {
    match c {
        ContentV::Text(t) => (t, None),
        ContentV::Blocks(b) => match result_from(b, 0) {
            Some(i) => (
                result_text(b[i]->ToolResult_content),
                crate::text::solid(Some(b[i]->ToolResult_tool_use_id)),
            ),
            None => (c.to_text(), None),
        },
    }
}

/// The text of a tool message, and the call that its first result names.
pub fn tool_message_payload(content: &MessageContent) -> (r: (String, Option<String>))
    ensures
        (r.0@, r.1.views()) == payload(content@),
{
    match content {
        MessageContent::Text(t) => (t.clone(), None),
        MessageContent::Blocks(blocks) => {
            let n: usize = blocks.len();
            let mut i: usize = 0;
            while i < n
                invariant
                    n == blocks@.len(),
                    i <= n,
                    content@ == ContentV::Blocks(blocks.views()),
                    result_from(blocks.views(), 0) == result_from(blocks.views(), i as int),
                decreases n - i,
            {
                assert(blocks.views()[i as int] == blocks@[i as int]@);
                match &blocks[i] {
                    ContentBlock::ToolResult { tool_use_id, content: result, .. } => {
                        let hint = if crate::text::is_blank(tool_use_id.as_str()) {
                            None
                        } else {
                            Some(tool_use_id.clone())
                        };
                        return (text_of_result(result), hint);
                    },
                    _ => {},
                }
                i = i + 1;
            }
            (content.to_text(), None)
        },
    }
}

/// The place of the first of the first `n` calls of a name.
pub open spec fn call_pos(calls: Seq<ToolCallV>, id: Seq<char>, n: nat) -> Option<int>
    decreases n,
{
    if n == 0 {
        None
    } else {
        match call_pos(calls, id, (n - 1) as nat) {
            Some(i) => Some(i),
            None => if calls[n - 1].id == id {
                Some(n - 1)
            } else {
                None
            },
        }
    }
}

/// The place of a call in an assistant message.
pub open spec fn call_in(m: MessageV, id: Seq<char>) -> Option<int> {
    match (m.role, m.tool_calls) {
        (Role::Assistant, Some(calls)) => call_pos(calls, id, calls.len()),
        _ => None,
    }
}

/// The last of the first `n` messages that makes a call.
pub open spec fn holder(out: Seq<MessageV>, id: Seq<char>, n: nat) -> Option<int>
    decreases n,
{
    if n == 0 {
        None
    } else if call_in(out[n - 1], id) is Some {
        Some(n - 1)
    } else {
        holder(out, id, (n - 1) as nat)
    }
}

/// A message without one of its calls.
pub open spec fn without_call(m: MessageV, id: Seq<char>) -> MessageV {
    MessageV {
        tool_calls: crate::views::some_list(m.tool_calls->0.remove(call_in(m, id)->0)),
        ..m
    }
}

/// Whether a message is an assistant's without any call.
pub open spec fn droppable(m: MessageV) -> bool {
    &&& m.role == Role::Assistant
    &&& m.tool_calls is None || m.tool_calls->0.len() == 0
    &&& m.tool_call_id is None || blank(m.tool_call_id->0)
}

/// A conversation of more than `keep` messages without the assistant's messages at its end that
/// make no call.
pub open spec fn trimmed_to(out: Seq<MessageV>, keep: int) -> Seq<MessageV>
    decreases out.len(),
{
    if out.len() > 0 && out.len() > keep && droppable(out.last()) {
        trimmed_to(out.drop_last(), keep)
    } else {
        out
    }
}

/// Whether an assistant message makes a call of a name that is not blank.
pub open spec fn makes_call(m: MessageV, id: Seq<char>) -> bool {
    !blank(id) && call_in(m, id) is Some
}

/// Whether dropping assistant messages without calls brings a call to the end, and what is left.
pub open spec fn brought_adjacent(out: Seq<MessageV>, id: Seq<char>) -> (bool, Seq<MessageV>)
    decreases out.len(),
{
    if out.len() == 0 {
        (false, out)
    } else if makes_call(out.last(), id) {
        (true, out)
    } else if droppable(out.last()) {
        brought_adjacent(out.drop_last(), id)
    } else {
        (false, out)
    }
}

/// An assistant message with one call and no text.
pub open spec fn call_message(c: ToolCallV, meta: Option<JsonV>) -> MessageV {
    MessageV {
        role: Role::Assistant,
        content: ContentV::Text(Seq::empty()),
        tool_calls: Some(seq![c]),
        tool_call_id: None,
        meta,
    }
}

/// What has been put in order so far.
pub struct OrderV {
    pub out: Seq<MessageV>,
    /// The names of the calls seen.
    pub seen: Seq<Seq<char>>,
    /// The names of the calls answered.
    pub consumed: Seq<Seq<char>>,
    pub seq: usize,
}

impl OrderV {
    pub open spec fn start() -> OrderV {
        OrderV { out: Seq::empty(), seen: Seq::empty(), consumed: Seq::empty(), seq: 0 }
    }

    /// A name that has not been made up yet.
    pub open spec fn fresh(self) -> (Seq<char>, OrderV) {
        let n = crate::protocol::succ(self.seq);
        (enc_id(n), OrderV { seq: n, ..self })
    }

    pub open spec fn message(self, m: MessageV) -> OrderV {
        OrderV { out: self.out.push(m), ..self }
    }

    /// A call with a name and a function.
    pub open spec fn call(self, c: ToolCallV, fallback: Seq<char>) -> (ToolCallV, OrderV) {
        let (id, st) = if blank(c.id) {
            self.fresh()
        } else {
            (c.id, self)
        };
        let name = if blank(c.name) {
            fallback
        } else {
            c.name
        };
        (ToolCallV { id, name, ..c }, OrderV { seen: st.seen.push(id), ..st })
    }

    pub open spec fn calls(self, v: Seq<ToolCallV>, fallback: Seq<char>, n: nat) -> (
        Seq<ToolCallV>,
        OrderV,
    )
        decreases n,
    {
        if n == 0 {
            (Seq::empty(), self)
        } else {
            let (before, mid) = self.calls(v, fallback, (n - 1) as nat);
            let (c, after) = mid.call(v[n - 1], fallback);
            (before.push(c), after)
        }
    }

    /// A call `id` at the end: the one made before, moved there, or a made-up one. The name may
    /// have to change.
    pub open spec fn linked(self, id: Seq<char>, fallback: Seq<char>) -> (Seq<char>, OrderV) {
        match holder(self.out, id, self.out.len()) {
            Some(i) => {
                let m = self.out[i];
                let out = trimmed_to(self.out.update(i, without_call(m, id)), i + 1);
                (
                    id,
                    OrderV {
                        out: out.push(
                            call_message(m.tool_calls->0[call_in(m, id)->0], out[i].meta),
                        ),
                        seen: self.seen.push(id),
                        ..self
                    },
                )
            },
            None => {
                let (found, out) = brought_adjacent(self.out, id);
                let st = OrderV { out, ..self };
                if found {
                    (id, st)
                } else {
                    let (id, st) = if st.seen.contains(id) {
                        st.fresh()
                    } else {
                        (id, st)
                    };
                    let made_up = ToolCallV { id, name: fallback, arguments: "{}"@ };
                    (
                        id,
                        OrderV {
                            out: st.out.push(call_message(made_up, None)),
                            seen: st.seen.push(id),
                            ..st
                        },
                    )
                }
            },
        }
    }

    /// The call that a tool message answers: the one that it names, that its result names, or a
    /// made-up one; a made-up one too where that call is answered.
    pub open spec fn answered(self, m: MessageV) -> (Seq<char>, OrderV) {
        let (id, st) = match crate::text::solid(m.tool_call_id) {
            Some(id) => (id, self),
            None => match payload(m.content).1 {
                Some(id) => (id, self),
                None => self.fresh(),
            },
        };
        if st.consumed.contains(id) {
            st.fresh()
        } else {
            (id, st)
        }
    }

    /// One message more.
    pub open spec fn step(self, m: MessageV, fallback: Seq<char>) -> OrderV {
        match m.role {
            Role::Assistant => match m.tool_calls {
                Some(calls) => {
                    let (c, st) = self.calls(calls, fallback, calls.len());
                    st.message(MessageV { tool_calls: Some(c), ..m })
                },
                None => self.message(m),
            },
            Role::Tool => {
                let (wanted, st) = self.answered(m);
                let (id, st) = st.linked(wanted, fallback);
                OrderV {
                    out: st.out.push(MessageV { tool_call_id: Some(id), ..m }),
                    consumed: st.consumed.push(id),
                    ..st
                }
            },
            _ => self.message(m),
        }
    }

    /// The first `n` messages.
    pub open spec fn of(messages: Seq<MessageV>, fallback: Seq<char>, n: nat) -> OrderV
        decreases n,
    {
        if n == 0 {
            OrderV::start()
        } else {
            OrderV::of(messages, fallback, (n - 1) as nat).step(messages[n - 1], fallback)
        }
    }
}

/// The call that was found is the first of its name.
pub proof fn lemma_call_pos(calls: Seq<ToolCallV>, id: Seq<char>, n: nat)
    requires
        n <= calls.len(),
    ensures
        match call_pos(calls, id, n) {
            Some(i) => 0 <= i < n && calls[i].id == id,
            None => forall|i: int| 0 <= i < n ==> (#[trigger] calls[i]).id != id,
        },
    decreases n,
{
    if n > 0 {
        lemma_call_pos(calls, id, (n - 1) as nat);
    }
}

/// What is left is a beginning of the conversation that holds the first `keep` messages.
pub proof fn lemma_trimmed(out: Seq<MessageV>, keep: int)
    requires
        0 <= keep <= out.len(),
    ensures
        keep <= trimmed_to(out, keep).len() <= out.len(),
        forall|i: int|
            0 <= i < trimmed_to(out, keep).len() ==> #[trigger] trimmed_to(out, keep)[i] == out[i],
    decreases out.len(),
{
    if out.len() > 0 && out.len() > keep && droppable(out.last()) {
        lemma_trimmed(out.drop_last(), keep);
    }
}

fn find_call(m: &Message, id: &str) -> (r: Option<usize>)
    ensures
        match r {
            Some(i) => call_in(m@, id@) == Some(i as int) && m.tool_calls is Some && i
                < m.tool_calls->0@.len(),
            None => call_in(m@, id@) is None,
        },
{
    match (m.role, &m.tool_calls) {
        (Role::Assistant, Some(calls)) => {
            let n: usize = calls.len();
            let mut i: usize = 0;
            while i < n
                invariant
                    n == calls@.len(),
                    i <= n,
                    call_pos(calls.views(), id@, i as nat) is None,
                    m.role == Role::Assistant,
                    m.tool_calls == Some(*calls),
                decreases n - i,
            {
                assert(calls.views()[i as int] == calls@[i as int]@);
                if crate::text::same(calls[i].id.as_str(), id) {
                    proof {
                        lemma_first_call(calls.views(), id@, i as int, n as nat);
                    }
                    return Some(i);
                }
                i = i + 1;
            }
            None
        },
        _ => None,
    }
}

proof fn lemma_first_call(calls: Seq<ToolCallV>, id: Seq<char>, i: int, n: nat)
    requires
        0 <= i < n <= calls.len(),
        call_pos(calls, id, i as nat) is None,
        calls[i].id == id,
    ensures
        call_pos(calls, id, n) == Some(i),
    decreases n,
{
    if n > i + 1 {
        lemma_first_call(calls, id, i, (n - 1) as nat);
    }
}

fn calls_but(calls: &Vec<ToolCall>, pos: usize) -> (r: Vec<ToolCall>)
    requires
        pos < calls@.len(),
    ensures
        r.views() == calls.views().remove(pos as int),
{
    let n: usize = calls.len();
    let mut out: Vec<ToolCall> = crate::views::none();
    let mut i: usize = 0;
    while i < n
        invariant
            n == calls@.len(),
            pos < n,
            i <= n,
            out.views().len() == if i <= pos {
                i as int
            } else {
                i - 1
            },
            forall|j: int|
                0 <= j < out.views().len() ==> #[trigger] out.views()[j] == calls.views()[if j
                    < pos {
                    j
                } else {
                    j + 1
                }],
        decreases n - i,
    {
        if i != pos {
            crate::views::push(&mut out, calls[i].dup());
        }
        i = i + 1;
    }
    assert(out.views() =~= calls.views().remove(pos as int));
    out
}

fn can_drop(m: &Message) -> (r: bool)
    ensures
        r == droppable(m@),
{
    let no_calls = match &m.tool_calls {
        Some(v) => v.len() == 0,
        None => true,
    };
    let no_id = match &m.tool_call_id {
        Some(id) => crate::text::is_blank(id.as_str()),
        None => true,
    };
    m.role == Role::Assistant && no_calls && no_id
}

fn one_call(c: ToolCall, meta: Option<Json>) -> (r: Message)
    ensures
        r@ == call_message(c@, meta.views()),
{
    let empty = String::new();
    assert(empty@ =~= Seq::<char>::empty());
    let mut calls: Vec<ToolCall> = crate::views::none();
    crate::views::push(&mut calls, c);
    assert(calls.views() =~= seq![c@]);
    Message {
        role: Role::Assistant,
        content: MessageContent::Text(empty),
        tool_calls: Some(calls),
        tool_call_id: None,
        meta,
    }
}

/// Takes a call out of the last message that makes it; gives the call and the message's place.
pub fn take_matching_tool_call_from_history(out: &mut Vec<Message>, tool_call_id: &str) -> (r:
    Option<(ToolCall, usize)>)
    ensures
        match holder(old(out).views(), tool_call_id@, old(out)@.len()) {
            Some(i) => {
                let m = old(out).views()[i];
                &&& r matches Some((c, at))
                &&& at == i
                &&& i < old(out)@.len()
                &&& call_in(m, tool_call_id@) is Some
                &&& c@ == m.tool_calls->0[call_in(m, tool_call_id@)->0]
                &&& final(out).views() == old(out).views().update(
                    i,
                    without_call(m, tool_call_id@),
                )
            },
            None => r is None && final(out).views() == old(out).views(),
        },
{
    let mut n: usize = out.len();
    while n > 0
        invariant
            out.views() == old(out).views(),
            n <= out@.len(),
            holder(out.views(), tool_call_id@, out@.len()) == holder(
                out.views(),
                tool_call_id@,
                n as nat,
            ),
        decreases n,
    {
        assert(out.views()[n - 1] == out@[n - 1]@);
        match find_call(&out[n - 1], tool_call_id) {
            Some(pos) => {
                let m = out[n - 1].dup();
                match m.tool_calls {
                    Some(calls) => {
                        assert(out.views()[n - 1].tool_calls == Some(calls.views()));
                        let c = calls[pos].dup();
                        assert(calls.views()[pos as int] == calls@[pos as int]@);
                        let left = crate::views::non_empty(calls_but(&calls, pos));
                        let changed = Message {
                            role: m.role,
                            content: m.content,
                            tool_calls: left,
                            tool_call_id: m.tool_call_id,
                            meta: m.meta,
                        };
                        let ghost before = out.views();
                        out.set(n - 1, changed);
                        assert(out.views() =~= before.update(
                            n - 1,
                            without_call(before[n - 1], tool_call_id@),
                        ));
                        return Some((c, n - 1));
                    },
                    None => {},
                }
            },
            None => {},
        }
        n = n - 1;
    }
    None
}

/// Drops the assistant's messages without calls behind a place.
pub fn trim_trailing_assistant_text_after_index(out: &mut Vec<Message>, source_idx: usize)
    requires
        source_idx < old(out)@.len(),
    ensures
        final(out).views() == trimmed_to(old(out).views(), source_idx + 1),
{
    loop
        invariant
            source_idx < out@.len(),
            trimmed_to(out.views(), source_idx + 1) == trimmed_to(
                old(out).views(),
                source_idx + 1,
            ),
        ensures
            out.views() == trimmed_to(old(out).views(), source_idx + 1),
        decreases out@.len(),
    {
        let n: usize = out.len();
        assert(out.views().last() == out@[n - 1]@);
        if n - 1 > source_idx && can_drop(&out[n - 1]) {
            let ghost before = out.views();
            let _ = out.pop();
            assert(out.views() =~= before.drop_last());
        } else {
            break;
        }
    }
}

/// Whether an assistant message makes a call.
pub fn assistant_has_tool_call_id(msg: &Message, tool_call_id: &str) -> (r: bool)
    ensures
        r == makes_call(msg@, tool_call_id@),
{
    !crate::text::is_blank(tool_call_id) && find_call(msg, tool_call_id).is_some()
}

/// Drops the assistant's messages without calls until a call stands at the end, and says whether
/// it does.
pub fn make_matching_call_adjacent(out: &mut Vec<Message>, tool_call_id: &str) -> (r: bool)
    ensures
        (r, final(out).views()) == brought_adjacent(old(out).views(), tool_call_id@),
{
    let mut found: bool = false;
    loop
        invariant_except_break
            !found,
        invariant
            brought_adjacent(out.views(), tool_call_id@) == brought_adjacent(
                old(out).views(),
                tool_call_id@,
            ),
        ensures
            (found, out.views()) == brought_adjacent(old(out).views(), tool_call_id@),
        decreases out@.len(),
    {
        let n: usize = out.len();
        if n == 0 {
            break;
        }
        assert(out.views().last() == out@[n - 1]@);
        if assistant_has_tool_call_id(&out[n - 1], tool_call_id) {
            found = true;
            break;
        }
        if can_drop(&out[n - 1]) {
            let ghost before = out.views();
            let _ = out.pop();
            assert(out.views() =~= before.drop_last());
        } else {
            break;
        }
    }
    found
}

struct Order {
    out: Vec<Message>,
    seen: Vec<String>,
    consumed: Vec<String>,
    seq: usize,
}

impl View for Order {
    type V = OrderV;

    closed spec fn view(&self) -> OrderV {
        OrderV {
            out: self.out.views(),
            seen: self.seen.views(),
            consumed: self.consumed.views(),
            seq: self.seq,
        }
    }
}

impl Order {
    fn fresh(&mut self) -> (r: String)
        ensures
            (r@, final(self)@) == old(self)@.fresh(),
    {
        self.seq = crate::protocol::next_index(self.seq);
        make_id(self.seq)
    }

    fn call(&mut self, c: &ToolCall, fallback: &str) -> (r: ToolCall)
        ensures
            (r@, final(self)@) == old(self)@.call(c@, fallback@),
    {
        let id = if crate::text::is_blank(c.id.as_str()) {
            self.fresh()
        } else {
            c.id.clone()
        };
        let name = if crate::text::is_blank(c.name.as_str()) {
            fallback.to_string()
        } else {
            c.name.clone()
        };
        crate::views::push(&mut self.seen, id.clone());
        ToolCall { id, name, arguments: c.arguments.clone() }
    }

    fn calls(&mut self, v: &Vec<ToolCall>, fallback: &str) -> (r: Vec<ToolCall>)
        ensures
            (r.views(), final(self)@) == old(self)@.calls(v.views(), fallback@, v@.len()),
    {
        let mut out: Vec<ToolCall> = crate::views::none();
        for i in 0..v.len()
            invariant
                (out.views(), self@) == old(self)@.calls(v.views(), fallback@, i as nat),
        {
            assert(v.views()[i as int] == v@[i as int]@);
            let c = self.call(&v[i], fallback);
            crate::views::push(&mut out, c);
        }
        out
    }

    fn link(&mut self, id: String, fallback: &str) -> (r: String)
        ensures
            (r@, final(self)@) == old(self)@.linked(id@, fallback@),
    {
        let ghost before = self@;
        match take_matching_tool_call_from_history(&mut self.out, id.as_str()) {
            Some((c, at)) => {
                let ghost mid = self.out.views();
                trim_trailing_assistant_text_after_index(&mut self.out, at);
                proof {
                    lemma_trimmed(mid, at + 1);
                }
                assert(self.out.views()[at as int] == self.out@[at as int]@);
                let meta = crate::json::dup_opt(&self.out[at].meta);
                crate::views::push(&mut self.out, one_call(c, meta));
                crate::views::push(&mut self.seen, id.clone());
                id
            },
            None => {
                if make_matching_call_adjacent(&mut self.out, id.as_str()) {
                    id
                } else {
                    let id = if crate::text::has_text(&self.seen, id.as_str()) {
                        self.fresh()
                    } else {
                        id
                    };
                    let made_up = ToolCall {
                        id: id.clone(),
                        name: fallback.to_string(),
                        arguments: "{}".to_string(),
                    };
                    crate::views::push(&mut self.out, one_call(made_up, None));
                    crate::views::push(&mut self.seen, id.clone());
                    id
                }
            },
        }
    }

    fn answered(&mut self, m: &Message) -> (r: String)
        ensures
            (r@, final(self)@) == old(self)@.answered(m@),
    {
        let named = match &m.tool_call_id {
            Some(id) => if crate::text::is_blank(id.as_str()) {
                None
            } else {
                Some(id.clone())
            },
            None => None,
        };
        let id = match named {
            Some(id) => id,
            None => match tool_message_payload(&m.content).1 {
                Some(id) => id,
                None => self.fresh(),
            },
        };
        if crate::text::has_text(&self.consumed, id.as_str()) {
            self.fresh()
        } else {
            id
        }
    }

    fn step(&mut self, m: &Message, fallback: &str)
        ensures
            final(self)@ == old(self)@.step(m@, fallback@),
    {
        let mut copy = m.dup();
        match m.role {
            Role::Assistant => {
                if let Some(calls) = &m.tool_calls {
                    copy.tool_calls = Some(self.calls(calls, fallback));
                }
            },
            Role::Tool => {
                let wanted = self.answered(m);
                let id = self.link(wanted, fallback);
                copy.tool_call_id = Some(id.clone());
                crate::views::push(&mut self.consumed, id);
            },
            _ => {},
        }
        crate::views::push(&mut self.out, copy);
    }
}

// ---------------------------------------------------------------- calls without answers

/// The calls that the tool messages among the first `n` answer.
pub open spec fn answers_upto(messages: Seq<MessageV>, n: nat) -> Seq<Seq<char>>
    decreases n,
{
    if n == 0 {
        Seq::empty()
    } else {
        let before = answers_upto(messages, (n - 1) as nat);
        match (messages[n - 1].role, crate::text::solid(messages[n - 1].tool_call_id)) {
            (Role::Tool, Some(id)) => before.push(id),
            _ => before,
        }
    }
}

/// Those of the first `n` calls that have an answer.
pub open spec fn kept_upto(calls: Seq<ToolCallV>, answers: Seq<Seq<char>>, n: nat) -> Seq<
    ToolCallV,
>
    decreases n,
{
    if n == 0 {
        Seq::empty()
    } else {
        let before = kept_upto(calls, answers, (n - 1) as nat);
        if answers.contains(calls[n - 1].id) {
            before.push(calls[n - 1])
        } else {
            before
        }
    }
}

/// A message without the calls that have no answer.
pub open spec fn pruned(m: MessageV, answers: Seq<Seq<char>>) -> MessageV {
    match (m.role, m.tool_calls) {
        (Role::Assistant, Some(calls)) => MessageV {
            tool_calls: crate::views::some_list(kept_upto(calls, answers, calls.len())),
            ..m
        },
        _ => m,
    }
}

/// All messages without the calls that have no answer.
pub open spec fn all_pruned(messages: Seq<MessageV>) -> Seq<MessageV> {
    let answers = answers_upto(messages, messages.len());
    Seq::new(messages.len(), |i: int| pruned(messages[i], answers))
}

fn answers_of(messages: &Vec<Message>) -> (r: Vec<String>)
    ensures
        r.views() == answers_upto(messages.views(), messages@.len()),
{
    let mut out: Vec<String> = crate::views::none();
    for i in 0..messages.len()
        invariant
            out.views() == answers_upto(messages.views(), i as nat),
    {
        assert(messages.views()[i as int] == messages@[i as int]@);
        if messages[i].role == Role::Tool {
            match &messages[i].tool_call_id {
                Some(id) => {
                    if !crate::text::is_blank(id.as_str()) {
                        crate::views::push(&mut out, id.clone());
                    }
                },
                None => {},
            }
        }
    }
    out
}

fn keep_calls(calls: &Vec<ToolCall>, answers: &Vec<String>) -> (r: Vec<ToolCall>)
    ensures
        r.views() == kept_upto(calls.views(), answers.views(), calls@.len()),
{
    let mut out: Vec<ToolCall> = crate::views::none();
    for i in 0..calls.len()
        invariant
            out.views() == kept_upto(calls.views(), answers.views(), i as nat),
    {
        assert(calls.views()[i as int] == calls@[i as int]@);
        if crate::text::has_text(answers, calls[i].id.as_str()) {
            crate::views::push(&mut out, calls[i].dup());
        }
    }
    out
}

/// Takes out the calls that have no answer.
pub fn prune_orphan_assistant_tool_calls(messages: &Vec<Message>) -> (r: Vec<Message>)
    ensures
        r.views() == all_pruned(messages.views()),
{
    let answers = answers_of(messages);
    let mut out: Vec<Message> = crate::views::none();
    for i in 0..messages.len()
        invariant
            out.views().len() == i,
            answers.views() == answers_upto(messages.views(), messages@.len()),
            forall|j: int|
                0 <= j < i ==> #[trigger] out.views()[j] == pruned(
                    messages.views()[j],
                    answers.views(),
                ),
    {
        assert(messages.views()[i as int] == messages@[i as int]@);
        let mut copy = messages[i].dup();
        if messages[i].role == Role::Assistant {
            if let Some(calls) = &messages[i].tool_calls {
                copy.tool_calls = crate::views::non_empty(keep_calls(calls, &answers));
            }
        }
        crate::views::push(&mut out, copy);
    }
    assert(out.views() =~= all_pruned(messages.views()));
    out
}

/// Whether a message says anything: every one but an assistant's without text and calls.
pub open spec fn says(m: MessageV) -> bool {
    ||| m.role != Role::Assistant
    ||| m.tool_calls is Some && m.tool_calls->0.len() > 0
    ||| !blank(m.content.to_text())
}

/// Those of the first `n` messages that say anything.
pub open spec fn saying_upto(messages: Seq<MessageV>, n: nat) -> Seq<MessageV>
    decreases n,
{
    if n == 0 {
        Seq::empty()
    } else {
        let before = saying_upto(messages, (n - 1) as nat);
        if says(messages[n - 1]) {
            before.push(messages[n - 1])
        } else {
            before
        }
    }
}

fn saying(messages: &Vec<Message>) -> (r: Vec<Message>)
    ensures
        r.views() == saying_upto(messages.views(), messages@.len()),
{
    let mut out: Vec<Message> = crate::views::none();
    for i in 0..messages.len()
        invariant
            out.views() == saying_upto(messages.views(), i as nat),
    {
        assert(messages.views()[i as int] == messages@[i as int]@);
        let m = &messages[i];
        let calls = match &m.tool_calls {
            Some(v) => v.len() > 0,
            None => false,
        };
        if m.role != Role::Assistant || calls || !crate::text::is_blank(
            m.content.to_text().as_str(),
        ) {
            crate::views::push(&mut out, m.dup());
        }
    }
    out
}

// ---------------------------------------------------------------- the whole

/// A conversation in the shape that the protocol asks for. A call without a function gets
/// `fallback`.
pub open spec fn normalized(messages: Seq<MessageV>, fallback: Seq<char>) -> Seq<MessageV> {
    let named = remapped_upto(messages, messages.len()).0;
    let ordered = all_pruned(OrderV::of(named, fallback, named.len()).out);
    saying_upto(ordered, ordered.len())
}

/// Puts a conversation into the shape that the protocol asks for.
pub fn normalize_messages_for_openai(messages: &Vec<Message>, fallback: &str) -> (r: Vec<Message>)
    ensures
        r.views() == normalized(messages.views(), fallback@),
{
    let named = remap_duplicate_tool_call_ids(messages);
    let mut st = Order {
        out: crate::views::none(),
        seen: crate::views::none(),
        consumed: crate::views::none(),
        seq: 0,
    };
    for i in 0..named.len()
        invariant
            st@ == OrderV::of(named.views(), fallback@, i as nat),
    {
        assert(named.views()[i as int] == named@[i as int]@);
        st.step(&named[i], fallback);
    }
    saying(&prune_orphan_assistant_tool_calls(&st.out))
}

} // verus!
