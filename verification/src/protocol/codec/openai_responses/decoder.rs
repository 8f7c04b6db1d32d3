//! Reads requests of the Responses protocol.
//!
//! The conversation is a text or a list of items. Thinking is an item of its own and goes to every
//! message of the assistant until the client speaks again.
use vstd::prelude::*;

use crate::json::{Fields, Json, JsonV};
use crate::protocol::codec::openai_compatible::history::text_of_result;
use crate::protocol::ids::EndpointV;
use crate::protocol::types::{
    InternalMessage, InternalMessageV, InternalRequest, InternalRequestV, MessageContent,
    MessageContentV, Role, ToolCall, ToolCallV, ToolDef, ToolDefV,
};
use crate::protocol::{CodecError, IngressDecoder};
use crate::views::Views;

verus! {

// ---------------------------------------------------------------- texts

/// The texts of the first `n` summaries that are not empty.
pub open spec fn summaries_upto(v: Seq<JsonV>, n: nat) -> Seq<Seq<char>>
    decreases n,
{
    if n == 0 {
        Seq::empty()
    } else {
        let before = summaries_upto(v, (n - 1) as nat);
        match v[n - 1].filled("text"@) {
            Some(t) => before.push(t),
            None => before,
        }
    }
}

/// The thinking in a part of a content.
pub open spec fn part_reasoning(p: JsonV) -> Option<Seq<char>> {
    match p.get_str("reasoning"@) {
        Some(t) => if t.len() > 0 {
            Some(t)
        } else {
            None
        },
        None => if p.get_str("type"@) == Some("reasoning_text"@) {
            p.filled("text"@)
        } else {
            None
        },
    }
}

/// The thinking in the first `n` parts.
pub open spec fn thoughts_upto(v: Seq<JsonV>, n: nat) -> Seq<Seq<char>>
    decreases n,
{
    if n == 0 {
        Seq::empty()
    } else {
        let before = thoughts_upto(v, (n - 1) as nat);
        match part_reasoning(v[n - 1]) {
            Some(t) => before.push(t),
            None => before,
        }
    }
}

/// Texts line by line, or nothing where there is none.
pub open spec fn in_lines(v: Seq<Seq<char>>) -> Option<Seq<char>> {
    if v.len() == 0 {
        None
    } else {
        Some(crate::text::join_of(v, "\n"@))
    }
}

/// The thinking that an item holds: in a field, in its summary, or in its content.
pub open spec fn reasoning_of(item: JsonV) -> Option<Seq<char>> {
    match item.filled("reasoning_content"@) {
        Some(t) => Some(t),
        None => match item.filled("encrypted_content"@) {
            Some(t) => Some(t),
            None => {
                let summary = match item.get_array("summary"@) {
                    Some(v) => in_lines(summaries_upto(v, v.len())),
                    None => None,
                };
                match summary {
                    Some(t) => Some(t),
                    None => match item.get_array("content"@) {
                        Some(v) => in_lines(thoughts_upto(v, v.len())),
                        None => None,
                    },
                }
            },
        },
    }
}

fn lines_of_texts(v: &Vec<String>) -> (r: Option<String>)
    ensures
        r.views() == in_lines(v.views()),
{
    if v.len() == 0 {
        None
    } else {
        Some(crate::text::join(v, "\n"))
    }
}

fn summary_texts(v: &Vec<Json>) -> (r: Vec<String>)
    ensures
        r.views() == summaries_upto(v.views(), v@.len()),
{
    let mut out: Vec<String> = crate::views::none();
    for i in 0..v.len()
        invariant
            out.views() == summaries_upto(v.views(), i as nat),
    {
        assert(v.views()[i as int] == v@[i as int]@);
        match v[i].filled("text") {
            Some(t) => {
                crate::views::push(&mut out, t.to_string());
            },
            None => {},
        }
    }
    out
}

fn thought_in(p: &Json) -> (r: Option<&str>)
    ensures
        r.views() == part_reasoning(p@),
{
    match p.get_str("reasoning") {
        Some(t) => if t.is_empty() {
            None
        } else {
            Some(t)
        },
        None => if p.field_is("type", "reasoning_text") {
            p.filled("text")
        } else {
            None
        },
    }
}

fn thought_texts(v: &Vec<Json>) -> (r: Vec<String>)
    ensures
        r.views() == thoughts_upto(v.views(), v@.len()),
{
    let mut out: Vec<String> = crate::views::none();
    for i in 0..v.len()
        invariant
            out.views() == thoughts_upto(v.views(), i as nat),
    {
        assert(v.views()[i as int] == v@[i as int]@);
        match thought_in(&v[i]) {
            Some(t) => {
                crate::views::push(&mut out, t.to_string());
            },
            None => {},
        }
    }
    out
}

/// Reads the thinking that an item holds.
pub fn responses_item_reasoning_content(item: &Json) -> (r: Option<String>)
    ensures
        r.views() == reasoning_of(item@),
{
    match item.filled("reasoning_content") {
        Some(t) => {
            return Some(t.to_string());
        },
        None => {},
    }
    match item.filled("encrypted_content") {
        Some(t) => {
            return Some(t.to_string());
        },
        None => {},
    }
    let summary = match item.get_array("summary") {
        Some(v) => lines_of_texts(&summary_texts(v)),
        None => None,
    };
    match summary {
        Some(t) => Some(t),
        None => match item.get_array("content") {
            Some(v) => lines_of_texts(&thought_texts(v)),
            None => None,
        },
    }
}

// ---------------------------------------------------------------- items

/// A message of a text.
pub open spec fn said(role: Role, text: Seq<char>) -> InternalMessageV {
    InternalMessageV {
        role,
        content: MessageContentV::Text(text),
        tool_calls: None,
        tool_call_id: None,
        extra: Seq::empty(),
    }
}

fn say(role: Role, text: String) -> (r: InternalMessage)
    ensures
        r@ == said(role, text@),
{
    InternalMessage {
        role,
        content: MessageContent::Text(text),
        tool_calls: None,
        tool_call_id: None,
        extra: Fields::new(),
    }
}

/// The text under the first of two names that is there, or the empty text.
pub open spec fn text_at(item: JsonV, a: Seq<char>, b: Seq<char>) -> Seq<char> {
    match item.get(a) {
        Some(_) => item.str_or_empty(a),
        None => item.str_or_empty(b),
    }
}

/// Reads the text under the first of two names that is there.
pub fn first_text(item: &Json, a: &str, b: &str) -> (r: String)
    ensures
        r@ == text_at(item@, a@, b@),
{
    match item.get(a) {
        Some(_) => item.str_or_empty(a),
        None => item.str_or_empty(b),
    }
}

/// The text under a name, or another.
pub open spec fn text_or(item: JsonV, k: Seq<char>, other: Seq<char>) -> Seq<char> {
    match item.get_str(k) {
        Some(t) => t,
        None => other,
    }
}

/// Reads the text under a name, or another.
pub fn text_or_other(item: &Json, k: &str, other: &str) -> (r: String)
    ensures
        r@ == text_or(item@, k@, other@),
{
    match item.get_str(k) {
        Some(t) => t.to_string(),
        None => other.to_string(),
    }
}

pub open spec fn role_of(s: Seq<char>) -> Option<Role> {
    if s == "system"@ || s == "developer"@ {
        Some(Role::System)
    } else if s == "user"@ {
        Some(Role::User)
    } else if s == "assistant"@ {
        Some(Role::Assistant)
    } else if s == "tool"@ {
        Some(Role::Tool)
    } else {
        None
    }
}

fn read_role(s: &str) -> (r: Option<Role>)
    ensures
        r == role_of(s@),
{
    if *s == *"system" || *s == *"developer" {
        Some(Role::System)
    } else if *s == *"user" {
        Some(Role::User)
    } else if *s == *"assistant" {
        Some(Role::Assistant)
    } else if *s == *"tool" {
        Some(Role::Tool)
    } else {
        None
    }
}

/// The text of a block; a block of another type has none.
pub open spec fn block_text(b: JsonV) -> Option<Seq<char>> {
    let kind = text_or(b, "type"@, "text"@);
    if kind == "input_text"@ || kind == "output_text"@ || kind == "text"@ {
        b.get_str("text"@)
    } else {
        None
    }
}

/// The texts of the first `n` blocks, one behind the other.
pub open spec fn blocks_text(v: Seq<JsonV>, n: nat) -> Seq<char>
    decreases n,
{
    if n == 0 {
        Seq::empty()
    } else {
        let before = blocks_text(v, (n - 1) as nat);
        match block_text(v[n - 1]) {
            Some(t) => before + t,
            None => before,
        }
    }
}

fn read_blocks(v: &Vec<Json>) -> (r: String)
    ensures
        r@ == blocks_text(v.views(), v@.len()),
{
    let mut out = String::new();
    assert(out@ =~= Seq::<char>::empty());
    for i in 0..v.len()
        invariant
            out@ == blocks_text(v.views(), i as nat),
    {
        assert(v.views()[i as int] == v@[i as int]@);
        let kind = text_or_other(&v[i], "type", "text");
        let kind = kind.as_str();
        if *kind == *"input_text" || *kind == *"output_text" || *kind == *"text" {
            match v[i].get_str("text") {
                Some(t) => {
                    out.append(t);
                },
                None => {},
            }
        }
    }
    out
}

/// What an item of type `message` says. One without a content, or with blocks that hold no text,
/// says nothing.
pub open spec fn message_of(item: JsonV) -> Result<Option<InternalMessageV>, Seq<char>> {
    let name = text_or(item, "role"@, "user"@);
    match role_of(name) {
        Some(role) => match item.get("content"@) {
            Some(JsonV::Text(t)) => Ok(Some(said(role, t))),
            Some(JsonV::Object(f)) => Ok(
                Some(
                    said(
                        role,
                        match JsonV::Object(f).get_str("text"@) {
                            Some(t) => t,
                            None => JsonV::Object(f).str_or_empty("content"@),
                        },
                    ),
                ),
            ),
            Some(JsonV::Array(v)) => {
                let text = blocks_text(v, v.len());
                Ok(
                    if text.len() == 0 {
                        None
                    } else {
                        Some(said(role, text))
                    },
                )
            },
            Some(_) => Err("unsupported content type in responses input item"@),
            None => Ok(None),
        },
        None => Err("unsupported role in responses input: "@ + name),
    }
}

/// An optional message, or an error, by its view.
pub open spec fn maybe(r: Result<Option<InternalMessage>, CodecError>) -> Result<
    Option<InternalMessageV>,
    Seq<char>,
> {
    match r {
        Ok(m) => Ok(m.views()),
        Err(e) => Err(e@),
    }
}

/// Reads an item of type `message`.
pub fn decode_message_item(item: &Json) -> (r: Result<Option<InternalMessage>, CodecError>)
    ensures
        maybe(r) == message_of(item@),
{
    broadcast use crate::json::lemma_array_view;
    broadcast use crate::json::lemma_object_view;

    let name = text_or_other(item, "role", "user");
    let role = match read_role(name.as_str()) {
        Some(role) => role,
        None => {
            return Err(
                CodecError::new(
                    crate::text::cat(
                        "unsupported role in responses input: ",
                        name.as_str(),
                    ).as_str(),
                ),
            );
        },
    };
    match item.get("content") {
        Some(c) => match c {
            Json::Text(t) => Ok(Some(say(role, t.clone()))),
            Json::Object(_) => {
                let text = match c.get_str("text") {
                    Some(t) => t.to_string(),
                    None => c.str_or_empty("content"),
                };
                Ok(Some(say(role, text)))
            },
            Json::Array(v) => {
                let text = read_blocks(v);
                if text.as_str().is_empty() {
                    Ok(None)
                } else {
                    Ok(Some(say(role, text)))
                }
            },
            _ => Err(CodecError::new("unsupported content type in responses input item")),
        },
        None => Ok(None),
    }
}

/// What an item of the input says. A bare text is the client's; a call is a message of the
/// assistant, its output one of the tool; an item of any other type but `message` says nothing.
pub open spec fn item_of(item: JsonV) -> Result<Option<InternalMessageV>, Seq<char>> {
    match item {
        JsonV::Text(t) => Ok(Some(said(Role::User, t))),
        _ => {
            let kind = text_or(item, "type"@, "message"@);
            if kind == "function_call_output"@ {
                let id = text_at(item, "call_id"@, "tool_call_id"@);
                if crate::text::trim_of(id).len() == 0 {
                    Err("function_call_output missing call_id"@)
                } else {
                    Ok(
                        Some(
                            InternalMessageV {
                                tool_call_id: Some(id),
                                ..said(
                                    Role::Tool,
                                    crate::protocol::codec::openai_compatible::history::result_text(
                                        item.get_or_null("output"@),
                                    ),
                                )
                            },
                        ),
                    )
                }
            } else if kind == "function_call"@ {
                let id = text_at(item, "call_id"@, "id"@);
                let name = item.str_or_empty("name"@);
                if crate::text::trim_of(id).len() == 0 || crate::text::trim_of(name).len() == 0 {
                    Err("function_call item missing call_id or name"@)
                } else {
                    Ok(
                        Some(
                            InternalMessageV {
                                tool_calls: Some(
                                    seq![
                                        ToolCallV {
                                            id,
                                            name,
                                            arguments: text_or(item, "arguments"@, "{}"@),
                                        },
                                    ],
                                ),
                                ..said(Role::Assistant, Seq::empty())
                            },
                        ),
                    )
                }
            } else if kind == "message"@ {
                message_of(item)
            } else {
                Ok(None)
            }
        },
    }
}

/// Reads an item of the input.
pub fn decode_input_item(item: &Json) -> (r: Result<Option<InternalMessage>, CodecError>)
    ensures
        maybe(r) == item_of(item@),
{
    if let Json::Text(t) = item {
        return Ok(Some(say(Role::User, t.clone())));
    }
    let kind = text_or_other(item, "type", "message");
    let kind = kind.as_str();
    if *kind == *"function_call_output" {
        let id = first_text(item, "call_id", "tool_call_id");
        if crate::text::is_blank(id.as_str()) {
            return Err(CodecError::new("function_call_output missing call_id"));
        }
        let mut m = say(Role::Tool, text_of_result(&item.get_or_null("output")));
        m.tool_call_id = Some(id);
        Ok(Some(m))
    } else if *kind == *"function_call" {
        let id = first_text(item, "call_id", "id");
        let name = item.str_or_empty("name");
        if crate::text::is_blank(id.as_str()) || crate::text::is_blank(name.as_str()) {
            return Err(CodecError::new("function_call item missing call_id or name"));
        }
        let c = ToolCall { id, name, arguments: text_or_other(item, "arguments", "{}") };
        let mut calls: Vec<ToolCall> = crate::views::none();
        let ghost call = c@;
        crate::views::push(&mut calls, c);
        assert(calls.views() =~= seq![call]);
        let empty = String::new();
        assert(empty@ =~= Seq::<char>::empty());
        let mut m = say(Role::Assistant, empty);
        m.tool_calls = Some(calls);
        Ok(Some(m))
    } else if *kind == *"message" {
        decode_message_item(item)
    } else {
        Ok(None)
    }
}

// ---------------------------------------------------------------- the conversation

/// What has been read of the input: messages, and thinking that waits for the assistant.
pub struct TalkV {
    pub messages: Seq<InternalMessageV>,
    pub pending: Option<Seq<char>>,
    /// Whether a message of the assistant already carries the thinking that waits.
    pub attached: bool,
}

/// A message with thinking.
pub open spec fn with_reasoning(m: InternalMessageV, t: Seq<char>) -> InternalMessageV {
    InternalMessageV {
        extra: crate::json::put_field(m.extra, "reasoning_content"@, JsonV::Text(t)),
        ..m
    }
}

impl TalkV {
    /// The end of a turn: thinking that no message carries gets a message of its own.
    pub open spec fn flushed(self) -> TalkV {
        TalkV {
            messages: match self.pending {
                Some(t) => if self.attached {
                    self.messages
                } else {
                    self.messages.push(with_reasoning(said(Role::Assistant, Seq::empty()), t))
                },
                None => self.messages,
            },
            pending: None,
            attached: false,
        }
    }

    pub open spec fn push(self, m: InternalMessageV) -> TalkV {
        TalkV { messages: self.messages.push(m), ..self }
    }

    /// A message of the assistant, with the thinking that waits and its own. All messages of a
    /// turn carry the thinking.
    pub open spec fn assistant(self, m: InternalMessageV, own: Option<Seq<char>>) -> TalkV {
        let carried = match (self.pending, own) {
            (Some(p), Some(t)) => with_reasoning(m, p + "\n"@ + t),
            (Some(p), None) => with_reasoning(m, p),
            (None, Some(t)) => with_reasoning(m, t),
            (None, None) => m,
        };
        TalkV { attached: self.pending is Some, ..self.push(carried) }
    }

    /// One item more.
    pub open spec fn item(self, item: JsonV) -> Result<TalkV, Seq<char>> {
        if item.get_str("type"@) == Some("reasoning"@) {
            Ok(
                match reasoning_of(item) {
                    Some(t) => TalkV { pending: Some(t), attached: false, ..self },
                    None => self,
                },
            )
        } else {
            match item_of(item) {
                Ok(Some(m)) => Ok(
                    match m.role {
                        Role::Assistant => self.assistant(m, reasoning_of(item)),
                        Role::Tool => self.push(m),
                        _ => self.flushed().push(m),
                    },
                ),
                Ok(None) => Ok(self),
                Err(e) => Err(e),
            }
        }
    }

    /// The first `n` items, or the first error among them.
    pub open spec fn items(self, v: Seq<JsonV>, n: nat) -> Result<TalkV, Seq<char>>
        decreases n,
    {
        if n == 0 {
            Ok(self)
        } else {
            match self.items(v, (n - 1) as nat) {
                Ok(t) => t.item(v[n - 1]),
                Err(e) => Err(e),
            }
        }
    }
}

struct Talk {
    messages: Vec<InternalMessage>,
    pending: Option<String>,
    attached: bool,
}

impl View for Talk {
    type V = TalkV;

    closed spec fn view(&self) -> TalkV {
        TalkV {
            messages: self.messages.views(),
            pending: self.pending.views(),
            attached: self.attached,
        }
    }
}

fn add_reasoning(m: &mut InternalMessage, t: &str)
    ensures
        final(m)@ == with_reasoning(old(m)@, t@),
{
    m.extra.insert("reasoning_content", Json::text(t));
}

impl Talk {
    fn flush(&mut self)
        ensures
            final(self)@ == old(self)@.flushed(),
    {
        let waiting = crate::text::clone_opt(&self.pending);
        if let (Some(t), false) = (waiting, self.attached) {
            let empty = String::new();
            assert(empty@ =~= Seq::<char>::empty());
            let mut m = say(Role::Assistant, empty);
            add_reasoning(&mut m, t.as_str());
            crate::views::push(&mut self.messages, m);
        }
        self.pending = None;
        self.attached = false;
    }

    fn assistant(&mut self, msg: InternalMessage, own: Option<String>)
        ensures
            final(self)@ == old(self)@.assistant(msg@, own.views()),
    {
        let mut m = msg;
        match (&self.pending, own) {
            (Some(p), Some(t)) => {
                let both = crate::text::cat3(p.as_str(), "\n", t.as_str());
                add_reasoning(&mut m, both.as_str());
            },
            (Some(p), None) => {
                add_reasoning(&mut m, p.as_str());
            },
            (None, Some(t)) => {
                add_reasoning(&mut m, t.as_str());
            },
            (None, None) => {},
        }
        self.attached = self.pending.is_some();
        crate::views::push(&mut self.messages, m);
    }

    fn item(&mut self, item: &Json) -> (r: Option<CodecError>)
        ensures
            match old(self)@.item(item@) {
                Ok(t) => r is None && final(self)@ == t,
                Err(e) => r matches Some(x) && x@ == e,
            },
    {
        if item.field_is("type", "reasoning") {
            match responses_item_reasoning_content(item) {
                Some(t) => {
                    self.pending = Some(t);
                    self.attached = false;
                },
                None => {},
            }
            return None;
        }
        match decode_input_item(item) {
            Ok(Some(m)) => {
                match m.role {
                    Role::Assistant => {
                        self.assistant(m, responses_item_reasoning_content(item));
                    },
                    Role::Tool => {
                        crate::views::push(&mut self.messages, m);
                    },
                    _ => {
                        self.flush();
                        crate::views::push(&mut self.messages, m);
                    },
                }
                None
            },
            Ok(None) => None,
            Err(e) => Some(e),
        }
    }
}

/// The messages of a request: the instructions, then the input.
pub open spec fn messages_of(body: JsonV) -> Result<Seq<InternalMessageV>, Seq<char>> {
    let head = match body.filled("instructions"@) {
        Some(t) => seq![said(Role::System, t)],
        None => Seq::empty(),
    };
    match body.get("input"@) {
        Some(JsonV::Text(t)) => Ok(head.push(said(Role::User, t))),
        Some(JsonV::Array(v)) => match (TalkV { messages: head, pending: None, attached: false }).items(v, v.len()) {
            Ok(t) => if t.flushed().messages.len() == 0 {
                Err("no messages found in input"@)
            } else {
                Ok(t.flushed().messages)
            },
            Err(e) => Err(e),
        },
        Some(_) => Err("'input' must be a string or array"@),
        None => Err("missing 'input' field"@),
    }
}

/// A list of messages, or an error, by its view.
pub open spec fn listed(r: Result<Vec<InternalMessage>, CodecError>) -> Result<
    Seq<InternalMessageV>,
    Seq<char>,
> {
    match r {
        Ok(m) => Ok(m.views()),
        Err(e) => Err(e@),
    }
}

fn decode_messages(body: &Json) -> (r: Result<Vec<InternalMessage>, CodecError>)
    ensures
        listed(r) == messages_of(body@),
{
    broadcast use crate::json::lemma_array_view;

    let mut head: Vec<InternalMessage> = crate::views::none();
    match body.filled("instructions") {
        Some(t) => {
            crate::views::push(&mut head, say(Role::System, t.to_string()));
            assert(head.views() =~= seq![said(Role::System, t@)]);
        },
        None => {},
    }
    match body.get("input") {
        Some(input) => match input {
            Json::Text(t) => {
                crate::views::push(&mut head, say(Role::User, t.clone()));
                Ok(head)
            },
            Json::Array(v) => {
                let mut talk = Talk { messages: head, pending: None, attached: false };
                let ghost start = talk@;
                let mut fault: Option<CodecError> = None;
                for i in 0..v.len()
                    invariant
                        match fault {
                            None => start.items(v.views(), i as nat) == Ok::<TalkV, Seq<char>>(
                                talk@,
                            ),
                            Some(e) => start.items(v.views(), i as nat) == Err::<TalkV, Seq<char>>(
                                e@,
                            ),
                        },
                {
                    assert(v.views()[i as int] == v@[i as int]@);
                    if fault.is_none() {
                        fault = talk.item(&v[i]);
                    }
                }
                match fault {
                    Some(e) => Err(e),
                    None => {
                        talk.flush();
                        if talk.messages.len() == 0 {
                            Err(CodecError::new("no messages found in input"))
                        } else {
                            Ok(talk.messages)
                        }
                    },
                }
            },
            _ => Err(CodecError::new("'input' must be a string or array")),
        },
        None => Err(CodecError::new("missing 'input' field")),
    }
}

// ---------------------------------------------------------------- tools

/// Whether a type of tool is one that the provider runs itself.
pub open spec fn is_builtin(kind: Seq<char>) -> bool {
    kind == "web_search_preview"@ || kind == "file_search"@ || kind == "computer_use_preview"@
        || kind == "code_interpreter"@
}

/// The tool that an entry declares. One that the provider runs is kept as it is under a name that
/// says so; one of an unknown type is passed over.
pub open spec fn tool_of(item: JsonV) -> Result<Option<ToolDefV>, Seq<char>> {
    let kind = text_or(item, "type"@, "function"@);
    if kind == "function"@ {
        match item.get_str("name"@) {
            Some(name) => Ok(
                Some(
                    ToolDefV {
                        name,
                        description: item.get_str("description"@),
                        parameters: match item.get("parameters"@) {
                            Some(p) => p,
                            None => JsonV::obj(),
                        },
                    },
                ),
            ),
            None => Err("function tool missing 'name' field"@),
        }
    } else if is_builtin(kind) {
        Ok(
            Some(
                ToolDefV {
                    name: "__builtin__"@ + kind,
                    description: Some("built-in tool: "@ + kind),
                    parameters: item,
                },
            ),
        )
    } else {
        Ok(None)
    }
}

fn decode_tool(item: &Json) -> (r: Result<Option<ToolDef>, CodecError>)
    ensures
        match r {
            Ok(t) => tool_of(item@) == Ok::<Option<ToolDefV>, Seq<char>>(t.views()),
            Err(e) => tool_of(item@) == Err::<Option<ToolDefV>, Seq<char>>(e@),
        },
{
    let kind = text_or_other(item, "type", "function");
    let kind = kind.as_str();
    if *kind == *"function" {
        match item.get_str("name") {
            Some(name) => Ok(
                Some(
                    ToolDef {
                        name: name.to_string(),
                        description: crate::text::own_opt(item.get_str("description")),
                        parameters: match item.get_dup("parameters") {
                            Some(p) => p,
                            None => Json::object(),
                        },
                    },
                ),
            ),
            None => Err(CodecError::new("function tool missing 'name' field")),
        }
    } else if *kind == *"web_search_preview" || *kind == *"file_search" || *kind
        == *"computer_use_preview" || *kind == *"code_interpreter" {
        Ok(
            Some(
                ToolDef {
                    name: crate::text::cat("__builtin__", kind),
                    description: Some(crate::text::cat("built-in tool: ", kind)),
                    parameters: item.dup(),
                },
            ),
        )
    } else {
        Ok(None)
    }
}

/// The tools among the first `n` entries, or the first error among them.
pub open spec fn tools_upto(v: Seq<JsonV>, n: nat) -> Result<Seq<ToolDefV>, Seq<char>>
    decreases n,
{
    if n == 0 {
        Ok(Seq::empty())
    } else {
        match tools_upto(v, (n - 1) as nat) {
            Ok(before) => match tool_of(v[n - 1]) {
                Ok(Some(t)) => Ok(before.push(t)),
                Ok(None) => Ok(before),
                Err(e) => Err(e),
            },
            Err(e) => Err(e),
        }
    }
}

/// The tools of a request.
pub open spec fn tools_of(body: JsonV) -> Result<Option<Seq<ToolDefV>>, Seq<char>> {
    match body.get_array("tools"@) {
        Some(v) => match tools_upto(v, v.len()) {
            Ok(t) => Ok(crate::views::some_list(t)),
            Err(e) => Err(e),
        },
        None => Ok(None),
    }
}

/// Reads the tools of a request.
pub fn parse_tools(body: &Json) -> (r: Result<Option<Vec<ToolDef>>, CodecError>)
    ensures
        match r {
            Ok(t) => tools_of(body@) == Ok::<Option<Seq<ToolDefV>>, Seq<char>>(
                crate::views::opt_list(t),
            ),
            Err(e) => tools_of(body@) == Err::<Option<Seq<ToolDefV>>, Seq<char>>(e@),
        },
{
    let v = match body.get_array("tools") {
        Some(v) => v,
        None => {
            return Ok(None);
        },
    };
    let mut tools: Vec<ToolDef> = crate::views::none();
    let mut fault: Option<CodecError> = None;
    for i in 0..v.len()
        invariant
            match fault {
                None => tools_upto(v.views(), i as nat) == Ok::<Seq<ToolDefV>, Seq<char>>(
                    tools.views(),
                ),
                Some(e) => tools_upto(v.views(), i as nat) == Err::<Seq<ToolDefV>, Seq<char>>(e@),
            },
    {
        assert(v.views()[i as int] == v@[i as int]@);
        if fault.is_none() {
            match decode_tool(&v[i]) {
                Ok(Some(t)) => {
                    crate::views::push(&mut tools, t);
                },
                Ok(None) => {},
                Err(e) => {
                    fault = Some(e);
                },
            }
        }
    }
    match fault {
        Some(e) => Err(e),
        None => Ok(crate::views::non_empty(tools)),
    }
}

// ---------------------------------------------------------------- other fields

/// Whether a field is one that the protocol defines.
pub open spec fn is_known(k: Seq<char>) -> bool {
    k == "model"@ || k == "input"@ || k == "instructions"@ || k == "max_output_tokens"@ || k
        == "stream"@ || k == "temperature"@ || k == "top_p"@ || k == "tools"@ || k
        == "tool_choice"@ || k == "background"@ || k == "previous_response_id"@ || k == "store"@
        || k == "include"@ || k == "truncation"@ || k == "metadata"@ || k == "text"@ || k
        == "reasoning"@ || k == "parallel_tool_calls"@ || k == "service_tier"@ || k == "user"@
}

fn known(k: &str) -> (r: bool)
    ensures
        r == is_known(k@),
{
    *k == *"model" || *k == *"input" || *k == *"instructions" || *k == *"max_output_tokens" || *k
        == *"stream" || *k == *"temperature" || *k == *"top_p" || *k == *"tools" || *k
        == *"tool_choice" || *k == *"background" || *k == *"previous_response_id" || *k == *"store"
        || *k == *"include" || *k == *"truncation" || *k == *"metadata" || *k == *"text" || *k
        == *"reasoning" || *k == *"parallel_tool_calls" || *k == *"service_tier" || *k == *"user"
}

/// Those of the first `n` fields that the protocol does not define.
pub open spec fn unknown_upto(f: Seq<(Seq<char>, JsonV)>, n: nat) -> Seq<(Seq<char>, JsonV)>
    decreases n,
{
    if n == 0 {
        Seq::empty()
    } else {
        let before = unknown_upto(f, (n - 1) as nat);
        if is_known(f[n - 1].0) {
            before
        } else {
            crate::json::put_field(before, f[n - 1].0, f[n - 1].1)
        }
    }
}

pub open spec fn carried(
    f: Seq<(Seq<char>, JsonV)>,
    body: Seq<(Seq<char>, JsonV)>,
    k: Seq<char>,
) -> Seq<(Seq<char>, JsonV)> {
    crate::json::put_opt_absent(f, k, crate::json::get_field(body, k))
}

/// What is kept of the body besides: the fields that the protocol does not define, then those
/// that the representation has no place for.
pub open spec fn extra_of(body: Seq<(Seq<char>, JsonV)>) -> Seq<(Seq<char>, JsonV)> {
    let f = carried(unknown_upto(body, body.len()), body, "background"@);
    let f = carried(f, body, "previous_response_id"@);
    let f = carried(f, body, "store"@);
    let f = carried(f, body, "include"@);
    let f = carried(f, body, "truncation"@);
    let f = carried(f, body, "metadata"@);
    let f = carried(f, body, "text"@);
    let f = carried(f, body, "reasoning"@);
    let f = carried(f, body, "parallel_tool_calls"@);
    let f = carried(f, body, "service_tier"@);
    carried(f, body, "user"@)
}

fn carry(f: &mut Fields, body: &Fields, k: &str)
    ensures
        final(f)@ == carried(old(f)@, body@, k@),
{
    let v = match body.get(k) {
        Some(v) => Some(v.dup()),
        None => None,
    };
    f.insert_opt_absent(k, v);
}

fn build_extra(body: &Fields) -> (r: Fields)
    ensures
        r@ == extra_of(body@),
{
    let n: usize = body.len();
    let mut f = Fields::new();
    let mut i: usize = 0;
    while i < n
        invariant
            n == body@.len(),
            i <= n,
            f@ == unknown_upto(body@, i as nat),
        decreases n - i,
    {
        if !known(body.key_at(i)) {
            f.insert(body.key_at(i), body.value_at(i).dup());
        }
        i = i + 1;
    }
    carry(&mut f, body, "background");
    carry(&mut f, body, "previous_response_id");
    carry(&mut f, body, "store");
    carry(&mut f, body, "include");
    carry(&mut f, body, "truncation");
    carry(&mut f, body, "metadata");
    carry(&mut f, body, "text");
    carry(&mut f, body, "reasoning");
    carry(&mut f, body, "parallel_tool_calls");
    carry(&mut f, body, "service_tier");
    carry(&mut f, body, "user");
    f
}

// ---------------------------------------------------------------- the request

/// The request that a body stands for.
pub open spec fn request_of(body: JsonV) -> Result<InternalRequestV, Seq<char>> {
    match body {
        JsonV::Object(f) => match body.get_str("model"@) {
            Some(model) => match tools_of(body) {
                Ok(tools) => match messages_of(body) {
                    Ok(messages) => Ok(
                        InternalRequestV {
                            messages,
                            model,
                            stream: body.get_bool("stream"@) == Some(true),
                            temperature: body.get_float("temperature"@),
                            max_tokens: body.opt_count("max_output_tokens"@),
                            top_p: body.get_float("top_p"@),
                            tools,
                            tool_choice: body.get("tool_choice"@),
                            source_protocol: EndpointV::openai_responses_v1(),
                            extra: extra_of(f),
                        },
                    ),
                    Err(e) => Err(e),
                },
                Err(e) => Err(e),
            },
            None => Err("missing 'model' field"@),
        },
        _ => Err("request body must be a JSON object"@),
    }
}

/// Reads requests of the protocol.
#[derive(Debug, Clone, Copy)]
pub struct ResponsesDecoder;

impl IngressDecoder for ResponsesDecoder {
    fn decode_request(&self, body: Json) -> (r: Result<InternalRequest, CodecError>)
        ensures
            r.views() == request_of(body@),
    {
        broadcast use crate::json::lemma_object_view;

        let fields = match &body {
            Json::Object(f) => f,
            _ => {
                return Err(CodecError::new("request body must be a JSON object"));
            },
        };
        let model = match body.get_str("model") {
            Some(m) => m.to_string(),
            None => {
                return Err(CodecError::new("missing 'model' field"));
            },
        };
        let tools = match parse_tools(&body) {
            Ok(t) => t,
            Err(e) => {
                return Err(e);
            },
        };
        let messages = match decode_messages(&body) {
            Ok(m) => m,
            Err(e) => {
                return Err(e);
            },
        };
        Ok(
            InternalRequest {
                messages,
                model,
                stream: match body.get_bool("stream") {
                    Some(b) => b,
                    None => false,
                },
                temperature: body.get_float("temperature"),
                max_tokens: body.opt_count("max_output_tokens"),
                top_p: body.get_float("top_p"),
                tools,
                tool_choice: body.get_dup("tool_choice"),
                source_protocol: crate::protocol::ids::openai_responses_v1(),
                extra: build_extra(fields),
            },
        )
    }
}

} // verus!
