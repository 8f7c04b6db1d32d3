//! Writes streams of the Responses protocol.
//!
//! Thinking and calls are items of their own beside the message, and all of them are written once
//! more, complete, at the end.
use vstd::prelude::*;

use crate::json::{Json, JsonV};
use crate::protocol::codec::openai_responses::formatter::{
    call_json, message_json, part_json, reasoning_json,
};
use crate::protocol::ir::stream::{DeltaV, StreamDelta};
use crate::protocol::ir::usage::Usage;
use crate::protocol::traits::StreamResponseEncoder;
use crate::protocol::{emit, emit_plain, SseEvent, SseV};
use crate::slots::Slots;
use crate::views::Views;

verus! {

/// A call whose arguments are still coming.
pub struct PendingV {
    pub output_index: usize,
    pub item_id: Seq<char>,
    pub call_id: Seq<char>,
    pub name: Seq<char>,
    pub arguments: Seq<char>,
}

#[derive(Debug)]
struct PendingFunctionCall {
    output_index: usize,
    item_id: String,
    call_id: String,
    name: String,
    arguments: String,
}

impl View for PendingFunctionCall {
    type V = PendingV;

    closed spec fn view(&self) -> PendingV {
        PendingV {
            output_index: self.output_index,
            item_id: self.item_id@,
            call_id: self.call_id@,
            name: self.name@,
            arguments: self.arguments@,
        }
    }
}

/// The state of a formatter.
pub struct FormatterV {
    pub resp_id: Seq<char>,
    pub msg_id: Seq<char>,
    pub model: Seq<char>,
    pub text: Seq<char>,
    pub reasoning: Seq<char>,
    pub usage: Usage,
    pub started: bool,
    pub completed: bool,
    pub next_index: usize,
    /// The identifier and the place of the thinking.
    pub thinking: Option<(Seq<char>, usize)>,
    /// For every index of a call, its place among the calls.
    pub places: Seq<(usize, usize)>,
    pub calls: Seq<PendingV>,
}

/// An event with its type.
pub open spec fn typed_event(kind: Seq<char>, body: JsonV) -> SseV {
    SseV::typed(kind, crate::json::text_of(body))
}

pub open spec fn headed(kind: Seq<char>) -> JsonV {
    JsonV::obj().with("type"@, JsonV::Text(kind))
}

fn head(kind: &str) -> (r: Json)
    ensures
        r@ == headed(kind@),
{
    Json::object().with("type", Json::text(kind))
}

/// An event about an item of the output.
pub open spec fn item_event(kind: Seq<char>, index: usize, item: JsonV) -> SseV {
    typed_event(
        kind,
        headed(kind).with("output_index"@, JsonV::num(index as u64)).with("item"@, item),
    )
}

fn emit_item(events: &mut Vec<SseEvent>, kind: &str, index: usize, item: Json)
    ensures
        final(events).views() == old(events).views().push(item_event(kind@, index, item@)),
{
    let body = head(kind).with("output_index", Json::num(index as u64)).with("item", item);
    emit(events, kind, body.to_text());
}

/// An event about the text of the message.
pub open spec fn text_event(kind: Seq<char>, id: Seq<char>, k: Seq<char>, v: JsonV) -> SseV {
    typed_event(
        kind,
        headed(kind).with("item_id"@, JsonV::Text(id)).with("output_index"@, JsonV::num(0)).with(
            "content_index"@,
            JsonV::num(0),
        ).with(k, v),
    )
}

fn emit_text(events: &mut Vec<SseEvent>, kind: &str, id: &str, k: &str, v: Json)
    ensures
        final(events).views() == old(events).views().push(text_event(kind@, id@, k@, v@)),
{
    let body = head(kind).with("item_id", Json::text(id)).with("output_index", Json::num(0)).with(
        "content_index",
        Json::num(0),
    ).with(k, v);
    emit(events, kind, body.to_text());
}

/// What the response is while it goes on.
pub open spec fn open_response(id: Seq<char>) -> JsonV {
    JsonV::obj().with("id"@, JsonV::Text(id)).with("object"@, JsonV::Text("response"@)).with(
        "status"@,
        JsonV::Text("in_progress"@),
    )
}

fn open_json(id: &str) -> (r: Json)
    ensures
        r@ == open_response(id@),
{
    Json::object().with("id", Json::text(id)).with("object", Json::text("response")).with(
        "status",
        Json::text("in_progress"),
    )
}

/// What has been written: the state and the events.
pub struct WrittenV {
    pub state: FormatterV,
    pub events: Seq<SseV>,
}

/// The item of a call, complete.
pub open spec fn done_call(c: PendingV) -> JsonV {
    crate::protocol::codec::openai_responses::formatter::call_value(
        c.item_id,
        c.call_id,
        c.name,
        c.arguments,
        "completed"@,
    )
}

impl FormatterV {
    /// The thinking, complete.
    pub open spec fn done_thinking(self) -> Seq<JsonV> {
        match self.thinking {
            Some((id, _)) => seq![
                crate::protocol::codec::openai_responses::formatter::reasoning_value(
                    id,
                    self.reasoning,
                ),
            ],
            None => Seq::empty(),
        }
    }

    /// The message, complete.
    pub open spec fn done_message(self) -> JsonV {
        crate::protocol::codec::openai_responses::formatter::message_value(self.msg_id, self.text)
    }

    /// The output of the first `n` calls behind the thinking.
    pub open spec fn output_upto(self, n: nat) -> Seq<JsonV>
        decreases n,
    {
        if n == 0 {
            self.done_thinking()
        } else {
            self.output_upto((n - 1) as nat).push(done_call(self.calls[n - 1]))
        }
    }

    /// The whole response.
    pub open spec fn done_response(self) -> JsonV {
        JsonV::obj().with("id"@, JsonV::Text(self.resp_id)).with(
            "object"@,
            JsonV::Text("response"@),
        ).with("status"@, JsonV::Text("completed"@)).with("model"@, JsonV::Text(self.model)).with(
            "output"@,
            JsonV::Array(self.output_upto(self.calls.len()).push(self.done_message())),
        ).with("output_text"@, JsonV::Text(self.text)).with(
            "usage"@,
            JsonV::obj().with("input_tokens"@, JsonV::num(self.usage.prompt_tokens as u64)).with(
                "output_tokens"@,
                JsonV::num(self.usage.completion_tokens as u64),
            ).with("total_tokens"@, JsonV::num(self.usage.sum())),
        )
    }

    /// Nothing written yet, under given identifiers.
    pub open spec fn fresh(resp: Seq<char>, msg: Seq<char>) -> FormatterV {
        FormatterV {
            resp_id: "resp_"@ + resp,
            msg_id: "msg_"@ + msg,
            model: Seq::empty(),
            text: Seq::empty(),
            reasoning: Seq::empty(),
            usage: Usage::zero(),
            started: false,
            completed: false,
            next_index: 1,
            thinking: None,
            places: Seq::empty(),
            calls: Seq::empty(),
        }
    }
}

/// Token counts with newer ones put in; what is not given stays.
pub open spec fn merged(u: Usage, new: Usage) -> Usage {
    Usage {
        prompt_tokens: if new.prompt_tokens > 0 {
            new.prompt_tokens
        } else {
            u.prompt_tokens
        },
        completion_tokens: if new.completion_tokens > 0 {
            new.completion_tokens
        } else {
            u.completion_tokens
        },
        cache_read_tokens: if new.cache_read_tokens is Some {
            new.cache_read_tokens
        } else {
            u.cache_read_tokens
        },
        cache_creation_tokens: if new.cache_creation_tokens is Some {
            new.cache_creation_tokens
        } else {
            u.cache_creation_tokens
        },
        server_tool_use: if new.server_tool_use is Some {
            new.server_tool_use
        } else {
            u.server_tool_use
        },
        ..u
    }
}

impl WrittenV {
    pub open spec fn emit(self, e: SseV) -> WrittenV {
        WrittenV { events: self.events.push(e), ..self }
    }

    /// The beginning written, once.
    pub open spec fn started(self) -> WrittenV {
        if self.state.started {
            self
        } else {
            let s = FormatterV { started: true, ..self.state };
            let model = if s.model.len() == 0 {
                "unknown"@
            } else {
                s.model
            };
            WrittenV { state: s, ..self }.emit(
                typed_event(
                    "response.created"@,
                    headed("response.created"@).with(
                        "response"@,
                        open_response(s.resp_id).with("model"@, JsonV::Text(model)).with(
                            "output"@,
                            JsonV::Array(Seq::empty()),
                        ).with("output_text"@, JsonV::Text(""@)),
                    ),
                ),
            ).emit(
                typed_event(
                    "response.in_progress"@,
                    headed("response.in_progress"@).with("response"@, open_response(s.resp_id)),
                ),
            ).emit(
                item_event(
                    "response.output_item.added"@,
                    0,
                    headed("message"@).with("id"@, JsonV::Text(s.msg_id)).with(
                        "status"@,
                        JsonV::Text("in_progress"@),
                    ).with("role"@, JsonV::Text("assistant"@)).with(
                        "content"@,
                        JsonV::Array(Seq::empty()),
                    ),
                ),
            ).emit(
                text_event(
                    "response.content_part.added"@,
                    s.msg_id,
                    "part"@,
                    crate::protocol::codec::openai_responses::formatter::part_value(""@),
                ),
            )
        }
    }

    /// An item for the thinking, once. `fresh` names it.
    pub open spec fn thinking_begun(self, fresh: Seq<char>) -> WrittenV {
        if self.state.thinking is Some {
            self
        } else {
            let id = "rs_"@ + fresh;
            let index = self.state.next_index;
            WrittenV {
                state: FormatterV {
                    thinking: Some((id, index)),
                    next_index: crate::protocol::succ(index),
                    ..self.state
                },
                ..self
            }.emit(
                item_event(
                    "response.output_item.added"@,
                    index,
                    headed("reasoning"@).with("id"@, JsonV::Text(id)).with(
                        "summary"@,
                        JsonV::Array(Seq::empty()),
                    ),
                ),
            )
        }
    }

    /// More thinking.
    pub open spec fn thought(self, t: Seq<char>) -> WrittenV {
        let (id, index) = self.state.thinking->0;
        let kind = "response.reasoning_summary_text.delta"@;
        WrittenV {
            state: FormatterV { reasoning: self.state.reasoning + t, ..self.state },
            ..self
        }.emit(
            typed_event(
                kind,
                headed(kind).with("item_id"@, JsonV::Text(id)).with(
                    "output_index"@,
                    JsonV::num(index as u64),
                ).with("summary_index"@, JsonV::num(0)).with("delta"@, JsonV::Text(t)),
            ),
        )
    }

    /// More text.
    pub open spec fn said(self, t: Seq<char>) -> WrittenV {
        WrittenV { state: FormatterV { text: self.state.text + t, ..self.state }, ..self }.emit(
            text_event(
                "response.output_text.delta"@,
                self.state.msg_id,
                "delta"@,
                JsonV::Text(t),
            ),
        )
    }

    /// A call begins. `item` names its item, `call` the call itself where it has no name.
    pub open spec fn call_begun(
        self,
        index: usize,
        id: Seq<char>,
        name: Seq<char>,
        item: Seq<char>,
        call: Seq<char>,
    ) -> WrittenV {
        let at = self.state.next_index;
        let item_id = "fc_"@ + item;
        let call_id = if id.len() == 0 {
            "call_"@ + call
        } else {
            id
        };
        WrittenV {
            state: FormatterV {
                next_index: crate::protocol::succ(at),
                places: crate::slots::slot_put(
                    self.state.places,
                    index,
                    self.state.calls.len() as usize,
                ),
                calls: self.state.calls.push(
                    PendingV { output_index: at, item_id, call_id, name, arguments: Seq::empty() },
                ),
                ..self.state
            },
            ..self
        }.emit(
            item_event(
                "response.output_item.added"@,
                at,
                crate::protocol::codec::openai_responses::formatter::call_value(
                    item_id,
                    call_id,
                    name,
                    ""@,
                    "in_progress"@,
                ),
            ),
        )
    }

    /// More of a call's arguments; those of an unknown call are dropped.
    pub open spec fn call_more(self, index: usize, t: Seq<char>) -> WrittenV {
        match crate::slots::slot_get(self.state.places, index) {
            Some(p) => if p < self.state.calls.len() {
                let c = self.state.calls[p as int];
                let kind = "response.function_call_arguments.delta"@;
                WrittenV {
                    state: FormatterV {
                        calls: self.state.calls.update(
                            p as int,
                            PendingV { arguments: c.arguments + t, ..c },
                        ),
                        ..self.state
                    },
                    ..self
                }.emit(
                    typed_event(
                        kind,
                        headed(kind).with("item_id"@, JsonV::Text(c.item_id)).with(
                            "output_index"@,
                            JsonV::num(c.output_index as u64),
                        ).with("delta"@, JsonV::Text(t)),
                    ),
                )
            } else {
                self
            },
            None => self,
        }
    }

    /// The first `n` calls, complete.
    pub open spec fn calls_done(self, n: nat) -> WrittenV
        decreases n,
    {
        if n == 0 {
            self
        } else {
            let c = self.state.calls[n - 1];
            self.calls_done((n - 1) as nat).emit(
                item_event("response.output_item.done"@, c.output_index, done_call(c)),
            )
        }
    }

    /// Everything written once more, complete.
    pub open spec fn finished(self) -> WrittenV {
        let s = self.state;
        let w = match s.thinking {
            Some((id, index)) => self.emit(
                item_event(
                    "response.output_item.done"@,
                    index,
                    crate::protocol::codec::openai_responses::formatter::reasoning_value(
                        id,
                        s.reasoning,
                    ),
                ),
            ),
            None => self,
        };
        w.calls_done(s.calls.len()).emit(
            text_event("response.output_text.done"@, s.msg_id, "text"@, JsonV::Text(s.text)),
        ).emit(
            text_event(
                "response.content_part.done"@,
                s.msg_id,
                "part"@,
                crate::protocol::codec::openai_responses::formatter::part_value(s.text),
            ),
        ).emit(item_event("response.output_item.done"@, 0, s.done_message())).emit(
            typed_event(
                "response.completed"@,
                headed("response.completed"@).with("response"@, s.done_response()),
            ),
        )
    }

    /// The end, once.
    pub open spec fn completed(self) -> WrittenV {
        if self.state.completed {
            self
        } else {
            WrittenV {
                state: FormatterV { completed: true, ..self.state },
                ..self
            }.finished()
        }
    }

    /// One delta more. `item` and `call` name what has no name.
    pub open spec fn step(self, d: DeltaV, item: Seq<char>, call: Seq<char>) -> WrittenV {
        match d {
            DeltaV::MessageStart { id, model } => WrittenV {
                state: FormatterV {
                    resp_id: if id.len() == 0 {
                        self.state.resp_id
                    } else {
                        id
                    },
                    model,
                    ..self.state
                },
                ..self
            }.started(),
            DeltaV::ThinkingDelta(t) => self.started().thinking_begun(item).thought(t),
            DeltaV::TextDelta(t) => self.started().said(t),
            DeltaV::ToolCallStart { index, id, name } => self.started().call_begun(
                index,
                id,
                name,
                item,
                call,
            ),
            DeltaV::ToolCallDelta { index, arguments } => self.call_more(index, arguments),
            DeltaV::Usage(u) => WrittenV {
                state: FormatterV { usage: merged(self.state.usage, u), ..self.state },
                ..self
            },
            DeltaV::Done { .. } => self.completed(),
            _ => self,
        }
    }

    /// The first `n` deltas.
    pub open spec fn steps(
        self,
        deltas: Seq<DeltaV>,
        items: Seq<Seq<char>>,
        calls: Seq<Seq<char>>,
        n: nat,
    ) -> WrittenV
        decreases n,
    {
        if n == 0 {
            self
        } else {
            self.steps(deltas, items, calls, (n - 1) as nat).step(
                deltas[n - 1],
                items[n - 1],
                calls[n - 1],
            )
        }
    }
}

/// A state and events as one value.
pub open spec fn written(state: FormatterV, events: Seq<SseV>) -> WrittenV {
    WrittenV { state, events }
}

/// Writes a stream of the protocol.
#[derive(Debug)]
pub struct ResponsesStreamFormatter {
    resp_id: String,
    msg_id: String,
    model: String,
    accumulated_text: String,
    accumulated_reasoning: String,
    usage: Usage,
    started: bool,
    completed: bool,
    next_output_index: usize,
    thinking: Option<(String, usize)>,
    places: Slots<usize>,
    tool_calls: Vec<PendingFunctionCall>,
}

impl View for ResponsesStreamFormatter {
    type V = FormatterV;

    closed spec fn view(&self) -> FormatterV {
        FormatterV {
            resp_id: self.resp_id@,
            msg_id: self.msg_id@,
            model: self.model@,
            text: self.accumulated_text@,
            reasoning: self.accumulated_reasoning@,
            usage: self.usage,
            started: self.started,
            completed: self.completed,
            next_index: self.next_output_index,
            thinking: match self.thinking {
                Some((id, index)) => Some((id@, index)),
                None => None,
            },
            places: self.places@,
            calls: self.tool_calls.views(),
        }
    }
}

impl Default for ResponsesStreamFormatter {
    fn default() -> (r: Self)
        ensures
            exists|a: Seq<char>, b: Seq<char>|
                #![auto]
                crate::fresh::is_uuid_text(a) && crate::fresh::is_uuid_text(b) && r@
                    == FormatterV::fresh(a, b),
    {
        Self::new()
    }
}

impl ResponsesStreamFormatter {
    /// A formatter at the beginning of a stream, under given identifiers.
    pub fn with_ids(resp: &str, msg: &str) -> (r: Self)
        ensures
            r@ == FormatterV::fresh(resp@, msg@),
    {
        let r = ResponsesStreamFormatter {
            resp_id: crate::text::cat("resp_", resp),
            msg_id: crate::text::cat("msg_", msg),
            model: String::new(),
            accumulated_text: String::new(),
            accumulated_reasoning: String::new(),
            usage: Usage::default(),
            started: false,
            completed: false,
            next_output_index: 1,
            thinking: None,
            places: Slots::new(),
            tool_calls: crate::views::none(),
        };
        assert(r@.model =~= Seq::<char>::empty());
        assert(r@.text =~= Seq::<char>::empty());
        assert(r@.reasoning =~= Seq::<char>::empty());
        r
    }

    /// A formatter at the beginning of a stream, under fresh identifiers.
    pub fn new() -> (r: Self)
        ensures
            exists|a: Seq<char>, b: Seq<char>|
                #![auto]
                crate::fresh::is_uuid_text(a) && crate::fresh::is_uuid_text(b) && r@
                    == FormatterV::fresh(a, b),
    {
        let a = crate::fresh::uuid_text();
        let b = crate::fresh::uuid_text();
        Self::with_ids(a.as_str(), b.as_str())
    }

    fn ensure_started(&mut self, events: &mut Vec<SseEvent>)
        ensures
            written(final(self)@, final(events).views()) == written(
                old(self)@,
                old(events).views(),
            ).started(),
    {
        if self.started {
            return;
        }
        self.started = true;
        let model = if self.model.as_str().is_empty() {
            "unknown"
        } else {
            self.model.as_str()
        };
        let created = open_json(self.resp_id.as_str()).with("model", Json::text(model)).with(
            "output",
            Json::array(crate::views::none()),
        ).with("output_text", Json::text(""));
        emit(
            events,
            "response.created",
            head("response.created").with("response", created).to_text(),
        );
        emit(
            events,
            "response.in_progress",
            head("response.in_progress").with(
                "response",
                open_json(self.resp_id.as_str()),
            ).to_text(),
        );
        let item = head("message").with("id", Json::text(self.msg_id.as_str())).with(
            "status",
            Json::text("in_progress"),
        ).with("role", Json::text("assistant")).with("content", Json::array(crate::views::none()));
        emit_item(events, "response.output_item.added", 0, item);
        emit_text(
            events,
            "response.content_part.added",
            self.msg_id.as_str(),
            "part",
            part_json(""),
        );
    }

    fn begin_thinking(&mut self, fresh: &str, events: &mut Vec<SseEvent>)
        ensures
            written(final(self)@, final(events).views()) == written(
                old(self)@,
                old(events).views(),
            ).thinking_begun(fresh@),
            final(self)@.thinking is Some,
    {
        if self.thinking.is_some() {
            return;
        }
        let id = crate::text::cat("rs_", fresh);
        let index: usize = self.next_output_index;
        self.next_output_index = crate::protocol::next_index(index);
        let item = head("reasoning").with("id", Json::text(id.as_str())).with(
            "summary",
            Json::array(crate::views::none()),
        );
        emit_item(events, "response.output_item.added", index, item);
        self.thinking = Some((id, index));
    }

    fn think(&mut self, t: &str, events: &mut Vec<SseEvent>)
        requires
            old(self)@.thinking is Some,
        ensures
            written(final(self)@, final(events).views()) == written(
                old(self)@,
                old(events).views(),
            ).thought(t@),
    {
        self.accumulated_reasoning.append(t);
        if let Some((id, index)) = &self.thinking {
            let kind = "response.reasoning_summary_text.delta";
            let body = head(kind).with("item_id", Json::text(id.as_str())).with(
                "output_index",
                Json::num(*index as u64),
            ).with("summary_index", Json::num(0)).with("delta", Json::text(t));
            emit(events, kind, body.to_text());
        }
    }

    fn begin_call(
        &mut self,
        index: usize,
        id: &str,
        name: &str,
        item: &str,
        call: &str,
        events: &mut Vec<SseEvent>,
    )
        ensures
            written(final(self)@, final(events).views()) == written(
                old(self)@,
                old(events).views(),
            ).call_begun(index, id@, name@, item@, call@),
    {
        let at: usize = self.next_output_index;
        self.next_output_index = crate::protocol::next_index(at);
        let item_id = crate::text::cat("fc_", item);
        let call_id = if id.is_empty() {
            crate::text::cat("call_", call)
        } else {
            id.to_string()
        };
        self.places.insert(index, self.tool_calls.len());
        let added = call_json(item_id.as_str(), call_id.as_str(), name, "", "in_progress");
        let pending = PendingFunctionCall {
            output_index: at,
            item_id,
            call_id,
            name: name.to_string(),
            arguments: String::new(),
        };
        assert(pending@.arguments =~= Seq::<char>::empty());
        crate::views::push(&mut self.tool_calls, pending);
        emit_item(events, "response.output_item.added", at, added);
    }

    fn more_call(&mut self, index: usize, t: &str, events: &mut Vec<SseEvent>)
        ensures
            written(final(self)@, final(events).views()) == written(
                old(self)@,
                old(events).views(),
            ).call_more(index, t@),
    {
        let place = match self.places.get(index) {
            Some(p) => *p,
            None => {
                return;
            },
        };
        if place < self.tool_calls.len() {
            let ghost before = self@;
            assert(self.tool_calls.views()[place as int] == self.tool_calls@[place as int]@);
            let c = &self.tool_calls[place];
            let kind = "response.function_call_arguments.delta";
            let body = head(kind).with("item_id", Json::text(c.item_id.as_str())).with(
                "output_index",
                Json::num(c.output_index as u64),
            ).with("delta", Json::text(t));
            let grown = PendingFunctionCall {
                output_index: c.output_index,
                item_id: c.item_id.clone(),
                call_id: c.call_id.clone(),
                name: c.name.clone(),
                arguments: crate::text::cat(c.arguments.as_str(), t),
            };
            self.tool_calls.set(place, grown);
            assert(self.tool_calls.views() =~= before.calls.update(
                place as int,
                PendingV {
                    arguments: before.calls[place as int].arguments + t@,
                    ..before.calls[place as int]
                },
            ));
            emit(events, kind, body.to_text());
        }
    }

    fn calls_out(&self) -> (r: Vec<Json>)
        ensures
            r.views() == self@.output_upto(self@.calls.len()),
    {
        let mut output: Vec<Json> = crate::views::none();
        if let Some((id, _)) = &self.thinking {
            crate::views::push(
                &mut output,
                reasoning_json(id.as_str(), self.accumulated_reasoning.as_str()),
            );
        }
        assert(output.views() =~= self@.done_thinking());
        for i in 0..self.tool_calls.len()
            invariant
                output.views() == self@.output_upto(i as nat),
        {
            assert(self.tool_calls.views()[i as int] == self.tool_calls@[i as int]@);
            let c = &self.tool_calls[i];
            crate::views::push(
                &mut output,
                call_json(
                    c.item_id.as_str(),
                    c.call_id.as_str(),
                    c.name.as_str(),
                    c.arguments.as_str(),
                    "completed",
                ),
            );
        }
        output
    }

    fn emit_completed(&mut self, events: &mut Vec<SseEvent>)
        ensures
            written(final(self)@, final(events).views()) == written(
                old(self)@,
                old(events).views(),
            ).finished(),
    {
        if let Some((id, index)) = &self.thinking {
            emit_item(
                events,
                "response.output_item.done",
                *index,
                reasoning_json(id.as_str(), self.accumulated_reasoning.as_str()),
            );
        }
        let ghost mid = written(self@, events.views());
        for i in 0..self.tool_calls.len()
            invariant
                self@ == old(self)@,
                mid.state == self@,
                written(self@, events.views()) == mid.calls_done(i as nat),
        {
            assert(self.tool_calls.views()[i as int] == self.tool_calls@[i as int]@);
            let c = &self.tool_calls[i];
            emit_item(
                events,
                "response.output_item.done",
                c.output_index,
                call_json(
                    c.item_id.as_str(),
                    c.call_id.as_str(),
                    c.name.as_str(),
                    c.arguments.as_str(),
                    "completed",
                ),
            );
        }
        let text = self.accumulated_text.as_str();
        let msg_id = self.msg_id.as_str();
        emit_text(events, "response.output_text.done", msg_id, "text", Json::text(text));
        emit_text(events, "response.content_part.done", msg_id, "part", part_json(text));
        emit_item(events, "response.output_item.done", 0, message_json(msg_id, text));
        let mut output = self.calls_out();
        crate::views::push(&mut output, message_json(msg_id, text));
        let usage = Json::object().with(
            "input_tokens",
            Json::num(self.usage.prompt_tokens as u64),
        ).with("output_tokens", Json::num(self.usage.completion_tokens as u64)).with(
            "total_tokens",
            Json::num(self.usage.total()),
        );
        let response = Json::object().with("id", Json::text(self.resp_id.as_str())).with(
            "object",
            Json::text("response"),
        ).with("status", Json::text("completed")).with(
            "model",
            Json::text(self.model.as_str()),
        ).with("output", Json::array(output)).with("output_text", Json::text(text)).with(
            "usage",
            usage,
        );
        emit(
            events,
            "response.completed",
            head("response.completed").with("response", response).to_text(),
        );
    }

    fn complete(&mut self, events: &mut Vec<SseEvent>)
        ensures
            written(final(self)@, final(events).views()) == written(
                old(self)@,
                old(events).views(),
            ).completed(),
    {
        if !self.completed {
            self.completed = true;
            self.emit_completed(events);
        }
    }

    fn step(&mut self, d: &StreamDelta, item: &str, call: &str, events: &mut Vec<SseEvent>)
        ensures
            written(final(self)@, final(events).views()) == written(
                old(self)@,
                old(events).views(),
            ).step(d@, item@, call@),
    {
        match d {
            StreamDelta::MessageStart { id, model } => {
                if !id.as_str().is_empty() {
                    self.resp_id = id.clone();
                }
                self.model = model.clone();
                self.ensure_started(events);
            },
            StreamDelta::ThinkingDelta(t) => {
                self.ensure_started(events);
                self.begin_thinking(item, events);
                self.think(t.as_str(), events);
            },
            StreamDelta::TextDelta(t) => {
                self.ensure_started(events);
                self.accumulated_text.append(t.as_str());
                emit_text(
                    events,
                    "response.output_text.delta",
                    self.msg_id.as_str(),
                    "delta",
                    Json::text(t.as_str()),
                );
            },
            StreamDelta::ToolCallStart { index, id, name } => {
                self.ensure_started(events);
                self.begin_call(*index, id.as_str(), name.as_str(), item, call, events);
            },
            StreamDelta::ToolCallDelta { index, arguments } => {
                self.more_call(*index, arguments.as_str(), events);
            },
            StreamDelta::Usage(u) => {
                if u.prompt_tokens > 0 {
                    self.usage.prompt_tokens = u.prompt_tokens;
                }
                if u.completion_tokens > 0 {
                    self.usage.completion_tokens = u.completion_tokens;
                }
                if u.cache_read_tokens.is_some() {
                    self.usage.cache_read_tokens = u.cache_read_tokens;
                }
                if u.cache_creation_tokens.is_some() {
                    self.usage.cache_creation_tokens = u.cache_creation_tokens;
                }
                if u.server_tool_use.is_some() {
                    self.usage.server_tool_use = u.server_tool_use;
                }
            },
            StreamDelta::Done { .. } => {
                self.complete(events);
            },
            _ => {},
        }
    }

    /// Writes deltas; the identifiers at a delta's place are taken where it needs some.
    pub fn format_with_ids(
        &mut self,
        deltas: &Vec<StreamDelta>,
        items: &Vec<String>,
        calls: &Vec<String>,
    ) -> (r: Vec<SseEvent>)
        requires
            items@.len() == deltas@.len(),
            calls@.len() == deltas@.len(),
        ensures
            written(final(self)@, r.views()) == written(old(self)@, Seq::empty()).steps(
                deltas.views(),
                items.views(),
                calls.views(),
                deltas@.len(),
            ),
    {
        let mut events: Vec<SseEvent> = crate::views::none();
        for i in 0..deltas.len()
            invariant
                items@.len() == deltas@.len(),
                calls@.len() == deltas@.len(),
                written(self@, events.views()) == written(old(self)@, Seq::empty()).steps(
                    deltas.views(),
                    items.views(),
                    calls.views(),
                    i as nat,
                ),
        {
            assert(deltas.views()[i as int] == deltas@[i as int]@);
            assert(items.views()[i as int] == items@[i as int]@);
            assert(calls.views()[i as int] == calls@[i as int]@);
            self.step(&deltas[i], items[i].as_str(), calls[i].as_str(), &mut events);
        }
        events
    }
}

/// Whether two lists hold identifiers for so many deltas.
pub open spec fn named(items: Seq<Seq<char>>, calls: Seq<Seq<char>>, n: nat) -> bool {
    items.len() == n && calls.len() == n && crate::fresh::all_uuid_texts(items)
        && crate::fresh::all_uuid_texts(calls)
}

impl StreamResponseEncoder for ResponsesStreamFormatter {
    fn format_deltas(&mut self, deltas: &Vec<StreamDelta>) -> (r: Vec<SseEvent>)
        ensures
            exists|items: Seq<Seq<char>>, calls: Seq<Seq<char>>| #[trigger]
                named(items, calls, deltas@.len()) && written(final(self)@, r.views()) == written(
                    old(self)@,
                    Seq::empty(),
                ).steps(deltas.views(), items, calls, deltas@.len()),
    {
        let items = crate::fresh::uuid_texts(deltas.len());
        let calls = crate::fresh::uuid_texts(deltas.len());
        assert(named(items.views(), calls.views(), deltas@.len()));
        self.format_with_ids(deltas, &items, &calls)
    }

    /// Writes the end where it has not been written, and the mark behind it.
    fn format_done(&mut self) -> (r: Vec<SseEvent>)
        ensures
            written(final(self)@, r.views()) == written(
                old(self)@,
                Seq::empty(),
            ).completed().emit(SseV::plain("[DONE]"@)),
    {
        let mut events: Vec<SseEvent> = crate::views::none();
        self.complete(&mut events);
        emit_plain(&mut events, "[DONE]".to_string());
        events
    }

    fn usage(&self) -> (r: Usage)
        ensures
            r == self@.usage,
    {
        self.usage
    }
}

} // verus!
