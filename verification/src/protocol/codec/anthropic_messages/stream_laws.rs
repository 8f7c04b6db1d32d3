//! What is written to a stream is read again.
use vstd::prelude::*;

use crate::json::JsonV;
use crate::protocol::codec::anthropic_messages::stream::{FormatterV, WrittenV};
use crate::protocol::types::{StreamDeltaV, TokenUsage};
use crate::protocol::SseV;

verus! {

/// The words of the protocol differ.
proof fn lemma_words()
    ensures
        "id"@.len() == 2,
        "name"@.len() == 4,
        "name"@[1] == 'a',
        "ping"@.len() == 4,
        "ping"@[1] == 'i',
        "role"@.len() == 4,
        "role"@[1] == 'o',
        "stop"@.len() == 4,
        "stop"@[1] == 't',
        "text"@.len() == 4,
        "text"@[1] == 'e',
        "type"@.len() == 4,
        "type"@[1] == 'y',
        "delta"@.len() == 5,
        "delta"@[4] == 'a',
        "index"@.len() == 5,
        "index"@[4] == 'x',
        "input"@.len() == 5,
        "input"@[4] == 't',
        "model"@.len() == 5,
        "model"@[4] == 'l',
        "usage"@.len() == 5,
        "usage"@[4] == 'e',
        "content"@.len() == 7,
        "content"@[0] == 'c',
        "message"@.len() == 7,
        "message"@[0] == 'm',
        "end_turn"@.len() == 8,
        "end_turn"@[1] == 'n',
        "thinking"@.len() == 8,
        "thinking"@[1] == 'h',
        "tool_use"@.len() == 8,
        "tool_use"@[1] == 'o',
        "assistant"@.len() == 9,
        "assistant"@[0] == 'a',
        "signature"@.len() == 9,
        "signature"@[0] == 's',
        "text_delta"@.len() == 10,
        "text_delta"@[1] == 'e',
        "tool_calls"@.len() == 10,
        "tool_calls"@[1] == 'o',
        "stop_reason"@.len() == 11,
        "input_tokens"@.len() == 12,
        "input_tokens"@[0] == 'i',
        "partial_json"@.len() == 12,
        "partial_json"@[0] == 'p',
        "content_block"@.len() == 13,
        "content_block"@[8] == 'b',
        "message_delta"@.len() == 13,
        "message_delta"@[8] == 'd',
        "message_start"@.len() == 13,
        "message_start"@[8] == 's',
        "output_tokens"@.len() == 13,
        "output_tokens"@[8] == 'o',
        "thinking_delta"@.len() == 14,
        "server_tool_use"@.len() == 15,
        "server_tool_use"@[1] == 'e',
        "signature_delta"@.len() == 15,
        "signature_delta"@[1] == 'i',
        "input_json_delta"@.len() == 16,
        "web_fetch_requests"@.len() == 18,
        "content_block_delta"@.len() == 19,
        "content_block_delta"@[14] == 'd',
        "content_block_start"@.len() == 19,
        "content_block_start"@[14] == 's',
        "web_search_requests"@.len() == 19,
        "web_search_requests"@[14] == 'u',
        "cache_read_input_tokens"@.len() == 23,
        "cache_creation_input_tokens"@.len() == 27,
{
    reveal_strlit("id");
    reveal_strlit("name");
    reveal_strlit("ping");
    reveal_strlit("role");
    reveal_strlit("stop");
    reveal_strlit("text");
    reveal_strlit("type");
    reveal_strlit("delta");
    reveal_strlit("index");
    reveal_strlit("input");
    reveal_strlit("model");
    reveal_strlit("usage");
    reveal_strlit("content");
    reveal_strlit("message");
    reveal_strlit("end_turn");
    reveal_strlit("thinking");
    reveal_strlit("tool_use");
    reveal_strlit("assistant");
    reveal_strlit("signature");
    reveal_strlit("text_delta");
    reveal_strlit("tool_calls");
    reveal_strlit("stop_reason");
    reveal_strlit("input_tokens");
    reveal_strlit("partial_json");
    reveal_strlit("content_block");
    reveal_strlit("message_delta");
    reveal_strlit("message_start");
    reveal_strlit("output_tokens");
    reveal_strlit("thinking_delta");
    reveal_strlit("server_tool_use");
    reveal_strlit("signature_delta");
    reveal_strlit("input_json_delta");
    reveal_strlit("web_fetch_requests");
    reveal_strlit("content_block_delta");
    reveal_strlit("content_block_start");
    reveal_strlit("web_search_requests");
    reveal_strlit("cache_read_input_tokens");
    reveal_strlit("cache_creation_input_tokens");
}

/// Whether an event is read as deltas.
pub open spec fn reads_as(e: SseV, deltas: Seq<StreamDeltaV>) -> bool {
    exists|kind: Seq<char>, data: JsonV|
        e == #[trigger] crate::protocol::codec::anthropic_messages::stream::json_event(kind, data)
            && crate::protocol::codec::anthropic_messages::stream::event_deltas(Some(kind), data)
            == deltas
}

proof fn lemma_reads_as(kind: Seq<char>, data: JsonV, deltas: Seq<StreamDeltaV>)
    requires
        crate::protocol::codec::anthropic_messages::stream::event_deltas(Some(kind), data)
            =~= deltas,
    ensures
        reads_as(
            crate::protocol::codec::anthropic_messages::stream::json_event(kind, data),
            deltas,
        ),
{
    let e = crate::protocol::codec::anthropic_messages::stream::json_event(kind, data);
    assert(e == crate::protocol::codec::anthropic_messages::stream::json_event(kind, data));
}

/// Text, thinking, its signature, the beginning of a call and the pieces of its arguments are
/// written so that the last event is read as just that delta; a call and its pieces stand under the
/// index of the block that is open. Blank text outside of a block of text is not written.
pub proof fn lemma_delta_read(w: WrittenV, d: StreamDeltaV, fresh: Seq<char>)
    ensures
        ({
            let v = w.step(d, fresh);
            let e = v.events.last();
            match d {
                StreamDeltaV::TextDelta(t) => if w.state.in_text_block || crate::text::trim_of(
                    t,
                ).len() > 0 {
                    v.events.len() > w.events.len() && reads_as(e, seq![d])
                } else {
                    v == w
                },
                StreamDeltaV::ReasoningDelta(t) => t.len() > 0 ==> v.events.len() > w.events.len()
                    && reads_as(e, seq![d]),
                StreamDeltaV::ReasoningSignature(t) => t.len() > 0 ==> v.events.len()
                    > w.events.len() && reads_as(e, seq![d]),
                StreamDeltaV::ToolCallStart { id, name, .. } => v.events.len() > w.events.len()
                    && reads_as(
                    e,
                    seq![
                        StreamDeltaV::ToolCallStart {
                            index: v.state.block_index,
                            id: if crate::text::trim_of(id).len() > 0 {
                                id
                            } else {
                                "toolu_"@ + fresh
                            },
                            name,
                        },
                    ],
                ),
                StreamDeltaV::ToolCallDelta { arguments, .. } => v.events == w.events.push(e)
                    && reads_as(
                    e,
                    seq![
                        StreamDeltaV::ToolCallDelta { index: w.state.block_index, arguments },
                    ],
                ) && v.state == w.state,
                _ => true,
            }
        }),
{
    broadcast use crate::json::lemma_with_get;

    lemma_words();
    let v = w.step(d, fresh);
    let i = v.state.block_index;
    match d {
        StreamDeltaV::TextDelta(t) => {
            let delta = crate::protocol::codec::anthropic_messages::stream::delta_of(
                "text_delta"@,
                "text"@,
                t,
            );
            assert(delta.get_str("type"@) == Some("text_delta"@) && delta.get_str("text"@) == Some(
                t,
            ));
            lemma_reads_as(
                "content_block_delta"@,
                crate::protocol::codec::anthropic_messages::stream::block_event(
                    "content_block_delta"@,
                    i,
                    "delta"@,
                    delta,
                ),
                seq![d],
            );
        },
        StreamDeltaV::ReasoningDelta(t) => {
            let delta = crate::protocol::codec::anthropic_messages::stream::delta_of(
                "thinking_delta"@,
                "thinking"@,
                t,
            );
            if t.len() > 0 {
                assert(delta.get_str("type"@) == Some("thinking_delta"@) && delta.filled(
                    "thinking"@,
                ) == Some(t));
                lemma_reads_as(
                    "content_block_delta"@,
                    crate::protocol::codec::anthropic_messages::stream::block_event(
                        "content_block_delta"@,
                        i,
                        "delta"@,
                        delta,
                    ),
                    seq![d],
                );
            }
        },
        StreamDeltaV::ReasoningSignature(t) => {
            let delta = crate::protocol::codec::anthropic_messages::stream::delta_of(
                "signature_delta"@,
                "signature"@,
                t,
            );
            if t.len() > 0 {
                assert(delta.get_str("type"@) == Some("signature_delta"@) && delta.filled(
                    "signature"@,
                ) == Some(t));
                lemma_reads_as(
                    "content_block_delta"@,
                    crate::protocol::codec::anthropic_messages::stream::block_event(
                        "content_block_delta"@,
                        i,
                        "delta"@,
                        delta,
                    ),
                    seq![d],
                );
            }
        },
        StreamDeltaV::ToolCallStart { index, id, name } => {
            let own = if crate::text::trim_of(id).len() == 0 {
                "toolu_"@ + fresh
            } else {
                id
            };
            let block = crate::protocol::codec::anthropic_messages::stream::tool_use_block(
                own,
                name,
                JsonV::obj(),
            );
            assert(block.get_str("type"@) == Some("tool_use"@));
            assert(block.get_str("id"@) == Some(own) && block.get_str("name"@) == Some(name));
            let data = crate::protocol::codec::anthropic_messages::stream::block_event(
                "content_block_start"@,
                i,
                "content_block"@,
                block,
            );
            assert(data.get("content_block"@) == Some(block));
            assert(data.get_u64("index"@) == Some(i as u64));
            lemma_reads_as(
                "content_block_start"@,
                data,
                seq![StreamDeltaV::ToolCallStart { index: i, id: own, name }],
            );
        },
        StreamDeltaV::ToolCallDelta { index, arguments } => {
            let delta = crate::protocol::codec::anthropic_messages::stream::delta_of(
                "input_json_delta"@,
                "partial_json"@,
                arguments,
            );
            assert(delta.get_str("type"@) == Some("input_json_delta"@) && delta.get_str(
                "partial_json"@,
            ) == Some(arguments));
            let data = crate::protocol::codec::anthropic_messages::stream::block_event(
                "content_block_delta"@,
                i,
                "delta"@,
                delta,
            );
            assert(data.get_u64("index"@) == Some(i as u64));
            lemma_reads_as(
                "content_block_delta"@,
                data,
                seq![StreamDeltaV::ToolCallDelta { index: i, arguments }],
            );
        },
        _ => {},
    }
}

proof fn lemma_usage_read(obj: JsonV, u: TokenUsage, v: JsonV)
    requires
        obj is Object,
        obj.get("cache_read_input_tokens"@) is None,
        obj.get("cache_creation_input_tokens"@) is None,
        obj.get("server_tool_use"@) is None,
        v.get("usage"@) == Some(
            crate::protocol::codec::anthropic_messages::stream::usage_extended(obj, u),
        ),
    ensures
        crate::protocol::codec::anthropic_messages::stream::usage_of(v) == (TokenUsage {
            input_tokens: obj.count("input_tokens"@),
            output_tokens: obj.count("output_tokens"@),
            ..u
        }),
{
    broadcast use crate::json::lemma_with_get;

    lemma_words();
    let j = crate::protocol::codec::anthropic_messages::stream::usage_extended(obj, u);
    assert(j.opt_count("cache_read_input_tokens"@) == u.cache_read_input_tokens);
    assert(j.opt_count("cache_creation_input_tokens"@) == u.cache_creation_input_tokens);
    assert(j.get("input_tokens"@) == obj.get("input_tokens"@));
    assert(j.get("output_tokens"@) == obj.get("output_tokens"@));
    if let Some(s) = u.server_tool_use {
        let t = j.get("server_tool_use"@)->0;
        assert(t.get_u64("web_search_requests"@) == Some(s.web_search_requests as u64));
        assert(t.get_u64("web_fetch_requests"@) == Some(s.web_fetch_requests as u64));
    } else {
        assert(j.get("server_tool_use"@) is None);
    }
}

/// The beginning of a message is read with its identifier and its model, behind the counts of what
/// was read before it.
pub proof fn lemma_start_read(w: WrittenV, id: Seq<char>, model: Seq<char>, fresh: Seq<char>)
    requires
        !w.state.message_started,
    ensures
        ({
            let v = w.step(StreamDeltaV::MessageStart { id, model }, fresh);
            let u = TokenUsage { output_tokens: 0, ..w.state.usage };
            &&& v.events.len() == w.events.len() + 2
            &&& v.events.take(w.events.len() as int) == w.events
            &&& reads_as(
                v.events[w.events.len() as int],
                if u == TokenUsage::zero() {
                    seq![StreamDeltaV::MessageStart { id, model }]
                } else {
                    seq![StreamDeltaV::Usage(u), StreamDeltaV::MessageStart { id, model }]
                },
            )
        }),
{
    broadcast use crate::json::lemma_with_get;

    lemma_words();
    let s = FormatterV { id, model, ..w.state };
    let v = w.step(StreamDeltaV::MessageStart { id, model }, fresh);
    assert(v.events.take(w.events.len() as int) =~= w.events);
    let data = crate::protocol::codec::anthropic_messages::stream::message_start_json(s);
    let msg = data.get("message"@)->0;
    assert(msg.get_str("id"@) == Some(id) && msg.get_str("model"@) == Some(model));
    let obj = JsonV::obj().with("input_tokens"@, JsonV::num(s.usage.input_tokens as u64)).with(
        "output_tokens"@,
        JsonV::num(0),
    );
    assert(obj.count("input_tokens"@) == s.usage.input_tokens);
    assert(obj.count("output_tokens"@) == 0);
    lemma_usage_read(obj, s.usage, msg);
    let u = TokenUsage { output_tokens: 0, ..w.state.usage };
    assert(crate::protocol::codec::anthropic_messages::stream::usage_of(msg) == u);
    let deltas = if u == TokenUsage::zero() {
        seq![StreamDeltaV::MessageStart { id, model }]
    } else {
        seq![StreamDeltaV::Usage(u), StreamDeltaV::MessageStart { id, model }]
    };
    lemma_reads_as("message_start"@, data, deltas);
}

/// The end of a message is read with its reason, behind the token counts.
pub proof fn lemma_end_read(w: WrittenV, stop_reason: Seq<char>, fresh: Seq<char>)
    requires
        stop_reason != "end_turn"@,
        stop_reason != "tool_use"@,
    ensures
        ({
            let v = w.step(StreamDeltaV::Done { stop_reason }, fresh);
            let u = TokenUsage { input_tokens: 0, ..w.state.usage };
            &&& v.events.len() >= w.events.len() + 2
            &&& reads_as(
                v.events[v.events.len() - 2],
                if u == TokenUsage::zero() {
                    seq![StreamDeltaV::Done { stop_reason }]
                } else {
                    seq![StreamDeltaV::Usage(u), StreamDeltaV::Done { stop_reason }]
                },
            )
        }),
{
    broadcast use crate::json::lemma_with_get;

    lemma_words();
    let v = w.step(StreamDeltaV::Done { stop_reason }, fresh);
    let s = w.state.usage;
    let obj = JsonV::obj().with("output_tokens"@, JsonV::num(s.output_tokens as u64));
    let data = JsonV::obj().with("type"@, JsonV::Text("message_delta"@)).with(
        "delta"@,
        JsonV::obj().with(
            "stop_reason"@,
            JsonV::Text(
                crate::protocol::codec::anthropic_messages::stream::stop_out(stop_reason),
            ),
        ),
    ).with(
        "usage"@,
        crate::protocol::codec::anthropic_messages::stream::usage_extended(obj, s),
    );
    assert(v.events[v.events.len() - 2]
        == crate::protocol::codec::anthropic_messages::stream::json_event(
        "message_delta"@,
        data,
    ));
    assert(obj.count("output_tokens"@) == s.output_tokens);
    assert(obj.count("input_tokens"@) == 0);
    lemma_usage_read(obj, s, data);
    let u = TokenUsage { input_tokens: 0, ..w.state.usage };
    assert(data.get2("delta"@, "stop_reason"@) == Some(
        JsonV::Text(crate::protocol::codec::anthropic_messages::stream::stop_out(stop_reason)),
    ));
    let deltas = if u == TokenUsage::zero() {
        seq![StreamDeltaV::Done { stop_reason }]
    } else {
        seq![StreamDeltaV::Usage(u), StreamDeltaV::Done { stop_reason }]
    };
    lemma_reads_as("message_delta"@, data, deltas);
}

/// The count of read tokens that the first `n` deltas give last.
pub open spec fn input_of(deltas: Seq<StreamDeltaV>, n: nat) -> u32
    decreases n,
{
    if n == 0 {
        0
    } else {
        match deltas[n - 1] {
            StreamDeltaV::Usage(u) => if u.input_tokens > 0 {
                u.input_tokens
            } else {
                input_of(deltas, (n - 1) as nat)
            },
            _ => input_of(deltas, (n - 1) as nat),
        }
    }
}

/// The count of written tokens that the first `n` deltas give last.
pub open spec fn output_of(deltas: Seq<StreamDeltaV>, n: nat) -> u32
    decreases n,
{
    if n == 0 {
        0
    } else {
        match deltas[n - 1] {
            StreamDeltaV::Usage(u) => if u.output_tokens > 0 {
                u.output_tokens
            } else {
                output_of(deltas, (n - 1) as nat)
            },
            _ => output_of(deltas, (n - 1) as nat),
        }
    }
}

/// A formatter knows the token counts that the deltas gave last.
pub proof fn lemma_counts_gathered(
    id: Seq<char>,
    deltas: Seq<StreamDeltaV>,
    fresh: Seq<Seq<char>>,
    n: nat,
)
    requires
        n <= deltas.len(),
    ensures
        ({
            let s = crate::protocol::codec::anthropic_messages::stream::written(
                FormatterV::fresh(id),
                Seq::empty(),
            ).steps(deltas, fresh, n).state;
            s.usage.input_tokens == input_of(deltas, n) && s.usage.output_tokens == output_of(
                deltas,
                n,
            )
        }),
    decreases n,
{
    if n > 0 {
        lemma_counts_gathered(id, deltas, fresh, (n - 1) as nat);
    }
}

} // verus!
