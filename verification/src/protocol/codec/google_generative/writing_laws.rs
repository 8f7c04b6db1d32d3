//! What is written is read again: whole responses, and the chunks of a stream.
use vstd::prelude::*;

use crate::json::JsonV;
use crate::protocol::codec::google_generative::stream::{FormatterV, OpenCallV, ReadV, WrittenV};
use crate::protocol::ir::response::AiResponseV;
use crate::protocol::ir::stream::DeltaV;
use crate::protocol::ir::usage::Usage;
use crate::protocol::types::ToolCallV;
use crate::protocol::SseV;

verus! {

/// The words of the protocol differ.
proof fn lemma_words()
    ensures
        "STOP"@.len() == 4,
        "STOP"@[0] == 'S',
        "args"@.len() == 4,
        "args"@[0] == 'a',
        "name"@.len() == 4,
        "name"@[0] == 'n',
        "role"@.len() == 4,
        "role"@[0] == 'r',
        "stop"@.len() == 4,
        "stop"@[0] == 's',
        "text"@.len() == 4,
        "text"@[0] == 't',
        "model"@.len() == 5,
        "model"@[0] == 'm',
        "parts"@.len() == 5,
        "parts"@[0] == 'p',
        "usage"@.len() == 5,
        "usage"@[0] == 'u',
        "length"@.len() == 6,
        "content"@.len() == 7,
        "MAX_TOKENS"@.len() == 10,
        "MAX_TOKENS"@[0] == 'M',
        "candidates"@.len() == 10,
        "candidates"@[0] == 'c',
        "responseId"@.len() == 10,
        "responseId"@[0] == 'r',
        "tool_calls"@.len() == 10,
        "tool_calls"@[0] == 't',
        "finishReason"@.len() == 12,
        "finishReason"@[3] == 'i',
        "functionCall"@.len() == 12,
        "functionCall"@[3] == 'c',
        "input_tokens"@.len() == 12,
        "input_tokens"@[3] == 'u',
        "modelVersion"@.len() == 12,
        "modelVersion"@[3] == 'e',
        "total_tokens"@.len() == 12,
        "total_tokens"@[3] == 'a',
        "prompt_tokens"@.len() == 13,
        "prompt_tokens"@[0] == 'p',
        "usageMetadata"@.len() == 13,
        "usageMetadata"@[0] == 'u',
        "usage_metadata"@.len() == 14,
        "inputTokenCount"@.len() == 15,
        "inputTokenCount"@[0] == 'i',
        "totalTokenCount"@.len() == 15,
        "totalTokenCount"@[0] == 't',
        "promptTokenCount"@.len() == 16,
        "candidatesTokenCount"@.len() == 20,
{
    reveal_strlit("STOP");
    reveal_strlit("args");
    reveal_strlit("name");
    reveal_strlit("role");
    reveal_strlit("stop");
    reveal_strlit("text");
    reveal_strlit("model");
    reveal_strlit("parts");
    reveal_strlit("usage");
    reveal_strlit("length");
    reveal_strlit("content");
    reveal_strlit("MAX_TOKENS");
    reveal_strlit("candidates");
    reveal_strlit("responseId");
    reveal_strlit("tool_calls");
    reveal_strlit("finishReason");
    reveal_strlit("functionCall");
    reveal_strlit("input_tokens");
    reveal_strlit("modelVersion");
    reveal_strlit("total_tokens");
    reveal_strlit("prompt_tokens");
    reveal_strlit("usageMetadata");
    reveal_strlit("usage_metadata");
    reveal_strlit("inputTokenCount");
    reveal_strlit("totalTokenCount");
    reveal_strlit("promptTokenCount");
    reveal_strlit("candidatesTokenCount");
}

// ---------------------------------------------------------------- whole responses

proof fn lemma_plain_call(name: Seq<char>, arguments: Seq<char>)
    ensures
        ({
            let p = crate::protocol::codec::google_generative::stream::call_part(name, arguments);
            &&& p.get_str("text"@) is None
            &&& p.get("functionCall"@) is Some
            &&& (p.get("functionCall"@)->0).get_str("name"@) == Some(name)
            &&& (p.get("functionCall"@)->0).get("args"@) == Some(JsonV::read_or_object(arguments))
        }),
{
    broadcast use crate::json::lemma_with_get;

    lemma_words();
}

/// A call as it is read back: under a fresh identifier, its arguments written anew.
pub open spec fn read_back(c: ToolCallV, fresh: Seq<char>) -> ToolCallV {
    ToolCallV {
        id: "call_"@ + fresh,
        name: c.name,
        arguments: crate::json::text_of(JsonV::read_or_object(c.arguments)),
    }
}

proof fn lemma_parts_read(resp: AiResponseV, fresh: Seq<Seq<char>>, n: nat)
    requires
        n <= resp.tool_calls.len(),
    ensures
        ({
            let v = crate::protocol::codec::google_generative::stream::plain_parts(resp, n);
            let head: int = if resp.content.len() > 0 {
                1
            } else {
                0
            };
            let r = ReadV::of(v, fresh, v.len());
            &&& v.len() == head + n
            &&& r.text == resp.content
            &&& r.calls == Seq::new(n, |i: int| read_back(resp.tool_calls[i], fresh[head + i]))
        }),
    decreases n,
{
    broadcast use crate::json::lemma_with_get;

    lemma_words();
    let v = crate::protocol::codec::google_generative::stream::plain_parts(resp, n);
    let head: int = if resp.content.len() > 0 {
        1
    } else {
        0
    };
    if n == 0 {
        reveal_with_fuel(ReadV::of, 2);
        let p = crate::protocol::codec::google_generative::stream::single(
            "text"@,
            JsonV::Text(resp.content),
        );
        assert(p.get_str("text"@) == Some(resp.content));
        assert(Seq::<char>::empty() + resp.content =~= resp.content);
        if resp.content.len() == 0 {
            assert(resp.content =~= Seq::<char>::empty());
        }
        assert(ReadV::of(v, fresh, v.len()).calls =~= Seq::new(
            0,
            |i: int| read_back(resp.tool_calls[i], fresh[head + i]),
        ));
    } else {
        let m = (n - 1) as nat;
        lemma_parts_read(resp, fresh, m);
        let w = crate::protocol::codec::google_generative::stream::plain_parts(resp, m);
        lemma_of_prefix(v, w, fresh, w.len());
        let c = resp.tool_calls[n - 1];
        lemma_plain_call(c.name, c.arguments);
        assert(ReadV::of(v, fresh, v.len()).calls =~= Seq::new(
            n,
            |i: int| read_back(resp.tool_calls[i], fresh[head + i]),
        ));
    }
}

proof fn lemma_of_prefix(a: Seq<JsonV>, b: Seq<JsonV>, fresh: Seq<Seq<char>>, n: nat)
    requires
        n <= a.len(),
        n <= b.len(),
        forall|i: int| 0 <= i < n ==> a[i] == b[i],
    ensures
        ReadV::of(a, fresh, n) == ReadV::of(b, fresh, n),
    decreases n,
{
    if n > 0 {
        lemma_of_prefix(a, b, fresh, (n - 1) as nat);
    }
}

proof fn lemma_counts_read(u: Usage, v: JsonV)
    requires
        v.get("usageMetadata"@) == Some(
            crate::protocol::codec::google_generative::stream::counts_json(u),
        ),
    ensures
        crate::protocol::codec::google_generative::stream::usage_of(v).prompt_tokens
            == u.prompt_tokens,
        crate::protocol::codec::google_generative::stream::usage_of(v).completion_tokens
            == u.completion_tokens,
{
    broadcast use crate::json::lemma_with_get;

    lemma_words();
    let j = crate::protocol::codec::google_generative::stream::counts_json(u);
    assert(j.get_u64("promptTokenCount"@) == Some(u.prompt_tokens as u64));
    assert(j.get_u64("candidatesTokenCount"@) == Some(u.completion_tokens as u64));
    assert(j.get_u64("totalTokenCount"@) == Some(u.sum()));
}

/// A response without items and without a foreign origin that is written and read again says the
/// same: its text, its calls in order with names and arguments, why it ended, and its token counts.
pub proof fn lemma_written_and_read(resp: AiResponseV, fresh: Seq<Seq<char>>, own: Seq<char>)
    requires
        resp.items is None,
        crate::protocol::codec::google_generative::stream::carried_metadata(resp) is None,
    ensures
        ({
            let out = crate::protocol::codec::google_generative::stream::response_json(resp);
            let back = crate::protocol::codec::google_generative::stream::response_of(
                out,
                fresh,
                own,
            );
            let head: int = if resp.content.len() > 0 {
                1
            } else {
                0
            };
            &&& back.content == resp.content
            &&& back.model == resp.model
            &&& back.tool_calls == Seq::new(
                resp.tool_calls.len(),
                |i: int| read_back(resp.tool_calls[i], fresh[head + i]),
            )
            &&& resp.stop_reason == Some("stop"@) || resp.stop_reason == Some("length"@)
                ==> back.stop_reason == resp.stop_reason
            &&& resp.stop_reason == Some("tool_calls"@) ==> back.stop_reason == Some("stop"@)
            &&& resp.stop_reason is None ==> back.stop_reason is None
            &&& back.usage.prompt_tokens == resp.usage.prompt_tokens
            &&& back.usage.completion_tokens == resp.usage.completion_tokens
        }),
{
    broadcast use crate::json::lemma_with_get;

    lemma_words();
    let out = crate::protocol::codec::google_generative::stream::response_json(resp);
    let parts = crate::protocol::codec::google_generative::stream::response_parts(resp);
    let bare = crate::protocol::codec::google_generative::stream::bare_json(resp);
    assert(out.get("candidates"@) == bare.get("candidates"@));
    assert(out.get("usageMetadata"@) == bare.get("usageMetadata"@));
    let list = (bare.get("candidates"@)->0)->Array_0;
    let candidate = list[0];
    assert(crate::protocol::codec::google_generative::stream::candidate_of(out) == Some(candidate));
    let content = candidate.get("content"@)->0;
    assert(content.get("parts"@) == Some(JsonV::Array(parts)));
    assert(crate::protocol::codec::google_generative::stream::parts_of(out) == parts);
    lemma_parts_read(resp, fresh, resp.tool_calls.len());
    lemma_counts_read(resp.usage, out);
}

// ---------------------------------------------------------------- chunks

/// An event with a chunk.
pub open spec fn chunk_event(chunk: JsonV) -> SseV {
    SseV { event: None, data: crate::json::text_of(chunk) }
}

/// Text is written as one chunk, which is read as that text first of all; thinking too is written
/// as text.
pub proof fn lemma_text_read(
    w: WrittenV,
    t: Seq<char>,
    own: Seq<char>,
    fresh: Seq<Seq<char>>,
)
    requires
        t.len() > 0,
    ensures
        exists|chunk: JsonV|
            {
                &&& w.step(DeltaV::TextDelta(t)).events == w.events.push(
                    #[trigger] chunk_event(chunk),
                )
                &&& w.step(DeltaV::ThinkingDelta(t)).events == w.events.push(chunk_event(chunk))
                &&& chunk.get_str("modelVersion"@) == Some(w.state.model)
                &&& ({
                    let d = crate::protocol::codec::google_generative::stream::chunk_deltas(
                        chunk,
                        false,
                        own,
                        fresh,
                    );
                    &&& d.len() > 0
                    &&& d[0] == DeltaV::TextDelta(t)
                    &&& forall|i: int| 0 < i < d.len() ==> #[trigger] d[i] is Unknown
                })
            },
{
    broadcast use crate::json::lemma_with_get;

    lemma_words();
    reveal_with_fuel(crate::protocol::codec::google_generative::stream::parts_deltas, 2);
    let part = crate::protocol::codec::google_generative::stream::single("text"@, JsonV::Text(t));
    let chunk = crate::protocol::codec::google_generative::stream::part_chunk(part).with(
        "modelVersion"@,
        JsonV::Text(w.state.model),
    );
    assert(w.step(DeltaV::TextDelta(t)).events == w.events.push(chunk_event(chunk)));
    lemma_chunk_parts(chunk, part);
    assert(part.get_str("text"@) == Some(t));
    assert(crate::protocol::codec::google_generative::stream::plain_text(part));
    let parts = crate::protocol::codec::google_generative::stream::parts_of(chunk);
    let p = crate::protocol::codec::google_generative::stream::parts_deltas(parts, fresh, 1);
    assert(p =~= seq![DeltaV::TextDelta(t)]);
    assert(chunk.get("usageMetadata"@) is None && chunk.get("usage_metadata"@) is None
        && chunk.get("usage"@) is None);
}

proof fn lemma_chunk_parts(chunk: JsonV, part: JsonV)
    requires
        chunk.get("candidates"@)
            == crate::protocol::codec::google_generative::stream::part_chunk(part).get(
            "candidates"@,
        ),
    ensures
        crate::protocol::codec::google_generative::stream::parts_of(chunk) == seq![part],
        crate::protocol::codec::google_generative::stream::reason_of(chunk) is None,
{
    broadcast use crate::json::lemma_with_get;

    lemma_words();
    let c = crate::protocol::codec::google_generative::stream::candidate_json(seq![part]);
    let list = seq![c];
    assert(list[0] == c && list.len() == 1);
    assert(chunk.get("candidates"@) == Some(JsonV::Array(list)));
    let content = c.get("content"@)->0;
    assert(content.get("parts"@) == Some(JsonV::Array(seq![part])));
}

/// What a formatter holds of the calls in the first `n` deltas: under each index the call that was
/// begun there last, by its name, with all its arguments, one piece behind the other.
pub proof fn lemma_calls_gathered(deltas: Seq<DeltaV>, n: nat, index: usize)
    requires
        n <= deltas.len(),
    ensures
        ({
            let s = crate::protocol::codec::google_generative::stream::written(
                FormatterV::fresh(),
                Seq::empty(),
            ).steps(deltas, n).state;
            match crate::protocol::codec::openai_responses::call_laws::opener(deltas, index, n) {
                Some(at) => crate::slots::slot_get(s.calls, index) == Some(
                    OpenCallV {
                        name: deltas[at]->ToolCallStart_name,
                        arguments:
                            crate::protocol::codec::openai_responses::call_laws::arguments_of(
                            deltas,
                            at,
                            n,
                        ),
                    },
                ),
                None => crate::slots::slot_get(s.calls, index) is None,
            }
        }),
    decreases n,
{
    if n > 0 {
        let m = (n - 1) as nat;
        lemma_calls_gathered(deltas, m, index);
        lemma_opener(deltas, index, m);
        let w = crate::protocol::codec::google_generative::stream::written(
            FormatterV::fresh(),
            Seq::empty(),
        ).steps(deltas, m);
        match deltas[m as int] {
            DeltaV::ToolCallStart { index: i, name, .. } => {
                crate::slots::lemma_slot_put_get(
                    w.state.calls,
                    i,
                    OpenCallV { name, arguments: Seq::empty() },
                    index,
                );
            },
            DeltaV::ToolCallDelta { index: i, arguments } => {
                lemma_calls_gathered(deltas, m, i);
                lemma_opener(deltas, i, m);
                if let Some(c) = crate::slots::slot_get(w.state.calls, i) {
                    crate::slots::lemma_slot_put_get(
                        w.state.calls,
                        i,
                        OpenCallV { arguments: c.arguments + arguments, ..c },
                        index,
                    );
                }
            },
            _ => {},
        }
    }
}

proof fn lemma_opener(deltas: Seq<DeltaV>, index: usize, n: nat)
    requires
        n <= deltas.len(),
    ensures
        crate::protocol::codec::openai_responses::call_laws::opener(deltas, index, n) matches Some(
            at,
        ) ==> 0 <= at < n && deltas[at] is ToolCallStart && deltas[at]->ToolCallStart_index
            == index,
    decreases n,
{
    if n > 0 {
        lemma_opener(deltas, index, (n - 1) as nat);
    }
}

/// A call is written as soon as its arguments are whole: by its name, with the arguments that came,
/// under the names that the client's tools take.
pub proof fn lemma_call_written(
    deltas: Seq<DeltaV>,
    index: usize,
    piece: Seq<char>,
    at: int,
    args: JsonV,
)
    requires
        crate::protocol::codec::openai_responses::call_laws::opener(deltas, index, deltas.len())
            == Some(at),
        crate::json::json_read(
            crate::protocol::codec::openai_responses::call_laws::arguments_of(
                deltas,
                at,
                deltas.len(),
            ) + piece,
        ) == Some(args),
    ensures
        ({
            let w = crate::protocol::codec::google_generative::stream::written(
                FormatterV::fresh(),
                Seq::empty(),
            ).steps(deltas, deltas.len());
            exists|chunk: JsonV|
                {
                    &&& w.step(DeltaV::ToolCallDelta { index, arguments: piece }).events
                        == w.events.push(#[trigger] chunk_event(chunk))
                    &&& ({
                        let parts = crate::protocol::codec::google_generative::stream::parts_of(
                            chunk,
                        );
                        &&& parts.len() == 1
                        &&& parts[0].get2("functionCall"@, "name"@) == Some(
                            JsonV::Text(deltas[at]->ToolCallStart_name),
                        )
                        &&& parts[0].get2("functionCall"@, "args"@) == Some(
                            crate::protocol::codec::google_generative::stream::tool_args(
                                deltas[at]->ToolCallStart_name,
                                args,
                            ),
                        )
                    })
                }
        }),
{
    broadcast use crate::json::lemma_with_get;

    lemma_words();
    lemma_calls_gathered(deltas, deltas.len(), index);
    let w = crate::protocol::codec::google_generative::stream::written(
        FormatterV::fresh(),
        Seq::empty(),
    ).steps(deltas, deltas.len());
    let name = deltas[at]->ToolCallStart_name;
    let call = crate::protocol::codec::google_generative::stream::single(
        "name"@,
        JsonV::Text(name),
    ).with(
        "args"@,
        crate::protocol::codec::google_generative::stream::tool_args(name, args),
    );
    let part = crate::protocol::codec::google_generative::stream::single("functionCall"@, call);
    let chunk = crate::protocol::codec::google_generative::stream::part_chunk(part);
    assert(w.step(DeltaV::ToolCallDelta { index, arguments: piece }).events == w.events.push(
        chunk_event(chunk),
    ));
    lemma_chunk_parts(chunk, part);
    assert(part.get("functionCall"@) == Some(call));
    assert(call.get("name"@) == Some(JsonV::Text(name)));
}

proof fn lemma_counts(deltas: Seq<DeltaV>, n: nat)
    requires
        n <= deltas.len(),
    ensures
        ({
            let s = crate::protocol::codec::google_generative::stream::written(
                FormatterV::fresh(),
                Seq::empty(),
            ).steps(deltas, n).state;
            &&& s.usage.prompt_tokens
                == crate::protocol::codec::openai_responses::call_laws::prompt_of(deltas, n)
            &&& s.usage.completion_tokens
                == crate::protocol::codec::openai_responses::call_laws::completion_of(deltas, n)
            &&& (forall|i: int| 0 <= i < n ==> !(#[trigger] deltas[i] is Unknown))
                ==> s.metadata.len() == 0
        }),
    decreases n,
{
    if n > 0 {
        lemma_counts(deltas, (n - 1) as nat);
        let w = crate::protocol::codec::google_generative::stream::written(
            FormatterV::fresh(),
            Seq::empty(),
        ).steps(deltas, (n - 1) as nat);
    }
}

/// The end of a stream without foreign parts is written as one chunk, which is read as its reason,
/// behind the token counts that came last.
pub proof fn lemma_end_read(
    deltas: Seq<DeltaV>,
    stop_reason: Seq<char>,
    own: Seq<char>,
    fresh: Seq<Seq<char>>,
)
    requires
        forall|i: int| 0 <= i < deltas.len() ==> !(#[trigger] deltas[i] is Unknown),
        stop_reason != "STOP"@,
        stop_reason != "MAX_TOKENS"@,
    ensures
        ({
            let w = crate::protocol::codec::google_generative::stream::written(
                FormatterV::fresh(),
                Seq::empty(),
            ).steps(deltas, deltas.len());
            let p = crate::protocol::codec::openai_responses::call_laws::prompt_of(
                deltas,
                deltas.len(),
            );
            let c = crate::protocol::codec::openai_responses::call_laws::completion_of(
                deltas,
                deltas.len(),
            );
            exists|chunk: JsonV|
                {
                    &&& w.step(DeltaV::Done { stop_reason }).events == w.events.push(
                        #[trigger] chunk_event(chunk),
                    )
                    &&& ({
                        let d = crate::protocol::codec::google_generative::stream::chunk_deltas(
                            chunk,
                            false,
                            own,
                            fresh,
                        );
                        &&& d.len() > 0
                        &&& d.last() == (DeltaV::Done { stop_reason })
                        &&& p > 0 || c > 0 ==> (d[0] matches DeltaV::Usage(u) && u.prompt_tokens
                            == p && u.completion_tokens == c)
                    })
                }
        }),
{
    broadcast use crate::json::lemma_with_get;

    lemma_words();
    lemma_counts(deltas, deltas.len());
    let w = crate::protocol::codec::google_generative::stream::written(
        FormatterV::fresh(),
        Seq::empty(),
    ).steps(deltas, deltas.len());
    let s = w.state;
    assert(s.metadata =~= Seq::empty());
    let chunk = crate::protocol::codec::google_generative::stream::end_chunk(s, stop_reason);
    assert(w.step(DeltaV::Done { stop_reason }).events == w.events.push(chunk_event(chunk)));
    let j = crate::protocol::codec::google_generative::stream::counts_json(s.usage);
    lemma_counts_absent(s.usage);
    assert(chunk.get("usageMetadata"@) == Some(j));
    lemma_counts_read(s.usage, chunk);
    let list = (chunk.get("candidates"@)->0)->Array_0;
    let candidate = list[0];
    assert(crate::protocol::codec::google_generative::stream::candidate_of(chunk) == Some(
        candidate,
    ));
    assert(crate::protocol::codec::google_generative::stream::parts_of(chunk) =~= Seq::empty());
    let d = crate::protocol::codec::google_generative::stream::chunk_deltas(
        chunk,
        false,
        own,
        fresh,
    );
    assert(d.last() == (DeltaV::Done { stop_reason }));
}

proof fn lemma_counts_absent(u: Usage)
    ensures
        crate::protocol::codec::google_generative::stream::counts_merged(
            crate::protocol::codec::google_generative::stream::counts_json(u),
            u,
        ) == crate::protocol::codec::google_generative::stream::counts_json(u),
{
    broadcast use crate::json::lemma_with_get;

    lemma_words();
    let j = crate::protocol::codec::google_generative::stream::counts_json(u);
    assert(j.get("promptTokenCount"@) is Some);
    assert(j.get("candidatesTokenCount"@) is Some);
    assert(j.get("totalTokenCount"@) is Some);
}

} // verus!
