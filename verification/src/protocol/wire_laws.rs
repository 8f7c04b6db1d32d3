//! What holds of what goes over the wire in every protocol: events, thinking in tags, errors and
//! embeddings.
use vstd::prelude::*;

use crate::json::JsonV;
use crate::protocol::ir::error::AiErrorKind;
use crate::protocol::types::InternalResponseV;
use crate::protocol::SseV;

verus! {

/// The words of the protocol differ.
proof fn lemma_words()
    ensures
        "user"@.len() == 4,
        "input"@.len() == 5,
        "input"@[0] == 'i',
        "model"@.len() == 5,
        "model"@[0] == 'm',
        "usage"@.len() == 5,
        "usage"@[0] == 'u',
        "dimensions"@.len() == 10,
        "prompt_tokens"@.len() == 13,
        "encoding_format"@.len() == 15,
{
    reveal_strlit("user");
    reveal_strlit("input");
    reveal_strlit("model");
    reveal_strlit("usage");
    reveal_strlit("dimensions");
    reveal_strlit("prompt_tokens");
    reveal_strlit("encoding_format");
}

/// Whether a text fits into a line of an event: it has no end of a line in it and no white space at
/// its ends.
pub open spec fn in_a_line(s: Seq<char>) -> bool {
    &&& crate::text::trim_of(s) == s
    &&& forall|i: int| 0 <= i < s.len() ==> #[trigger] s[i] != '\n'
}

proof fn lemma_ends_solid(s: Seq<char>)
    requires
        in_a_line(s),
        s.len() > 0,
    ensures
        s.last() != '\r',
{
    crate::text_laws::lemma_trimmed(s);
    crate::text_laws::lemma_white(s.last());
}

/// An event that is written is one block, which is read as the event: its name and its data.
pub proof fn lemma_event_read(event: Seq<char>, data: Seq<char>)
    requires
        in_a_line(event),
        in_a_line(data),
        data.len() > 0,
    ensures
        ({
            let wire = (SseV { event: Some(event), data }).wire();
            let blocks = crate::protocol::sse::blocks_of(wire);
            &&& blocks.len() == 1
            &&& crate::protocol::sse::field_of(blocks[0], "event: "@) == Some(event)
            &&& crate::protocol::sse::field_of(blocks[0], "data: "@) == Some(data)
            &&& crate::protocol::sse::rest_of(wire) == Seq::<char>::empty()
        }),
{
    reveal_strlit("event: ");
    reveal_strlit("data: ");
    reveal_strlit("\n");
    reveal_strlit("\n\n");
    let first = "event: "@ + event;
    let second = "data: "@ + data;
    let block = first + "\n"@ + second;
    let wire = (SseV { event: Some(event), data }).wire();
    assert(wire =~= block + "\n\n"@);
    if event.len() > 0 {
        lemma_ends_solid(event);
        assert(first.last() == event.last());
    } else {
        assert(first.last() == ' ');
    }
    lemma_ends_solid(data);
    assert(second.last() == data.last());
    assert forall|i: int| 0 <= i < first.len() implies #[trigger] first[i] != '\n' by {
        if i >= 7 {
            assert(first[i] == event[i - 7]);
        }
    }
    assert forall|i: int| 0 <= i < second.len() implies #[trigger] second[i] != '\n' by {
        if i >= 6 {
            assert(second[i] == data[i - 6]);
        }
    }
    lemma_one_block(block, wire);
    crate::text_laws::lemma_lines(first, second);
    crate::text_laws::lemma_lines(second, Seq::empty());
    let lines = crate::text::lines_of(block);
    assert(lines =~= seq![first, second]);
    crate::text_laws::lemma_behind("event: "@, event);
    crate::text_laws::lemma_behind("data: "@, data);
    assert(!crate::text::begins(second, "event: "@)) by {
        if crate::text::begins(second, "event: "@) {
            assert(second.subrange(0, 7)[0] == 'e');
        }
    }
    reveal_with_fuel(crate::protocol::sse::last_field, 3);
}

/// An event without a name is read by its data.
pub proof fn lemma_data_read(data: Seq<char>)
    requires
        in_a_line(data),
        data.len() > 0,
    ensures
        ({
            let wire = (SseV { event: None, data }).wire();
            let blocks = crate::protocol::sse::blocks_of(wire);
            &&& blocks.len() == 1
            &&& crate::protocol::sse::field_of(blocks[0], "event: "@) is None
            &&& crate::protocol::sse::field_of(blocks[0], "data: "@) == Some(data)
            &&& crate::protocol::sse::rest_of(wire) == Seq::<char>::empty()
        }),
{
    reveal_strlit("event: ");
    reveal_strlit("data: ");
    reveal_strlit("\n\n");
    let block = "data: "@ + data;
    let wire = (SseV { event: None, data }).wire();
    assert(wire =~= block + "\n\n"@);
    lemma_ends_solid(data);
    assert(block.last() == data.last());
    assert forall|i: int| 0 <= i < block.len() implies #[trigger] block[i] != '\n' by {
        if i >= 6 {
            assert(block[i] == data[i - 6]);
        }
    }
    lemma_one_block(block, wire);
    crate::text_laws::lemma_lines(block, Seq::empty());
    crate::text_laws::lemma_behind("data: "@, data);
    assert(!crate::text::begins(block, "event: "@)) by {
        if crate::text::begins(block, "event: "@) {
            assert(block.subrange(0, 7)[0] == 'e');
        }
    }
    reveal_with_fuel(crate::protocol::sse::last_field, 2);
}

proof fn lemma_one_block(block: Seq<char>, wire: Seq<char>)
    requires
        wire == block + "\n\n"@,
        block.len() > 0,
        block.last() != '\n',
        forall|i: int| 0 <= i < block.len() - 1 && #[trigger] block[i] == '\n' ==> block[i + 1]
            != '\n',
    ensures
        crate::protocol::sse::blocks_of(wire) == seq![block],
        crate::protocol::sse::rest_of(wire) == Seq::<char>::empty(),
{
    reveal_strlit("\n\n");
    let end = crate::protocol::sse::block_end();
    let n = block.len() as int;
    crate::text::lemma_find_least(wire, end);
    assert(wire.subrange(n, n + 2) =~= end);
    assert(crate::text::occurs_at(wire, end, n));
    let i = crate::text::find_of(wire, end)->0;
    if i < n {
        let s = wire.subrange(i, i + 2);
        assert(s[0] == '\n' && s[1] == '\n');
        assert(wire[i] == '\n' && wire[i + 1] == '\n');
        if i + 1 < n {
            assert(block[i] == '\n' && block[i + 1] == '\n');
        } else {
            assert(block[i] == '\n');
        }
    }
    assert(i == n);
    assert(wire.subrange(0, n) =~= block);
    let rest = wire.subrange(n + 2, wire.len() as int);
    assert(rest =~= Seq::empty());
    crate::text::lemma_find_least(rest, end);
    assert(crate::protocol::sse::blocks_of(rest) =~= Seq::empty());
    assert(crate::protocol::sse::rest_of(rest) == rest);
    assert(seq![block] + crate::protocol::sse::blocks_of(rest) =~= seq![block]);
}

/// Thinking between tags is taken out of a response: what stands between them is the thinking, and
/// what stands around them the text.
pub proof fn lemma_tagged(resp: InternalResponseV, a: Seq<char>, t: Seq<char>, b: Seq<char>)
    requires
        resp.reasoning_content is None,
        resp.content == a + "<think>"@ + t + "</think>"@ + b,
        crate::text::find_of(resp.content, "<think>"@) == Some(a.len() as int),
        crate::text::find_of(t + "</think>"@ + b, "</think>"@) == Some(t.len() as int),
        crate::text::find_of(b, "<think>"@) is None,
        crate::text::trim_of(t).len() > 0,
    ensures
        ({
            let r = crate::protocol::codec::reasoning::normalized(resp);
            &&& r.reasoning_content == Some(crate::text::trim_of(t))
            &&& r.content == crate::text::trim_of(a + b)
            &&& r.tool_calls == resp.tool_calls
            &&& r.stop_reason == resp.stop_reason
            &&& r.usage == resp.usage
        }),
{
    reveal_strlit("<think>");
    reveal_strlit("</think>");
    let s = resp.content;
    let after = t + "</think>"@ + b;
    assert(s.subrange(0, a.len() as int) =~= a);
    assert(s.subrange(a.len() + 7int, s.len() as int) =~= after);
    assert(after.subrange(0, t.len() as int) =~= t);
    assert(after.subrange(t.len() + 8int, after.len() as int) =~= b);
    let none = crate::protocol::codec::reasoning::SplitV {
        thoughts: Seq::empty(),
        texts: Seq::empty(),
    };
    let one = crate::protocol::codec::reasoning::SplitV {
        thoughts: none.thoughts.push(crate::text::trim_of(t)),
        texts: none.texts + a,
    };
    assert(none.more(s) == one.more(b));
    assert(one.more(b) == (crate::protocol::codec::reasoning::SplitV {
        texts: one.texts + b,
        ..one
    }));
    assert(one.texts + b =~= a + b);
    assert(one.thoughts =~= seq![crate::text::trim_of(t)]);
    crate::text_laws::lemma_joined(Seq::empty(), "\n"@, crate::text::trim_of(t));
}

/// What a status says of the trouble.
pub proof fn lemma_status_named(status: u16)
    ensures
        status == 400 ==> AiErrorKind::of_status(status) == AiErrorKind::InvalidRequest,
        status == 401 ==> AiErrorKind::of_status(status) == AiErrorKind::AuthenticationError,
        status == 403 ==> AiErrorKind::of_status(status) == AiErrorKind::AuthorizationError,
        status == 404 ==> AiErrorKind::of_status(status) == AiErrorKind::NotFoundError,
        status == 408 || status == 504 ==> AiErrorKind::of_status(status) == AiErrorKind::Timeout,
        status == 429 ==> AiErrorKind::of_status(status) == AiErrorKind::RateLimitError,
        status == 500 ==> AiErrorKind::of_status(status) == AiErrorKind::ServerError,
        status == 503 ==> AiErrorKind::of_status(status) == AiErrorKind::ServiceUnavailable,
        status == 529 ==> AiErrorKind::of_status(status) == AiErrorKind::QuotaExceeded,
        !(status == 400 || status == 401 || status == 403 || status == 404 || status == 408
            || status == 504 || status == 429 || status == 500 || status == 503 || status == 529)
            ==> AiErrorKind::of_status(status) == AiErrorKind::Unknown,
{
}

/// A request for embeddings is written with what it was read with, each under its name.
pub proof fn lemma_embeddings_kept(body: JsonV)
    requires
        body is Object,
        crate::text::trimmed(body.get_str("model"@)) is Some,
    ensures
        crate::protocol::codec::openai_compatible::embeddings::request_of(body) is Ok,
        ({
            let out = crate::protocol::codec::openai_compatible::embeddings::body_of(
                crate::protocol::codec::openai_compatible::embeddings::request_of(body)->Ok_0,
            );
            &&& out.get_str("model"@) == crate::text::trimmed(body.get_str("model"@))
            &&& out.get("input"@) == body.get("input"@)
            &&& out.get("dimensions"@) == body.get("dimensions"@)
            &&& out.get("encoding_format"@) == body.get("encoding_format"@)
            &&& out.get("user"@) == body.get("user"@)
        }),
{
    broadcast use crate::json::lemma_with_get;

    lemma_words();
    crate::protocol::codec::openai_compatible::embeddings::lemma_known_fields_pass(body);
}

/// The tokens that embeddings cost are those of the input.
pub proof fn lemma_embeddings_cost(payload: JsonV, n: u64)
    requires
        payload.get2("usage"@, "prompt_tokens"@) == Some(JsonV::num(n)),
        n <= u32::MAX,
    ensures
        crate::protocol::codec::openai_compatible::embeddings::usage_of(payload).prompt_tokens == n,
        crate::protocol::codec::openai_compatible::embeddings::usage_of(payload).completion_tokens
            == 0,
{
}

} // verus!
