//! What is understood of a provider's answer under the names that providers give things.
use vstd::prelude::*;

use crate::json::JsonV;
use crate::protocol::codec::openai_compatible::stream::ReadV;
use crate::protocol::ir::stream::DeltaV;

verus! {

/// The words of the protocol differ.
proof fn lemma_words()
    ensures
        "id"@.len() == 2,
        "name"@.len() == 4,
        "name"@[0] == 'n',
        "stop"@.len() == 4,
        "stop"@[0] == 's',
        "text"@.len() == 4,
        "text"@[0] == 't',
        "index"@.len() == 5,
        "index"@[0] == 'i',
        "usage"@.len() == 5,
        "usage"@[0] == 'u',
        "content"@.len() == 7,
        "function"@.len() == 8,
        "arguments"@.len() == 9,
        "arguments"@[0] == 'a',
        "reasoning"@.len() == 9,
        "reasoning"@[0] == 'r',
        "input_tokens"@.len() == 12,
        "cached_tokens"@.len() == 13,
        "cached_tokens"@[0] == 'c',
        "output_tokens"@.len() == 13,
        "output_tokens"@[0] == 'o',
        "prompt_tokens"@.len() == 13,
        "prompt_tokens"@[0] == 'p',
        "usageMetadata"@.len() == 13,
        "usageMetadata"@[0] == 'u',
        "inputTokenCount"@.len() == 15,
        "outputTokenCount"@.len() == 16,
        "outputTokenCount"@[0] == 'o',
        "promptTokenCount"@.len() == 16,
        "promptTokenCount"@[0] == 'p',
        "completion_tokens"@.len() == 17,
        "completion_tokens"@[10] == '_',
        "reasoning_content"@.len() == 17,
        "reasoning_content"@[10] == 'c',
        "reasoning_details"@.len() == 17,
        "reasoning_details"@[10] == 'd',
        "candidatesTokenCount"@.len() == 20,
        "prompt_tokens_details"@.len() == 21,
        "prompt_cache_hit_tokens"@.len() == 23,
        "cached_content_token_count"@.len() == 26,
{
    reveal_strlit("id");
    reveal_strlit("name");
    reveal_strlit("stop");
    reveal_strlit("text");
    reveal_strlit("index");
    reveal_strlit("usage");
    reveal_strlit("content");
    reveal_strlit("function");
    reveal_strlit("arguments");
    reveal_strlit("reasoning");
    reveal_strlit("input_tokens");
    reveal_strlit("cached_tokens");
    reveal_strlit("output_tokens");
    reveal_strlit("prompt_tokens");
    reveal_strlit("usageMetadata");
    reveal_strlit("inputTokenCount");
    reveal_strlit("outputTokenCount");
    reveal_strlit("promptTokenCount");
    reveal_strlit("completion_tokens");
    reveal_strlit("reasoning_content");
    reveal_strlit("reasoning_details");
    reveal_strlit("candidatesTokenCount");
    reveal_strlit("prompt_tokens_details");
    reveal_strlit("prompt_cache_hit_tokens");
    reveal_strlit("cached_content_token_count");
}

/// The tokens of the prompt and of the answer, under any of the names in use, the protocol's own
/// before the others.
pub proof fn lemma_counts(v: JsonV, u: JsonV, n: u64)
    requires
        v.get("usage"@) == Some(u) || (v.get("usage"@) is None && v.get("usageMetadata"@) == Some(
            u,
        )),
        n <= u32::MAX,
    ensures
        ({
            let r = crate::protocol::codec::openai_compatible::stream::usage_of(v);
            let own = |k: Seq<char>| u.get(k) is None;
            &&& u.get_u64("prompt_tokens"@) == Some(n) ==> r.prompt_tokens == n
            &&& own("prompt_tokens"@) && u.get_u64("promptTokenCount"@) == Some(n)
                ==> r.prompt_tokens == n
            &&& own("prompt_tokens"@) && own("promptTokenCount"@) && u.get_u64("input_tokens"@)
                == Some(n) ==> r.prompt_tokens == n
            &&& own("prompt_tokens"@) && own("promptTokenCount"@) && own("input_tokens"@)
                && u.get_u64("inputTokenCount"@) == Some(n) ==> r.prompt_tokens == n
            &&& u.get_u64("completion_tokens"@) == Some(n) ==> r.completion_tokens == n
            &&& own("completion_tokens"@) && u.get_u64("candidatesTokenCount"@) == Some(n)
                ==> r.completion_tokens == n
            &&& own("completion_tokens"@) && own("candidatesTokenCount"@) && u.get_u64(
                "output_tokens"@,
            ) == Some(n) ==> r.completion_tokens == n
            &&& own("completion_tokens"@) && own("candidatesTokenCount"@) && own("output_tokens"@)
                && u.get_u64("outputTokenCount"@) == Some(n) ==> r.completion_tokens == n
        }),
{
}

/// The tokens that were read from a cache, under any of the names in use.
pub proof fn lemma_cached(v: JsonV, u: JsonV, d: JsonV, n: u64)
    requires
        v.get("usage"@) == Some(u),
        n <= u32::MAX,
    ensures
        ({
            let r = crate::protocol::codec::openai_compatible::stream::usage_of(v).cache_read_tokens;
            &&& u.get_u64("prompt_cache_hit_tokens"@) == Some(n) ==> r == Some(n as u32)
            &&& u.get("prompt_cache_hit_tokens"@) is None && u.get("prompt_tokens_details"@)
                == Some(d) && d.get_u64("cached_tokens"@) == Some(n) ==> r == Some(n as u32)
            &&& u.get("prompt_cache_hit_tokens"@) is None && u.get("prompt_tokens_details"@) is None
                && u.get_u64("cached_content_token_count"@) == Some(n) ==> r == Some(n as u32)
            &&& u.get("prompt_cache_hit_tokens"@) is None && u.get("prompt_tokens_details"@) is None
                && u.get("cached_content_token_count"@) is None ==> r is None
        }),
{
}

/// The thinking of a message: in either of two fields, or in the texts of its details.
pub proof fn lemma_thinking(m: JsonV, t: Seq<char>, d: JsonV)
    ensures
        m.get_str("reasoning_content"@) == Some(t) ==> crate::protocol::codec::openai_compatible::stream::reasoning_of(m) == Some(t),
        m.get("reasoning_content"@) is None && m.get_str("reasoning"@) == Some(t)
            ==> crate::protocol::codec::openai_compatible::stream::reasoning_of(m) == Some(t),
        m.get("reasoning_content"@) is None && m.get("reasoning"@) is None && m.get(
            "reasoning_details"@,
        ) == Some(JsonV::Array(seq![d])) && t.len() > 0 && (d.get_str("text"@) == Some(t) || (
        d.get("text"@) is None && d.get_str("content"@) == Some(t))) ==> crate::protocol::codec::openai_compatible::stream::reasoning_of(m)
            == Some(t),
        m.get("reasoning_content"@) is None && m.get("reasoning"@) is None && m.get(
            "reasoning_details"@,
        ) is None ==> crate::protocol::codec::openai_compatible::stream::reasoning_of(m) is None,
{
    reveal_with_fuel(crate::protocol::codec::openai_compatible::stream::details_upto, 2);
    crate::text_laws::lemma_joined(Seq::empty(), "\n"@, t);
    assert(Seq::<Seq<char>>::empty().push(t) =~= seq![t]);
}

/// A piece of a call with all that a call has: it begins under its place, with its identifier and
/// its name, and goes on with its arguments.
pub proof fn lemma_call_piece(
    r: ReadV,
    tc: JsonV,
    f: JsonV,
    index: u64,
    id: Seq<char>,
    name: Seq<char>,
    arguments: Seq<char>,
)
    requires
        tc.get("function"@) == Some(f),
        tc.get_u64("index"@) == Some(index) || (tc.get("index"@) is None && index == 0),
        tc.get_str("id"@) == Some(id),
        f.get_str("name"@) == Some(name),
        f.get_str("arguments"@) == Some(arguments),
        arguments.len() > 0,
    ensures
        r.call(tc).deltas == r.deltas.push(
            DeltaV::ToolCallStart { index: index as usize, id, name },
        ).push(DeltaV::ToolCallDelta { index: index as usize, arguments }),
        r.call(tc).mode == r.mode,
{
}

} // verus!
