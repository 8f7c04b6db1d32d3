//! What is understood of a provider's answer, and how arguments are named for a client's tools.
use vstd::prelude::*;

use crate::json::JsonV;
use crate::protocol::ir::stream::DeltaV;

verus! {

/// The words of the protocol differ.
proof fn lemma_words()
    ensures
        "STOP"@.len() == 4,
        "STOP"@[0] == 'S',
        "args"@.len() == 4,
        "args"@[0] == 'a',
        "glob"@.len() == 4,
        "glob"@[0] == 'g',
        "name"@.len() == 4,
        "name"@[0] == 'n',
        "path"@.len() == 4,
        "path"@[0] == 'p',
        "stop"@.len() == 4,
        "stop"@[0] == 's',
        "text"@.len() == 4,
        "text"@[0] == 't',
        "usage"@.len() == 5,
        "length"@.len() == 6,
        "pattern"@.len() == 7,
        "dir_path"@.len() == 8,
        "dir_path"@[0] == 'd',
        "root_dir"@.len() == 8,
        "root_dir"@[0] == 'r',
        "MAX_TOKENS"@.len() == 10,
        "MAX_TOKENS"@[0] == 'M',
        "candidates"@.len() == 10,
        "candidates"@[0] == 'c',
        "search_root"@.len() == 11,
        "functionCall"@.len() == 12,
        "functionCall"@[0] == 'f',
        "input_tokens"@.len() == 12,
        "input_tokens"@[0] == 'i',
        "modelVersion"@.len() == 12,
        "modelVersion"@[0] == 'm',
        "total_tokens"@.len() == 12,
        "total_tokens"@[0] == 't',
        "output_tokens"@.len() == 13,
        "output_tokens"@[0] == 'o',
        "prompt_tokens"@.len() == 13,
        "prompt_tokens"@[0] == 'p',
        "usageMetadata"@.len() == 13,
        "usageMetadata"@[0] == 'u',
        "list_directory"@.len() == 14,
        "list_directory"@[0] == 'l',
        "thought_tokens"@.len() == 14,
        "thought_tokens"@[0] == 't',
        "usage_metadata"@.len() == 14,
        "usage_metadata"@[0] == 'u',
        "exclude_pattern"@.len() == 15,
        "exclude_pattern"@[0] == 'e',
        "exclude_pattern"@[2] == 'c',
        "include_pattern"@.len() == 15,
        "include_pattern"@[0] == 'i',
        "include_pattern"@[2] == 'c',
        "inputTokenCount"@.len() == 15,
        "inputTokenCount"@[0] == 'i',
        "inputTokenCount"@[2] == 'p',
        "totalTokenCount"@.len() == 15,
        "totalTokenCount"@[0] == 't',
        "totalTokenCount"@[2] == 't',
        "exclude_patterns"@.len() == 16,
        "exclude_patterns"@[0] == 'e',
        "outputTokenCount"@.len() == 16,
        "outputTokenCount"@[0] == 'o',
        "promptTokenCount"@.len() == 16,
        "promptTokenCount"@[0] == 'p',
        "reasoning_tokens"@.len() == 16,
        "reasoning_tokens"@[0] == 'r',
        "completion_tokens"@.len() == 17,
        "thoughtsTokenCount"@.len() == 18,
        "candidatesTokenCount"@.len() == 20,
{
    reveal_strlit("STOP");
    reveal_strlit("args");
    reveal_strlit("glob");
    reveal_strlit("name");
    reveal_strlit("path");
    reveal_strlit("stop");
    reveal_strlit("text");
    reveal_strlit("usage");
    reveal_strlit("length");
    reveal_strlit("pattern");
    reveal_strlit("dir_path");
    reveal_strlit("root_dir");
    reveal_strlit("MAX_TOKENS");
    reveal_strlit("candidates");
    reveal_strlit("search_root");
    reveal_strlit("functionCall");
    reveal_strlit("input_tokens");
    reveal_strlit("modelVersion");
    reveal_strlit("total_tokens");
    reveal_strlit("output_tokens");
    reveal_strlit("prompt_tokens");
    reveal_strlit("usageMetadata");
    reveal_strlit("list_directory");
    reveal_strlit("thought_tokens");
    reveal_strlit("usage_metadata");
    reveal_strlit("exclude_pattern");
    reveal_strlit("include_pattern");
    reveal_strlit("inputTokenCount");
    reveal_strlit("totalTokenCount");
    reveal_strlit("exclude_patterns");
    reveal_strlit("outputTokenCount");
    reveal_strlit("promptTokenCount");
    reveal_strlit("reasoning_tokens");
    reveal_strlit("completion_tokens");
    reveal_strlit("thoughtsTokenCount");
    reveal_strlit("candidatesTokenCount");
}

// ---------------------------------------------------------------- chunks

/// The first chunk tells who answers; a reason tells the end, at the end.
pub proof fn lemma_begin_and_end(
    chunk: JsonV,
    own: Seq<char>,
    fresh: Seq<Seq<char>>,
    model: Seq<char>,
    reason: Seq<char>,
)
    ensures
        chunk.get_str("modelVersion"@) == Some(model) ==> {
            let d = crate::protocol::codec::google_generative::stream::chunk_deltas(chunk, true, own, fresh);
            d.len() > 0 && d[0] == (DeltaV::MessageStart { id: "gen-"@ + own, model })
        },
        crate::protocol::codec::google_generative::stream::reason_of(chunk) == Some(reason) ==> {
            let d = crate::protocol::codec::google_generative::stream::chunk_deltas(chunk, false, own, fresh);
            &&& d.len() > 0
            &&& reason == "STOP"@ ==> d.last() == (DeltaV::Done { stop_reason: "stop"@ })
            &&& reason == "MAX_TOKENS"@ ==> d.last() == (DeltaV::Done { stop_reason: "length"@ })
            &&& reason != "STOP"@ && reason != "MAX_TOKENS"@ ==> d.last() == (DeltaV::Done {
                stop_reason: reason,
            })
        },
{
    lemma_words();
}

/// A call in a chunk is told by its name and then by its arguments.
pub proof fn lemma_call_told(name: Seq<char>, args: JsonV, fresh: Seq<char>)
    requires
        crate::json::text_of(args).len() > 0,
        crate::json::text_of(args) != "{}"@,
    ensures
        ({
            let part = JsonV::obj().with(
                "functionCall"@,
                JsonV::obj().with("name"@, JsonV::Text(name)).with("args"@, args),
            );
            crate::protocol::codec::google_generative::stream::part_deltas(part, fresh) == seq![
                DeltaV::ToolCallStart { index: 0, id: "call_"@ + fresh, name },
                DeltaV::ToolCallDelta { index: 0, arguments: crate::json::text_of(args) },
            ]
        }),
{
    broadcast use crate::json::lemma_with_get;

    lemma_words();
    let call = JsonV::obj().with("name"@, JsonV::Text(name)).with("args"@, args);
    let part = JsonV::obj().with("functionCall"@, call);
    assert(part.get("text"@) is None);
    assert(part.get("functionCall"@) == Some(call));
    assert(call.get("args"@) == Some(args));
    assert(call.get_str("name"@) == Some(name));
    assert(part->Object_0.len() == 1);
}

/// A text in a chunk is told; what is more than a text or a call is handed on as it came.
pub proof fn lemma_part_told(part: JsonV, fresh: Seq<char>, t: Seq<char>)
    ensures
        t.len() > 0 ==> crate::protocol::codec::google_generative::stream::part_deltas(JsonV::obj().with("text"@, JsonV::Text(t)), fresh) == seq![
            DeltaV::TextDelta(t),
        ],
        part.get("text"@) is None && part.get("functionCall"@) is None ==> crate::protocol::codec::google_generative::stream::part_deltas(
            part,
            fresh,
        ) == seq![DeltaV::Unknown { raw: crate::json::text_of(part) }],
        part.get_str("text"@) is Some && part->Object_0.len() > 1 ==> crate::protocol::codec::google_generative::stream::part_deltas(part, fresh)
            == seq![DeltaV::Unknown { raw: crate::json::text_of(part) }],
{
    broadcast use crate::json::lemma_with_get;

    lemma_words();
    let p = JsonV::obj().with("text"@, JsonV::Text(t));
    assert(p.get("text"@) == Some(JsonV::Text(t)));
    assert(p->Object_0.len() == 1);
}

/// A line of data is one chunk.
pub proof fn lemma_data_line(t: Seq<char>, v: JsonV)
    requires
        crate::protocol::wire_laws::in_a_line(t),
        t.len() > 0,
        crate::json::json_read(t) == Some(v),
    ensures
        crate::protocol::codec::google_generative::stream::block_chunks("data: "@ + t) == seq![v],
{
    let block = "data: "@ + t;
    let lines = crate::text::lines_of(block);
    assert(lines == seq![block]) by {
        lemma_one_line(t);
    }
    crate::text_laws::lemma_behind("data: "@, t);
    assert(lines.len() == 1 && lines[0] == block);
    assert(crate::protocol::codec::google_generative::stream::has_data(lines, 1));
    assert(crate::protocol::codec::google_generative::stream::data_values(lines, 0) =~= Seq::empty());
    assert(crate::protocol::codec::google_generative::stream::data_values(lines, 1) =~= seq![v]);
}

proof fn lemma_one_line(t: Seq<char>)
    requires
        crate::protocol::wire_laws::in_a_line(t),
        t.len() > 0,
    ensures
        crate::text::lines_of("data: "@ + t) == seq!["data: "@ + t],
{
    reveal_strlit("data: ");
    let block = "data: "@ + t;
    assert(t.last() != '\r') by {
        crate::text_laws::lemma_trimmed(t);
        crate::text_laws::lemma_white(t.last());
    }
    assert(block.last() == t.last());
    assert forall|i: int| 0 <= i < block.len() implies #[trigger] block[i] != '\n' by {
        if i >= 6 {
            assert(block[i] == t[i - 6]);
        }
    }
    crate::text_laws::lemma_lines(block, Seq::empty());
}

// ---------------------------------------------------------------- counts

/// The tokens of an answer: those of the prompt, and of what came those of the answer and of the
/// thinking together; where only the sum is known, what is left of it.
pub proof fn lemma_counts(v: JsonV, u: JsonV, prompt: u64, answer: u64, thoughts: u64)
    requires
        v.get("usageMetadata"@) == Some(u),
        prompt + answer + thoughts <= u32::MAX,
        u.get_u64("promptTokenCount"@) == Some(prompt),
    ensures
        ({
            let r = crate::protocol::codec::google_generative::stream::usage_of(v);
            &&& r.prompt_tokens == prompt
            &&& u.get("totalTokenCount"@) is None && u.get("total_tokens"@) is None && u.get_u64(
                "candidatesTokenCount"@,
            ) == Some(answer) && u.get_u64("thoughtsTokenCount"@) == Some(thoughts)
                ==> r.completion_tokens == answer + thoughts && r.total_tokens == prompt + answer
                + thoughts
            &&& u.get_u64("totalTokenCount"@) == Some((prompt + answer) as u64)
                ==> r.completion_tokens == answer && r.total_tokens == prompt + answer
        }),
{
}

/// The counts are also known by other names.
pub proof fn lemma_counts_by_other_names(v: JsonV, u: JsonV, prompt: u64, answer: u64)
    requires
        v.get("usageMetadata"@) is None,
        v.get("usage_metadata"@) is None,
        v.get("usage"@) == Some(u),
        u.get("promptTokenCount"@) is None,
        u.get("candidatesTokenCount"@) is None,
        u.get("totalTokenCount"@) is None,
        u.get("total_tokens"@) is None,
        u.get("thoughtsTokenCount"@) is None,
        u.get("reasoning_tokens"@) is None,
        u.get("thought_tokens"@) is None,
        u.get_u64("prompt_tokens"@) == Some(prompt),
        u.get_u64("completion_tokens"@) == Some(answer),
        prompt <= u32::MAX,
        answer <= u32::MAX,
    ensures
        crate::protocol::codec::google_generative::stream::usage_of(v).prompt_tokens == prompt,
        crate::protocol::codec::google_generative::stream::usage_of(v).completion_tokens == answer,
{
}

// ---------------------------------------------------------------- arguments

proof fn lemma_renamed(
    f: Seq<(Seq<char>, JsonV)>,
    from: Seq<char>,
    to: Seq<char>,
    k: Seq<char>,
)
    requires
        crate::json::distinct_names(f),
        from != to,
    ensures
        crate::json::distinct_names(crate::protocol::codec::google_generative::stream::renamed(f, from, to)),
        crate::json::get_field(crate::protocol::codec::google_generative::stream::renamed(f, from, to), k) == if k == from {
            None
        } else if k == to && crate::json::get_field(f, to) is None {
            crate::json::get_field(f, from)
        } else {
            crate::json::get_field(f, k)
        },
{
    if let Some(v) = crate::json::get_field(f, from) {
        crate::model_laws::lemma_drop_get(f, from, k);
        crate::model_laws::lemma_drop_get(f, from, to);
        let g = crate::json::drop_field(f, from);
        crate::json::lemma_fields_put_absent(g, to, v, k);
        crate::json::lemma_put_opt_absent_distinct(g, to, Some(v));
    }
}

/// Arguments are handed to a client's tool under the names that it takes: the directory to list,
/// and the pattern and the place to search. All other arguments are as they came.
#[verifier::rlimit(40)]
pub proof fn lemma_arguments_named(f: Seq<(Seq<char>, JsonV)>, name: Seq<char>, k: Seq<char>)
    requires
        crate::json::distinct_names(f),
        crate::json::get_field(f, "exclude_patterns"@) is None,
        crate::json::get_field(f, "exclude_pattern"@) is None,
    ensures
        ({
            let j = crate::protocol::codec::google_generative::stream::tool_args(name, JsonV::Object(f));
            let was = |x: Seq<char>| crate::json::get_field(f, x);
            &&& name == "list_directory"@ ==> {
                &&& was("dir_path"@) is None ==> j.get("dir_path"@) == was("path"@)
                &&& j.get("path"@) is None
                &&& k != "path"@ && k != "dir_path"@ ==> j.get(k) == was(k)
            }
            &&& name == "glob"@ ==> {
                &&& was("pattern"@) is None ==> j.get("pattern"@) == was("include_pattern"@)
                &&& was("pattern"@) is Some ==> j.get("pattern"@) == was("pattern"@)
                &&& was("root_dir"@) is None && was("path"@) is Some ==> j.get("root_dir"@) == was(
                    "path"@,
                )
                &&& was("root_dir"@) is None && was("path"@) is None ==> j.get("root_dir"@) == was(
                    "search_root"@,
                )
                &&& was("root_dir"@) is Some ==> j.get("root_dir"@) == was("root_dir"@)
                &&& k != "pattern"@ && k != "include_pattern"@ && k != "path"@ && k != "root_dir"@
                    && k != "search_root"@ ==> j.get(k) == was(k)
            }
            &&& name != "list_directory"@ && name != "glob"@ ==> j == JsonV::Object(f)
        }),
{
    lemma_words();
    if name == "list_directory"@ {
        lemma_renamed(f, "path"@, "dir_path"@, "dir_path"@);
        lemma_renamed(f, "path"@, "dir_path"@, "path"@);
        lemma_renamed(f, "path"@, "dir_path"@, k);
    }
    if name == "glob"@ {
        lemma_glob(f, "pattern"@);
        lemma_glob(f, "root_dir"@);
        lemma_glob(f, k);
    }
}

proof fn lemma_glob(f: Seq<(Seq<char>, JsonV)>, k: Seq<char>)
    requires
        crate::json::distinct_names(f),
    ensures
        ({
            let g = crate::protocol::codec::google_generative::stream::renamed(
                crate::protocol::codec::google_generative::stream::renamed(crate::protocol::codec::google_generative::stream::renamed(f, "include_pattern"@, "pattern"@), "path"@, "root_dir"@),
                "search_root"@,
                "root_dir"@,
            );
            let was = |x: Seq<char>| crate::json::get_field(f, x);
            crate::json::get_field(g, k) == if k == "include_pattern"@ || k == "path"@ || k
                == "search_root"@ {
                None
            } else if k == "pattern"@ {
                if was("pattern"@) is Some {
                    was("pattern"@)
                } else {
                    was("include_pattern"@)
                }
            } else if k == "root_dir"@ {
                if was("root_dir"@) is Some {
                    was("root_dir"@)
                } else if was("path"@) is Some {
                    was("path"@)
                } else {
                    was("search_root"@)
                }
            } else {
                was(k)
            }
        }),
{
    lemma_words();
    let a = crate::protocol::codec::google_generative::stream::renamed(f, "include_pattern"@, "pattern"@);
    lemma_renamed(f, "include_pattern"@, "pattern"@, k);
    lemma_renamed(f, "include_pattern"@, "pattern"@, "path"@);
    lemma_renamed(f, "include_pattern"@, "pattern"@, "root_dir"@);
    lemma_renamed(f, "include_pattern"@, "pattern"@, "search_root"@);
    let b = crate::protocol::codec::google_generative::stream::renamed(a, "path"@, "root_dir"@);
    lemma_renamed(a, "path"@, "root_dir"@, k);
    lemma_renamed(a, "path"@, "root_dir"@, "root_dir"@);
    lemma_renamed(a, "path"@, "root_dir"@, "search_root"@);
    lemma_renamed(b, "search_root"@, "root_dir"@, k);
}

/// What to leave out is always a list: one pattern is a list of it, and a list that came as text is
/// the list.
pub proof fn lemma_patterns_listed(
    f: Seq<(Seq<char>, JsonV)>,
    name: Seq<char>,
    t: Seq<char>,
    a: Seq<JsonV>,
)
    requires
        crate::json::distinct_names(f),
        name != "glob"@,
        name != "list_directory"@,
    ensures
        ({
            let j = crate::protocol::codec::google_generative::stream::tool_args(name, JsonV::Object(f));
            &&& crate::json::get_field(f, "exclude_patterns"@) is None && crate::json::get_field(
                f,
                "exclude_pattern"@,
            ) == Some(JsonV::Text(t)) ==> j.get("exclude_patterns"@) == Some(
                JsonV::Array(seq![JsonV::Text(t)]),
            ) && j.get("exclude_pattern"@) is None
            &&& crate::json::get_field(f, "exclude_pattern"@) is None && crate::json::get_field(
                f,
                "exclude_patterns"@,
            ) == Some(JsonV::Text(t)) && crate::json::json_read(t) == Some(JsonV::Array(a)) && (
            forall|i: int| 0 <= i < a.len() ==> #[trigger] a[i] is Text) ==> j.get(
                "exclude_patterns"@,
            ) == Some(JsonV::Array(a))
        }),
{
    broadcast use {
        crate::json::lemma_fields_put,
        crate::json::lemma_fields_put_absent,
    };

    lemma_words();
    crate::model_laws::lemma_drop_get(f, "exclude_pattern"@, "exclude_pattern"@);
    crate::model_laws::lemma_drop_get(f, "exclude_pattern"@, "exclude_patterns"@);
}

} // verus!
