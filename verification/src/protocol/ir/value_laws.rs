//! What holds of blocks as values, and of types in schemas.
use vstd::prelude::*;

use crate::json::JsonV;
use crate::protocol::ir::request::{BlockV, MediaV};

verus! {

/// The words in use differ.
proof fn lemma_words()
    ensures
        "id"@.len() == 2,
        "raw"@.len() == 3,
        "raw"@[0] == 'r',
        "ttl"@.len() == 3,
        "ttl"@[0] == 't',
        "code"@.len() == 4,
        "code"@[2] == 'd',
        "data"@.len() == 4,
        "data"@[2] == 't',
        "file"@.len() == 4,
        "file"@[2] == 'l',
        "name"@.len() == 4,
        "name"@[2] == 'm',
        "text"@.len() == 4,
        "text"@[2] == 'x',
        "type"@.len() == 4,
        "type"@[2] == 'p',
        "audio"@.len() == 5,
        "audio"@[1] == 'u',
        "image"@.len() == 5,
        "image"@[1] == 'm',
        "input"@.len() == 5,
        "input"@[1] == 'n',
        "title"@.len() == 5,
        "title"@[1] == 'i',
        "base64"@.len() == 6,
        "base64"@[4] == '6',
        "source"@.len() == 6,
        "source"@[4] == 'c',
        "stderr"@.len() == 6,
        "stderr"@[4] == 'r',
        "stdout"@.len() == 6,
        "stdout"@[4] == 'u',
        "content"@.len() == 7,
        "content"@[5] == 'n',
        "context"@.len() == 7,
        "context"@[5] == 'x',
        "file_id"@.len() == 7,
        "file_id"@[5] == 'i',
        "refusal"@.len() == 7,
        "refusal"@[5] == 'a',
        "unknown"@.len() == 7,
        "unknown"@[5] == 'w',
        "citation"@.len() == 8,
        "citation"@[2] == 't',
        "document"@.len() == 8,
        "document"@[2] == 'c',
        "is_error"@.len() == 8,
        "is_error"@[2] == '_',
        "language"@.len() == 8,
        "language"@[2] == 'n',
        "thinking"@.len() == 8,
        "thinking"@[2] == 'i',
        "tool_use"@.len() == 8,
        "tool_use"@[2] == 'o',
        "signature"@.len() == 9,
        "cited_text"@.len() == 10,
        "cited_text"@[0] == 'c',
        "media_type"@.len() == 10,
        "media_type"@[0] == 'm',
        "return_code"@.len() == 11,
        "return_code"@[7] == 'c',
        "server_type"@.len() == 11,
        "server_type"@[7] == 't',
        "tool_result"@.len() == 11,
        "tool_result"@[7] == 's',
        "tool_use_id"@.len() == 11,
        "tool_use_id"@[7] == 'e',
        "cache_control"@.len() == 13,
        "cache_control"@[0] == 'c',
        "search_result"@.len() == 13,
        "search_result"@[0] == 's',
        "executable_code"@.len() == 15,
        "executable_code"@[0] == 'e',
        "server_tool_use"@.len() == 15,
        "server_tool_use"@[0] == 's',
        "container_upload"@.len() == 16,
        "redacted_thinking"@.len() == 17,
        "server_tool_result"@.len() == 18,
        "breakpoint_priority"@.len() == 19,
        "code_execution_result"@.len() == 21,
{
    reveal_strlit("id");
    reveal_strlit("raw");
    reveal_strlit("ttl");
    reveal_strlit("code");
    reveal_strlit("data");
    reveal_strlit("file");
    reveal_strlit("name");
    reveal_strlit("text");
    reveal_strlit("type");
    reveal_strlit("audio");
    reveal_strlit("image");
    reveal_strlit("input");
    reveal_strlit("title");
    reveal_strlit("base64");
    reveal_strlit("source");
    reveal_strlit("stderr");
    reveal_strlit("stdout");
    reveal_strlit("content");
    reveal_strlit("context");
    reveal_strlit("file_id");
    reveal_strlit("refusal");
    reveal_strlit("unknown");
    reveal_strlit("citation");
    reveal_strlit("document");
    reveal_strlit("is_error");
    reveal_strlit("language");
    reveal_strlit("thinking");
    reveal_strlit("tool_use");
    reveal_strlit("signature");
    reveal_strlit("cited_text");
    reveal_strlit("media_type");
    reveal_strlit("return_code");
    reveal_strlit("server_type");
    reveal_strlit("tool_result");
    reveal_strlit("tool_use_id");
    reveal_strlit("cache_control");
    reveal_strlit("search_result");
    reveal_strlit("executable_code");
    reveal_strlit("server_tool_use");
    reveal_strlit("container_upload");
    reveal_strlit("redacted_thinking");
    reveal_strlit("server_tool_result");
    reveal_strlit("breakpoint_priority");
    reveal_strlit("code_execution_result");
}

/// A block is written under its type, with all that it holds under its name.
#[verifier::rlimit(60)]
pub proof fn lemma_block_value(b: BlockV)
    ensures
        ({
            let v = crate::protocol::ir::serial::block_value(b);
            let j = v->0;
            match b {
                BlockV::Text { text, .. } => v is Some && j.get_str("type"@) == Some("text"@)
                    && j.get_str("text"@) == Some(text),
                BlockV::Thinking { thinking, signature } => v is Some && j.get_str("type"@) == Some(
                    "thinking"@,
                ) && j.get_str("thinking"@) == Some(thinking) && j.get_str("signature"@)
                    == signature,
                BlockV::RedactedThinking { data } => v is Some && j.get_str("data"@) == Some(data),
                BlockV::ToolUse { id, name, input, .. } => v is Some && j.get_str("type"@) == Some(
                    "tool_use"@,
                ) && j.get_str("id"@) == Some(id) && j.get_str("name"@) == Some(name) && j.get(
                    "input"@,
                ) == Some(input),
                BlockV::ToolResult { tool_use_id, content, .. } => v is Some && j.get_str("type"@)
                    == Some("tool_result"@) && j.get_str("tool_use_id"@) == Some(tool_use_id)
                    && j.get("content"@) == Some(content),
                BlockV::Citation { cited_text, source } => v is Some && j.get_str("cited_text"@)
                    == Some(cited_text) && j.get("source"@) == Some(source),
                BlockV::ExecutableCode { code, language, id } => v is Some && j.get_str("code"@)
                    == Some(code) && j.get_str("language"@) == language && j.get_str("id"@) == id,
                BlockV::Refusal { refusal } => v is Some && j.get_str("refusal"@) == Some(refusal),
                BlockV::Unknown { raw } => v is Some && j.get("raw"@) == Some(raw),
                BlockV::Audio { source: MediaV::Base64 { media_type, data } } => v is Some && j.get2(
                    "source"@,
                    "media_type"@,
                ) == Some(JsonV::Text(media_type)) && j.get2("source"@, "data"@) == Some(
                    JsonV::Text(data),
                ),
                BlockV::File { source: MediaV::Base64 { media_type, data } } => v is Some && j.get2(
                    "source"@,
                    "media_type"@,
                ) == Some(JsonV::Text(media_type)) && j.get2("source"@, "data"@) == Some(
                    JsonV::Text(data),
                ),
                BlockV::File { source: MediaV::Url(_) } => v is None,
                _ => true,
            }
        }),
{
    broadcast use crate::json::lemma_with_get;

    lemma_words();
    reveal_with_fuel(crate::protocol::ir::serial::block_value, 1);
    match b {
        BlockV::Audio { source: MediaV::Base64 { media_type, data } } => {
            lemma_media(media_type, data);
        },
        BlockV::File { source: MediaV::Base64 { media_type, data } } => {
            lemma_media(media_type, data);
        },
        _ => {},
    }
}

proof fn lemma_media(media_type: Seq<char>, data: Seq<char>)
    ensures
        ({
            let v = crate::protocol::ir::serial::media_value(MediaV::Base64 { media_type, data });
            &&& v is Some
            &&& (v->0).get("media_type"@) == Some(JsonV::Text(media_type))
            &&& (v->0).get("data"@) == Some(JsonV::Text(data))
        }),
{
    broadcast use crate::json::lemma_with_get;

    lemma_words();
}

/// In a schema the types change their case, at every depth, and nothing else changes.
pub proof fn lemma_cased(f: Seq<(Seq<char>, JsonV)>, upper: bool, i: int)
    requires
        0 <= i < f.len(),
    ensures
        ({
            let v = crate::protocol::ir::schema::cased(JsonV::Object(f), upper);
            let g = v->Object_0;
            &&& v is Object
            &&& g.len() == f.len()
            &&& g[i].0 == f[i].0
            &&& f[i].0 == "type"@ && f[i].1 is Text ==> g[i].1 == JsonV::Text(
                if upper {
                    crate::text::unicode_uppercase(f[i].1->Text_0)
                } else {
                    crate::text::unicode_lowercase(f[i].1->Text_0)
                },
            )
            &&& f[i].0 != "type"@ ==> g[i].1 == crate::protocol::ir::schema::cased(f[i].1, upper)
            &&& f[i].0 != "type"@ && f[i].1 is Text ==> g[i].1 == f[i].1
        }),
{
    lemma_cased_upto(f, upper, f.len(), i);
}

proof fn lemma_cased_upto(f: Seq<(Seq<char>, JsonV)>, upper: bool, n: nat, i: int)
    requires
        n <= f.len(),
    ensures
        ({
            let g = crate::protocol::ir::schema::cased_fields(f, upper, n);
            &&& g.len() == n
            &&& 0 <= i < n ==> g[i] == (
                f[i].0,
                match (f[i].0 == "type"@, f[i].1) {
                    (true, JsonV::Text(s)) => JsonV::Text(
                        if upper {
                            crate::text::unicode_uppercase(s)
                        } else {
                            crate::text::unicode_lowercase(s)
                        },
                    ),
                    _ => crate::protocol::ir::schema::cased(f[i].1, upper),
                },
            )
        }),
    decreases n,
{
    if n > 0 {
        lemma_cased_upto(f, upper, (n - 1) as nat, i);
    }
}

} // verus!
