//! Content blocks as JSON values.
//!
//! A block is an object whose field `type` names it. A source behind a URL has no such form, nor
//! has a block that holds one.
use vstd::prelude::*;

use crate::json::{Json, JsonV};
use crate::protocol::ir::cache::{CacheControl, CacheTtl};
use crate::protocol::ir::request::{
    BlockV, ContentBlock, DocumentSource, DocumentV, MediaSource, MediaV,
};
use crate::views::Views;

verus! {

/// An object with its type.
pub open spec fn tagged(kind: Seq<char>) -> JsonV {
    JsonV::obj().with("type"@, JsonV::Text(kind))
}

/// A cache breakpoint as a value.
pub open spec fn cache_value(c: Option<CacheControl>) -> Option<JsonV> {
    match c {
        Some(c) => Some(
            JsonV::obj().with(
                "ttl"@,
                JsonV::Text(
                    if c.ttl is Ephemeral5m {
                        "ephemeral5m"@
                    } else {
                        "ephemeral1h"@
                    },
                ),
            ).with("breakpoint_priority"@, JsonV::num(c.breakpoint_priority as u64)),
        ),
        None => None,
    }
}

/// A media source as a value.
pub open spec fn media_value(m: MediaV) -> Option<JsonV> {
    match m {
        MediaV::Base64 { media_type, data } => Some(
            tagged("base64"@).with("media_type"@, JsonV::Text(media_type)).with(
                "data"@,
                JsonV::Text(data),
            ),
        ),
        MediaV::Url(_) => None,
        MediaV::FileId { file_id, detail } => Some(
            tagged("file_id"@).with("file_id"@, JsonV::Text(file_id)).with_opt(
                "detail"@,
                JsonV::opt_text(detail),
            ),
        ),
    }
}

/// The block `kind` around a source, where that has a value.
pub open spec fn around(kind: Seq<char>, source: Option<JsonV>) -> Option<JsonV> {
    match source {
        Some(v) => Some(tagged(kind).with("source"@, v)),
        None => None,
    }
}

/// A block with a cache breakpoint, where it has a value at all.
pub open spec fn cached(v: Option<JsonV>, c: Option<CacheControl>) -> Option<JsonV> {
    match v {
        Some(v) => Some(v.with_opt("cache_control"@, cache_value(c))),
        None => None,
    }
}

/// A document source as a value.
pub open spec fn document_value(d: DocumentV) -> Option<JsonV>
    decreases d, 0nat,
{
    match d {
        DocumentV::Base64Pdf { data } => Some(
            tagged("base64_pdf"@).with("data"@, JsonV::Text(data)),
        ),
        DocumentV::PlainText { data } => Some(
            tagged("plain_text"@).with("data"@, JsonV::Text(data)),
        ),
        DocumentV::Url(_) => None,
        DocumentV::Blocks { content } => match values_upto(content, content.len()) {
            Some(v) => Some(tagged("blocks"@).with("content"@, JsonV::Array(v))),
            None => None,
        },
    }
}

/// The values of the first `n` blocks, where all have one.
pub open spec fn values_upto(blocks: Seq<BlockV>, n: nat) -> Option<Seq<JsonV>>
    decreases blocks, n,
{
    if n == 0 || n > blocks.len() {
        Some(Seq::empty())
    } else {
        match values_upto(blocks, (n - 1) as nat) {
            Some(before) => match block_value(blocks[n - 1]) {
                Some(v) => Some(before.push(v)),
                None => None,
            },
            None => None,
        }
    }
}

/// A block as a value.
pub open spec fn block_value(b: BlockV) -> Option<JsonV>
    decreases b, 0nat,
{
    match b {
        BlockV::Text { text, cache_control } => cached(
            Some(tagged("text"@).with("text"@, JsonV::Text(text))),
            cache_control,
        ),
        BlockV::Image { source, cache_control } => cached(
            around("image"@, media_value(source)),
            cache_control,
        ),
        BlockV::Audio { source } => around("audio"@, media_value(source)),
        BlockV::File { source } => around("file"@, media_value(source)),
        BlockV::Thinking { thinking, signature } => Some(
            tagged("thinking"@).with("thinking"@, JsonV::Text(thinking)).with_opt(
                "signature"@,
                JsonV::opt_text(signature),
            ),
        ),
        BlockV::RedactedThinking { data } => Some(
            tagged("redacted_thinking"@).with("data"@, JsonV::Text(data)),
        ),
        BlockV::ToolUse { id, name, input, cache_control } => cached(
            Some(
                tagged("tool_use"@).with("id"@, JsonV::Text(id)).with(
                    "name"@,
                    JsonV::Text(name),
                ).with("input"@, input),
            ),
            cache_control,
        ),
        BlockV::ToolResult { tool_use_id, content, is_error, cache_control } => cached(
            Some(
                tagged("tool_result"@).with("tool_use_id"@, JsonV::Text(tool_use_id)).with(
                    "content"@,
                    content,
                ).with_opt("is_error"@, JsonV::opt_bool(is_error)),
            ),
            cache_control,
        ),
        BlockV::ServerToolUse { id, name, input, server_type, cache_control } => cached(
            Some(
                tagged("server_tool_use"@).with("id"@, JsonV::Text(id)).with(
                    "name"@,
                    JsonV::Text(name),
                ).with("input"@, input).with_opt("server_type"@, JsonV::opt_text(server_type)),
            ),
            cache_control,
        ),
        BlockV::ServerToolResult { tool_use_id, content, server_type, cache_control } => cached(
            Some(
                tagged("server_tool_result"@).with("tool_use_id"@, JsonV::Text(tool_use_id)).with(
                    "content"@,
                    content,
                ).with_opt("server_type"@, JsonV::opt_text(server_type)),
            ),
            cache_control,
        ),
        BlockV::Document { source, title, context, cache_control } => match document_value(source) {
            Some(v) => Some(
                tagged("document"@).with("source"@, v).with_opt(
                    "title"@,
                    JsonV::opt_text(title),
                ).with_opt("context"@, JsonV::opt_text(context)).with_opt(
                    "cache_control"@,
                    cache_value(cache_control),
                ),
            ),
            None => None,
        },
        BlockV::SearchResult { content, source, title, cache_control } => match values_upto(
            content,
            content.len(),
        ) {
            Some(v) => Some(
                tagged("search_result"@).with("content"@, JsonV::Array(v)).with(
                    "source"@,
                    JsonV::Text(source),
                ).with("title"@, JsonV::Text(title)).with_opt(
                    "cache_control"@,
                    cache_value(cache_control),
                ),
            ),
            None => None,
        },
        BlockV::Citation { cited_text, source } => Some(
            tagged("citation"@).with("cited_text"@, JsonV::Text(cited_text)).with(
                "source"@,
                source,
            ),
        ),
        BlockV::ExecutableCode { code, language, id } => Some(
            tagged("executable_code"@).with("code"@, JsonV::Text(code)).with_opt(
                "language"@,
                JsonV::opt_text(language),
            ).with_opt("id"@, JsonV::opt_text(id)),
        ),
        BlockV::CodeExecutionResult { return_code, stdout, stderr, id } => Some(
            tagged("code_execution_result"@).with(
                "return_code"@,
                JsonV::int_num(return_code as i64),
            ).with("stdout"@, JsonV::Text(stdout)).with("stderr"@, JsonV::Text(stderr)).with_opt(
                "id"@,
                JsonV::opt_text(id),
            ),
        ),
        BlockV::ContainerUpload { file_id, cache_control } => cached(
            Some(tagged("container_upload"@).with("file_id"@, JsonV::Text(file_id))),
            cache_control,
        ),
        BlockV::Refusal { refusal } => Some(
            tagged("refusal"@).with("refusal"@, JsonV::Text(refusal)),
        ),
        BlockV::Unknown { raw } => Some(tagged("unknown"@).with("raw"@, raw)),
    }
}

/// A block as a value, null where it has none.
pub open spec fn value_or_null(b: BlockV) -> JsonV {
    match block_value(b) {
        Some(v) => v,
        None => JsonV::Null,
    }
}

fn tag(kind: &str) -> (r: Json)
    ensures
        r@ == tagged(kind@),
{
    Json::object().with("type", Json::text(kind))
}

fn cache_json(c: &Option<CacheControl>) -> (r: Option<Json>)
    ensures
        r.views() == cache_value(*c),
{
    match c {
        Some(c) => {
            let ttl = if c.ttl == CacheTtl::Ephemeral5m {
                "ephemeral5m"
            } else {
                "ephemeral1h"
            };
            Some(
                Json::object().with("ttl", Json::text(ttl)).with(
                    "breakpoint_priority",
                    Json::num(c.breakpoint_priority as u64),
                ),
            )
        },
        None => None,
    }
}

fn media_json(m: &MediaSource) -> (r: Option<Json>)
    ensures
        r.views() == media_value(m@),
{
    match m {
        MediaSource::Base64 { media_type, data } => Some(
            tag("base64").with("media_type", Json::text(media_type.as_str())).with(
                "data",
                Json::text(data.as_str()),
            ),
        ),
        MediaSource::Url(_) => None,
        MediaSource::FileId { file_id, detail } => Some(
            tag("file_id").with("file_id", Json::text(file_id.as_str())).with_opt(
                "detail",
                Json::text_opt(detail),
            ),
        ),
    }
}

fn put_around(kind: &str, source: Option<Json>) -> (r: Option<Json>)
    ensures
        r.views() == around(kind@, source.views()),
{
    match source {
        Some(v) => Some(tag(kind).with("source", v)),
        None => None,
    }
}

fn put_cache(v: Option<Json>, c: &Option<CacheControl>) -> (r: Option<Json>)
    ensures
        r.views() == cached(v.views(), *c),
{
    match v {
        Some(v) => Some(v.with_opt("cache_control", cache_json(c))),
        None => None,
    }
}

fn document_json(d: &DocumentSource) -> (r: Option<Json>)
    ensures
        r.views() == document_value(d@),
    decreases d,
{
    match d {
        DocumentSource::Base64Pdf { data } => Some(
            tag("base64_pdf").with("data", Json::text(data.as_str())),
        ),
        DocumentSource::PlainText { data } => Some(
            tag("plain_text").with("data", Json::text(data.as_str())),
        ),
        DocumentSource::Url(_) => None,
        DocumentSource::Blocks { content } => match blocks_json(content) {
            Some(v) => Some(tag("blocks").with("content", Json::array(v))),
            None => None,
        },
    }
}

fn blocks_json(blocks: &Vec<ContentBlock>) -> (r: Option<Vec<Json>>)
    ensures
        crate::views::opt_list(r) == values_upto(blocks.views(), blocks@.len()),
    decreases blocks,
{
    let n: usize = blocks.len();
    let mut out: Option<Vec<Json>> = Some(crate::views::none());
    let mut i: usize = 0;
    while i < n
        invariant
            n == blocks@.len(),
            i <= n,
            crate::views::opt_list(out) == values_upto(blocks.views(), i as nat),
        decreases n - i,
    {
        assert(decreases_to!(blocks => blocks@[i as int]));
        assert(blocks.views()[i as int] == blocks@[i as int]@);
        out = match out {
            Some(before) => match block_json(&blocks[i]) {
                Some(v) => {
                    let mut all = before;
                    crate::views::push(&mut all, v);
                    Some(all)
                },
                None => None,
            },
            None => None,
        };
        i = i + 1;
    }
    out
}

/// Writes a block as a value.
pub fn block_json(b: &ContentBlock) -> (r: Option<Json>)
    ensures
        r.views() == block_value(b@),
    decreases b,
{
    broadcast use {
        crate::protocol::ir::request::lemma_document_view,
        crate::protocol::ir::request::lemma_search_view,
    };

    match b {
        ContentBlock::Text { text, cache_control } => put_cache(
            Some(tag("text").with("text", Json::text(text.as_str()))),
            cache_control,
        ),
        ContentBlock::Image { source, cache_control } => put_cache(
            put_around("image", media_json(source)),
            cache_control,
        ),
        ContentBlock::Audio { source } => put_around("audio", media_json(source)),
        ContentBlock::File { source } => put_around("file", media_json(source)),
        ContentBlock::Thinking { thinking, signature } => Some(
            tag("thinking").with("thinking", Json::text(thinking.as_str())).with_opt(
                "signature",
                Json::text_opt(signature),
            ),
        ),
        ContentBlock::RedactedThinking { data } => Some(
            tag("redacted_thinking").with("data", Json::text(data.as_str())),
        ),
        ContentBlock::ToolUse { id, name, input, cache_control } => put_cache(
            Some(
                tag("tool_use").with("id", Json::text(id.as_str())).with(
                    "name",
                    Json::text(name.as_str()),
                ).with("input", input.dup()),
            ),
            cache_control,
        ),
        ContentBlock::ToolResult { tool_use_id, content, is_error, cache_control } => put_cache(
            Some(
                tag("tool_result").with("tool_use_id", Json::text(tool_use_id.as_str())).with(
                    "content",
                    content.dup(),
                ).with_opt("is_error", Json::bool_opt(*is_error)),
            ),
            cache_control,
        ),
        ContentBlock::ServerToolUse { id, name, input, server_type, cache_control } => put_cache(
            Some(
                tag("server_tool_use").with("id", Json::text(id.as_str())).with(
                    "name",
                    Json::text(name.as_str()),
                ).with("input", input.dup()).with_opt("server_type", Json::text_opt(server_type)),
            ),
            cache_control,
        ),
        ContentBlock::ServerToolResult {
            tool_use_id,
            content,
            server_type,
            cache_control,
        } => put_cache(
            Some(
                tag("server_tool_result").with(
                    "tool_use_id",
                    Json::text(tool_use_id.as_str()),
                ).with("content", content.dup()).with_opt(
                    "server_type",
                    Json::text_opt(server_type),
                ),
            ),
            cache_control,
        ),
        ContentBlock::Document { source, title, context, cache_control } => match document_json(
            source,
        ) {
            Some(v) => Some(
                tag("document").with("source", v).with_opt("title", Json::text_opt(title)).with_opt(
                    "context",
                    Json::text_opt(context),
                ).with_opt("cache_control", cache_json(cache_control)),
            ),
            None => None,
        },
        ContentBlock::SearchResult { content, source, title, cache_control } => match blocks_json(
            content,
        ) {
            Some(v) => Some(
                tag("search_result").with("content", Json::array(v)).with(
                    "source",
                    Json::text(source.as_str()),
                ).with("title", Json::text(title.as_str())).with_opt(
                    "cache_control",
                    cache_json(cache_control),
                ),
            ),
            None => None,
        },
        ContentBlock::Citation { cited_text, source } => Some(
            tag("citation").with("cited_text", Json::text(cited_text.as_str())).with(
                "source",
                source.dup(),
            ),
        ),
        ContentBlock::ExecutableCode { code, language, id } => Some(
            tag("executable_code").with("code", Json::text(code.as_str())).with_opt(
                "language",
                Json::text_opt(language),
            ).with_opt("id", Json::text_opt(id)),
        ),
        ContentBlock::CodeExecutionResult { return_code, stdout, stderr, id } => Some(
            tag("code_execution_result").with(
                "return_code",
                Json::int_num(*return_code as i64),
            ).with("stdout", Json::text(stdout.as_str())).with(
                "stderr",
                Json::text(stderr.as_str()),
            ).with_opt("id", Json::text_opt(id)),
        ),
        ContentBlock::ContainerUpload { file_id, cache_control } => put_cache(
            Some(tag("container_upload").with("file_id", Json::text(file_id.as_str()))),
            cache_control,
        ),
        ContentBlock::Refusal { refusal } => Some(
            tag("refusal").with("refusal", Json::text(refusal.as_str())),
        ),
        ContentBlock::Unknown { raw } => Some(tag("unknown").with("raw", raw.dup())),
    }
}

/// Writes a block as a value, null where it has none.
pub fn block_or_null(b: &ContentBlock) -> (r: Json)
    ensures
        r@ == value_or_null(b@),
{
    match block_json(b) {
        Some(v) => v,
        None => Json::Null,
    }
}

} // verus!
