//! Requests in the internal representation.
use vstd::prelude::*;

use crate::json::{Json, JsonV};
use crate::protocol::ids::{EndpointV, ProtocolId};
use crate::protocol::ir::cache::CacheControl;
use crate::protocol::ir::envelope::{EnvelopeV, RawEnvelope};
use crate::protocol::ir::ext::{ExtV, ProtocolExt};
use crate::protocol::ir::vendor_ext::{VendorExtensions, VendorV};
use crate::protocol::types::ToolCallV;
use crate::views::Views;

verus! {

/// Who speaks in a message.
#[derive(Debug, Clone, Copy, PartialEq, Eq, Hash, Structural)]
pub enum Role {
    System,
    User,
    Assistant,
    Tool,
}

// ---------------------------------------------------------------- content

/// Where the data of an image or an audio block is.
#[derive(Debug)]
pub enum MediaSource {
    /// Inline, in base64.
    Base64 { media_type: String, data: String },
    /// Behind a URL.
    Url(String),
    /// In a file of the provider.
    FileId { file_id: String, detail: Option<String> },
}

pub enum MediaV {
    Base64 { media_type: Seq<char>, data: Seq<char> },
    Url(Seq<char>),
    FileId { file_id: Seq<char>, detail: Option<Seq<char>> },
}

impl View for MediaSource {
    type V = MediaV;

    open spec fn view(&self) -> MediaV {
        match self {
            MediaSource::Base64 { media_type, data } => MediaV::Base64 {
                media_type: media_type@,
                data: data@,
            },
            MediaSource::Url(u) => MediaV::Url(u@),
            MediaSource::FileId { file_id, detail } => MediaV::FileId {
                file_id: file_id@,
                detail: detail.views(),
            },
        }
    }
}

/// Where the data of a document is.
#[derive(Debug)]
pub enum DocumentSource {
    Base64Pdf { data: String },
    PlainText { data: String },
    Url(String),
    /// In blocks of its own.
    Blocks { content: Vec<ContentBlock> },
}

pub enum DocumentV {
    Base64Pdf { data: Seq<char> },
    PlainText { data: Seq<char> },
    Url(Seq<char>),
    Blocks { content: Seq<BlockV> },
}

/// A typed block of a message.
#[derive(Debug)]
#[allow(inconsistent_fields)]
pub enum ContentBlock {
    Text { text: String, cache_control: Option<CacheControl> },
    Image { source: MediaSource, cache_control: Option<CacheControl> },
    Audio { source: MediaSource },
    File { source: MediaSource },
    Thinking { thinking: String, signature: Option<String> },
    RedactedThinking { data: String },
    ToolUse { id: String, name: String, input: Json, cache_control: Option<CacheControl> },
    ToolResult {
        tool_use_id: String,
        content: Json,
        is_error: Option<bool>,
        cache_control: Option<CacheControl>,
    },
    /// A call of a tool that the provider runs.
    ServerToolUse {
        id: String,
        name: String,
        input: Json,
        server_type: Option<String>,
        cache_control: Option<CacheControl>,
    },
    /// The result of a tool that the provider ran.
    ServerToolResult {
        tool_use_id: String,
        content: Json,
        server_type: Option<String>,
        cache_control: Option<CacheControl>,
    },
    Document {
        source: DocumentSource,
        title: Option<String>,
        context: Option<String>,
        cache_control: Option<CacheControl>,
    },
    SearchResult {
        content: Vec<ContentBlock>,
        source: String,
        title: String,
        cache_control: Option<CacheControl>,
    },
    Citation { cited_text: String, source: Json },
    ExecutableCode { code: String, language: Option<String>, id: Option<String> },
    CodeExecutionResult { return_code: i32, stdout: String, stderr: String, id: Option<String> },
    ContainerUpload { file_id: String, cache_control: Option<CacheControl> },
    Refusal { refusal: String },
    /// A block of an unknown type, verbatim.
    Unknown { raw: Json },
}

#[allow(inconsistent_fields)]
pub enum BlockV {
    Text { text: Seq<char>, cache_control: Option<CacheControl> },
    Image { source: MediaV, cache_control: Option<CacheControl> },
    Audio { source: MediaV },
    File { source: MediaV },
    Thinking { thinking: Seq<char>, signature: Option<Seq<char>> },
    RedactedThinking { data: Seq<char> },
    ToolUse { id: Seq<char>, name: Seq<char>, input: JsonV, cache_control: Option<CacheControl> },
    ToolResult {
        tool_use_id: Seq<char>,
        content: JsonV,
        is_error: Option<bool>,
        cache_control: Option<CacheControl>,
    },
    ServerToolUse {
        id: Seq<char>,
        name: Seq<char>,
        input: JsonV,
        server_type: Option<Seq<char>>,
        cache_control: Option<CacheControl>,
    },
    ServerToolResult {
        tool_use_id: Seq<char>,
        content: JsonV,
        server_type: Option<Seq<char>>,
        cache_control: Option<CacheControl>,
    },
    Document {
        source: DocumentV,
        title: Option<Seq<char>>,
        context: Option<Seq<char>>,
        cache_control: Option<CacheControl>,
    },
    SearchResult {
        content: Seq<BlockV>,
        source: Seq<char>,
        title: Seq<char>,
        cache_control: Option<CacheControl>,
    },
    Citation { cited_text: Seq<char>, source: JsonV },
    ExecutableCode { code: Seq<char>, language: Option<Seq<char>>, id: Option<Seq<char>> },
    CodeExecutionResult {
        return_code: i32,
        stdout: Seq<char>,
        stderr: Seq<char>,
        id: Option<Seq<char>>,
    },
    ContainerUpload { file_id: Seq<char>, cache_control: Option<CacheControl> },
    Refusal { refusal: Seq<char> },
    Unknown { raw: JsonV },
}

impl View for ContentBlock {
    type V = BlockV;

    open spec fn view(&self) -> BlockV
        decreases self,
    {
        match self {
            ContentBlock::Text { text, cache_control } => BlockV::Text {
                text: text@,
                cache_control: *cache_control,
            },
            ContentBlock::Image { source, cache_control } => BlockV::Image {
                source: source@,
                cache_control: *cache_control,
            },
            ContentBlock::Audio { source } => BlockV::Audio { source: source@ },
            ContentBlock::File { source } => BlockV::File { source: source@ },
            ContentBlock::Thinking { thinking, signature } => BlockV::Thinking {
                thinking: thinking@,
                signature: signature.views(),
            },
            ContentBlock::RedactedThinking { data } => BlockV::RedactedThinking { data: data@ },
            ContentBlock::ToolUse { id, name, input, cache_control } => BlockV::ToolUse {
                id: id@,
                name: name@,
                input: input@,
                cache_control: *cache_control,
            },
            ContentBlock::ToolResult {
                tool_use_id,
                content,
                is_error,
                cache_control,
            } => BlockV::ToolResult {
                tool_use_id: tool_use_id@,
                content: content@,
                is_error: *is_error,
                cache_control: *cache_control,
            },
            ContentBlock::ServerToolUse {
                id,
                name,
                input,
                server_type,
                cache_control,
            } => BlockV::ServerToolUse {
                id: id@,
                name: name@,
                input: input@,
                server_type: server_type.views(),
                cache_control: *cache_control,
            },
            ContentBlock::ServerToolResult {
                tool_use_id,
                content,
                server_type,
                cache_control,
            } => BlockV::ServerToolResult {
                tool_use_id: tool_use_id@,
                content: content@,
                server_type: server_type.views(),
                cache_control: *cache_control,
            },
            ContentBlock::Document { source, title, context, cache_control } => BlockV::Document {
                source: match source {
                    DocumentSource::Base64Pdf { data } => DocumentV::Base64Pdf { data: data@ },
                    DocumentSource::PlainText { data } => DocumentV::PlainText { data: data@ },
                    DocumentSource::Url(u) => DocumentV::Url(u@),
                    DocumentSource::Blocks { content } => DocumentV::Blocks {
                        content: Seq::new(
                            content@.len(),
                            |i: int|
                                if 0 <= i < content@.len() {
                                    content@[i].view()
                                } else {
                                    BlockV::Refusal { refusal: Seq::empty() }
                                },
                        ),
                    },
                },
                title: title.views(),
                context: context.views(),
                cache_control: *cache_control,
            },
            ContentBlock::SearchResult {
                content,
                source,
                title,
                cache_control,
            } => BlockV::SearchResult {
                content: Seq::new(
                    content@.len(),
                    |i: int|
                        if 0 <= i < content@.len() {
                            content@[i].view()
                        } else {
                            BlockV::Refusal { refusal: Seq::empty() }
                        },
                ),
                source: source@,
                title: title@,
                cache_control: *cache_control,
            },
            ContentBlock::Citation { cited_text, source } => BlockV::Citation {
                cited_text: cited_text@,
                source: source@,
            },
            ContentBlock::ExecutableCode { code, language, id } => BlockV::ExecutableCode {
                code: code@,
                language: language.views(),
                id: id.views(),
            },
            ContentBlock::CodeExecutionResult {
                return_code,
                stdout,
                stderr,
                id,
            } => BlockV::CodeExecutionResult {
                return_code: *return_code,
                stdout: stdout@,
                stderr: stderr@,
                id: id.views(),
            },
            ContentBlock::ContainerUpload { file_id, cache_control } => BlockV::ContainerUpload {
                file_id: file_id@,
                cache_control: *cache_control,
            },
            ContentBlock::Refusal { refusal } => BlockV::Refusal { refusal: refusal@ },
            ContentBlock::Unknown { raw } => BlockV::Unknown { raw: raw@ },
        }
    }
}

impl View for DocumentSource {
    type V = DocumentV;

    open spec fn view(&self) -> DocumentV {
        match self {
            DocumentSource::Base64Pdf { data } => DocumentV::Base64Pdf { data: data@ },
            DocumentSource::PlainText { data } => DocumentV::PlainText { data: data@ },
            DocumentSource::Url(u) => DocumentV::Url(u@),
            DocumentSource::Blocks { content } => DocumentV::Blocks { content: content.views() },
        }
    }
}

/// What a document block is, over the view of its source.
pub broadcast proof fn lemma_document_view(
    source: DocumentSource,
    title: Option<String>,
    context: Option<String>,
    cache_control: Option<CacheControl>,
)
    ensures
        #[trigger] (ContentBlock::Document { source, title, context, cache_control })@ == (
        BlockV::Document {
            source: source@,
            title: title.views(),
            context: context.views(),
            cache_control,
        }),
{
    let b = ContentBlock::Document { source, title, context, cache_control };
    if let DocumentSource::Blocks { content } = source {
        let w = b@->Document_source->content;
        assert forall|i: int| 0 <= i < content@.len() implies w[i] == content@[i]@ by {
            reveal_with_fuel(<ContentBlock as View>::view, 2);
        }
        assert(w =~= content.views());
    }
}

/// What a search result block is, over the views of its blocks.
pub broadcast proof fn lemma_search_view(
    content: Vec<ContentBlock>,
    source: String,
    title: String,
    cache_control: Option<CacheControl>,
)
    ensures
        #[trigger] (ContentBlock::SearchResult { content, source, title, cache_control })@ == (
        BlockV::SearchResult {
            content: content.views(),
            source: source@,
            title: title@,
            cache_control,
        }),
{
    let b = ContentBlock::SearchResult { content, source, title, cache_control };
    let w = b@->SearchResult_content;
    assert forall|i: int| 0 <= i < content@.len() implies w[i] == content@[i]@ by {
        reveal_with_fuel(<ContentBlock as View>::view, 2);
    }
    assert(w =~= content.views());
}

impl BlockV {
    pub open spec fn as_text(self) -> Option<Seq<char>> {
        match self {
            BlockV::Text { text, .. } => Some(text),
            _ => None,
        }
    }
}

impl ContentBlock {
    /// The text of a text block.
    pub fn as_text(&self) -> (r: Option<&str>)
        ensures
            r.views() == self@.as_text(),
    {
        match self {
            ContentBlock::Text { text, .. } => Some(text.as_str()),
            _ => None,
        }
    }

    /// Whether the block calls a tool.
    pub fn is_tool_use(&self) -> (r: bool)
        ensures
            r == (self@ is ToolUse || self@ is ServerToolUse),
    {
        match self {
            ContentBlock::ToolUse { .. } => true,
            ContentBlock::ServerToolUse { .. } => true,
            _ => false,
        }
    }

    /// Whether the block holds a tool's result.
    pub fn is_tool_result(&self) -> (r: bool)
        ensures
            r == (self@ is ToolResult || self@ is ServerToolResult),
    {
        match self {
            ContentBlock::ToolResult { .. } => true,
            ContentBlock::ServerToolResult { .. } => true,
            _ => false,
        }
    }
}

impl MediaSource {
    /// A copy of the source.
    pub fn dup(&self) -> (r: Self)
        ensures
            r@ == self@,
    {
        match self {
            MediaSource::Base64 { media_type, data } => MediaSource::Base64 {
                media_type: media_type.clone(),
                data: data.clone(),
            },
            MediaSource::Url(u) => MediaSource::Url(u.clone()),
            MediaSource::FileId { file_id, detail } => MediaSource::FileId {
                file_id: file_id.clone(),
                detail: crate::text::clone_opt(detail),
            },
        }
    }
}

impl DocumentSource {
    /// A copy of the source.
    pub fn dup(&self) -> (r: Self)
        ensures
            r@ == self@,
        decreases self,
    {
        match self {
            DocumentSource::Base64Pdf { data } => DocumentSource::Base64Pdf { data: data.clone() },
            DocumentSource::PlainText { data } => DocumentSource::PlainText { data: data.clone() },
            DocumentSource::Url(u) => DocumentSource::Url(u.clone()),
            DocumentSource::Blocks { content } => DocumentSource::Blocks {
                content: dup_blocks(content),
            },
        }
    }
}

/// A copy of a list of blocks.
pub fn dup_blocks(v: &Vec<ContentBlock>) -> (r: Vec<ContentBlock>)
    ensures
        r.views() == v.views(),
    decreases v,
{
    let n: usize = v.len();
    let mut out: Vec<ContentBlock> = Vec::new();
    let mut i: usize = 0;
    while i < n
        invariant
            n == v@.len(),
            i <= n,
            out@.len() == i,
            forall|j: int| 0 <= j < i ==> (#[trigger] out@[j])@ == v@[j]@,
        decreases n - i,
    {
        assert(decreases_to!(v => v@[i as int]));
        out.push(v[i].dup());
        i = i + 1;
    }
    assert(out.views() =~= v.views());
    out
}

impl ContentBlock {
    /// A copy of the block.
    pub fn dup(&self) -> (r: Self)
        ensures
            r@ == self@,
        decreases self,
    {
        broadcast use {lemma_document_view, lemma_search_view};

        match self {
            ContentBlock::Text { text, cache_control } => ContentBlock::Text {
                text: text.clone(),
                cache_control: *cache_control,
            },
            ContentBlock::Image { source, cache_control } => ContentBlock::Image {
                source: source.dup(),
                cache_control: *cache_control,
            },
            ContentBlock::Audio { source } => ContentBlock::Audio { source: source.dup() },
            ContentBlock::File { source } => ContentBlock::File { source: source.dup() },
            ContentBlock::Thinking { thinking, signature } => ContentBlock::Thinking {
                thinking: thinking.clone(),
                signature: crate::text::clone_opt(signature),
            },
            ContentBlock::RedactedThinking { data } => ContentBlock::RedactedThinking {
                data: data.clone(),
            },
            ContentBlock::ToolUse { id, name, input, cache_control } => ContentBlock::ToolUse {
                id: id.clone(),
                name: name.clone(),
                input: input.dup(),
                cache_control: *cache_control,
            },
            ContentBlock::ToolResult {
                tool_use_id,
                content,
                is_error,
                cache_control,
            } => ContentBlock::ToolResult {
                tool_use_id: tool_use_id.clone(),
                content: content.dup(),
                is_error: *is_error,
                cache_control: *cache_control,
            },
            ContentBlock::ServerToolUse {
                id,
                name,
                input,
                server_type,
                cache_control,
            } => ContentBlock::ServerToolUse {
                id: id.clone(),
                name: name.clone(),
                input: input.dup(),
                server_type: crate::text::clone_opt(server_type),
                cache_control: *cache_control,
            },
            ContentBlock::ServerToolResult {
                tool_use_id,
                content,
                server_type,
                cache_control,
            } => ContentBlock::ServerToolResult {
                tool_use_id: tool_use_id.clone(),
                content: content.dup(),
                server_type: crate::text::clone_opt(server_type),
                cache_control: *cache_control,
            },
            ContentBlock::Document {
                source,
                title,
                context,
                cache_control,
            } => ContentBlock::Document {
                source: source.dup(),
                title: crate::text::clone_opt(title),
                context: crate::text::clone_opt(context),
                cache_control: *cache_control,
            },
            ContentBlock::SearchResult {
                content,
                source,
                title,
                cache_control,
            } => ContentBlock::SearchResult {
                content: dup_blocks(content),
                source: source.clone(),
                title: title.clone(),
                cache_control: *cache_control,
            },
            ContentBlock::Citation { cited_text, source } => ContentBlock::Citation {
                cited_text: cited_text.clone(),
                source: source.dup(),
            },
            ContentBlock::ExecutableCode { code, language, id } => ContentBlock::ExecutableCode {
                code: code.clone(),
                language: crate::text::clone_opt(language),
                id: crate::text::clone_opt(id),
            },
            ContentBlock::CodeExecutionResult {
                return_code,
                stdout,
                stderr,
                id,
            } => ContentBlock::CodeExecutionResult {
                return_code: *return_code,
                stdout: stdout.clone(),
                stderr: stderr.clone(),
                id: crate::text::clone_opt(id),
            },
            ContentBlock::ContainerUpload {
                file_id,
                cache_control,
            } => ContentBlock::ContainerUpload {
                file_id: file_id.clone(),
                cache_control: *cache_control,
            },
            ContentBlock::Refusal { refusal } => ContentBlock::Refusal {
                refusal: refusal.clone(),
            },
            ContentBlock::Unknown { raw } => ContentBlock::Unknown { raw: raw.dup() },
        }
    }
}

/// The content of a message: plain text or typed blocks.
#[derive(Debug)]
pub enum MessageContent {
    Text(String),
    Blocks(Vec<ContentBlock>),
}

pub enum ContentV {
    Text(Seq<char>),
    Blocks(Seq<BlockV>),
}

impl View for MessageContent {
    type V = ContentV;

    open spec fn view(&self) -> ContentV {
        match self {
            MessageContent::Text(s) => ContentV::Text(s@),
            MessageContent::Blocks(b) => ContentV::Blocks(b.views()),
        }
    }
}

impl ContentV {
    /// The texts of the first `n` blocks, one behind the other.
    pub open spec fn block_text(blocks: Seq<BlockV>, n: nat) -> Seq<char>
        decreases n,
    {
        if n == 0 {
            Seq::empty()
        } else {
            let before = Self::block_text(blocks, (n - 1) as nat);
            match blocks[n - 1].as_text() {
                Some(text) => before + text,
                None => before,
            }
        }
    }

    /// The text of the content: all its text blocks, one behind the other.
    pub open spec fn to_text(self) -> Seq<char> {
        match self {
            ContentV::Text(s) => s,
            ContentV::Blocks(b) => Self::block_text(b, b.len()),
        }
    }
}

impl MessageContent {
    /// A copy of the content.
    pub fn dup(&self) -> (r: Self)
        ensures
            r@ == self@,
    {
        match self {
            MessageContent::Text(t) => MessageContent::Text(t.clone()),
            MessageContent::Blocks(v) => MessageContent::Blocks(dup_blocks(v)),
        }
    }

    /// The text of the content: all its text blocks, one behind the other.
    pub fn to_text(&self) -> (r: String)
        ensures
            r@ == self@.to_text(),
    {
        match self {
            MessageContent::Text(t) => t.clone(),
            MessageContent::Blocks(blocks) => {
                let mut out: String = String::new();
                assert(out@ =~= Seq::<char>::empty());
                for i in 0..blocks.len()
                    invariant
                        out@ == ContentV::block_text(blocks.views(), i as nat),
                {
                    assert(blocks.views()[i as int] == blocks@[i as int]@);
                    match blocks[i].as_text() {
                        Some(text) => {
                            out.append(text);
                        },
                        None => {},
                    }
                }
                out
            },
        }
    }
}

// ---------------------------------------------------------------- messages and tools

/// A message.
#[derive(Debug)]
pub struct Message {
    pub role: Role,
    pub content: MessageContent,
    pub tool_calls: Option<Vec<ToolCall>>,
    /// The call that a tool's message answers.
    pub tool_call_id: Option<String>,
    /// What the protocol says of this message besides.
    pub meta: Option<Json>,
}

pub struct MessageV {
    pub role: Role,
    pub content: ContentV,
    pub tool_calls: Option<Seq<ToolCallV>>,
    pub tool_call_id: Option<Seq<char>>,
    pub meta: Option<JsonV>,
}

impl View for Message {
    type V = MessageV;

    open spec fn view(&self) -> MessageV {
        MessageV {
            role: self.role,
            content: self.content@,
            tool_calls: crate::views::opt_list(self.tool_calls),
            tool_call_id: self.tool_call_id.views(),
            meta: self.meta.views(),
        }
    }
}

impl MessageV {
    /// A message with nothing but a content.
    pub open spec fn plain(role: Role, content: ContentV) -> MessageV {
        MessageV { role, content, tool_calls: None, tool_call_id: None, meta: None }
    }
}

impl Message {
    /// A message with nothing but a content.
    pub fn plain(role: Role, content: MessageContent) -> (r: Self)
        ensures
            r@ == MessageV::plain(role, content@),
    {
        Message { role, content, tool_calls: None, tool_call_id: None, meta: None }
    }

    /// A copy of the message.
    pub fn dup(&self) -> (r: Self)
        ensures
            r@ == self@,
    {
        Message {
            role: self.role,
            content: self.content.dup(),
            tool_calls: match &self.tool_calls {
                Some(v) => Some(dup_calls(v)),
                None => None,
            },
            tool_call_id: crate::text::clone_opt(&self.tool_call_id),
            meta: crate::json::dup_opt(&self.meta),
        }
    }
}

/// A copy of a list of calls.
pub fn dup_calls(v: &Vec<ToolCall>) -> (r: Vec<ToolCall>)
    ensures
        r.views() == v.views(),
{
    let mut out: Vec<ToolCall> = crate::views::none();
    for i in 0..v.len()
        invariant
            out.views().len() == i,
            forall|j: int| 0 <= j < i ==> #[trigger] out.views()[j] == v.views()[j],
    {
        crate::views::push(&mut out, v[i].dup());
    }
    assert(out.views() =~= v.views());
    out
}

/// A tool call of the model.
#[derive(Debug)]
pub struct ToolCall {
    pub id: String,
    pub name: String,
    pub arguments: String,
}

impl View for ToolCall {
    type V = ToolCallV;

    open spec fn view(&self) -> ToolCallV {
        ToolCallV { id: self.id@, name: self.name@, arguments: self.arguments@ }
    }
}

impl ToolCall {
    /// A copy of the call.
    pub fn dup(&self) -> (r: Self)
        ensures
            r@ == self@,
    {
        ToolCall {
            id: self.id.clone(),
            name: self.name.clone(),
            arguments: self.arguments.clone(),
        }
    }
}

/// A tool that the model may call.
#[derive(Debug)]
pub struct ToolSpec {
    pub name: String,
    pub description: Option<String>,
    /// The JSON schema of its input.
    pub parameters: Json,
    /// Whether the input must meet the schema.
    pub strict: Option<bool>,
    pub cache_control: Option<CacheControl>,
    pub meta: Option<Json>,
}

pub struct ToolSpecV {
    pub name: Seq<char>,
    pub description: Option<Seq<char>>,
    pub parameters: JsonV,
    pub strict: Option<bool>,
    pub cache_control: Option<CacheControl>,
    pub meta: Option<JsonV>,
}

impl View for ToolSpec {
    type V = ToolSpecV;

    open spec fn view(&self) -> ToolSpecV {
        ToolSpecV {
            name: self.name@,
            description: self.description.views(),
            parameters: self.parameters@,
            strict: self.strict,
            cache_control: self.cache_control,
            meta: self.meta.views(),
        }
    }
}

/// How the model picks tools.
#[derive(Debug)]
pub enum ToolChoice {
    /// As it sees fit.
    Auto,
    /// Not at all.
    Forbidden,
    /// At least one.
    Required,
    /// This one.
    Named { name: String },
    /// As the protocol's own value says.
    Raw(Json),
}

pub enum ToolChoiceV {
    Auto,
    Forbidden,
    Required,
    Named { name: Seq<char> },
    Raw(JsonV),
}

impl View for ToolChoice {
    type V = ToolChoiceV;

    open spec fn view(&self) -> ToolChoiceV {
        match self {
            ToolChoice::Auto => ToolChoiceV::Auto,
            ToolChoice::Forbidden => ToolChoiceV::Forbidden,
            ToolChoice::Required => ToolChoiceV::Required,
            ToolChoice::Named { name } => ToolChoiceV::Named { name: name@ },
            ToolChoice::Raw(v) => ToolChoiceV::Raw(v@),
        }
    }
}

// ---------------------------------------------------------------- configuration

/// The parameters of generation. Floating point numbers are held by their decimal text.
#[derive(Debug)]
pub struct GenerationConfig {
    pub temperature: Option<String>,
    pub max_tokens: Option<u32>,
    pub top_p: Option<String>,
    pub seed: Option<i64>,
    pub stop: Option<Vec<String>>,
    pub presence_penalty: Option<String>,
    pub frequency_penalty: Option<String>,
}

pub struct GenerationV {
    pub temperature: Option<Seq<char>>,
    pub max_tokens: Option<u32>,
    pub top_p: Option<Seq<char>>,
    pub seed: Option<i64>,
    pub stop: Option<Seq<Seq<char>>>,
    pub presence_penalty: Option<Seq<char>>,
    pub frequency_penalty: Option<Seq<char>>,
}

impl GenerationV {
    pub open spec fn none() -> GenerationV {
        GenerationV {
            temperature: None,
            max_tokens: None,
            top_p: None,
            seed: None,
            stop: None,
            presence_penalty: None,
            frequency_penalty: None,
        }
    }
}

impl View for GenerationConfig {
    type V = GenerationV;

    open spec fn view(&self) -> GenerationV {
        GenerationV {
            temperature: self.temperature.views(),
            max_tokens: self.max_tokens,
            top_p: self.top_p.views(),
            seed: self.seed,
            stop: crate::views::opt_list(self.stop),
            presence_penalty: self.presence_penalty.views(),
            frequency_penalty: self.frequency_penalty.views(),
        }
    }
}

impl Default for GenerationConfig {
    fn default() -> (r: Self)
        ensures
            r@ == GenerationV::none(),
    {
        GenerationConfig {
            temperature: None,
            max_tokens: None,
            top_p: None,
            seed: None,
            stop: None,
            presence_penalty: None,
            frequency_penalty: None,
        }
    }
}

/// How hard a model shall think.
#[derive(Debug, Clone, Copy, PartialEq, Eq, Structural)]
pub enum ReasoningEffort {
    Off,
    Minimal,
    Low,
    Medium,
    High,
    Xhigh,
    /// A budget in tokens.
    Budget(u32),
}

/// The thinking that is asked for.
#[derive(Debug)]
pub struct ReasoningConfig {
    pub enabled: bool,
    pub budget_tokens: Option<u32>,
    pub effort: Option<ReasoningEffort>,
    pub display: Option<String>,
}

pub struct ReasoningV {
    pub enabled: bool,
    pub budget_tokens: Option<u32>,
    pub effort: Option<ReasoningEffort>,
    pub display: Option<Seq<char>>,
}

impl ReasoningV {
    pub open spec fn none() -> ReasoningV {
        ReasoningV { enabled: false, budget_tokens: None, effort: None, display: None }
    }
}

impl View for ReasoningConfig {
    type V = ReasoningV;

    open spec fn view(&self) -> ReasoningV {
        ReasoningV {
            enabled: self.enabled,
            budget_tokens: self.budget_tokens,
            effort: self.effort,
            display: self.display.views(),
        }
    }
}

impl Default for ReasoningConfig {
    fn default() -> (r: Self)
        ensures
            r@ == ReasoningV::none(),
    {
        ReasoningConfig { enabled: false, budget_tokens: None, effort: None, display: None }
    }
}

/// The form that the answer must have.
#[derive(Debug)]
pub enum ResponseFormat {
    Text,
    JsonObject,
    JsonSchema { name: String, schema: Json, strict: Option<bool> },
}

pub enum ResponseFormatV {
    Text,
    JsonObject,
    JsonSchema { name: Seq<char>, schema: JsonV, strict: Option<bool> },
}

impl View for ResponseFormat {
    type V = ResponseFormatV;

    open spec fn view(&self) -> ResponseFormatV {
        match self {
            ResponseFormat::Text => ResponseFormatV::Text,
            ResponseFormat::JsonObject => ResponseFormatV::JsonObject,
            ResponseFormat::JsonSchema { name, schema, strict } => ResponseFormatV::JsonSchema {
                name: name@,
                schema: schema@,
                strict: *strict,
            },
        }
    }
}

/// Whether the answer is streamed.
#[derive(Debug, Clone, Copy, PartialEq, Eq, Structural)]
pub struct StreamConfig {
    pub enabled: bool,
    /// Whether the last chunk shall hold the token counts.
    pub include_usage: bool,
}

impl Default for StreamConfig {
    fn default() -> (r: Self)
        ensures
            r == (StreamConfig { enabled: false, include_usage: false }),
    {
        StreamConfig { enabled: false, include_usage: false }
    }
}

/// A safety threshold of Google.
#[derive(Debug)]
pub struct SafetySettings {
    pub category: String,
    pub threshold: String,
}

pub struct SafetyV {
    pub category: Seq<char>,
    pub threshold: Seq<char>,
}

impl View for SafetySettings {
    type V = SafetyV;

    open spec fn view(&self) -> SafetyV {
        SafetyV { category: self.category@, threshold: self.threshold@ }
    }
}

/// What is known of a request besides.
#[derive(Debug)]
pub struct RequestMetadata {
    /// The endpoint that the client spoke.
    pub source_protocol: Option<ProtocolId>,
    pub raw: Option<RawEnvelope>,
    pub vendor: VendorExtensions,
}

pub struct MetaV {
    pub source_protocol: Option<EndpointV>,
    pub raw: Option<EnvelopeV>,
    pub vendor: VendorV,
}

impl MetaV {
    pub open spec fn none() -> MetaV {
        MetaV { source_protocol: None, raw: None, vendor: VendorV::none() }
    }
}

impl View for RequestMetadata {
    type V = MetaV;

    open spec fn view(&self) -> MetaV {
        MetaV {
            source_protocol: self.source_protocol.views(),
            raw: self.raw.views(),
            vendor: self.vendor@,
        }
    }
}

impl Default for RequestMetadata {
    fn default() -> (r: Self)
        ensures
            r@ == MetaV::none(),
    {
        RequestMetadata { source_protocol: None, raw: None, vendor: VendorExtensions::default() }
    }
}

// ---------------------------------------------------------------- the request

/// A request.
#[derive(Debug)]
pub struct AiRequest {
    /// The model as the client named it.
    pub model: String,
    pub messages: Vec<Message>,
    pub system: Option<String>,
    pub generation: GenerationConfig,
    pub stream: StreamConfig,
    pub tools: Option<Vec<ToolSpec>>,
    pub tool_choice: Option<ToolChoice>,
    pub parallel_tool_calls: Option<bool>,
    pub disable_parallel_tool_calls: Option<bool>,
    pub reasoning: ReasoningConfig,
    pub response_format: Option<ResponseFormat>,
    pub safety_settings: Option<Vec<SafetySettings>>,
    /// What only the source protocol knows.
    pub ext: Option<ProtocolExt>,
    pub meta: RequestMetadata,
}

pub struct AiRequestV {
    pub model: Seq<char>,
    pub messages: Seq<MessageV>,
    pub system: Option<Seq<char>>,
    pub generation: GenerationV,
    pub stream: StreamConfig,
    pub tools: Option<Seq<ToolSpecV>>,
    pub tool_choice: Option<ToolChoiceV>,
    pub parallel_tool_calls: Option<bool>,
    pub disable_parallel_tool_calls: Option<bool>,
    pub reasoning: ReasoningV,
    pub response_format: Option<ResponseFormatV>,
    pub safety_settings: Option<Seq<SafetyV>>,
    pub ext: Option<ExtV>,
    pub meta: MetaV,
}

impl AiRequestV {
    /// A request with nothing but a model and messages.
    pub open spec fn bare(model: Seq<char>, messages: Seq<MessageV>) -> AiRequestV {
        AiRequestV {
            model,
            messages,
            system: None,
            generation: GenerationV::none(),
            stream: StreamConfig { enabled: false, include_usage: false },
            tools: None,
            tool_choice: None,
            parallel_tool_calls: None,
            disable_parallel_tool_calls: None,
            reasoning: ReasoningV::none(),
            response_format: None,
            safety_settings: None,
            ext: None,
            meta: MetaV::none(),
        }
    }
}

impl View for AiRequest {
    type V = AiRequestV;

    open spec fn view(&self) -> AiRequestV {
        AiRequestV {
            model: self.model@,
            messages: self.messages.views(),
            system: self.system.views(),
            generation: self.generation@,
            stream: self.stream,
            tools: crate::views::opt_list(self.tools),
            tool_choice: self.tool_choice.views(),
            parallel_tool_calls: self.parallel_tool_calls,
            disable_parallel_tool_calls: self.disable_parallel_tool_calls,
            reasoning: self.reasoning@,
            response_format: self.response_format.views(),
            safety_settings: crate::views::opt_list(self.safety_settings),
            ext: self.ext.views(),
            meta: self.meta@,
        }
    }
}

impl AiRequest {
    /// A request with nothing but a model and messages.
    pub fn new(model: String, messages: Vec<Message>) -> (r: Self)
        ensures
            r@ == AiRequestV::bare(model@, messages.views()),
    {
        AiRequest {
            model,
            messages,
            system: None,
            generation: GenerationConfig::default(),
            stream: StreamConfig::default(),
            tools: None,
            tool_choice: None,
            parallel_tool_calls: None,
            disable_parallel_tool_calls: None,
            reasoning: ReasoningConfig::default(),
            response_format: None,
            safety_settings: None,
            ext: None,
            meta: RequestMetadata::default(),
        }
    }

    /// The output modalities that Chat Completions asks for.
    pub fn modalities(&self) -> (r: Option<&Vec<String>>)
        ensures
            match r {
                Some(v) => self@.ext matches Some(ExtV::OpenAiChat(e)) && e.modalities == Some(
                    v.views(),
                ),
                None => self@.ext matches Some(ExtV::OpenAiChat(e)) ==> e.modalities is None,
            },
    {
        match &self.ext {
            Some(ProtocolExt::OpenAiChat(e)) => match &e.modalities {
                Some(v) => Some(v),
                None => None,
            },
            _ => None,
        }
    }
}

} // verus!
