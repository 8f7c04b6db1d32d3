//! Requests of the Anthropic Messages protocol as they stand on the wire.
use vstd::prelude::*;

use crate::json::Json;

verus! {

/// A request.
#[derive(Debug)]
pub struct AnthropicRequest {
    pub model: String,
    pub max_tokens: u32,
    pub messages: Vec<AnthropicMessage>,
    pub system: Option<AnthropicSystem>,
    pub stream: bool,
    pub temperature: Option<String>,
    pub top_p: Option<String>,
    pub top_k: Option<u32>,
    pub tools: Option<Vec<AnthropicTool>>,
    pub tool_choice: Option<Json>,
    pub thinking: Option<AnthropicThinking>,
    pub container: Option<String>,
    pub service_tier: Option<String>,
    pub context_management: Option<Json>,
    pub metadata: Option<Json>,
    pub stop_sequences: Option<Vec<String>>,
    /// The parts of the request that may have to go on as they came.
    pub raw: AnthropicRaw,
}

/// Parts of a request as JSON values.
#[derive(Debug)]
pub struct AnthropicRaw {
    pub messages: Json,
    pub system: Option<Json>,
    pub tools: Option<Json>,
    pub thinking: Option<Json>,
}

/// A message.
#[derive(Debug)]
pub struct AnthropicMessage {
    pub role: String,
    pub content: AnthropicContent,
}

/// The content of a message.
#[derive(Debug)]
pub enum AnthropicContent {
    Text(String),
    Blocks(Vec<AnthropicContentBlock>),
}

/// A block of a message.
#[derive(Debug)]
#[allow(inconsistent_fields)]
pub enum AnthropicContentBlock {
    Text { text: String, cache_control: Option<WireCacheControl> },
    Thinking { thinking: String, signature: Option<String> },
    Image { source: AnthropicImageSource, cache_control: Option<WireCacheControl> },
    ToolUse { id: String, name: String, input: Json, cache_control: Option<WireCacheControl> },
    ToolResult {
        tool_use_id: String,
        content: Option<Json>,
        cache_control: Option<WireCacheControl>,
    },
    Document {
        source: WireDocumentSource,
        title: Option<String>,
        context: Option<String>,
        cache_control: Option<WireCacheControl>,
    },
    InputAudio { source: AudioSource, cache_control: Option<WireCacheControl> },
}

impl AnthropicContentBlock {
    /// Whether the block sets a cache breakpoint.
    pub open spec fn is_cached(self) -> bool {
        match self {
            AnthropicContentBlock::Text { cache_control, .. } => cache_control is Some,
            AnthropicContentBlock::Thinking { .. } => false,
            AnthropicContentBlock::Image { cache_control, .. } => cache_control is Some,
            AnthropicContentBlock::ToolUse { cache_control, .. } => cache_control is Some,
            AnthropicContentBlock::ToolResult { cache_control, .. } => cache_control is Some,
            AnthropicContentBlock::Document { cache_control, .. } => cache_control is Some,
            AnthropicContentBlock::InputAudio { cache_control, .. } => cache_control is Some,
        }
    }

    /// The cache breakpoint of the block.
    pub fn cache_control(&self) -> (r: Option<&WireCacheControl>)
        ensures
            r is Some == self.is_cached(),
    {
        match self {
            AnthropicContentBlock::Text { cache_control, .. } => cache_control.as_ref(),
            AnthropicContentBlock::Thinking { .. } => None,
            AnthropicContentBlock::Image { cache_control, .. } => cache_control.as_ref(),
            AnthropicContentBlock::ToolUse { cache_control, .. } => cache_control.as_ref(),
            AnthropicContentBlock::ToolResult { cache_control, .. } => cache_control.as_ref(),
            AnthropicContentBlock::Document { cache_control, .. } => cache_control.as_ref(),
            AnthropicContentBlock::InputAudio { cache_control, .. } => cache_control.as_ref(),
        }
    }

    /// Whether other protocols have no such block.
    pub fn is_exotic(&self) -> (r: bool)
        ensures
            r == (self is Document || self is InputAudio),
    {
        match self {
            AnthropicContentBlock::Document { .. } => true,
            AnthropicContentBlock::InputAudio { .. } => true,
            _ => false,
        }
    }
}

/// The source of an image.
#[derive(Debug)]
pub struct AnthropicImageSource {
    pub source_type: String,
    pub media_type: Option<String>,
    pub data: Option<String>,
    pub url: Option<String>,
}

/// The source of an audio block.
#[derive(Debug)]
pub struct AudioSource {
    pub media_type: String,
    pub data: String,
}

/// The source of a document.
#[derive(Debug)]
pub struct WireDocumentSource {
    pub kind: String,
    pub data: Option<String>,
    pub url: Option<String>,
}

/// A cache breakpoint.
#[derive(Debug)]
pub struct WireCacheControl {
    pub kind: String,
}

/// The system prompt.
#[derive(Debug)]
pub enum AnthropicSystem {
    Text(String),
    Blocks(Vec<AnthropicSystemBlock>),
}

/// A block of the system prompt.
#[derive(Debug)]
pub struct AnthropicSystemBlock {
    pub kind: String,
    pub text: String,
    pub cache_control: Option<WireCacheControl>,
}

/// A tool. A tool of the provider has a type.
#[derive(Debug)]
pub struct AnthropicTool {
    pub name: String,
    pub description: Option<String>,
    pub input_schema: Option<Json>,
    pub tool_type: Option<String>,
    pub cache_control: Option<WireCacheControl>,
}

/// The thinking that is asked for.
#[derive(Debug)]
pub struct AnthropicThinking {
    pub kind: String,
    pub budget_tokens: Option<u32>,
}

} // verus!
