//! What a request holds that only its own protocol knows.
use vstd::prelude::*;

use crate::json::{Json, JsonV};
use crate::views::Views;

verus! {

/// The protocol's own part of a request.
#[derive(Debug)]
pub enum ProtocolExt {
    OpenAiChat(OpenAIChatExt),
    Anthropic(AnthropicExt),
    Google(GoogleExt),
}

pub enum ExtV {
    OpenAiChat(OpenAIChatExtV),
    Anthropic(AnthropicExtV),
    Google(GoogleExtV),
}

impl View for ProtocolExt {
    type V = ExtV;

    open spec fn view(&self) -> ExtV {
        match self {
            ProtocolExt::OpenAiChat(e) => ExtV::OpenAiChat(e@),
            ProtocolExt::Anthropic(e) => ExtV::Anthropic(e@),
            ProtocolExt::Google(e) => ExtV::Google(e@),
        }
    }
}

/// What only Chat Completions knows.
#[derive(Debug)]
pub struct OpenAIChatExt {
    pub audio: Option<Json>,
    /// Token names with the decimal text of their bias.
    pub logit_bias: Option<Json>,
    pub modalities: Option<Vec<String>>,
    pub n: Option<u32>,
    pub prediction: Option<Json>,
    pub stream_options: Option<Json>,
}

pub struct OpenAIChatExtV {
    pub audio: Option<JsonV>,
    pub logit_bias: Option<JsonV>,
    pub modalities: Option<Seq<Seq<char>>>,
    pub n: Option<u32>,
    pub prediction: Option<JsonV>,
    pub stream_options: Option<JsonV>,
}

impl View for OpenAIChatExt {
    type V = OpenAIChatExtV;

    open spec fn view(&self) -> OpenAIChatExtV {
        OpenAIChatExtV {
            audio: self.audio.views(),
            logit_bias: self.logit_bias.views(),
            modalities: crate::views::opt_list(self.modalities),
            n: self.n,
            prediction: self.prediction.views(),
            stream_options: self.stream_options.views(),
        }
    }
}

/// What only Anthropic Messages knows.
#[derive(Debug)]
pub struct AnthropicExt {
    pub top_k: Option<u32>,
    pub container: Option<Json>,
    pub service_tier: Option<String>,
    pub server_tools: Option<Vec<Json>>,
}

pub struct AnthropicExtV {
    pub top_k: Option<u32>,
    pub container: Option<JsonV>,
    pub service_tier: Option<Seq<char>>,
    pub server_tools: Option<Seq<JsonV>>,
}

impl View for AnthropicExt {
    type V = AnthropicExtV;

    open spec fn view(&self) -> AnthropicExtV {
        AnthropicExtV {
            top_k: self.top_k,
            container: self.container.views(),
            service_tier: self.service_tier.views(),
            server_tools: crate::views::opt_list(self.server_tools),
        }
    }
}

/// What only Google Generative AI knows.
#[derive(Debug)]
pub struct GoogleExt {
    pub top_k: Option<u32>,
    pub candidate_count: Option<u32>,
    pub response_logprobs: Option<bool>,
    pub logprobs: Option<u32>,
    pub response_mime_type: Option<String>,
    pub response_json_schema: Option<Json>,
    pub tool_config: Option<Json>,
    pub cached_content: Option<String>,
    pub thinking_config: Option<Json>,
}

pub struct GoogleExtV {
    pub top_k: Option<u32>,
    pub candidate_count: Option<u32>,
    pub response_logprobs: Option<bool>,
    pub logprobs: Option<u32>,
    pub response_mime_type: Option<Seq<char>>,
    pub response_json_schema: Option<JsonV>,
    pub tool_config: Option<JsonV>,
    pub cached_content: Option<Seq<char>>,
    pub thinking_config: Option<JsonV>,
}

impl View for GoogleExt {
    type V = GoogleExtV;

    open spec fn view(&self) -> GoogleExtV {
        GoogleExtV {
            top_k: self.top_k,
            candidate_count: self.candidate_count,
            response_logprobs: self.response_logprobs,
            logprobs: self.logprobs,
            response_mime_type: self.response_mime_type.views(),
            response_json_schema: self.response_json_schema.views(),
            tool_config: self.tool_config.views(),
            cached_content: self.cached_content.views(),
            thinking_config: self.thinking_config.views(),
        }
    }
}

} // verus!
