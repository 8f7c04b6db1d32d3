//! The Chat Completions endpoint.
use vstd::prelude::*;

use crate::protocol::codec::openai_compatible::stream::{
    FormatterV, OpenAIStreamFormatter, OpenAIStreamParser, ParserV,
};
use crate::protocol::ids::{
    CapabilitiesV, EndpointCapabilities, EndpointV, ProtocolEndpoint,
};
use crate::protocol::traits::EndpointHandler;

verus! {

/// The Chat Completions endpoint.
#[derive(Debug, Clone, Copy)]
pub struct OpenAIChatCompletionsV1;

impl EndpointHandler for OpenAIChatCompletionsV1 {
    open spec fn endpoint(&self) -> EndpointV {
        EndpointV::openai_chat_completions_v1()
    }

    open spec fn abilities(&self) -> CapabilitiesV {
        CapabilitiesV::chat_at("/v1/chat/completions"@)
    }

    fn id(&self) -> ProtocolEndpoint {
        crate::protocol::ids::openai_chat_completions_v1()
    }

    fn capabilities(&self) -> EndpointCapabilities {
        EndpointCapabilities::chat_at("/v1/chat/completions")
    }
}

impl OpenAIChatCompletionsV1 {
    pub fn make_stream_response_decoder(&self) -> (r: OpenAIStreamParser)
        ensures
            r@ == ParserV::fresh(),
    {
        OpenAIStreamParser::new()
    }

    pub fn make_stream_response_encoder(&self) -> (r: OpenAIStreamFormatter)
        ensures
            exists|u: Seq<char>|
                #![auto]
                crate::fresh::is_hyphenated(u) && r@ == FormatterV::fresh("chatcmpl-"@ + u),
    {
        OpenAIStreamFormatter::new()
    }
}

} // verus!
