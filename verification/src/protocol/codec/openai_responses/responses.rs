//! The Responses endpoint.
use vstd::prelude::*;

use crate::protocol::codec::openai_responses::parser::{ParserV, ResponsesStreamParser};
use crate::protocol::codec::openai_responses::stream::{FormatterV, ResponsesStreamFormatter};
use crate::protocol::ids::{
    CapabilitiesV, EndpointCapabilities, EndpointV, ProtocolEndpoint,
};
use crate::protocol::traits::EndpointHandler;

verus! {

/// The Responses endpoint.
#[derive(Debug, Clone, Copy)]
pub struct OpenAIResponsesV1;

impl EndpointHandler for OpenAIResponsesV1 {
    open spec fn endpoint(&self) -> EndpointV {
        EndpointV::openai_responses_v1()
    }

    open spec fn abilities(&self) -> CapabilitiesV {
        CapabilitiesV {
            force_upstream_stream: true,
            ..CapabilitiesV::chat_at("/v1/responses"@)
        }
    }

    fn id(&self) -> ProtocolEndpoint {
        crate::protocol::ids::openai_responses_v1()
    }

    fn capabilities(&self) -> EndpointCapabilities {
        let mut c = EndpointCapabilities::chat_at("/v1/responses");
        c.force_upstream_stream = true;
        c
    }
}

impl OpenAIResponsesV1 {
    pub fn make_stream_parser(&self) -> (r: ResponsesStreamParser)
        ensures
            r@ == ParserV::fresh(),
    {
        ResponsesStreamParser::new()
    }

    pub fn make_stream_formatter(&self) -> (r: ResponsesStreamFormatter)
        ensures
            exists|a: Seq<char>, b: Seq<char>|
                #![auto]
                crate::fresh::is_uuid_text(a) && crate::fresh::is_uuid_text(b) && r@
                    == FormatterV::fresh(a, b),
    {
        ResponsesStreamFormatter::new()
    }
}

} // verus!
