//! The Messages endpoint.
use vstd::prelude::*;

use crate::protocol::codec::anthropic_messages::stream::{
    AnthropicStreamFormatter, AnthropicStreamParser, FormatterV,
};
use crate::protocol::ids::{
    CapabilitiesV, EndpointCapabilities, EndpointV, ProtocolEndpoint,
};
use crate::protocol::traits::EndpointHandler;

verus! {

/// The Messages endpoint.
#[derive(Debug, Clone, Copy)]
pub struct AnthropicMessages2023;

impl EndpointHandler for AnthropicMessages2023 {
    open spec fn endpoint(&self) -> EndpointV {
        EndpointV::anthropic_messages_2023_06_01()
    }

    open spec fn abilities(&self) -> CapabilitiesV {
        CapabilitiesV {
            extended_reasoning: true,
            ..CapabilitiesV::chat_at("/v1/messages"@)
        }
    }

    fn id(&self) -> ProtocolEndpoint {
        crate::protocol::ids::anthropic_messages_2023_06_01()
    }

    fn capabilities(&self) -> EndpointCapabilities {
        let mut c = EndpointCapabilities::chat_at("/v1/messages");
        c.extended_reasoning = true;
        c
    }
}

impl AnthropicMessages2023 {
    pub fn make_stream_response_decoder(&self) -> (r: AnthropicStreamParser)
        ensures
            r@ == Seq::<char>::empty(),
    {
        AnthropicStreamParser::new()
    }

    pub fn make_stream_response_encoder(&self) -> (r: AnthropicStreamFormatter)
        ensures
            exists|u: Seq<char>|
                #![auto]
                crate::fresh::is_uuid_text(u) && r@ == FormatterV::fresh("msg_"@ + u),
    {
        AnthropicStreamFormatter::new()
    }
}

} // verus!
