//! The Generate Content endpoint.
use vstd::prelude::*;

use crate::protocol::codec::google_generative::stream::{
    FormatterV, GoogleStreamFormatter, GoogleStreamParser, ParserV,
};
use crate::protocol::ids::{
    CapabilitiesV, EndpointCapabilities, EndpointV, ProtocolEndpoint,
};
use crate::protocol::traits::EndpointHandler;

verus! {

/// The Generate Content endpoint.
#[derive(Debug, Clone, Copy)]
pub struct GoogleGenerateContentV1Beta;

impl EndpointHandler for GoogleGenerateContentV1Beta {
    open spec fn endpoint(&self) -> EndpointV {
        EndpointV::google_generate_content_v1beta()
    }

    open spec fn abilities(&self) -> CapabilitiesV {
        CapabilitiesV {
            override_model_in_body: true,
            ..CapabilitiesV::chat_at("/v1beta/models/:model_action"@)
        }
    }

    fn id(&self) -> ProtocolEndpoint {
        crate::protocol::ids::google_generate_content_v1beta()
    }

    fn capabilities(&self) -> EndpointCapabilities {
        let mut c = EndpointCapabilities::chat_at("/v1beta/models/:model_action");
        c.override_model_in_body = true;
        c
    }
}

impl GoogleGenerateContentV1Beta {
    pub fn make_stream_response_decoder(&self) -> (r: GoogleStreamParser)
        ensures
            r@ == ParserV::fresh(),
    {
        GoogleStreamParser::new()
    }

    pub fn make_stream_response_encoder(&self) -> (r: GoogleStreamFormatter)
        ensures
            r@ == FormatterV::fresh(),
    {
        GoogleStreamFormatter::new()
    }
}

} // verus!
