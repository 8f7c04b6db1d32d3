//! What the codec of an endpoint consists of.
use vstd::prelude::*;

use crate::json::Json;
use crate::protocol::ids::{
    CapabilitiesV, EndpointCapabilities, EndpointV, Protocol, ProtocolEndpoint,
};
use crate::protocol::ir::request::AiRequest;
use crate::protocol::ir::response::AiResponse;
use crate::protocol::ir::stream::StreamDelta;
use crate::protocol::ir::usage::Usage;
use crate::protocol::{CodecError, SseEvent};

verus! {

/// An endpoint: what it is and what it can do.
pub trait EndpointHandler {
    spec fn endpoint(&self) -> EndpointV;

    spec fn abilities(&self) -> CapabilitiesV;

    fn id(&self) -> (r: ProtocolEndpoint)
        ensures
            r@ == self.endpoint(),
    ;

    fn capabilities(&self) -> (r: EndpointCapabilities)
        ensures
            r@ == self.abilities(),
    ;

    /// The suite that the endpoint belongs to.
    fn protocol(&self) -> (r: Protocol)
        ensures
            r == self.endpoint().protocol,
    {
        self.id().protocol
    }
}

/// Reads a client's request.
pub trait RequestDecoder {
    /// The request as the protocol writes it.
    type Wire;

    fn decode_request(&self, req: &Self::Wire) -> Result<AiRequest, CodecError>;
}

/// Writes a request for a provider: its body and its extra headers.
pub trait RequestEncoder {
    fn encode_request(&self, req: &AiRequest) -> Result<
        (Json, Vec<(String, String)>),
        CodecError,
    >;

    fn egress_path(&self, model: &str, stream: bool) -> String;
}

/// Reads a provider's response.
pub trait ResponseDecoder {
    fn parse_response(&self, resp: Json) -> Result<AiResponse, CodecError>;
}

/// Writes a response for a client.
pub trait ResponseEncoder {
    fn format_response(&self, resp: &AiResponse) -> Json;
}

/// Reads a provider's stream.
pub trait StreamResponseDecoder {
    fn parse_chunk(&mut self, raw: &str) -> Result<Vec<StreamDelta>, CodecError>;

    fn finish(&mut self) -> Result<Vec<StreamDelta>, CodecError>;
}

/// Writes a stream for a client.
pub trait StreamResponseEncoder {
    fn format_deltas(&mut self, deltas: &Vec<StreamDelta>) -> Vec<SseEvent>;

    fn format_done(&mut self) -> Vec<SseEvent>;

    fn usage(&self) -> Usage;
}

} // verus!
