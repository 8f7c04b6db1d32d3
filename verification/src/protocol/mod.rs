//! The protocol layer.
//!
//! An endpoint is named `{protocol}/{name}/{version}`. Each directory under `codec` holds the
//! wire codecs of one suite together with the handlers of its endpoints.
use vstd::prelude::*;

use crate::json::Json;
use crate::views::Views;

pub mod codec;
pub mod endpoint_laws;
pub mod ids;
pub mod ir;
pub mod provider;
pub mod registry;
pub mod sse;
pub mod traits;
pub mod types;
pub mod wire_laws;

verus! {

/// Why a body could not be decoded or encoded.
#[derive(Debug)]
pub struct CodecError {
    pub message: String,
}

impl View for CodecError {
    type V = Seq<char>;

    open spec fn view(&self) -> Seq<char> {
        self.message@
    }
}

impl CodecError {
    /// An error with a message.
    pub fn new(message: &str) -> (r: Self)
        ensures
            r@ == message@,
    {
        CodecError { message: message.to_owned() }
    }

    /// The message of the error.
    pub fn to_string(&self) -> (r: String)
        ensures
            r@ == self@,
    {
        self.message.clone()
    }
}

/// Reads a client's request.
pub trait IngressDecoder {
    fn decode_request(&self, body: Json) -> Result<types::InternalRequest, CodecError>;
}

/// Writes a request for a provider: its body and its extra headers.
pub trait EgressEncoder {
    fn encode_request(&self, req: &types::InternalRequest) -> Result<
        (Json, Vec<(String, String)>),
        CodecError,
    >;

    fn egress_path(&self, model: &str, stream: bool) -> String;
}

/// Reads a provider's response.
pub trait ResponseParser {
    fn parse_response(&self, resp: Json) -> Result<types::InternalResponse, CodecError>;
}

/// Writes a response for a client.
pub trait ResponseFormatter {
    fn format_response(&self, resp: &types::InternalResponse) -> Json;
}

/// Reads a provider's stream.
pub trait StreamParser {
    fn parse_chunk(&mut self, raw: &str) -> Result<Vec<types::StreamDelta>, CodecError>;

    fn finish(&mut self) -> Result<Vec<types::StreamDelta>, CodecError>;
}

/// Writes a stream for a client.
pub trait StreamFormatter {
    fn format_deltas(&mut self, deltas: &Vec<types::StreamDelta>) -> Vec<SseEvent>;

    fn format_done(&mut self) -> Vec<SseEvent>;

    fn usage(&self) -> types::TokenUsage;
}

/// A server-sent event.
#[derive(Debug)]
pub struct SseEvent {
    pub event: Option<String>,
    pub data: String,
}

pub struct SseV {
    pub event: Option<Seq<char>>,
    pub data: Seq<char>,
}

impl View for SseEvent {
    type V = SseV;

    open spec fn view(&self) -> SseV {
        SseV { event: self.event.views(), data: self.data@ }
    }
}

impl SseV {
    /// The event as it goes over the wire.
    pub open spec fn wire(self) -> Seq<char> {
        (match self.event {
            Some(e) => "event: "@ + e + "\n"@,
            None => Seq::empty(),
        }) + "data: "@ + self.data + "\n\n"@
    }

    /// An event with a type.
    pub open spec fn typed(event: Seq<char>, data: Seq<char>) -> SseV {
        SseV { event: Some(event), data }
    }

    /// An event without a type.
    pub open spec fn plain(data: Seq<char>) -> SseV {
        SseV { event: None, data }
    }
}

impl SseEvent {
    /// An event.
    pub fn new(event: Option<&str>, data: String) -> (r: Self)
        ensures
            r@ == (SseV { event: event.views(), data: data@ }),
    {
        SseEvent { event: crate::text::own_opt(event), data }
    }

    /// The event as it goes over the wire.
    pub fn to_sse_string(&self) -> (r: String)
        ensures
            r@ == self@.wire(),
    {
        let mut s: String = String::new();
        assert(s@ =~= Seq::<char>::empty());
        match &self.event {
            Some(event) => {
                s.append("event: ");
                s.append(event.as_str());
                s.append("\n");
                assert(s@ =~= "event: "@ + event@ + "\n"@);
            },
            None => {},
        }
        s.append("data: ");
        s.append(self.data.as_str());
        s.append("\n\n");
        s
    }
}

/// Appends an event with a type.
pub fn emit(events: &mut Vec<SseEvent>, event: &str, data: String)
    ensures
        final(events).views() == old(events).views().push(SseV::typed(event@, data@)),
{
    crate::views::push(events, SseEvent::new(Some(event), data));
}

/// Appends an event without a type.
pub fn emit_plain(events: &mut Vec<SseEvent>, data: String)
    ensures
        final(events).views() == old(events).views().push(SseV::plain(data@)),
{
    crate::views::push(events, SseEvent::new(None, data));
}

/// The index behind `i`; the largest one wraps round.
pub open spec fn succ(i: usize) -> usize {
    if i < usize::MAX {
        (i + 1) as usize
    } else {
        0
    }
}

/// The index behind `i`; the largest one wraps round.
pub fn next_index(i: usize) -> (r: usize)
    ensures
        r == succ(i),
{
    if i < usize::MAX {
        i + 1
    } else {
        0
    }
}

} // verus!
