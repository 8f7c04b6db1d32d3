//! The steps of a streamed response.
use vstd::prelude::*;

use crate::protocol::ir::error::{AiError, AiErrorV};
use crate::protocol::ir::request::ToolCall;
use crate::protocol::ir::usage::Usage;
use crate::protocol::types::ToolCallV;

verus! {

/// One step of a streamed response.
#[derive(Debug)]
pub enum StreamDelta {
    /// The response and its model.
    MessageStart { id: String, model: String },
    /// More text.
    TextDelta(String),
    /// More thinking.
    ThinkingDelta(String),
    /// The signature of the thinking.
    ThinkingSignature(String),
    /// A tool call begins.
    ToolCallStart { index: usize, id: String, name: String },
    /// More of a tool call's arguments.
    ToolCallDelta { index: usize, arguments: String },
    /// A tool call is complete.
    ToolCallComplete { index: usize, tool_call: ToolCall },
    /// The token counts.
    Usage(Usage),
    /// The end.
    Done { stop_reason: String },
    /// An error inside the stream.
    StreamError { error: AiError },
    /// The stream was cut off.
    UnexpectedEof,
    /// An event that no other variant covers, carried verbatim.
    Unknown { raw: String },
}

pub enum DeltaV {
    MessageStart { id: Seq<char>, model: Seq<char> },
    TextDelta(Seq<char>),
    ThinkingDelta(Seq<char>),
    ThinkingSignature(Seq<char>),
    ToolCallStart { index: usize, id: Seq<char>, name: Seq<char> },
    ToolCallDelta { index: usize, arguments: Seq<char> },
    ToolCallComplete { index: usize, tool_call: ToolCallV },
    Usage(Usage),
    Done { stop_reason: Seq<char> },
    StreamError { error: AiErrorV },
    UnexpectedEof,
    Unknown { raw: Seq<char> },
}

impl View for StreamDelta {
    type V = DeltaV;

    open spec fn view(&self) -> DeltaV {
        match self {
            StreamDelta::MessageStart { id, model } => DeltaV::MessageStart {
                id: id@,
                model: model@,
            },
            StreamDelta::TextDelta(s) => DeltaV::TextDelta(s@),
            StreamDelta::ThinkingDelta(s) => DeltaV::ThinkingDelta(s@),
            StreamDelta::ThinkingSignature(s) => DeltaV::ThinkingSignature(s@),
            StreamDelta::ToolCallStart { index, id, name } => DeltaV::ToolCallStart {
                index: *index,
                id: id@,
                name: name@,
            },
            StreamDelta::ToolCallDelta { index, arguments } => DeltaV::ToolCallDelta {
                index: *index,
                arguments: arguments@,
            },
            StreamDelta::ToolCallComplete { index, tool_call } => DeltaV::ToolCallComplete {
                index: *index,
                tool_call: tool_call@,
            },
            StreamDelta::Usage(u) => DeltaV::Usage(*u),
            StreamDelta::Done { stop_reason } => DeltaV::Done { stop_reason: stop_reason@ },
            StreamDelta::StreamError { error } => DeltaV::StreamError { error: error@ },
            StreamDelta::UnexpectedEof => DeltaV::UnexpectedEof,
            StreamDelta::Unknown { raw } => DeltaV::Unknown { raw: raw@ },
        }
    }
}

} // verus!
