//! Responses in the internal representation.
use vstd::prelude::*;

use crate::json::{Json, JsonV};
use crate::protocol::ir::error::{AiError, AiErrorV};
use crate::protocol::ir::request::ToolCall;
use crate::protocol::ir::usage::Usage;
use crate::protocol::ir::vendor_ext::{VendorExtensions, VendorV};
use crate::protocol::types::ToolCallV;
use crate::views::Views;

verus! {

/// An item of a response, in the order in which the model gave them.
#[derive(Debug)]
pub enum ResponseItem {
    OutputText { text: String },
    Thinking { text: String },
    FunctionCall { call_id: String, name: String, arguments: String },
    FunctionCallOutput { call_id: String, output: String },
    WebSearchResult { url: String, title: Option<String>, snippet: Option<String> },
    /// An item of an unknown type, verbatim.
    Unknown { raw: Json },
}

pub enum ItemV {
    OutputText { text: Seq<char> },
    Thinking { text: Seq<char> },
    FunctionCall { call_id: Seq<char>, name: Seq<char>, arguments: Seq<char> },
    FunctionCallOutput { call_id: Seq<char>, output: Seq<char> },
    WebSearchResult { url: Seq<char>, title: Option<Seq<char>>, snippet: Option<Seq<char>> },
    Unknown { raw: JsonV },
}

impl View for ResponseItem {
    type V = ItemV;

    open spec fn view(&self) -> ItemV {
        match self {
            ResponseItem::OutputText { text } => ItemV::OutputText { text: text@ },
            ResponseItem::Thinking { text } => ItemV::Thinking { text: text@ },
            ResponseItem::FunctionCall { call_id, name, arguments } => ItemV::FunctionCall {
                call_id: call_id@,
                name: name@,
                arguments: arguments@,
            },
            ResponseItem::FunctionCallOutput { call_id, output } => ItemV::FunctionCallOutput {
                call_id: call_id@,
                output: output@,
            },
            ResponseItem::WebSearchResult { url, title, snippet } => ItemV::WebSearchResult {
                url: url@,
                title: title.views(),
                snippet: snippet.views(),
            },
            ResponseItem::Unknown { raw } => ItemV::Unknown { raw: raw@ },
        }
    }
}

/// A response.
#[derive(Debug)]
pub struct AiResponse {
    pub id: String,
    /// The model that answered.
    pub model: String,
    pub content: String,
    pub reasoning_content: Option<String>,
    pub reasoning_signature: Option<String>,
    pub tool_calls: Vec<ToolCall>,
    /// The items in their order, where the protocol gives one.
    pub items: Option<Vec<ResponseItem>>,
    pub stop_reason: Option<String>,
    pub usage: Usage,
    pub error: Option<AiError>,
    pub vendor: VendorExtensions,
}

pub struct AiResponseV {
    pub id: Seq<char>,
    pub model: Seq<char>,
    pub content: Seq<char>,
    pub reasoning_content: Option<Seq<char>>,
    pub reasoning_signature: Option<Seq<char>>,
    pub tool_calls: Seq<ToolCallV>,
    pub items: Option<Seq<ItemV>>,
    pub stop_reason: Option<Seq<char>>,
    pub usage: Usage,
    pub error: Option<AiErrorV>,
    pub vendor: VendorV,
}

impl AiResponseV {
    /// A response with nothing but its identity.
    pub open spec fn bare(id: Seq<char>, model: Seq<char>) -> AiResponseV {
        AiResponseV {
            id,
            model,
            content: Seq::empty(),
            reasoning_content: None,
            reasoning_signature: None,
            tool_calls: Seq::empty(),
            items: None,
            stop_reason: None,
            usage: Usage::zero(),
            error: None,
            vendor: VendorV::none(),
        }
    }
}

impl View for AiResponse {
    type V = AiResponseV;

    open spec fn view(&self) -> AiResponseV {
        AiResponseV {
            id: self.id@,
            model: self.model@,
            content: self.content@,
            reasoning_content: self.reasoning_content.views(),
            reasoning_signature: self.reasoning_signature.views(),
            tool_calls: self.tool_calls.views(),
            items: crate::views::opt_list(self.items),
            stop_reason: self.stop_reason.views(),
            usage: self.usage,
            error: self.error.views(),
            vendor: self.vendor@,
        }
    }
}

impl AiResponse {
    /// A response with nothing but its identity.
    pub fn new(id: String, model: String) -> (r: Self)
        ensures
            r@ == AiResponseV::bare(id@, model@),
    {
        let content = String::new();
        assert(content@ =~= Seq::<char>::empty());
        AiResponse {
            id,
            model,
            content,
            reasoning_content: None,
            reasoning_signature: None,
            tool_calls: crate::views::none(),
            items: None,
            stop_reason: None,
            usage: Usage::default(),
            error: None,
            vendor: VendorExtensions::default(),
        }
    }

    /// Whether the response is an error.
    pub fn is_error(&self) -> (r: bool)
        ensures
            r == self@.error is Some,
    {
        self.error.is_some()
    }
}

} // verus!
