//! What the local router does: it serves the Responses protocol in front of another one.
use vstd::prelude::*;

use crate::json::{Json, JsonV};
use crate::models::{ResolvedModel, ResolvedModelV};
use crate::protocol::ir::response::{AiResponse, AiResponseV};
use crate::protocol::ir::stream::{DeltaV, StreamDelta};
use crate::protocol::types::ToolCallV;
use crate::views::Views;

verus! {

/// Where a request to the router goes.
#[derive(Debug, Clone, Copy, PartialEq, Eq, Structural)]
pub enum RouterPath {
    /// To the provider.
    Respond,
    /// To the list of models.
    Models,
    Unsupported,
}

/// Where a request for a path goes: every path is served with and without its version part.
pub open spec fn path_of(path: Seq<char>) -> RouterPath {
    if path == "/responses"@ || path == "/v1/responses"@ {
        RouterPath::Respond
    } else if path == "/models"@ || path == "/v1/models"@ {
        RouterPath::Models
    } else {
        RouterPath::Unsupported
    }
}

/// Tells where a request for a path goes.
pub fn router_path(path: &str) -> (r: RouterPath)
    ensures
        r == path_of(path@),
{
    if *path == *"/responses" || *path == *"/v1/responses" {
        RouterPath::Respond
    } else if *path == *"/models" || *path == *"/v1/models" {
        RouterPath::Models
    } else {
        RouterPath::Unsupported
    }
}

// ---------------------------------------------------------------- models

/// A model as codex reads it.
pub open spec fn codex_model(m: ResolvedModelV) -> JsonV {
    JsonV::obj().with("id"@, JsonV::Text(m.id)).with("slug"@, JsonV::Text(m.id)).with(
        "display_name"@,
        JsonV::Text(m.name),
    ).with("supports_reasoning"@, JsonV::Bool(m.supports_reasoning)).with_opt(
        "context_window"@,
        match m.context_window {
            Some(n) => Some(JsonV::num(n)),
            None => None,
        },
    )
}

/// The list of models that codex reads: the chosen one, where there is one.
pub open spec fn codex_models(model: Option<ResolvedModelV>) -> JsonV {
    JsonV::obj().with("object"@, JsonV::Text("list"@)).with(
        "models"@,
        JsonV::Array(
            match model {
                Some(m) => seq![codex_model(m)],
                None => Seq::empty(),
            },
        ),
    )
}

/// The list of models that codex reads.
pub fn codex_models_response(model: Option<&ResolvedModel>) -> (r: Json)
    ensures
        r@ == codex_models(model.views()),
{
    broadcast use crate::json::lemma_array_view;

    let mut models: Vec<Json> = crate::views::none();
    if let Some(m) = model {
        let window = match m.context_window {
            Some(n) => Some(Json::num(n)),
            None => None,
        };
        let entry = Json::object().with("id", Json::text(m.id.as_str())).with(
            "slug",
            Json::text(m.id.as_str()),
        ).with("display_name", Json::text(m.name.as_str())).with(
            "supports_reasoning",
            Json::Bool(m.supports_reasoning),
        ).with_opt("context_window", window);
        crate::views::push(&mut models, entry);
        assert(models.views() =~= seq![codex_model(m@)]);
    }
    Json::object().with("object", Json::text("list")).with("models", Json::array(models))
}

// ---------------------------------------------------------------- a response as a stream

/// The first `n` tool calls as steps of a stream.
pub open spec fn calls_upto(calls: Seq<ToolCallV>, n: nat) -> Seq<DeltaV>
    decreases n,
{
    if n == 0 {
        Seq::empty()
    } else {
        let c = calls[n - 1];
        let index = (n - 1) as usize;
        calls_upto(calls, (n - 1) as nat).push(
            DeltaV::ToolCallStart { index, id: c.id, name: c.name },
        ).push(DeltaV::ToolCallDelta { index, arguments: c.arguments })
    }
}

/// A whole response as the steps of a stream: who answers, the thinking, the text, the calls, the
/// token counts and the end.
pub open spec fn deltas_of(resp: AiResponseV) -> Seq<DeltaV> {
    let start = seq![DeltaV::MessageStart { id: resp.id, model: resp.model }];
    let thinking = match resp.reasoning_content {
        Some(t) => seq![DeltaV::ThinkingDelta(t)],
        None => Seq::empty(),
    };
    let text = if resp.content.len() > 0 {
        seq![DeltaV::TextDelta(resp.content)]
    } else {
        Seq::empty()
    };
    let stop_reason = match resp.stop_reason {
        Some(s) => s,
        None => "stop"@,
    };
    start + thinking + text + calls_upto(resp.tool_calls, resp.tool_calls.len()) + seq![
        DeltaV::Usage(resp.usage),
        DeltaV::Done { stop_reason },
    ]
}

/// A whole response as the steps of a stream.
pub fn response_deltas(resp: &AiResponse) -> (r: Vec<StreamDelta>)
    ensures
        r.views() == deltas_of(resp@),
{
    let mut deltas: Vec<StreamDelta> = crate::views::none();
    crate::views::push(
        &mut deltas,
        StreamDelta::MessageStart { id: resp.id.clone(), model: resp.model.clone() },
    );
    if let Some(thinking) = &resp.reasoning_content {
        crate::views::push(&mut deltas, StreamDelta::ThinkingDelta(thinking.clone()));
    }
    if !resp.content.as_str().is_empty() {
        crate::views::push(&mut deltas, StreamDelta::TextDelta(resp.content.clone()));
    }
    let ghost head = deltas.views();
    let mut index: usize = 0;
    while index < resp.tool_calls.len()
        invariant
            index <= resp.tool_calls@.len(),
            deltas.views() =~= head + calls_upto(resp.tool_calls.views(), index as nat),
        decreases resp.tool_calls@.len() - index,
    {
        let c = &resp.tool_calls[index];
        assert(resp.tool_calls.views()[index as int] == c@);
        crate::views::push(
            &mut deltas,
            StreamDelta::ToolCallStart { index, id: c.id.clone(), name: c.name.clone() },
        );
        crate::views::push(
            &mut deltas,
            StreamDelta::ToolCallDelta { index, arguments: c.arguments.clone() },
        );
        index = index + 1;
    }
    crate::views::push(&mut deltas, StreamDelta::Usage(resp.usage));
    let stop_reason = match &resp.stop_reason {
        Some(s) => s.clone(),
        None => "stop".to_string(),
    };
    crate::views::push(&mut deltas, StreamDelta::Done { stop_reason });
    assert(deltas.views() =~= deltas_of(resp@));
    deltas
}

} // verus!
