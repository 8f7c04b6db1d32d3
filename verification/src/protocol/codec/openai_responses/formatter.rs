//! Writes responses of the Responses protocol.
use vstd::prelude::*;

use crate::json::{Json, JsonV};
use crate::protocol::types::{
    InternalResponse, InternalResponseV, ResponseItem, ResponseItemV, TokenUsage, ToolCallV,
};
use crate::protocol::ResponseFormatter;
use crate::views::Views;

verus! {

/// The items of a response in their order; where it gives none, its thinking, its calls and its
/// text.
pub open spec fn items_of(resp: InternalResponseV) -> Seq<ResponseItemV> {
    match resp.response_items {
        Some(v) => v,
        None => {
            let head = match resp.reasoning_content {
                Some(t) => seq![ResponseItemV::Reasoning { text: t }],
                None => Seq::empty(),
            };
            (head + Seq::new(resp.tool_calls.len(), |i: int| call_item(resp.tool_calls[i]))).push(
                ResponseItemV::Message { text: resp.content },
            )
        },
    }
}

pub open spec fn call_item(c: ToolCallV) -> ResponseItemV {
    ResponseItemV::FunctionCall { call_id: c.id, name: c.name, arguments: c.arguments }
}

/// The output of thinking, under a fresh identifier.
pub open spec fn reasoning_value(id: Seq<char>, text: Seq<char>) -> JsonV {
    JsonV::obj().with("type"@, JsonV::Text("reasoning"@)).with("id"@, JsonV::Text(id)).with(
        "summary"@,
        JsonV::Array(
            seq![
                JsonV::obj().with("type"@, JsonV::Text("summary_text"@)).with(
                    "text"@,
                    JsonV::Text(text),
                ),
            ],
        ),
    )
}

/// Writes the output of thinking.
pub fn reasoning_json(id: &str, text: &str) -> (r: Json)
    ensures
        r@ == reasoning_value(id@, text@),
{
    let part = Json::object().with("type", Json::text("summary_text")).with(
        "text",
        Json::text(text),
    );
    Json::object().with("type", Json::text("reasoning")).with("id", Json::text(id)).with(
        "summary",
        single(part),
    )
}

/// A list of one value.
pub fn single(v: Json) -> (r: Json)
    ensures
        r@ == JsonV::Array(seq![v@]),
{
    let mut list: Vec<Json> = crate::views::none();
    crate::views::push(&mut list, v);
    assert(list.views() =~= seq![v@]);
    Json::array(list)
}

/// The output of a call, under a fresh identifier.
pub open spec fn call_value(
    id: Seq<char>,
    call_id: Seq<char>,
    name: Seq<char>,
    arguments: Seq<char>,
    status: Seq<char>,
) -> JsonV {
    JsonV::obj().with("type"@, JsonV::Text("function_call"@)).with("id"@, JsonV::Text(id)).with(
        "call_id"@,
        JsonV::Text(call_id),
    ).with("name"@, JsonV::Text(name)).with("arguments"@, JsonV::Text(arguments)).with(
        "status"@,
        JsonV::Text(status),
    )
}

/// Writes the output of a call.
pub fn call_json(id: &str, call_id: &str, name: &str, arguments: &str, status: &str) -> (r: Json)
    ensures
        r@ == call_value(id@, call_id@, name@, arguments@, status@),
{
    Json::object().with("type", Json::text("function_call")).with("id", Json::text(id)).with(
        "call_id",
        Json::text(call_id),
    ).with("name", Json::text(name)).with("arguments", Json::text(arguments)).with(
        "status",
        Json::text(status),
    )
}

/// A part of a message.
pub open spec fn part_value(text: Seq<char>) -> JsonV {
    JsonV::obj().with("type"@, JsonV::Text("output_text"@)).with("text"@, JsonV::Text(text)).with(
        "annotations"@,
        JsonV::Array(Seq::empty()),
    )
}

/// Writes a part of a message.
pub fn part_json(text: &str) -> (r: Json)
    ensures
        r@ == part_value(text@),
{
    Json::object().with("type", Json::text("output_text")).with("text", Json::text(text)).with(
        "annotations",
        Json::array(crate::views::none()),
    )
}

/// The output of a text.
pub open spec fn message_value(id: Seq<char>, text: Seq<char>) -> JsonV {
    JsonV::obj().with("type"@, JsonV::Text("message"@)).with("id"@, JsonV::Text(id)).with(
        "status"@,
        JsonV::Text("completed"@),
    ).with("role"@, JsonV::Text("assistant"@)).with(
        "content"@,
        JsonV::Array(seq![part_value(text)]),
    )
}

/// Writes the output of a text.
pub fn message_json(id: &str, text: &str) -> (r: Json)
    ensures
        r@ == message_value(id@, text@),
{
    Json::object().with("type", Json::text("message")).with("id", Json::text(id)).with(
        "status",
        Json::text("completed"),
    ).with("role", Json::text("assistant")).with("content", single(part_json(text)))
}

/// The output of the first `n` items but the texts. `fresh` names them.
pub open spec fn output_upto(items: Seq<ResponseItemV>, fresh: Seq<Seq<char>>, n: nat) -> Seq<JsonV>
    decreases n,
{
    if n == 0 {
        Seq::empty()
    } else {
        let before = output_upto(items, fresh, (n - 1) as nat);
        match items[n - 1] {
            ResponseItemV::Reasoning { text } => before.push(
                reasoning_value("rs_"@ + fresh[n - 1], text),
            ),
            ResponseItemV::FunctionCall { call_id, name, arguments } => before.push(
                call_value("fc_"@ + fresh[n - 1], call_id, name, arguments, "completed"@),
            ),
            ResponseItemV::Message { .. } => before,
        }
    }
}

/// The texts of the first `n` items, one behind the other.
pub open spec fn text_upto(items: Seq<ResponseItemV>, n: nat) -> Seq<char>
    decreases n,
{
    if n == 0 {
        Seq::empty()
    } else {
        let before = text_upto(items, (n - 1) as nat);
        match items[n - 1] {
            ResponseItemV::Message { text } => before + text,
            _ => before,
        }
    }
}

/// The token counts as the protocol writes them.
pub open spec fn usage_value(u: TokenUsage) -> JsonV {
    let cached = match u.cache_read_input_tokens {
        Some(n) => n,
        None => 0,
    };
    let created = match u.cache_creation_input_tokens {
        Some(n) => n,
        None => 0,
    };
    JsonV::obj().with("input_tokens"@, JsonV::num(u.input_tokens as u64)).with(
        "output_tokens"@,
        JsonV::num(u.output_tokens as u64),
    ).with("total_tokens"@, JsonV::num((u.input_tokens + u.output_tokens) as u64)).with_opt(
        "input_tokens_details"@,
        if u.cache_read_input_tokens is Some || u.cache_creation_input_tokens is Some {
            Some(
                JsonV::obj().with("cached_tokens"@, JsonV::num(cached as u64)).with(
                    "cache_creation_tokens"@,
                    JsonV::num(created as u64),
                ),
            )
        } else {
            None
        },
    ).with_opt("cache_read_input_tokens"@, JsonV::opt_u32(u.cache_read_input_tokens)).with_opt(
        "cache_creation_input_tokens"@,
        JsonV::opt_u32(u.cache_creation_input_tokens),
    ).with_opt(
        "server_tool_use"@,
        match u.server_tool_use {
            Some(s) => Some(
                JsonV::obj().with(
                    "web_search_requests"@,
                    JsonV::num(s.web_search_requests as u64),
                ).with("web_fetch_requests"@, JsonV::num(s.web_fetch_requests as u64)),
            ),
            None => None,
        },
    )
}

/// Writes the token counts.
pub fn responses_usage_json(usage: &TokenUsage) -> (r: Json)
    ensures
        r@ == usage_value(*usage),
{
    let cached = match usage.cache_read_input_tokens {
        Some(n) => n,
        None => 0u32,
    };
    let created = match usage.cache_creation_input_tokens {
        Some(n) => n,
        None => 0u32,
    };
    let details = if usage.cache_read_input_tokens.is_some()
        || usage.cache_creation_input_tokens.is_some() {
        Some(
            Json::object().with("cached_tokens", Json::num(cached as u64)).with(
                "cache_creation_tokens",
                Json::num(created as u64),
            ),
        )
    } else {
        None
    };
    let server = match usage.server_tool_use {
        Some(s) => Some(
            Json::object().with(
                "web_search_requests",
                Json::num(s.web_search_requests as u64),
            ).with("web_fetch_requests", Json::num(s.web_fetch_requests as u64)),
        ),
        None => None,
    };
    Json::object().with("input_tokens", Json::num(usage.input_tokens as u64)).with(
        "output_tokens",
        Json::num(usage.output_tokens as u64),
    ).with(
        "total_tokens",
        Json::num(usage.input_tokens as u64 + usage.output_tokens as u64),
    ).with_opt("input_tokens_details", details).with_opt(
        "cache_read_input_tokens",
        Json::u32_opt(usage.cache_read_input_tokens),
    ).with_opt(
        "cache_creation_input_tokens",
        Json::u32_opt(usage.cache_creation_input_tokens),
    ).with_opt("server_tool_use", server)
}

/// A response as the protocol writes it. The identifiers of `fresh` are taken for the response
/// where it has none, for its text, and for its other items in turn.
pub open spec fn response_value(resp: InternalResponseV, fresh: Seq<Seq<char>>) -> JsonV {
    let items = items_of(resp);
    let text = text_upto(items, items.len());
    let output = output_upto(items, fresh.skip(2), items.len());
    JsonV::obj().with(
        "id"@,
        JsonV::Text(
            if resp.id.len() == 0 {
                "resp_"@ + fresh[0]
            } else {
                resp.id
            },
        ),
    ).with("object"@, JsonV::Text("response"@)).with("status"@, JsonV::Text("completed"@)).with(
        "model"@,
        JsonV::Text(resp.model),
    ).with(
        "output"@,
        JsonV::Array(
            if text.len() == 0 {
                output
            } else {
                output.push(message_value("msg_"@ + fresh[1], text))
            },
        ),
    ).with("output_text"@, JsonV::Text(text)).with("usage"@, usage_value(resp.usage))
}

fn item_dup(i: &ResponseItem) -> (r: ResponseItem)
    ensures
        r@ == i@,
{
    match i {
        ResponseItem::Reasoning { text } => ResponseItem::Reasoning { text: text.clone() },
        ResponseItem::FunctionCall { call_id, name, arguments } => ResponseItem::FunctionCall {
            call_id: call_id.clone(),
            name: name.clone(),
            arguments: arguments.clone(),
        },
        ResponseItem::Message { text } => ResponseItem::Message { text: text.clone() },
    }
}

fn list_items(resp: &InternalResponse) -> (r: Vec<ResponseItem>)
    ensures
        r.views() == items_of(resp@),
{
    let mut out: Vec<ResponseItem> = crate::views::none();
    match &resp.response_items {
        Some(v) => {
            for i in 0..v.len()
                invariant
                    out.views().len() == i,
                    forall|j: int| 0 <= j < i ==> #[trigger] out.views()[j] == v.views()[j],
            {
                crate::views::push(&mut out, item_dup(&v[i]));
            }
            assert(out.views() =~= v.views());
        },
        None => {
            if let Some(t) = &resp.reasoning_content {
                crate::views::push(&mut out, ResponseItem::Reasoning { text: t.clone() });
                assert(out.views() =~= seq![ResponseItemV::Reasoning { text: t@ }]);
            }
            let ghost head = out.views();
            for i in 0..resp.tool_calls.len()
                invariant
                    out.views() == head + Seq::new(
                        i as nat,
                        |j: int| call_item(resp.tool_calls.views()[j]),
                    ),
            {
                let c = &resp.tool_calls[i];
                assert(resp.tool_calls.views()[i as int] == c@);
                crate::views::push(
                    &mut out,
                    ResponseItem::FunctionCall {
                        call_id: c.id.clone(),
                        name: c.name.clone(),
                        arguments: c.arguments.clone(),
                    },
                );
                assert(out.views() =~= head + Seq::new(
                    (i + 1) as nat,
                    |j: int| call_item(resp.tool_calls.views()[j]),
                ));
            }
            crate::views::push(&mut out, ResponseItem::Message { text: resp.content.clone() });
        },
    }
    out
}

/// Writes responses of the protocol.
#[derive(Debug, Clone, Copy)]
pub struct ResponsesResponseFormatter;

impl ResponsesResponseFormatter {
    /// How many identifiers a response may need.
    pub fn ids_needed(&self, resp: &InternalResponse) -> (r: usize)
        ensures
            r == items_of(resp@).len(),
    {
        list_items(resp).len()
    }

    /// Writes a response under given identifiers: one for the response, one for its text, and one
    /// for every item.
    pub fn format_with_ids(
        &self,
        resp: &InternalResponse,
        resp_id: &str,
        msg_id: &str,
        fresh: &Vec<String>,
    ) -> (r: Json)
        requires
            fresh@.len() == items_of(resp@).len(),
        ensures
            r@ == response_value(resp@, seq![resp_id@, msg_id@] + fresh.views()),
    {
        let items = list_items(resp);
        let mut output: Vec<Json> = crate::views::none();
        let mut text = String::new();
        assert(text@ =~= Seq::<char>::empty());
        for i in 0..items.len()
            invariant
                fresh@.len() == items@.len(),
                output.views() == output_upto(items.views(), fresh.views(), i as nat),
                text@ == text_upto(items.views(), i as nat),
        {
            assert(items.views()[i as int] == items@[i as int]@);
            assert(fresh.views()[i as int] == fresh@[i as int]@);
            match &items[i] {
                ResponseItem::Reasoning { text: t } => {
                    let id = crate::text::cat("rs_", fresh[i].as_str());
                    crate::views::push(&mut output, reasoning_json(id.as_str(), t.as_str()));
                },
                ResponseItem::FunctionCall { call_id, name, arguments } => {
                    let id = crate::text::cat("fc_", fresh[i].as_str());
                    crate::views::push(
                        &mut output,
                        call_json(
                            id.as_str(),
                            call_id.as_str(),
                            name.as_str(),
                            arguments.as_str(),
                            "completed",
                        ),
                    );
                },
                ResponseItem::Message { text: t } => {
                    text.append(t.as_str());
                },
            }
        }
        assert((seq![resp_id@, msg_id@] + fresh.views()).skip(2) =~= fresh.views());
        if !text.as_str().is_empty() {
            let id = crate::text::cat("msg_", msg_id);
            crate::views::push(&mut output, message_json(id.as_str(), text.as_str()));
        }
        let id = if resp.id.as_str().is_empty() {
            crate::text::cat("resp_", resp_id)
        } else {
            resp.id.clone()
        };
        Json::object().with("id", Json::text(id.as_str())).with(
            "object",
            Json::text("response"),
        ).with("status", Json::text("completed")).with(
            "model",
            Json::text(resp.model.as_str()),
        ).with("output", Json::array(output)).with("output_text", Json::text(text.as_str())).with(
            "usage",
            responses_usage_json(&resp.usage),
        )
    }
}

impl ResponseFormatter for ResponsesResponseFormatter {
    fn format_response(&self, resp: &InternalResponse) -> (r: Json)
        ensures
            exists|fresh: Seq<Seq<char>>| #[trigger]
                crate::fresh::all_uuid_texts(fresh) && fresh.len() == items_of(resp@).len() + 2
                    && r@ == response_value(resp@, fresh),
    {
        let resp_id = crate::fresh::uuid_text();
        let msg_id = crate::fresh::uuid_text();
        let fresh = crate::fresh::uuid_texts(self.ids_needed(resp));
        let ghost all = seq![resp_id@, msg_id@] + fresh.views();
        assert forall|i: int| 0 <= i < all.len() implies crate::fresh::is_uuid_text(
            #[trigger] all[i],
        ) by {
            if i >= 2 {
                assert(all[i] == fresh.views()[i - 2]);
            }
        }
        assert(crate::fresh::all_uuid_texts(all));
        self.format_with_ids(resp, resp_id.as_str(), msg_id.as_str(), &fresh)
    }
}

} // verus!
