//! Writes requests of the Responses protocol.
//!
//! The provider only streams, so a stream is always asked for.
use vstd::prelude::*;

use crate::json::{Fields, Json, JsonV};
use crate::protocol::codec::openai_compatible::encoder::tool_choice_to_value;
use crate::protocol::ir::request::{
    AiRequest, AiRequestV, Message, MessageV, Role, ToolCall, ToolSpec, ToolSpecV,
};
use crate::protocol::traits::RequestEncoder;
use crate::protocol::types::ToolCallV;
use crate::protocol::CodecError;
use crate::views::Views;

verus! {

/// The item of a text.
pub open spec fn text_item(role: Seq<char>, kind: Seq<char>, text: Seq<char>) -> JsonV {
    JsonV::obj().with("type"@, JsonV::Text("message"@)).with("role"@, JsonV::Text(role)).with(
        "content"@,
        JsonV::Array(
            seq![JsonV::obj().with("type"@, JsonV::Text(kind)).with("text"@, JsonV::Text(text))],
        ),
    )
}

fn text_json(role: &str, kind: &str, text: &str) -> (r: Json)
    ensures
        r@ == text_item(role@, kind@, text@),
{
    let part = Json::object().with("type", Json::text(kind)).with("text", Json::text(text));
    let mut parts: Vec<Json> = crate::views::none();
    let ghost p = part@;
    crate::views::push(&mut parts, part);
    assert(parts.views() =~= seq![p]);
    Json::object().with("type", Json::text("message")).with("role", Json::text(role)).with(
        "content",
        Json::array(parts),
    )
}

/// The item of a call.
pub open spec fn call_item(c: ToolCallV) -> JsonV {
    JsonV::obj().with("type"@, JsonV::Text("function_call"@)).with(
        "call_id"@,
        JsonV::Text(c.id),
    ).with("name"@, JsonV::Text(c.name)).with("arguments"@, JsonV::Text(c.arguments))
}

fn call_json(c: &ToolCall) -> (r: Json)
    ensures
        r@ == call_item(c@),
{
    Json::object().with("type", Json::text("function_call")).with(
        "call_id",
        Json::text(c.id.as_str()),
    ).with("name", Json::text(c.name.as_str())).with("arguments", Json::text(c.arguments.as_str()))
}

/// The item of a call's output.
pub open spec fn output_item(m: MessageV) -> JsonV {
    JsonV::obj().with("type"@, JsonV::Text("function_call_output"@)).with(
        "call_id"@,
        JsonV::Text(
            match m.tool_call_id {
                Some(id) => id,
                None => Seq::empty(),
            },
        ),
    ).with("output"@, JsonV::Text(m.content.to_text()))
}

fn output_json(m: &Message) -> (r: Json)
    ensures
        r@ == output_item(m@),
{
    let id = match &m.tool_call_id {
        Some(id) => id.clone(),
        None => {
            let empty = String::new();
            assert(empty@ =~= Seq::<char>::empty());
            empty
        },
    };
    Json::object().with("type", Json::text("function_call_output")).with(
        "call_id",
        Json::text(id.as_str()),
    ).with("output", Json::text(m.content.to_text().as_str()))
}

/// What the messages are split into.
pub struct InputV {
    pub instructions: Seq<Seq<char>>,
    pub items: Seq<JsonV>,
}

impl InputV {
    pub open spec fn push(self, item: JsonV) -> InputV {
        InputV { items: self.items.push(item), ..self }
    }

    pub open spec fn calls(self, v: Seq<ToolCallV>, n: nat) -> InputV
        decreases n,
    {
        if n == 0 {
            self
        } else {
            self.calls(v, (n - 1) as nat).push(call_item(v[n - 1]))
        }
    }

    /// One message more: the system's are instructions, the others items.
    pub open spec fn message(self, m: MessageV) -> InputV {
        let text = m.content.to_text();
        match m.role {
            Role::System => if text.len() == 0 {
                self
            } else {
                InputV { instructions: self.instructions.push(text), ..self }
            },
            Role::Tool => self.push(output_item(m)),
            _ => {
                let (role, kind) = if m.role == Role::Assistant {
                    ("assistant"@, "output_text"@)
                } else {
                    ("user"@, "input_text"@)
                };
                let said = if text.len() == 0 {
                    self
                } else {
                    self.push(text_item(role, kind, text))
                };
                match m.tool_calls {
                    Some(v) => said.calls(v, v.len()),
                    None => said,
                }
            },
        }
    }

    /// The first `n` messages.
    pub open spec fn of(v: Seq<MessageV>, n: nat) -> InputV
        decreases n,
    {
        if n == 0 {
            InputV { instructions: Seq::empty(), items: Seq::empty() }
        } else {
            InputV::of(v, (n - 1) as nat).message(v[n - 1])
        }
    }
}

struct Input {
    instructions: Vec<String>,
    items: Vec<Json>,
}

impl View for Input {
    type V = InputV;

    closed spec fn view(&self) -> InputV {
        InputV { instructions: self.instructions.views(), items: self.items.views() }
    }
}

impl Input {
    fn message(&mut self, m: &Message)
        ensures
            final(self)@ == old(self)@.message(m@),
    {
        let text = m.content.to_text();
        match m.role {
            Role::System => {
                if !text.as_str().is_empty() {
                    crate::views::push(&mut self.instructions, text);
                }
            },
            Role::Tool => {
                crate::views::push(&mut self.items, output_json(m));
            },
            _ => {
                if !text.as_str().is_empty() {
                    let item = if m.role == Role::Assistant {
                        text_json("assistant", "output_text", text.as_str())
                    } else {
                        text_json("user", "input_text", text.as_str())
                    };
                    crate::views::push(&mut self.items, item);
                }
                if let Some(v) = &m.tool_calls {
                    let ghost before = self@;
                    for i in 0..v.len()
                        invariant
                            self@ == before.calls(v.views(), i as nat),
                    {
                        assert(v.views()[i as int] == v@[i as int]@);
                        crate::views::push(&mut self.items, call_json(&v[i]));
                    }
                }
            },
        }
    }
}

/// The tool as the protocol writes it; one that the provider runs is written as it came.
pub open spec fn tool_value(t: ToolSpecV) -> JsonV {
    if crate::text::begins(t.name, "__builtin__"@) {
        t.parameters
    } else {
        JsonV::obj().with("type"@, JsonV::Text("function"@)).with("name"@, JsonV::Text(t.name)).with(
            "description"@,
            JsonV::text_or_null(t.description),
        ).with("parameters"@, t.parameters)
    }
}

fn tool_json(t: &ToolSpec) -> (r: Json)
    ensures
        r@ == tool_value(t@),
{
    if crate::text::starts_with(t.name.as_str(), "__builtin__") {
        t.parameters.dup()
    } else {
        Json::object().with("type", Json::text("function")).with(
            "name",
            Json::text(t.name.as_str()),
        ).with("description", Json::text_or_null(&t.description)).with(
            "parameters",
            t.parameters.dup(),
        )
    }
}

pub open spec fn tools_value(v: Seq<ToolSpecV>) -> JsonV {
    JsonV::Array(Seq::new(v.len(), |i: int| tool_value(v[i])))
}

fn tools_json(v: &Vec<ToolSpec>) -> (r: Json)
    ensures
        r@ == tools_value(v.views()),
{
    let mut out: Vec<Json> = crate::views::none();
    for i in 0..v.len()
        invariant
            out.views().len() == i,
            forall|j: int| 0 <= j < i ==> #[trigger] out.views()[j] == tool_value(v.views()[j]),
    {
        assert(v.views()[i as int] == v@[i as int]@);
        crate::views::push(&mut out, tool_json(&v[i]));
    }
    assert(out.views() =~= Seq::new(v.views().len(), |i: int| tool_value(v.views()[i])));
    Json::array(out)
}

/// The instructions, one behind the other, or the ones that are taken where there are none.
pub open spec fn instructions_of(v: Seq<Seq<char>>) -> Seq<char> {
    if v.len() == 0 {
        "You are a helpful assistant."@
    } else {
        crate::text::join_of(v, "\n\n"@)
    }
}

/// Whether a field of the bag is never copied: the body has its own.
pub open spec fn is_own(k: Seq<char>) -> bool {
    k == "messages"@ || k == "input"@ || k == "instructions"@ || k == "stream"@ || k == "model"@
}

/// Those of the first `n` fields of the bag that the body lacks.
pub open spec fn rest_upto(
    f: Seq<(Seq<char>, JsonV)>,
    bag: Seq<(Seq<char>, JsonV)>,
    n: nat,
) -> Seq<(Seq<char>, JsonV)>
    decreases n,
{
    if n == 0 {
        f
    } else {
        let before = rest_upto(f, bag, (n - 1) as nat);
        if is_own(bag[n - 1].0) {
            before
        } else {
            crate::json::put_absent(before, bag[n - 1].0, bag[n - 1].1)
        }
    }
}

/// The fields of the body that the representation knows.
pub open spec fn known_fields(req: AiRequestV) -> Seq<(Seq<char>, JsonV)> {
    let input = InputV::of(req.messages, req.messages.len());
    let bag = JsonV::Object(req.meta.vendor.ingress);
    let f = crate::json::put_field(Seq::empty(), "model"@, JsonV::Text(req.model));
    let f = crate::json::put_field(
        f,
        "store"@,
        JsonV::Bool(bag.get_bool("store"@) == Some(true)),
    );
    let f = crate::json::put_field(f, "stream"@, JsonV::Bool(true));
    let f = crate::json::put_field(
        f,
        "instructions"@,
        JsonV::Text(instructions_of(input.instructions)),
    );
    let f = crate::json::put_field(f, "input"@, JsonV::Array(input.items));
    let f = crate::json::put_opt(f, "temperature"@, JsonV::opt_float(req.generation.temperature));
    let f = crate::json::put_opt(f, "top_p"@, JsonV::opt_float(req.generation.top_p));
    let f = crate::json::put_opt(
        f,
        "tools"@,
        match req.tools {
            Some(v) => Some(tools_value(v)),
            None => None,
        },
    );
    crate::json::put_opt(
        f,
        "tool_choice"@,
        match req.tool_choice {
            Some(c) => Some(
                crate::protocol::codec::openai_compatible::encoder::choice_value(c),
            ),
            None => None,
        },
    )
}

pub open spec fn carried(
    f: Seq<(Seq<char>, JsonV)>,
    bag: Seq<(Seq<char>, JsonV)>,
    k: Seq<char>,
) -> Seq<(Seq<char>, JsonV)> {
    crate::json::put_opt_absent(f, k, crate::json::get_field(bag, k))
}

/// The body of a request; one without any item cannot be written.
pub open spec fn body_of(req: AiRequestV) -> Result<JsonV, Seq<char>> {
    if InputV::of(req.messages, req.messages.len()).items.len() == 0 {
        Err("responses request requires at least one input item"@)
    } else {
        let bag = req.meta.vendor.ingress;
        let f = carried(known_fields(req), bag, "background"@);
        let f = carried(f, bag, "previous_response_id"@);
        let f = carried(f, bag, "include"@);
        let f = carried(f, bag, "truncation"@);
        let f = carried(f, bag, "metadata"@);
        let f = carried(f, bag, "text"@);
        let f = carried(f, bag, "reasoning"@);
        let f = carried(f, bag, "parallel_tool_calls"@);
        let f = carried(f, bag, "service_tier"@);
        let f = carried(f, bag, "user"@);
        Ok(JsonV::Object(rest_upto(f, bag, bag.len())))
    }
}

fn carry(f: &mut Fields, bag: &Fields, k: &str)
    ensures
        final(f)@ == carried(old(f)@, bag@, k@),
{
    let v = match bag.get(k) {
        Some(v) => Some(v.dup()),
        None => None,
    };
    f.insert_opt_absent(k, v);
}

fn carry_rest(f: &mut Fields, bag: &Fields)
    ensures
        final(f)@ == rest_upto(old(f)@, bag@, bag@.len()),
{
    let n: usize = bag.len();
    let mut i: usize = 0;
    while i < n
        invariant
            n == bag@.len(),
            i <= n,
            f@ == rest_upto(old(f)@, bag@, i as nat),
        decreases n - i,
    {
        let k = bag.key_at(i);
        if !(*k == *"messages" || *k == *"input" || *k == *"instructions" || *k == *"stream" || *k
            == *"model") {
            f.insert_absent(k, bag.value_at(i).dup());
        }
        i = i + 1;
    }
}

fn encode_known(req: &AiRequest, input: Input) -> (r: Fields)
    requires
        input@ == InputV::of(req@.messages, req@.messages.len()),
    ensures
        r@ == known_fields(req@),
{
    let store = match req.meta.vendor.ingress.get("store") {
        Some(v) => match v.as_bool() {
            Some(b) => b,
            None => false,
        },
        None => false,
    };
    let instructions = if input.instructions.len() == 0 {
        "You are a helpful assistant.".to_string()
    } else {
        crate::text::join(&input.instructions, "\n\n")
    };
    let mut f = Fields::new();
    f.insert("model", Json::text(req.model.as_str()));
    f.insert("store", Json::Bool(store));
    f.insert("stream", Json::Bool(true));
    f.insert("instructions", Json::text(instructions.as_str()));
    f.insert("input", Json::array(input.items));
    f.insert_opt("temperature", Json::float_opt(&req.generation.temperature));
    f.insert_opt("top_p", Json::float_opt(&req.generation.top_p));
    let v = match &req.tools {
        Some(t) => Some(tools_json(t)),
        None => None,
    };
    f.insert_opt("tools", v);
    let v = match &req.tool_choice {
        Some(c) => Some(tool_choice_to_value(c)),
        None => None,
    };
    f.insert_opt("tool_choice", v);
    f
}

/// Writes requests of the protocol.
#[derive(Debug, Clone, Copy)]
pub struct ResponsesEncoder;

impl RequestEncoder for ResponsesEncoder {
    /// Writes a request; it has no headers of its own.
    fn encode_request(&self, req: &AiRequest) -> (r: Result<
        (Json, Vec<(String, String)>),
        CodecError,
    >)
        ensures
            match body_of(req@) {
                Ok(v) => r matches Ok((body, headers)) && body@ == v && headers@.len() == 0,
                Err(e) => r matches Err(x) && x@ == e,
            },
    {
        let mut input = Input { instructions: crate::views::none(), items: crate::views::none() };
        for i in 0..req.messages.len()
            invariant
                input@ == InputV::of(req.messages.views(), i as nat),
        {
            assert(req.messages.views()[i as int] == req.messages@[i as int]@);
            input.message(&req.messages[i]);
        }
        if input.items.len() == 0 {
            return Err(CodecError::new("responses request requires at least one input item"));
        }
        let bag = &req.meta.vendor.ingress;
        let mut f = encode_known(req, input);
        carry(&mut f, bag, "background");
        carry(&mut f, bag, "previous_response_id");
        carry(&mut f, bag, "include");
        carry(&mut f, bag, "truncation");
        carry(&mut f, bag, "metadata");
        carry(&mut f, bag, "text");
        carry(&mut f, bag, "reasoning");
        carry(&mut f, bag, "parallel_tool_calls");
        carry(&mut f, bag, "service_tier");
        carry(&mut f, bag, "user");
        carry_rest(&mut f, bag);
        Ok((Json::of_fields(f), Vec::new()))
    }

    fn egress_path(&self, model: &str, stream: bool) -> (r: String)
        ensures
            r@ == "/v1/responses"@,
    {
        "/v1/responses".to_string()
    }
}

} // verus!
