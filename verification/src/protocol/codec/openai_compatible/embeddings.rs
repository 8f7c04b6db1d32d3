//! The Embeddings endpoint.
//!
//! A request passes through nearly as it came; of a response only the token counts are read.
use vstd::prelude::*;

use crate::json::{Fields, Json, JsonNumber, JsonV, NumberV};
use crate::protocol::ids::{
    one_route, CapabilitiesV, EndpointCapabilities, EndpointV, ProtocolEndpoint, Route, RouteV,
};
use crate::protocol::ir::request::{AiRequest, AiRequestV, MetaV, RequestMetadata};
use crate::protocol::ir::usage::Usage;
use crate::protocol::ir::vendor_ext::{VendorExtensions, VendorV};
use crate::protocol::traits::{EndpointHandler, RequestDecoder, RequestEncoder};
use crate::protocol::CodecError;
use crate::views::Views;

verus! {

/// The name under which the whole body of a request is kept.
pub const EMBEDDINGS_BODY_KEY: &'static str = "__embeddings_passthrough_body__";

/// The Embeddings endpoint.
#[derive(Debug, Clone, Copy)]
pub struct OpenAIEmbeddingsV1;

impl EndpointHandler for OpenAIEmbeddingsV1 {
    open spec fn endpoint(&self) -> EndpointV {
        EndpointV::openai_embeddings_v1()
    }

    open spec fn abilities(&self) -> CapabilitiesV {
        CapabilitiesV {
            embeddings: true,
            ingress_routes: seq![
                RouteV { method: "POST"@, path: "/v1/embeddings"@ },
                RouteV { method: "POST"@, path: "/embeddings"@ },
            ],
            ..CapabilitiesV::empty()
        }
    }

    fn id(&self) -> ProtocolEndpoint {
        crate::protocol::ids::openai_embeddings_v1()
    }

    fn capabilities(&self) -> EndpointCapabilities {
        let mut c = EndpointCapabilities::empty();
        c.embeddings = true;
        c.ingress_routes = one_route("/v1/embeddings");
        crate::views::push(&mut c.ingress_routes, Route { method: "POST", path: "/embeddings" });
        assert(c@.ingress_routes =~= self.abilities().ingress_routes);
        c
    }
}

// ---------------------------------------------------------------- requests

/// Whether a field is one that the protocol defines.
pub open spec fn is_known(k: Seq<char>) -> bool {
    k == "model"@ || k == "input"@ || k == "dimensions"@ || k == "encoding_format"@ || k == "user"@
}

/// Those of the first `n` fields that the protocol does not define.
pub open spec fn unknown_upto(f: Seq<(Seq<char>, JsonV)>, n: nat) -> Seq<(Seq<char>, JsonV)>
    decreases n,
{
    if n == 0 {
        Seq::empty()
    } else {
        let before = unknown_upto(f, (n - 1) as nat);
        if is_known(f[n - 1].0) {
            before
        } else {
            crate::json::put_field(before, f[n - 1].0, f[n - 1].1)
        }
    }
}

/// The bag of a request: its whole body, its fields one by one, and the unknown ones together.
pub open spec fn ingress_of(body: JsonV) -> Seq<(Seq<char>, JsonV)> {
    let fields = body->Object_0;
    let unknown = unknown_upto(fields, fields.len());
    let f = crate::json::put_field(Seq::empty(), EMBEDDINGS_BODY_KEY@, body);
    let f = crate::json::put_opt(f, "__emb_input"@, body.get("input"@));
    let f = crate::json::put_opt(f, "__emb_dimensions"@, body.get("dimensions"@));
    let f = crate::json::put_opt(f, "__emb_encoding_format"@, body.get("encoding_format"@));
    let f = crate::json::put_opt(f, "__emb_user"@, body.get("user"@));
    crate::json::put_opt(
        f,
        "__vendor_ingress"@,
        if unknown.len() == 0 {
            None
        } else {
            Some(JsonV::Object(unknown))
        },
    )
}

/// The request that a body stands for.
pub open spec fn request_of(body: JsonV) -> Result<AiRequestV, Seq<char>> {
    match body {
        JsonV::Object(_) => match crate::text::trimmed(body.get_str("model"@)) {
            Some(model) => Ok(
                AiRequestV {
                    meta: MetaV {
                        source_protocol: Some(EndpointV::openai_embeddings_v1()),
                        raw: None,
                        vendor: VendorV { ingress: ingress_of(body), ..VendorV::none() },
                    },
                    ..AiRequestV::bare(model, Seq::empty())
                },
            ),
            None => Err("model is required for embeddings"@),
        },
        _ => Err("embeddings request must be a JSON object"@),
    }
}

fn unknown_fields(f: &Fields) -> (r: Fields)
    ensures
        r@ == unknown_upto(f@, f@.len()),
{
    let n: usize = f.len();
    let mut out = Fields::new();
    let mut i: usize = 0;
    while i < n
        invariant
            n == f@.len(),
            i <= n,
            out@ == unknown_upto(f@, i as nat),
        decreases n - i,
    {
        let k = f.key_at(i);
        if !(*k == *"model" || *k == *"input" || *k == *"dimensions" || *k == *"encoding_format"
            || *k == *"user") {
            out.insert(k, f.value_at(i).dup());
        }
        i = i + 1;
    }
    out
}

fn build_ingress(body: &Json, fields: &Fields) -> (r: Fields)
    requires
        body@ == JsonV::Object(fields@),
    ensures
        r@ == ingress_of(body@),
{
    let mut f = Fields::new();
    f.insert(EMBEDDINGS_BODY_KEY, body.dup());
    f.insert_opt("__emb_input", body.get_dup("input"));
    f.insert_opt("__emb_dimensions", body.get_dup("dimensions"));
    f.insert_opt("__emb_encoding_format", body.get_dup("encoding_format"));
    f.insert_opt("__emb_user", body.get_dup("user"));
    let unknown = unknown_fields(fields);
    let v = if unknown.is_empty() {
        None
    } else {
        Some(Json::of_fields(unknown))
    };
    f.insert_opt("__vendor_ingress", v);
    f
}

/// Reads requests of the protocol.
#[derive(Debug, Clone, Copy)]
pub struct EmbeddingsDecoder;

impl RequestDecoder for EmbeddingsDecoder {
    type Wire = Json;

    fn decode_request(&self, body: &Json) -> (r: Result<AiRequest, CodecError>)
        ensures
            r.views() == request_of(body@),
    {
        broadcast use crate::json::lemma_object_view;

        let fields = match body {
            Json::Object(f) => f,
            _ => {
                return Err(CodecError::new("embeddings request must be a JSON object"));
            },
        };
        let named = crate::text::own_opt(body.get_str("model"));
        let model = match crate::text::trimmed_opt(&named) {
            Some(m) => m.to_string(),
            None => {
                return Err(CodecError::new("model is required for embeddings"));
            },
        };
        let mut vendor = VendorExtensions::default();
        vendor.ingress = build_ingress(body, fields);
        let mut out = AiRequest::new(model, crate::views::none());
        out.meta = RequestMetadata {
            source_protocol: Some(crate::protocol::ids::openai_embeddings_v1()),
            raw: None,
            vendor,
        };
        Ok(out)
    }
}

/// The input of a request: the field of its own, or that of the body which was kept.
pub open spec fn input_of(bag: Seq<(Seq<char>, JsonV)>) -> Option<JsonV> {
    match crate::json::get_field(bag, "__emb_input"@) {
        Some(v) => Some(v),
        None => match crate::json::get_field(bag, EMBEDDINGS_BODY_KEY@) {
            Some(body) => body.get("input"@),
            None => None,
        },
    }
}

/// The body of a request: its known fields, and no others.
pub open spec fn body_of(req: AiRequestV) -> JsonV {
    let bag = req.meta.vendor.ingress;
    JsonV::obj().with("model"@, JsonV::Text(req.model)).with_opt("input"@, input_of(bag)).with_opt(
        "dimensions"@,
        crate::json::get_field(bag, "__emb_dimensions"@),
    ).with_opt(
        "encoding_format"@,
        crate::json::get_field(bag, "__emb_encoding_format"@),
    ).with_opt("user"@, crate::json::get_field(bag, "__emb_user"@))
}

fn copy_of(bag: &Fields, k: &str) -> (r: Option<Json>)
    ensures
        r.views() == crate::json::get_field(bag@, k@),
{
    match bag.get(k) {
        Some(v) => Some(v.dup()),
        None => None,
    }
}

/// Writes requests of the protocol.
#[derive(Debug, Clone, Copy)]
pub struct EmbeddingsEncoder;

impl RequestEncoder for EmbeddingsEncoder {
    /// Writes a request; it has no headers of its own.
    fn encode_request(&self, req: &AiRequest) -> (r: Result<
        (Json, Vec<(String, String)>),
        CodecError,
    >)
        ensures
            r matches Ok((body, headers)) && body@ == body_of(req@) && headers@.len() == 0,
    {
        let bag = &req.meta.vendor.ingress;
        let input = match copy_of(bag, "__emb_input") {
            Some(v) => Some(v),
            None => match bag.get(EMBEDDINGS_BODY_KEY) {
                Some(body) => body.get_dup("input"),
                None => None,
            },
        };
        let body = Json::object().with("model", Json::text(req.model.as_str())).with_opt(
            "input",
            input,
        ).with_opt("dimensions", copy_of(bag, "__emb_dimensions")).with_opt(
            "encoding_format",
            copy_of(bag, "__emb_encoding_format"),
        ).with_opt("user", copy_of(bag, "__emb_user"));
        Ok((body, Vec::new()))
    }

    fn egress_path(&self, model: &str, stream: bool) -> (r: String)
        ensures
            r@ == "/v1/embeddings"@,
    {
        "/v1/embeddings".to_string()
    }
}

/// A request that is read and written again holds its model, trimmed, and its known fields.
pub proof fn lemma_known_fields_pass(body: JsonV)
    requires
        body is Object,
        crate::text::trimmed(body.get_str("model"@)) is Some,
    ensures
        body_of(request_of(body)->Ok_0) == JsonV::obj().with(
            "model"@,
            JsonV::Text(crate::text::trimmed(body.get_str("model"@))->0),
        ).with_opt("input"@, body.get("input"@)).with_opt(
            "dimensions"@,
            body.get("dimensions"@),
        ).with_opt("encoding_format"@, body.get("encoding_format"@)).with_opt(
            "user"@,
            body.get("user"@),
        ),
{
    reveal_strlit("__embeddings_passthrough_body__");
    reveal_strlit("__emb_input");
    reveal_strlit("__emb_dimensions");
    reveal_strlit("__emb_encoding_format");
    reveal_strlit("__emb_user");
    reveal_strlit("__vendor_ingress");
    let names = seq![
        EMBEDDINGS_BODY_KEY@,
        "__emb_input"@,
        "__emb_dimensions"@,
        "__emb_encoding_format"@,
        "__emb_user"@,
        "__vendor_ingress"@,
    ];
    assert(names[0].len() == 31);
    assert(names[1].len() == 11);
    assert(names[2].len() == 16);
    assert(names[3].len() == 21);
    assert(names[4].len() == 10);
    assert(names[5].len() == 16);
    assert(names[2][2] == 'e');
    assert(names[5][2] == 'v');
    lemma_bag(body, EMBEDDINGS_BODY_KEY@);
    lemma_bag(body, "__emb_input"@);
    lemma_bag(body, "__emb_dimensions"@);
    lemma_bag(body, "__emb_encoding_format"@);
    lemma_bag(body, "__emb_user"@);
}

/// What the bag holds under a name.
proof fn lemma_bag(body: JsonV, k: Seq<char>)
    requires
        body is Object,
    ensures
        k != "__vendor_ingress"@ ==> crate::json::get_field(ingress_of(body), k) == if k
            == "__emb_user"@ && body.get("user"@) is Some {
            body.get("user"@)
        } else if k == "__emb_encoding_format"@ && body.get("encoding_format"@) is Some {
            body.get("encoding_format"@)
        } else if k == "__emb_dimensions"@ && body.get("dimensions"@) is Some {
            body.get("dimensions"@)
        } else if k == "__emb_input"@ && body.get("input"@) is Some {
            body.get("input"@)
        } else if k == EMBEDDINGS_BODY_KEY@ {
            Some(body)
        } else {
            None
        },
{
    let fields = body->Object_0;
    let unknown = unknown_upto(fields, fields.len());
    let e = Seq::<(Seq<char>, JsonV)>::empty();
    crate::json::lemma_field_pos(e, k, 0);
    crate::json::lemma_put_get(e, EMBEDDINGS_BODY_KEY@, body, k);
    let f0 = crate::json::put_field(e, EMBEDDINGS_BODY_KEY@, body);
    let f1 = crate::json::put_opt(f0, "__emb_input"@, body.get("input"@));
    if let Some(v) = body.get("input"@) {
        crate::json::lemma_put_get(f0, "__emb_input"@, v, k);
    }
    let f2 = crate::json::put_opt(f1, "__emb_dimensions"@, body.get("dimensions"@));
    if let Some(v) = body.get("dimensions"@) {
        crate::json::lemma_put_get(f1, "__emb_dimensions"@, v, k);
    }
    let f3 = crate::json::put_opt(f2, "__emb_encoding_format"@, body.get("encoding_format"@));
    if let Some(v) = body.get("encoding_format"@) {
        crate::json::lemma_put_get(f2, "__emb_encoding_format"@, v, k);
    }
    let f4 = crate::json::put_opt(f3, "__emb_user"@, body.get("user"@));
    if let Some(v) = body.get("user"@) {
        crate::json::lemma_put_get(f3, "__emb_user"@, v, k);
    }
    crate::json::lemma_put_get(f4, "__vendor_ingress"@, JsonV::Object(unknown), k);
}

// ---------------------------------------------------------------- token counts

/// The token counts of a response: its prompt tokens, where they are a number that is not
/// negative and fits into 63 bits, cut to 32.
pub open spec fn usage_of(payload: JsonV) -> Usage {
    Usage {
        prompt_tokens: match payload.get2("usage"@, "prompt_tokens"@) {
            Some(JsonV::Number(NumberV::PosInt(n))) => if n <= i64::MAX {
                n as u32
            } else {
                0
            },
            _ => 0,
        },
        ..Usage::zero()
    }
}

/// Reads the token counts of a response.
pub fn parse_usage(payload: &Json) -> (r: Usage)
    ensures
        r == usage_of(payload@),
{
    let mut out = Usage::default();
    match payload.get2("usage", "prompt_tokens") {
        Some(Json::Number(n)) => match n {
            JsonNumber::PosInt(n) => {
                if *n <= i64::MAX as u64 {
                    out.prompt_tokens =
                    #[verifier::truncate]
                    (*n as u32);
                }
            },
            _ => {},
        },
        _ => {},
    }
    out
}

} // verus!
