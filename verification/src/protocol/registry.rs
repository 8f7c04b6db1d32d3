//! The endpoints that there are, by their identifiers, their routes and the many names that they
//! go by.
use vstd::prelude::*;

use crate::json::{Fields, Json, JsonV};
use crate::protocol::codec::anthropic_messages::messages::AnthropicMessages2023;
use crate::protocol::codec::google_generative::generate_content::GoogleGenerateContentV1Beta;
use crate::protocol::codec::openai_compatible::chat_completions::OpenAIChatCompletionsV1;
use crate::protocol::codec::openai_compatible::embeddings::OpenAIEmbeddingsV1;
use crate::protocol::codec::openai_responses::responses::OpenAIResponsesV1;
use crate::protocol::ids::{
    CapabilitiesV, EndpointCapabilities, EndpointV, Protocol, ProtocolEndpoint, Route, RouteV,
};
use crate::protocol::traits::EndpointHandler;
use crate::views::Views;

verus! {

/// A registered endpoint.
#[derive(Debug, Clone, Copy, PartialEq, Eq, Structural)]
pub enum EndpointRegistration {
    ChatCompletions,
    Embeddings,
    Responses,
    Messages,
    GenerateContent,
}

/// The name by which earlier code calls a registered endpoint.
pub type ProtocolRegistration = EndpointRegistration;

impl View for EndpointRegistration {
    type V = EndpointRegistration;

    open spec fn view(&self) -> EndpointRegistration {
        *self
    }
}

impl EndpointHandler for EndpointRegistration {
    open spec fn endpoint(&self) -> EndpointV {
        match self {
            EndpointRegistration::ChatCompletions => OpenAIChatCompletionsV1.endpoint(),
            EndpointRegistration::Embeddings => OpenAIEmbeddingsV1.endpoint(),
            EndpointRegistration::Responses => OpenAIResponsesV1.endpoint(),
            EndpointRegistration::Messages => AnthropicMessages2023.endpoint(),
            EndpointRegistration::GenerateContent => GoogleGenerateContentV1Beta.endpoint(),
        }
    }

    open spec fn abilities(&self) -> CapabilitiesV {
        match self {
            EndpointRegistration::ChatCompletions => OpenAIChatCompletionsV1.abilities(),
            EndpointRegistration::Embeddings => OpenAIEmbeddingsV1.abilities(),
            EndpointRegistration::Responses => OpenAIResponsesV1.abilities(),
            EndpointRegistration::Messages => AnthropicMessages2023.abilities(),
            EndpointRegistration::GenerateContent => GoogleGenerateContentV1Beta.abilities(),
        }
    }

    fn id(&self) -> ProtocolEndpoint {
        match self {
            EndpointRegistration::ChatCompletions => OpenAIChatCompletionsV1.id(),
            EndpointRegistration::Embeddings => OpenAIEmbeddingsV1.id(),
            EndpointRegistration::Responses => OpenAIResponsesV1.id(),
            EndpointRegistration::Messages => AnthropicMessages2023.id(),
            EndpointRegistration::GenerateContent => GoogleGenerateContentV1Beta.id(),
        }
    }

    fn capabilities(&self) -> EndpointCapabilities {
        match self {
            EndpointRegistration::ChatCompletions => OpenAIChatCompletionsV1.capabilities(),
            EndpointRegistration::Embeddings => OpenAIEmbeddingsV1.capabilities(),
            EndpointRegistration::Responses => OpenAIResponsesV1.capabilities(),
            EndpointRegistration::Messages => AnthropicMessages2023.capabilities(),
            EndpointRegistration::GenerateContent => GoogleGenerateContentV1Beta.capabilities(),
        }
    }
}

/// All endpoints, by suite and within a suite by name.
pub open spec fn registered() -> Seq<EndpointRegistration> {
    seq![
        EndpointRegistration::ChatCompletions,
        EndpointRegistration::Embeddings,
        EndpointRegistration::Responses,
        EndpointRegistration::Messages,
        EndpointRegistration::GenerateContent,
    ]
}

// ---------------------------------------------------------------- names

/// The endpoint that a name stands for: first the old canonical names, then the short ones, then
/// those of brands.
pub open spec fn alias_of(k: Seq<char>) -> Option<EndpointRegistration> {
    if k == "openai/chat/v1"@ || k == "openai-chat"@ || k == "openai-chat-completions"@ || k
        == "openai"@ {
        Some(EndpointRegistration::ChatCompletions)
    } else if k == "openai/embeddings/v1"@ || k == "openai-embeddings"@ || k == "embeddings"@ {
        Some(EndpointRegistration::Embeddings)
    } else if k == "openai/responses/v1"@ || k == "openai-responses"@ || k == "openai_responses"@
        || k == "responses"@ {
        Some(EndpointRegistration::Responses)
    } else if k == "anthropic/messages/2023-06-01"@ || k == "anthropic-messages"@ || k
        == "anthropic"@ || k == crate::names::claude() {
        Some(EndpointRegistration::Messages)
    } else if k == "google/generate/v1beta"@ || k == "google-generate"@ || k
        == "google-generate-content"@ || k == "gemini"@ {
        Some(EndpointRegistration::GenerateContent)
    } else {
        None
    }
}

fn endpoint_alias(k: &str) -> (r: Option<EndpointRegistration>)
    ensures
        r == alias_of(k@),
{
    if *k == *"openai/chat/v1" || *k == *"openai-chat" || *k == *"openai-chat-completions" || *k
        == *"openai" {
        Some(EndpointRegistration::ChatCompletions)
    } else if *k == *"openai/embeddings/v1" || *k == *"openai-embeddings" || *k == *"embeddings" {
        Some(EndpointRegistration::Embeddings)
    } else if *k == *"openai/responses/v1" || *k == *"openai-responses" || *k
        == *"openai_responses" || *k == *"responses" {
        Some(EndpointRegistration::Responses)
    } else if *k == *"anthropic/messages/2023-06-01" || *k == *"anthropic-messages" || *k
        == *"anthropic" || *k == *crate::names::claude_text() {
        Some(EndpointRegistration::Messages)
    } else if *k == *"google/generate/v1beta" || *k == *"google-generate" || *k
        == *"google-generate-content" || *k == *"gemini" {
        Some(EndpointRegistration::GenerateContent)
    } else {
        None
    }
}

/// The suite that a name in lowercase stands for.
pub open spec fn suite_of(k: Seq<char>) -> Option<Protocol> {
    if k == "openai-compat"@ || k == "openai-compatible"@ || k == "openai"@ {
        Some(Protocol::OpenAICompatible)
    } else if k == "openai-resps"@ || k == "openai-responses"@ {
        Some(Protocol::OpenAIResponses)
    } else if k == "anthropic-msgs"@ || k == "anthropic-messages"@ || k == "anthropic"@ || k
        == crate::names::claude() {
        Some(Protocol::AnthropicMessages)
    } else if k == "google-genai"@ || k == "google-generative-ai"@ || k == "gemini"@ || k
        == "google"@ {
        Some(Protocol::GoogleGenerativeAI)
    } else {
        None
    }
}

fn protocol_alias(k: &str) -> (r: Option<Protocol>)
    ensures
        r == suite_of(k@),
{
    if *k == *"openai-compat" || *k == *"openai-compatible" || *k == *"openai" {
        Some(Protocol::OpenAICompatible)
    } else if *k == *"openai-resps" || *k == *"openai-responses" {
        Some(Protocol::OpenAIResponses)
    } else if *k == *"anthropic-msgs" || *k == *"anthropic-messages" || *k == *"anthropic" || *k
        == *crate::names::claude_text() {
        Some(Protocol::AnthropicMessages)
    } else if *k == *"google-genai" || *k == *"google-generative-ai" || *k == *"gemini" || *k
        == *"google" {
        Some(Protocol::GoogleGenerativeAI)
    } else {
        None
    }
}

/// The first of the endpoints from the `i`-th on that is `e`.
pub open spec fn found_from(e: EndpointV, i: int) -> Option<EndpointRegistration>
    decreases registered().len() - i,
{
    if i < 0 || i >= registered().len() {
        None
    } else if registered()[i].endpoint() == e {
        Some(registered()[i])
    } else {
        found_from(e, i + 1)
    }
}

/// The registered endpoint of an identifier.
pub open spec fn handler_of(e: EndpointV) -> Option<EndpointRegistration> {
    found_from(e, 0)
}

/// The endpoint of a text `suite/name/version`.
pub open spec fn canonical_of(raw: Seq<char>) -> Option<EndpointRegistration> {
    match crate::text::cut(raw, "/"@) {
        Some((suite, rest)) => match crate::text::cut(rest, "/"@) {
            Some((name, version)) => match Protocol::named(suite) {
                Some(protocol) => handler_of(EndpointV { protocol, name, version }),
                None => None,
            },
            None => None,
        },
        None => None,
    }
}

/// The endpoint that a text stands for: the canonical form, or a name in any case.
pub open spec fn resolved(raw: Seq<char>) -> Option<EndpointRegistration> {
    let key = crate::text::trim_of(raw);
    if key.len() == 0 {
        None
    } else {
        match canonical_of(key) {
            Some(e) => Some(e),
            None => alias_of(crate::text::lower_of(key)),
        }
    }
}

/// The suite that a text stands for: a name of a suite in any case, or the suite of an endpoint.
pub open spec fn protocol_named(raw: Seq<char>) -> Option<Protocol> {
    let key = crate::text::lower_of(crate::text::trim_of(raw));
    if key.len() == 0 {
        None
    } else {
        match suite_of(key) {
            Some(p) => Some(p),
            None => match resolved(raw) {
                Some(e) => Some(e.endpoint().protocol),
                None => None,
            },
        }
    }
}

/// The canonical form of a text that stands for an endpoint, nothing for a blank text, and any
/// other text as it is.
pub open spec fn normalized(raw: Seq<char>) -> Seq<char> {
    if crate::text::trim_of(raw).len() == 0 {
        Seq::empty()
    } else {
        match resolved(raw) {
            Some(e) => e.endpoint().canonical(),
            None => raw,
        }
    }
}

// ---------------------------------------------------------------- tables of base URLs

/// The entry of a suite in a table whose key names an endpoint.
pub open spec fn endpoint_entry(v: JsonV) -> JsonV {
    JsonV::obj().with(
        "base_url"@,
        match v.get("base_url"@) {
            Some(b) => b,
            None => JsonV::Text(Seq::empty()),
        },
    )
}

/// The entry of a suite in a table whose key names the suite.
pub open spec fn suite_entry(v: JsonV) -> JsonV {
    match v {
        JsonV::Text(s) => JsonV::obj().with("base_url"@, JsonV::Text(s)),
        _ => JsonV::obj().with_opt("base_url"@, v.get("base_url"@)),
    }
}

/// The first `n` entries of a table under the canonical names of their suites; the first entry of
/// a suite wins, and an entry of an unknown name stays.
pub open spec fn table_upto(f: Seq<(Seq<char>, JsonV)>, n: nat) -> Seq<(Seq<char>, JsonV)>
    decreases n,
{
    if n == 0 {
        Seq::empty()
    } else {
        let before = table_upto(f, (n - 1) as nat);
        let (k, v) = f[n - 1];
        match resolved(k) {
            Some(e) => crate::json::put_absent(
                before,
                e.endpoint().protocol.name(),
                endpoint_entry(v),
            ),
            None => match protocol_named(k) {
                Some(p) => crate::json::put_absent(before, p.name(), suite_entry(v)),
                None => crate::json::put_absent(before, k, v),
            },
        }
    }
}

/// A table of base URLs under the canonical names of the suites. What is no table stays as it is.
pub open spec fn table_of(raw: Seq<char>) -> Seq<char> {
    let t = crate::text::trim_of(raw);
    if t.len() == 0 || t == "{}"@ {
        raw
    } else {
        match crate::json::json_read(t) {
            Some(JsonV::Object(f)) => crate::json::text_of(JsonV::Object(table_upto(f, f.len()))),
            _ => raw,
        }
    }
}

fn endpoint_json(v: &Json) -> (r: Json)
    ensures
        r@ == endpoint_entry(v@),
{
    let b = match v.get_dup("base_url") {
        Some(b) => b,
        None => {
            let empty = String::new();
            assert(empty@ =~= Seq::<char>::empty());
            Json::Text(empty)
        },
    };
    Json::object().with("base_url", b)
}

fn suite_json(v: &Json) -> (r: Json)
    ensures
        r@ == suite_entry(v@),
{
    match v {
        Json::Text(s) => Json::object().with("base_url", Json::text(s.as_str())),
        _ => Json::object().with_opt("base_url", v.get_dup("base_url")),
    }
}

// ---------------------------------------------------------------- the registry

/// The endpoints that are registered under the suites among the first `n`.
pub open spec fn of_protocol(p: Protocol, n: nat) -> Seq<EndpointRegistration>
    decreases n,
{
    if n == 0 {
        Seq::empty()
    } else {
        let before = of_protocol(p, (n - 1) as nat);
        if registered()[n - 1].endpoint().protocol == p {
            before.push(registered()[n - 1])
        } else {
            before
        }
    }
}

/// Whether one of the routes is of this method, in any case, and this path.
pub open spec fn serves(routes: Seq<RouteV>, method: Seq<char>, path: Seq<char>) -> bool {
    exists|j: int|
        0 <= j < routes.len() && crate::text::lower_of((#[trigger] routes[j]).method)
            == crate::text::lower_of(method) && routes[j].path == path
}

fn any_route(routes: &Vec<Route>, method: &str, path: &str) -> (r: bool)
    ensures
        r == serves(routes.views(), method@, path@),
{
    for j in 0..routes.len()
        invariant
            forall|k: int|
                0 <= k < j ==> !(crate::text::lower_of((#[trigger] routes.views()[k]).method)
                    == crate::text::lower_of(method@) && routes.views()[k].path == path@),
    {
        assert(routes.views()[j as int] == routes@[j as int]@);
        if crate::text::eq_ignore_ascii_case(routes[j].method, method) && *routes[j].path
            == *path {
            return true;
        }
    }
    false
}

/// The first endpoint from the `i`-th on that is served under a route.
pub open spec fn routed_from(method: Seq<char>, path: Seq<char>, i: int) -> Option<
    EndpointRegistration,
>
    decreases registered().len() - i,
{
    if i < 0 || i >= registered().len() {
        None
    } else if serves(registered()[i].abilities().ingress_routes, method, path) {
        Some(registered()[i])
    } else {
        routed_from(method, path, i + 1)
    }
}

/// The registry of all endpoints.
#[derive(Debug, Clone, Copy)]
pub struct ProtocolRegistry;

impl ProtocolRegistry {
    /// The registry.
    pub fn global() -> ProtocolRegistry {
        ProtocolRegistry
    }

    /// All registered endpoints, in their order.
    pub fn list(&self) -> (r: Vec<EndpointRegistration>)
        ensures
            r@ == registered(),
    {
        let mut v: Vec<EndpointRegistration> = Vec::new();
        v.push(EndpointRegistration::ChatCompletions);
        v.push(EndpointRegistration::Embeddings);
        v.push(EndpointRegistration::Responses);
        v.push(EndpointRegistration::Messages);
        v.push(EndpointRegistration::GenerateContent);
        assert(v@ =~= registered());
        v
    }

    /// The registered endpoint of an identifier.
    pub fn get(&self, id: &ProtocolEndpoint) -> (r: Option<EndpointRegistration>)
        ensures
            r == handler_of(id@),
    {
        let all = self.list();
        let n: usize = all.len();
        let mut i: usize = 0;
        while i < n
            invariant
                all@ == registered(),
                n == all@.len(),
                i <= n,
                found_from(id@, 0) == found_from(id@, i as int),
            decreases n - i,
        {
            if all[i].id().same(id) {
                return Some(all[i]);
            }
            i = i + 1;
        }
        None
    }

    fn parse_canonical(&self, raw: &str) -> (r: Option<EndpointRegistration>)
        ensures
            r == canonical_of(raw@),
    {
        match crate::text::split_once(raw, "/") {
            Some((suite, rest)) => match crate::text::split_once(rest, "/") {
                Some((name, version)) => match Protocol::parse(suite) {
                    Ok(protocol) => self.find(protocol, name, version),
                    Err(_) => None,
                },
                None => None,
            },
            None => None,
        }
    }

    fn find(&self, protocol: Protocol, name: &str, version: &str) -> (r: Option<
        EndpointRegistration,
    >)
        ensures
            r == handler_of(EndpointV { protocol, name: name@, version: version@ }),
    {
        let ghost e = EndpointV { protocol, name: name@, version: version@ };
        let all = self.list();
        let n: usize = all.len();
        let mut i: usize = 0;
        while i < n
            invariant
                all@ == registered(),
                n == all@.len(),
                i <= n,
                e == (EndpointV { protocol, name: name@, version: version@ }),
                found_from(e, 0) == found_from(e, i as int),
            decreases n - i,
        {
            let id = all[i].id();
            if id.protocol == protocol && *id.name == *name && *id.version == *version {
                return Some(all[i]);
            }
            i = i + 1;
        }
        None
    }

    fn resolve(&self, raw: &str) -> (r: Option<EndpointRegistration>)
        ensures
            r == resolved(raw@),
    {
        let key = crate::text::trim(raw);
        if key.is_empty() {
            return None;
        }
        match self.parse_canonical(key) {
            Some(e) => Some(e),
            None => endpoint_alias(crate::text::to_ascii_lowercase(key).as_str()),
        }
    }

    /// The endpoint that a text stands for.
    pub fn resolve_alias(&self, raw: &str) -> (r: Option<ProtocolEndpoint>)
        ensures
            r.views() == match resolved(raw@) {
                Some(e) => Some(e.endpoint()),
                None => None,
            },
    {
        match self.resolve(raw) {
            Some(e) => Some(e.id()),
            None => None,
        }
    }

    /// The suite that a text names outright.
    pub fn suite(&self, raw: &str) -> (r: Option<Protocol>)
        ensures
            r == suite_of(crate::text::lower_of(crate::text::trim_of(raw@))),
    {
        protocol_alias(crate::text::to_ascii_lowercase(crate::text::trim(raw)).as_str())
    }

    /// The suite that a text stands for.
    pub fn parse_protocol(&self, raw: &str) -> (r: Option<Protocol>)
        ensures
            r == protocol_named(raw@),
    {
        let key = crate::text::to_ascii_lowercase(crate::text::trim(raw));
        if key.as_str().is_empty() {
            return None;
        }
        match protocol_alias(key.as_str()) {
            Some(p) => Some(p),
            None => match self.resolve(raw) {
                Some(e) => Some(e.id().protocol),
                None => None,
            },
        }
    }

    /// The registered endpoints of a suite, in their order.
    pub fn list_by_protocol(&self, protocol: Protocol) -> (r: Vec<EndpointRegistration>)
        ensures
            r@ == of_protocol(protocol, registered().len()),
    {
        let all = self.list();
        let mut out: Vec<EndpointRegistration> = Vec::new();
        for i in 0..all.len()
            invariant
                all@ == registered(),
                out@ == of_protocol(protocol, i as nat),
        {
            if all[i].id().protocol == protocol {
                out.push(all[i]);
            }
        }
        out
    }

    /// The suite of a registered endpoint.
    pub fn protocol_of(&self, id: &ProtocolEndpoint) -> (r: Option<Protocol>)
        ensures
            r == match handler_of(id@) {
                Some(_) => Some(id@.protocol),
                None => None,
            },
    {
        match self.get(id) {
            Some(_) => Some(id.protocol),
            None => None,
        }
    }

    /// All suites with a registered endpoint, in their order.
    pub fn list_protocols(&self) -> (r: Vec<Protocol>)
        ensures
            r@ == seq![
                Protocol::OpenAICompatible,
                Protocol::OpenAIResponses,
                Protocol::AnthropicMessages,
                Protocol::GoogleGenerativeAI,
            ],
    {
        let mut v: Vec<Protocol> = Vec::new();
        v.push(Protocol::OpenAICompatible);
        v.push(Protocol::OpenAIResponses);
        v.push(Protocol::AnthropicMessages);
        v.push(Protocol::GoogleGenerativeAI);
        assert(v@ =~= seq![
            Protocol::OpenAICompatible,
            Protocol::OpenAIResponses,
            Protocol::AnthropicMessages,
            Protocol::GoogleGenerativeAI,
        ]);
        v
    }

    /// The canonical form of a text that stands for an endpoint, nothing for a blank text, and any
    /// other text as it is.
    pub fn normalize_string(&self, raw: &str) -> (r: String)
        ensures
            r@ == normalized(raw@),
    {
        if crate::text::trim(raw).is_empty() {
            let empty = String::new();
            assert(empty@ =~= Seq::<char>::empty());
            return empty;
        }
        match self.resolve(raw) {
            Some(e) => e.id().to_string(),
            None => raw.to_string(),
        }
    }

    /// Brings a table of base URLs under the canonical names of the suites.
    pub fn normalize_endpoints_json(&self, raw: &str) -> (r: String)
        ensures
            r@ == table_of(raw@),
    {
        broadcast use crate::json::lemma_object_view;

        let trimmed = crate::text::trim(raw);
        if trimmed.is_empty() || *trimmed == *"{}" {
            return raw.to_string();
        }
        let value = match Json::parse(trimmed) {
            Some(v) => v,
            None => {
                return raw.to_string();
            },
        };
        let obj = match &value {
            Json::Object(f) => f,
            _ => {
                return raw.to_string();
            },
        };
        let mut next = Fields::new();
        let n: usize = obj.len();
        let mut i: usize = 0;
        while i < n
            invariant
                n == obj@.len(),
                i <= n,
                next@ == table_upto(obj@, i as nat),
            decreases n - i,
        {
            let key = obj.key_at(i);
            let val = obj.value_at(i);
            match self.resolve(key) {
                Some(e) => {
                    next.insert_absent(e.id().protocol.as_str(), endpoint_json(val));
                },
                None => match self.parse_protocol(key) {
                    Some(p) => {
                        next.insert_absent(p.as_str(), suite_json(val));
                    },
                    None => {
                        next.insert_absent(key, val.dup());
                    },
                },
            }
            i = i + 1;
        }
        Json::of_fields(next).to_text()
    }

    /// The endpoint that is served under a route.
    pub fn find_by_ingress_route(&self, method: &str, path: &str) -> (r: Option<
        EndpointRegistration,
    >)
        ensures
            r == routed_from(method@, path@, 0),
    {
        let all = self.list();
        let n: usize = all.len();
        let mut i: usize = 0;
        while i < n
            invariant
                all@ == registered(),
                n == all@.len(),
                i <= n,
                routed_from(method@, path@, 0) == routed_from(method@, path@, i as int),
            decreases n - i,
        {
            let routes = all[i].capabilities().ingress_routes;
            if any_route(&routes, method, path) {
                return Some(all[i]);
            }
            i = i + 1;
        }
        None
    }
}

impl ProtocolEndpoint {
    /// The registered endpoint of this identifier.
    pub fn handler(self) -> (r: EndpointRegistration)
        requires
            handler_of(self@) is Some,
        ensures
            Some(r) == handler_of(self@),
    {
        match ProtocolRegistry::global().get(&self) {
            Some(h) => h,
            None => EndpointRegistration::ChatCompletions,
        }
    }
}

// ---------------------------------------------------------------- laws

/// A text is cut at the first of a character that its head does not hold.
pub proof fn lemma_cut_head(a: Seq<char>, c: char, b: Seq<char>)
    requires
        !a.contains(c),
    ensures
        crate::text::cut(a + seq![c] + b, seq![c]) == Some((a, b)),
{
    let s = a + seq![c] + b;
    let p = seq![c];
    crate::text::lemma_find_least(s, p);
    assert(s.subrange(a.len() as int, a.len() as int + 1) =~= p);
    assert(crate::text::occurs_at(s, p, a.len() as int));
    match crate::text::find_of(s, p) {
        Some(i) => {
            assert(s.subrange(i, i + 1)[0] == c);
            if i < a.len() {
                assert(a[i] == c);
                assert(a.contains(c));
            }
            assert(i == a.len());
            assert(s.subrange(0, i) =~= a);
            assert(s.subrange(i + 1, s.len() as int) =~= b);
        },
        None => {},
    }
}

proof fn lemma_slash()
    ensures
        "/"@ == seq!['/'],
{
    reveal_strlit("/");
    assert("/"@ =~= seq!['/']);
}

proof fn lemma_parts_plain(e: EndpointRegistration)
    ensures
        !e.endpoint().protocol.name().contains('/'),
        !e.endpoint().name.contains('/'),
        e.endpoint().protocol.name().len() > 0,
        !crate::text::is_white(e.endpoint().protocol.name()[0]),
        e.endpoint().version.len() > 0,
        !crate::text::is_white(e.endpoint().version.last()),
{
    reveal_strlit("openai-compat");
    reveal_strlit("openai-resps");
    reveal_strlit("anthropic-msgs");
    reveal_strlit("google-genai");
    reveal_strlit("chat-completions");
    reveal_strlit("embeddings");
    reveal_strlit("responses");
    reveal_strlit("messages");
    reveal_strlit("generate-content");
    reveal_strlit("v1");
    reveal_strlit("2023-06-01");
    reveal_strlit("v1beta");
}

/// Different endpoints have different identifiers.
pub proof fn lemma_distinct(a: EndpointRegistration, b: EndpointRegistration)
    ensures
        a.endpoint() == b.endpoint() ==> a == b,
        handler_of(a.endpoint()) == Some(a),
{
    reveal_strlit("chat-completions");
    reveal_strlit("embeddings");
    assert("chat-completions"@.len() == 16);
    assert("embeddings"@.len() == 10);
    reveal_with_fuel(found_from, 6);
}

/// The canonical form of an endpoint stands for that endpoint.
pub proof fn lemma_canonical_resolves(e: EndpointRegistration)
    ensures
        resolved(e.endpoint().canonical()) == Some(e),
{
    let v = e.endpoint();
    let suite = v.protocol.name();
    let c = v.canonical();
    lemma_slash();
    lemma_parts_plain(e);
    let rest = v.name + "/"@ + v.version;
    assert(c =~= suite + seq!['/'] + rest);
    lemma_cut_head(suite, '/', rest);
    lemma_cut_head(v.name, '/', v.version);
    crate::protocol::ids::lemma_protocol_round_trip(v.protocol);
    lemma_distinct(e, e);
    assert(c[0] == suite[0]);
    assert(c.last() == v.version.last());
    lemma_trim_solid(c);
}

/// A text without white space at its ends is its own trimming.
proof fn lemma_trim_solid(s: Seq<char>)
    requires
        s.len() > 0,
        !crate::text::is_white(s[0]),
        !crate::text::is_white(s.last()),
    ensures
        crate::text::trim_of(s) == s,
{
}

/// White space around a text does not matter.
pub proof fn lemma_resolved_trims(raw: Seq<char>)
    ensures
        resolved(crate::text::trim_of(raw)) == resolved(raw),
{
    crate::text::lemma_trim_idempotent(raw);
}

/// To normalize a text again changes nothing.
pub proof fn lemma_normalized_once(raw: Seq<char>)
    ensures
        normalized(normalized(raw)) == normalized(raw),
{
    if crate::text::trim_of(raw).len() > 0 {
        if let Some(e) = resolved(raw) {
            lemma_canonical_resolves(e);
        }
    }
}

/// Every name of an endpoint's suite, in any case, stands for that suite.
pub proof fn lemma_suite_of_endpoint(raw: Seq<char>, e: EndpointRegistration)
    requires
        resolved(raw) == Some(e),
        suite_of(crate::text::lower_of(crate::text::trim_of(raw))) is None,
    ensures
        protocol_named(raw) == Some(e.endpoint().protocol),
{
}

proof fn lemma_kept_when_absent(
    f: Seq<(Seq<char>, JsonV)>,
    k: Seq<char>,
    v: JsonV,
    other: Seq<char>,
)
    requires
        crate::json::get_field(f, other) is Some,
    ensures
        crate::json::get_field(crate::json::put_absent(f, k, v), other)
            == crate::json::get_field(f, other),
{
    crate::json::lemma_put_get(f, k, v, other);
    let g = crate::json::put_absent(f, k, v);
    crate::json::lemma_field_pos(f, other, f.len());
    crate::json::lemma_field_pos(f, k, f.len());
    crate::json::lemma_field_pos(g, other, g.len());
}

/// The first entry of a suite wins: no later entry of a table changes what stands under a name.
pub proof fn lemma_first_entry_wins(
    f: Seq<(Seq<char>, JsonV)>,
    n: nat,
    m: nat,
    name: Seq<char>,
)
    requires
        n <= m <= f.len(),
        crate::json::get_field(table_upto(f, n), name) is Some,
    ensures
        crate::json::get_field(table_upto(f, m), name) == crate::json::get_field(
            table_upto(f, n),
            name,
        ),
    decreases m,
{
    if n < m {
        lemma_first_entry_wins(f, n, (m - 1) as nat, name);
        let before = table_upto(f, (m - 1) as nat);
        let (k, v) = f[m - 1];
        match resolved(k) {
            Some(e) => lemma_kept_when_absent(
                before,
                e.endpoint().protocol.name(),
                endpoint_entry(v),
                name,
            ),
            None => match protocol_named(k) {
                Some(p) => lemma_kept_when_absent(before, p.name(), suite_entry(v), name),
                None => lemma_kept_when_absent(before, k, v, name),
            },
        }
    }
}

} // verus!
