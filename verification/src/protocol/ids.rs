//! Protocol identity: `Protocol` is the suite, `ProtocolEndpoint` one endpoint of it.
//!
//! Canonical text form: `{protocol}/{name}/{version}`.
use vstd::prelude::*;

use crate::views::Views;

verus! {

/// A protocol suite. Several vendors may speak the same one.
#[derive(Debug, Clone, Copy, PartialEq, Eq, Hash, PartialOrd, Ord, Structural)]
pub enum Protocol {
    /// OpenAI Chat Completions and Embeddings.
    OpenAICompatible,
    /// OpenAI Responses.
    OpenAIResponses,
    /// Anthropic Messages.
    AnthropicMessages,
    /// Google Generative AI (Gemini).
    GoogleGenerativeAI,
}

impl Protocol {
    /// The canonical name of the suite.
    pub open spec fn name(self) -> Seq<char> {
        match self {
            Protocol::OpenAICompatible => "openai-compat"@,
            Protocol::OpenAIResponses => "openai-resps"@,
            Protocol::AnthropicMessages => "anthropic-msgs"@,
            Protocol::GoogleGenerativeAI => "google-genai"@,
        }
    }

    /// The suite that a name stands for, among the canonical and the accepted names.
    pub open spec fn named(s: Seq<char>) -> Option<Protocol> {
        if s == "openai-compat"@ || s == "openai-compatible"@ || s == "openai"@ {
            Some(Protocol::OpenAICompatible)
        } else if s == "openai-resps"@ || s == "openai-responses"@ {
            Some(Protocol::OpenAIResponses)
        } else if s == "anthropic-msgs"@ || s == "anthropic-messages"@ || s == "anthropic"@ || s
            == crate::names::claude() {
            Some(Protocol::AnthropicMessages)
        } else if s == "google-genai"@ || s == "google-generative-ai"@ || s == "gemini"@ || s
            == "google"@ {
            Some(Protocol::GoogleGenerativeAI)
        } else {
            None
        }
    }

    /// The canonical name of the suite.
    pub fn as_str(&self) -> (r: &'static str)
        ensures
            r@ == self.name(),
    {
        match self {
            Protocol::OpenAICompatible => "openai-compat",
            Protocol::OpenAIResponses => "openai-resps",
            Protocol::AnthropicMessages => "anthropic-msgs",
            Protocol::GoogleGenerativeAI => "google-genai",
        }
    }

    /// The name of the suite for people.
    pub fn display_name(&self) -> (r: &'static str)
        ensures
            r@ == match self {
                Protocol::OpenAICompatible => "OpenAI Compatible"@,
                Protocol::OpenAIResponses => "OpenAI Responses"@,
                Protocol::AnthropicMessages => "Anthropic Messages"@,
                Protocol::GoogleGenerativeAI => "Google Generative AI"@,
            },
    {
        match self {
            Protocol::OpenAICompatible => "OpenAI Compatible",
            Protocol::OpenAIResponses => "OpenAI Responses",
            Protocol::AnthropicMessages => "Anthropic Messages",
            Protocol::GoogleGenerativeAI => "Google Generative AI",
        }
    }

    /// The canonical name as an owned text.
    pub fn to_string(&self) -> (r: String)
        ensures
            r@ == self.name(),
    {
        let name: &str = self.as_str();
        name.to_owned()
    }

    /// The suite of a name; the name itself where there is none.
    pub fn parse(s: &str) -> (r: Result<Protocol, UnknownProtocol>)
        ensures
            match r {
                Ok(p) => Protocol::named(s@) == Some(p),
                Err(e) => Protocol::named(s@) is None && e.name@ == s@,
            },
    {
        if *s == *"openai-compat" || *s == *"openai-compatible" || *s == *"openai" {
            Ok(Protocol::OpenAICompatible)
        } else if *s == *"openai-resps" || *s == *"openai-responses" {
            Ok(Protocol::OpenAIResponses)
        } else if *s == *"anthropic-msgs" || *s == *"anthropic-messages" || *s == *"anthropic" || *s
            == *crate::names::claude_text() {
            Ok(Protocol::AnthropicMessages)
        } else if *s == *"google-genai" || *s == *"google-generative-ai" || *s == *"gemini" || *s
            == *"google" {
            Ok(Protocol::GoogleGenerativeAI)
        } else {
            Err(UnknownProtocol { name: s.to_string() })
        }
    }
}

/// A name that stands for no protocol suite.
#[derive(Debug)]
pub struct UnknownProtocol {
    pub name: String,
}

impl UnknownProtocol {
    /// The message of the error.
    pub fn to_string(&self) -> (r: String)
        ensures
            r@ == "unknown protocol: "@ + self.name@,
    {
        crate::text::cat("unknown protocol: ", self.name.as_str())
    }
}

/// An API endpoint of a protocol suite.
#[derive(Debug, Clone, Copy, PartialEq, Eq, Hash, PartialOrd, Ord)]
pub struct ProtocolEndpoint {
    pub protocol: Protocol,
    /// The endpoint's name on the wire.
    pub name: &'static str,
    /// The version as the vendor labels it.
    pub version: &'static str,
}

/// What an endpoint is.
pub struct EndpointV {
    pub protocol: Protocol,
    pub name: Seq<char>,
    pub version: Seq<char>,
}

impl View for ProtocolEndpoint {
    type V = EndpointV;

    open spec fn view(&self) -> EndpointV {
        EndpointV { protocol: self.protocol, name: self.name@, version: self.version@ }
    }
}

impl EndpointV {
    /// The canonical text of the endpoint.
    pub open spec fn canonical(self) -> Seq<char> {
        self.protocol.name() + "/"@ + self.name + "/"@ + self.version
    }

    pub open spec fn openai_chat_completions_v1() -> EndpointV {
        EndpointV {
            protocol: Protocol::OpenAICompatible,
            name: "chat-completions"@,
            version: "v1"@,
        }
    }

    pub open spec fn openai_embeddings_v1() -> EndpointV {
        EndpointV { protocol: Protocol::OpenAICompatible, name: "embeddings"@, version: "v1"@ }
    }

    pub open spec fn openai_responses_v1() -> EndpointV {
        EndpointV { protocol: Protocol::OpenAIResponses, name: "responses"@, version: "v1"@ }
    }

    pub open spec fn anthropic_messages_2023_06_01() -> EndpointV {
        EndpointV {
            protocol: Protocol::AnthropicMessages,
            name: "messages"@,
            version: "2023-06-01"@,
        }
    }

    pub open spec fn google_generate_content_v1beta() -> EndpointV {
        EndpointV {
            protocol: Protocol::GoogleGenerativeAI,
            name: "generate-content"@,
            version: "v1beta"@,
        }
    }
}

/// The name by which earlier code calls an endpoint.
pub type ProtocolId = ProtocolEndpoint;

impl ProtocolEndpoint {
    /// An endpoint of its parts.
    pub fn new(protocol: Protocol, name: &'static str, version: &'static str) -> (r: Self)
        ensures
            r@ == (EndpointV { protocol, name: name@, version: version@ }),
    {
        ProtocolEndpoint { protocol, name, version }
    }

    /// Whether two endpoints are the same.
    pub fn same(&self, other: &ProtocolEndpoint) -> (r: bool)
        ensures
            r == (self@ == other@),
    {
        self.protocol == other.protocol && *self.name == *other.name && *self.version
            == *other.version
    }

    /// The canonical text of the endpoint.
    pub fn to_string(&self) -> (r: String)
        ensures
            r@ == self@.canonical(),
    {
        let mut out: String = self.protocol.to_string();
        out.append("/");
        out.append(self.name);
        out.append("/");
        out.append(self.version);
        out
    }
}

/// The Chat Completions endpoint.
pub fn openai_chat_completions_v1() -> (r: ProtocolEndpoint)
    ensures
        r@ == EndpointV::openai_chat_completions_v1(),
{
    ProtocolEndpoint::new(Protocol::OpenAICompatible, "chat-completions", "v1")
}

/// The Chat Completions endpoint, by its earlier name.
pub fn openai_chat_v1() -> (r: ProtocolEndpoint)
    ensures
        r@ == EndpointV::openai_chat_completions_v1(),
{
    openai_chat_completions_v1()
}

/// The Embeddings endpoint.
pub fn openai_embeddings_v1() -> (r: ProtocolEndpoint)
    ensures
        r@ == EndpointV::openai_embeddings_v1(),
{
    ProtocolEndpoint::new(Protocol::OpenAICompatible, "embeddings", "v1")
}

/// The Responses endpoint.
pub fn openai_responses_v1() -> (r: ProtocolEndpoint)
    ensures
        r@ == EndpointV::openai_responses_v1(),
{
    ProtocolEndpoint::new(Protocol::OpenAIResponses, "responses", "v1")
}

/// The Messages endpoint.
pub fn anthropic_messages_2023_06_01() -> (r: ProtocolEndpoint)
    ensures
        r@ == EndpointV::anthropic_messages_2023_06_01(),
{
    ProtocolEndpoint::new(Protocol::AnthropicMessages, "messages", "2023-06-01")
}

/// The Generate Content endpoint.
pub fn google_generate_content_v1beta() -> (r: ProtocolEndpoint)
    ensures
        r@ == EndpointV::google_generate_content_v1beta(),
{
    ProtocolEndpoint::new(Protocol::GoogleGenerativeAI, "generate-content", "v1beta")
}

/// The Generate Content endpoint, by its earlier name.
pub fn google_generate_v1beta() -> (r: ProtocolEndpoint)
    ensures
        r@ == EndpointV::google_generate_content_v1beta(),
{
    google_generate_content_v1beta()
}

// ---------------------------------------------------------------- capabilities

/// What becomes of a field that the provider may not know.
#[derive(Debug, Clone, Copy, PartialEq, Eq, Structural)]
pub enum VendorFieldPolicy {
    /// The provider knows it.
    Supported,
    /// The provider does not know it, and it is dropped.
    Drop,
    /// To be found out.
    Unknown,
}

/// What an endpoint's streams can do.
#[derive(Debug, Clone, Copy, PartialEq, Eq, Structural)]
pub struct StreamCaps {
    /// Whether the endpoint can stream.
    pub server_sent_events: bool,
    /// Whether the last chunk holds the token counts.
    pub usage_in_stream: bool,
    /// Whether the body must ask for a stream.
    pub requires_stream_flag: bool,
}

impl Default for StreamCaps {
    fn default() -> (r: Self)
        ensures
            r == (StreamCaps {
                server_sent_events: true,
                usage_in_stream: false,
                requires_stream_flag: true,
            }),
    {
        StreamCaps { server_sent_events: true, usage_in_stream: false, requires_stream_flag: true }
    }
}

/// A route under which an endpoint is served.
#[derive(Debug, Clone, Copy)]
pub struct Route {
    pub method: &'static str,
    pub path: &'static str,
}

/// What a route is.
pub struct RouteV {
    pub method: Seq<char>,
    pub path: Seq<char>,
}

impl View for Route {
    type V = RouteV;

    open spec fn view(&self) -> RouteV {
        RouteV { method: self.method@, path: self.path@ }
    }
}

/// What an endpoint can do.
#[derive(Debug)]
pub struct EndpointCapabilities {
    pub streaming: bool,
    pub tools: bool,
    pub reasoning: bool,
    pub embeddings: bool,
    /// Whether the provider is always asked for a stream.
    pub force_upstream_stream: bool,
    /// Whether the encoder writes the model itself.
    pub override_model_in_body: bool,
    pub ingress_routes: Vec<Route>,
    pub multimodal: bool,
    pub structured_output: bool,
    pub function_calling: bool,
    pub parallel_tool_calls: bool,
    pub extended_reasoning: bool,
    pub deterministic_seed: bool,
    pub stream: StreamCaps,
    pub unknown_field_policy: VendorFieldPolicy,
    /// Whether a conversion that loses something is refused unless it is allowed.
    pub lossy_default_reject: bool,
}

/// The name by which earlier code calls capabilities.
pub type ProtocolCapabilities = EndpointCapabilities;

pub struct CapabilitiesV {
    pub streaming: bool,
    pub tools: bool,
    pub reasoning: bool,
    pub embeddings: bool,
    pub force_upstream_stream: bool,
    pub override_model_in_body: bool,
    pub ingress_routes: Seq<RouteV>,
    pub multimodal: bool,
    pub structured_output: bool,
    pub function_calling: bool,
    pub parallel_tool_calls: bool,
    pub extended_reasoning: bool,
    pub deterministic_seed: bool,
    pub stream: StreamCaps,
    pub unknown_field_policy: VendorFieldPolicy,
    pub lossy_default_reject: bool,
}

impl View for EndpointCapabilities {
    type V = CapabilitiesV;

    open spec fn view(&self) -> CapabilitiesV {
        CapabilitiesV {
            streaming: self.streaming,
            tools: self.tools,
            reasoning: self.reasoning,
            embeddings: self.embeddings,
            force_upstream_stream: self.force_upstream_stream,
            override_model_in_body: self.override_model_in_body,
            ingress_routes: self.ingress_routes.views(),
            multimodal: self.multimodal,
            structured_output: self.structured_output,
            function_calling: self.function_calling,
            parallel_tool_calls: self.parallel_tool_calls,
            extended_reasoning: self.extended_reasoning,
            deterministic_seed: self.deterministic_seed,
            stream: self.stream,
            unknown_field_policy: self.unknown_field_policy,
            lossy_default_reject: self.lossy_default_reject,
        }
    }
}

impl CapabilitiesV {
    /// Nothing but a stream as a last resort.
    pub open spec fn empty() -> CapabilitiesV {
        CapabilitiesV {
            streaming: false,
            tools: false,
            reasoning: false,
            embeddings: false,
            force_upstream_stream: false,
            override_model_in_body: false,
            ingress_routes: Seq::empty(),
            multimodal: false,
            structured_output: false,
            function_calling: false,
            parallel_tool_calls: false,
            extended_reasoning: false,
            deterministic_seed: false,
            stream: StreamCaps {
                server_sent_events: true,
                usage_in_stream: false,
                requires_stream_flag: true,
            },
            unknown_field_policy: VendorFieldPolicy::Drop,
            lossy_default_reject: true,
        }
    }

    /// What an ordinary chat endpoint can do.
    pub open spec fn chat_standard() -> CapabilitiesV {
        CapabilitiesV {
            streaming: true,
            tools: true,
            multimodal: true,
            structured_output: true,
            function_calling: true,
            parallel_tool_calls: true,
            deterministic_seed: true,
            stream: StreamCaps {
                server_sent_events: true,
                usage_in_stream: true,
                requires_stream_flag: true,
            },
            ..CapabilitiesV::empty()
        }
    }

    /// What a chat endpoint that can think can do, under a route.
    pub open spec fn chat_at(path: Seq<char>) -> CapabilitiesV {
        CapabilitiesV {
            reasoning: true,
            ingress_routes: seq![RouteV { method: "POST"@, path }],
            ..CapabilitiesV::chat_standard()
        }
    }
}

impl EndpointCapabilities {
    /// Nothing but a stream as a last resort.
    pub fn empty() -> (r: Self)
        ensures
            r@ == CapabilitiesV::empty(),
    {
        EndpointCapabilities {
            streaming: false,
            tools: false,
            reasoning: false,
            embeddings: false,
            force_upstream_stream: false,
            override_model_in_body: false,
            ingress_routes: crate::views::none(),
            multimodal: false,
            structured_output: false,
            function_calling: false,
            parallel_tool_calls: false,
            extended_reasoning: false,
            deterministic_seed: false,
            stream: StreamCaps::default(),
            unknown_field_policy: VendorFieldPolicy::Drop,
            lossy_default_reject: true,
        }
    }

    /// What an ordinary chat endpoint can do.
    pub fn chat_standard() -> (r: Self)
        ensures
            r@ == CapabilitiesV::chat_standard(),
    {
        let mut c = EndpointCapabilities::empty();
        c.streaming = true;
        c.tools = true;
        c.multimodal = true;
        c.structured_output = true;
        c.function_calling = true;
        c.parallel_tool_calls = true;
        c.deterministic_seed = true;
        c.stream = StreamCaps {
            server_sent_events: true,
            usage_in_stream: true,
            requires_stream_flag: true,
        };
        c
    }

    /// What a chat endpoint that can think can do, under a route.
    pub fn chat_at(path: &'static str) -> (r: Self)
        ensures
            r@ == CapabilitiesV::chat_at(path@),
    {
        let mut c = EndpointCapabilities::chat_standard();
        c.reasoning = true;
        c.ingress_routes = one_route(path);
        c
    }
}

/// The route of a path that is posted to.
pub fn one_route(path: &'static str) -> (r: Vec<Route>)
    ensures
        r.views() == seq![RouteV { method: "POST"@, path: path@ }],
{
    let mut v: Vec<Route> = crate::views::none();
    crate::views::push(&mut v, Route { method: "POST", path });
    assert(v.views() =~= seq![RouteV { method: "POST"@, path: path@ }]);
    v
}

/// The canonical name of a suite reads back as that suite.
pub proof fn lemma_protocol_round_trip(p: Protocol)
    ensures
        Protocol::named(p.name()) == Some(p),
{
    reveal_strlit("openai-compat");
    reveal_strlit("openai-compatible");
    reveal_strlit("openai");
    reveal_strlit("openai-resps");
    reveal_strlit("openai-responses");
    reveal_strlit("anthropic-msgs");
    reveal_strlit("anthropic-messages");
    reveal_strlit("anthropic");
    crate::names::lemma_claude();
    reveal_strlit("google-genai");
    reveal_strlit("google-generative-ai");
    reveal_strlit("gemini");
    reveal_strlit("google");
    let s = p.name();
    match p {
        Protocol::OpenAICompatible => {},
        Protocol::OpenAIResponses => {
            assert(s[7] == 'r');
            assert(s.len() == 12);
        },
        Protocol::AnthropicMessages => {
            assert(s[0] == 'a');
        },
        Protocol::GoogleGenerativeAI => {
            assert(s[0] == 'g');
        },
    }
}

} // verus!
