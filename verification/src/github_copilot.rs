//! GitHub Copilot: its sessions, its models and the headers of its requests.
use vstd::prelude::*;

use crate::fault::Fault;
use crate::json::{Json, JsonV};
use crate::order::Keyed;
use crate::provider::WireProtocol;
use crate::views::Views;

verus! {

/// A session: where requests go and what they show.
#[derive(Debug)]
pub struct GithubCopilotSession {
    pub base_url: String,
    pub access_token: String,
}

/// A model that can be chosen.
#[derive(Debug)]
pub struct GithubCopilotModel {
    pub id: String,
    pub name: String,
    pub context_window: Option<u64>,
    pub supports_reasoning: bool,
    pub wire: WireProtocol,
}

pub struct GithubCopilotModelV {
    pub id: Seq<char>,
    pub name: Seq<char>,
    pub context_window: Option<u64>,
    pub supports_reasoning: bool,
    pub wire: WireProtocol,
}

impl View for GithubCopilotModel {
    type V = GithubCopilotModelV;

    open spec fn view(&self) -> GithubCopilotModelV {
        GithubCopilotModelV {
            id: self.id@,
            name: self.name@,
            context_window: self.context_window,
            supports_reasoning: self.supports_reasoning,
            wire: self.wire,
        }
    }
}

impl Keyed for GithubCopilotModel {
    open spec fn key_of(v: GithubCopilotModelV) -> Seq<char> {
        v.id
    }

    fn key(&self) -> &str {
        self.id.as_str()
    }
}

// ---------------------------------------------------------------- the stored login

/// A stored login.
#[derive(Debug)]
pub struct AuthEntry {
    pub kind: String,
    pub refresh: String,
    pub access: Option<String>,
    /// When the access token runs out, in milliseconds.
    pub expires: Option<i64>,
    pub enterprise_url: Option<String>,
    pub base_url: Option<String>,
}

pub struct AuthEntryV {
    pub kind: Seq<char>,
    pub refresh: Seq<char>,
    pub access: Option<Seq<char>>,
    pub expires: Option<i64>,
    pub enterprise_url: Option<Seq<char>>,
    pub base_url: Option<Seq<char>>,
}

impl View for AuthEntry {
    type V = AuthEntryV;

    open spec fn view(&self) -> AuthEntryV {
        AuthEntryV {
            kind: self.kind@,
            refresh: self.refresh@,
            access: self.access.views(),
            expires: self.expires,
            enterprise_url: self.enterprise_url.views(),
            base_url: self.base_url.views(),
        }
    }
}

/// The fields of a login in the order by which a list stands for them.
pub open spec fn auth_fields() -> Seq<Seq<char>> {
    seq!["type"@, "refresh"@, "access"@, "expires"@, "enterpriseUrl"@, "baseUrl"@]
}

/// A login: its type and refresh token are needed, the rest may be absent.
pub open spec fn auth_read(v: JsonV) -> Option<AuthEntryV> {
    match crate::reader::fields_of(v, auth_fields()) {
        Some(f) => match (
            crate::json::get_field(f, "type"@),
            crate::json::get_field(f, "refresh"@),
            crate::reader::nullable(crate::json::get_field(f, "access"@)),
            crate::reader::nullable_signed(crate::json::get_field(f, "expires"@)),
            crate::reader::nullable(crate::json::get_field(f, "enterpriseUrl"@)),
            crate::reader::nullable(crate::json::get_field(f, "baseUrl"@)),
        ) {
            (
                Some(JsonV::Text(kind)),
                Some(JsonV::Text(refresh)),
                Some(access),
                Some(expires),
                Some(enterprise_url),
                Some(base_url),
            ) => Some(AuthEntryV { kind, refresh, access, expires, enterprise_url, base_url }),
            _ => None,
        },
        None => None,
    }
}

fn read_auth(v: &Json) -> (r: Option<AuthEntry>)
    ensures
        r.views() == auth_read(v@),
{
    let names = vec!["type", "refresh", "access", "expires", "enterpriseUrl", "baseUrl"];
    assert(names.views() =~= auth_fields());
    let f = match crate::reader::read_fields(v, &names) {
        Some(f) => f,
        None => {
            return None;
        },
    };
    let kind = match f.get("type") {
        Some(Json::Text(s)) => s.clone(),
        _ => {
            return None;
        },
    };
    let refresh = match f.get("refresh") {
        Some(Json::Text(s)) => s.clone(),
        _ => {
            return None;
        },
    };
    match (
        crate::reader::read_nullable(f.get("access")),
        crate::reader::read_nullable_signed(f.get("expires")),
        crate::reader::read_nullable(f.get("enterpriseUrl")),
        crate::reader::read_nullable(f.get("baseUrl")),
    ) {
        (Some(access), Some(expires), Some(enterprise_url), Some(base_url)) => Some(
            AuthEntry { kind, refresh, access, expires, enterprise_url, base_url },
        ),
        _ => None,
    }
}

/// The login of a provider in the text of a file at a path.
pub open spec fn auth_of(text: Seq<char>, path: Seq<char>, provider_id: Seq<char>) -> Result<
    AuthEntryV,
    Seq<char>,
> {
    match crate::json::json_read(text) {
        Some(JsonV::Object(f)) => match crate::json::get_field(f, provider_id) {
            Some(entry) => match auth_read(entry) {
                Some(a) => if a.kind == "oauth"@ {
                    Ok(a)
                } else {
                    Err("opencode auth entry `"@ + provider_id + "` is not an oauth provider"@)
                },
                None => Err(
                    "opencode auth entry `"@ + provider_id + ("` in "@ + path
                        + " is not a supported GitHub Copilot oauth record"@),
                ),
            },
            None => Err(
                "No opencode auth entry `"@ + provider_id + ("` in "@ + path
                    + ". Log in with opencode first."@),
            ),
        },
        _ => Err("Invalid JSON in "@ + path),
    }
}

/// Reads the login of a provider from the text of the file in which logins are kept.
pub fn load_auth_entry(text: &str, path: &str, provider_id: &str) -> (r: Result<AuthEntry, Fault>)
    ensures
        r.views() == auth_of(text@, path@, provider_id@),
{
    broadcast use {crate::json::lemma_array_view, crate::json::lemma_object_view};

    let f = match Json::parse(text) {
        Some(Json::Object(f)) => f,
        _ => {
            return Err(Fault { message: crate::text::cat("Invalid JSON in ", path) });
        },
    };
    match f.get(provider_id) {
        Some(entry) => match read_auth(entry) {
            Some(a) => if *a.kind.as_str() == *"oauth" {
                Ok(a)
            } else {
                Err(
                    Fault::about(
                        "opencode auth entry `",
                        provider_id,
                        "` is not an oauth provider",
                    ),
                )
            },
            None => Err(
                Fault::about(
                    "opencode auth entry `",
                    provider_id,
                    crate::text::cat3(
                        "` in ",
                        path,
                        " is not a supported GitHub Copilot oauth record",
                    ).as_str(),
                ),
            ),
        },
        None => Err(
            Fault::about(
                "No opencode auth entry `",
                provider_id,
                crate::text::cat3("` in ", path, ". Log in with opencode first.").as_str(),
            ),
        ),
    }
}

// ---------------------------------------------------------------- a session

/// The domain in a URL: without spaces around it, scheme and slashes at the end.
pub open spec fn domain_of(url: Seq<char>) -> Seq<char> {
    crate::text::without_suffixes(
        crate::text::without_prefixes(
            crate::text::without_prefixes(crate::text::trim_of(url), "https://"@),
            "http://"@,
        ),
        "/"@,
    )
}

pub fn normalize_domain(url: &str) -> (r: String)
    ensures
        r@ == domain_of(url@),
{
    proof {
        reveal_strlit("https://");
        reveal_strlit("http://");
        reveal_strlit("/");
    }
    crate::text::trim_end_matches(
        crate::text::trim_start_matches(
            crate::text::trim_start_matches(crate::text::trim(url), "https://"),
            "http://",
        ),
        "/",
    ).to_string()
}

/// The domain on which a domain's API is served.
pub fn api_domain(domain: &str) -> (r: String)
    ensures
        r@ == "api."@ + domain@,
{
    crate::text::cat("api.", domain)
}

/// Puts a base URL and a path together.
pub fn endpoint_url(base_url: &str, path: &str) -> (r: String)
    ensures
        r@ == crate::models::joined_url(base_url@, path@),
{
    crate::models::build_endpoint_url(base_url, path)
}

/// Something known, or the URL where it is asked for.
#[derive(Debug)]
pub enum Known {
    Value(String),
    Ask(String),
}

pub enum KnownV {
    Value(Seq<char>),
    Ask(Seq<char>),
}

impl View for Known {
    type V = KnownV;

    open spec fn view(&self) -> KnownV {
        match self {
            Known::Value(s) => KnownV::Value(s@),
            Known::Ask(s) => KnownV::Ask(s@),
        }
    }
}

impl AuthEntryV {
    /// Where requests go: as the login says, or to the public service; an enterprise is asked.
    pub open spec fn base(self) -> KnownV {
        match (self.base_url, self.enterprise_url) {
            (Some(url), _) => KnownV::Value(url),
            (None, None) => KnownV::Value("https://api.githubcopilot.com"@),
            (None, Some(url)) => KnownV::Ask(
                "https://"@ + ("api."@ + domain_of(url)) + "/copilot_internal/user"@,
            ),
        }
    }

    /// The access token: the stored one while it is good for more than five minutes; otherwise a
    /// new one is asked for.
    pub open spec fn token(self, now_ms: i64) -> KnownV {
        let fresh = match (self.access, self.expires) {
            (Some(_), Some(expires)) => expires - 300000 > now_ms,
            _ => false,
        };
        if fresh {
            KnownV::Value(self.access->0)
        } else {
            let url = match self.enterprise_url {
                Some(url) => url,
                None => "github.com"@,
            };
            KnownV::Ask(
                "https://"@ + ("api."@ + domain_of(url)) + "/copilot_internal/v2/token"@,
            )
        }
    }
}

/// Where a login's requests go, or where that is asked.
pub fn resolve_base_url(info: &AuthEntry) -> (r: Known)
    ensures
        r@ == info@.base(),
{
    if let Some(url) = &info.base_url {
        return Known::Value(url.clone());
    }
    match &info.enterprise_url {
        None => Known::Value("https://api.githubcopilot.com".to_string()),
        Some(url) => {
            let domain = normalize_domain(url.as_str());
            Known::Ask(
                crate::text::cat3(
                    "https://",
                    api_domain(domain.as_str()).as_str(),
                    "/copilot_internal/user",
                ),
            )
        },
    }
}

/// A login's access token, or where it is asked for.
pub fn resolve_access_token(info: &AuthEntry, now_ms: i64) -> (r: Known)
    ensures
        r@ == info@.token(now_ms),
{
    if let Some(access) = &info.access {
        if let Some(expires) = info.expires {
            if expires as i128 - 300000 > now_ms as i128 {
                return Known::Value(access.clone());
            }
        }
    }
    let domain = match &info.enterprise_url {
        Some(url) => normalize_domain(url.as_str()),
        None => normalize_domain("github.com"),
    };
    Known::Ask(
        crate::text::cat3(
            "https://",
            api_domain(domain.as_str()).as_str(),
            "/copilot_internal/v2/token",
        ),
    )
}

/// What a refused request is answered with: what was asked for, the status and the body.
pub open spec fn refusal(what: Seq<char>, status: Seq<char>, body: JsonV) -> Seq<char> {
    what + " failed with "@ + (status + ": "@ + crate::json::text_of(body))
}

fn refused(what: &str, status: &str, body: &Json) -> (r: Fault)
    ensures
        r@ == refusal(what@, status@, body@),
{
    Fault {
        message: crate::text::cat3(
            what,
            " failed with ",
            crate::text::cat3(status, ": ", body.to_text().as_str()).as_str(),
        ),
    }
}

/// The base URL in the answer to an entitlement request.
pub open spec fn entitlement(success: bool, status: Seq<char>, body: JsonV) -> Result<
    Seq<char>,
    Seq<char>,
> {
    if !success {
        Err(refusal("GitHub Copilot entitlement request"@, status, body))
    } else {
        match crate::reader::fields_of(body, seq!["endpoints"@]) {
            None => Err("Invalid GitHub Copilot entitlement response"@),
            Some(f) => match crate::json::get_field(f, "endpoints"@) {
                None => Err(
                    "GitHub Copilot entitlement response did not include endpoints.api"@,
                ),
                Some(e) => match crate::reader::fields_of(e, seq!["api"@]) {
                    None => Err("Invalid GitHub Copilot entitlement response"@),
                    Some(g) => match crate::reader::nullable(
                        crate::json::get_field(g, "api"@),
                    ) {
                        None => Err("Invalid GitHub Copilot entitlement response"@),
                        Some(None) => Err(
                            "GitHub Copilot entitlement response did not include endpoints.api"@,
                        ),
                        Some(Some(api)) => Ok(api),
                    },
                },
            },
        }
    }
}

/// Reads the base URL from the answer to an entitlement request.
pub fn entitlement_base_url(success: bool, status: &str, body: &Json) -> (r: Result<String, Fault>)
    ensures
        r.views() == entitlement(success, status@, body@),
{
    if !success {
        return Err(refused("GitHub Copilot entitlement request", status, body));
    }
    let outer = vec!["endpoints"];
    assert(outer.views() =~= seq!["endpoints"@]);
    let inner = vec!["api"];
    assert(inner.views() =~= seq!["api"@]);
    match crate::reader::read_fields(body, &outer) {
        None => Err(Fault::new("Invalid GitHub Copilot entitlement response")),
        Some(f) => match f.get("endpoints") {
            None => Err(
                Fault::new("GitHub Copilot entitlement response did not include endpoints.api"),
            ),
            Some(e) => match crate::reader::read_fields(e, &inner) {
                None => Err(Fault::new("Invalid GitHub Copilot entitlement response")),
                Some(g) => match crate::reader::read_nullable(g.get("api")) {
                    None => Err(Fault::new("Invalid GitHub Copilot entitlement response")),
                    Some(None) => Err(
                        Fault::new(
                            "GitHub Copilot entitlement response did not include endpoints.api",
                        ),
                    ),
                    Some(Some(api)) => Ok(api),
                },
            },
        },
    }
}

/// The access token in the answer to a token exchange.
pub open spec fn exchanged(success: bool, status: Seq<char>, body: JsonV) -> Result<
    Seq<char>,
    Seq<char>,
> {
    if !success {
        Err(refusal("GitHub Copilot token exchange"@, status, body))
    } else {
        match crate::reader::fields_of(body, seq!["token"@, "expires_at"@]) {
            None => Err("Invalid GitHub Copilot token response"@),
            Some(f) => match (
                crate::json::get_field(f, "token"@),
                crate::json::get_field(f, "expires_at"@),
            ) {
                (Some(JsonV::Text(token)), Some(at)) => if crate::reader::signed(at) is Some {
                    Ok(token)
                } else {
                    Err("Invalid GitHub Copilot token response"@)
                },
                _ => Err("Invalid GitHub Copilot token response"@),
            },
        }
    }
}

/// Reads the access token from the answer to a token exchange.
pub fn exchanged_token(success: bool, status: &str, body: &Json) -> (r: Result<String, Fault>)
    ensures
        r.views() == exchanged(success, status@, body@),
{
    if !success {
        return Err(refused("GitHub Copilot token exchange", status, body));
    }
    let names = vec!["token", "expires_at"];
    assert(names.views() =~= seq!["token"@, "expires_at"@]);
    if let Some(f) = crate::reader::read_fields(body, &names) {
        if let Some(Json::Text(token)) = f.get("token") {
            if let Some(at) = f.get("expires_at") {
                if crate::reader::read_signed(at).is_some() {
                    return Ok(token.clone());
                }
            }
        }
    }
    Err(Fault::new("Invalid GitHub Copilot token response"))
}

/// A token that runs out within five minutes is not used.
pub proof fn lemma_token_refreshed(info: AuthEntryV, now_ms: i64)
    requires
        info.expires is Some,
        info.expires->0 - now_ms <= 300000,
    ensures
        info.token(now_ms) is Ask,
{
}

// ---------------------------------------------------------------- the models

/// What a model can do, as far as it is read.
#[derive(Debug)]
pub struct LiveCapabilities {
    pub kind: Option<String>,
    pub max_context_window_tokens: Option<u64>,
    pub adaptive_thinking: Option<bool>,
    pub max_thinking_budget: Option<u64>,
    pub reasoning_effort: Option<Vec<String>>,
}

pub struct LiveCapabilitiesV {
    pub kind: Option<Seq<char>>,
    pub max_context_window_tokens: Option<u64>,
    pub adaptive_thinking: Option<bool>,
    pub max_thinking_budget: Option<u64>,
    pub reasoning_effort: Option<Seq<Seq<char>>>,
}

impl View for LiveCapabilities {
    type V = LiveCapabilitiesV;

    open spec fn view(&self) -> LiveCapabilitiesV {
        LiveCapabilitiesV {
            kind: self.kind.views(),
            max_context_window_tokens: self.max_context_window_tokens,
            adaptive_thinking: self.adaptive_thinking,
            max_thinking_budget: self.max_thinking_budget,
            reasoning_effort: crate::views::opt_list(self.reasoning_effort),
        }
    }
}

/// A model as it is listed.
#[derive(Debug)]
pub struct LiveModel {
    pub id: String,
    pub name: Option<String>,
    pub model_picker_enabled: Option<bool>,
    pub supported_endpoints: Vec<String>,
    pub capabilities: Option<LiveCapabilities>,
}

pub struct LiveModelV {
    pub id: Seq<char>,
    pub name: Option<Seq<char>>,
    pub model_picker_enabled: Option<bool>,
    pub supported_endpoints: Seq<Seq<char>>,
    pub capabilities: Option<LiveCapabilitiesV>,
}

impl View for LiveModel {
    type V = LiveModelV;

    open spec fn view(&self) -> LiveModelV {
        LiveModelV {
            id: self.id@,
            name: self.name.views(),
            model_picker_enabled: self.model_picker_enabled,
            supported_endpoints: self.supported_endpoints.views(),
            capabilities: self.capabilities.views(),
        }
    }
}

/// The size of the context in a record of limits, which may be absent.
pub open spec fn limit_read(v: Option<JsonV>) -> Option<Option<u64>> {
    match v {
        None => Some(None),
        Some(j) => match crate::reader::fields_of(j, seq!["max_context_window_tokens"@]) {
            Some(f) => crate::reader::nullable_u64(
                crate::json::get_field(f, "max_context_window_tokens"@),
            ),
            None => None,
        },
    }
}

fn read_limit(v: Option<&Json>) -> (r: Option<Option<u64>>)
    ensures
        r == limit_read(v.views()),
{
    let names = vec!["max_context_window_tokens"];
    assert(names.views() =~= seq!["max_context_window_tokens"@]);
    match v {
        None => Some(None),
        Some(j) => match crate::reader::read_fields(j, &names) {
            Some(f) => crate::reader::read_nullable_u64(f.get("max_context_window_tokens")),
            None => None,
        },
    }
}

/// The three signs of reasoning in a record of what is supported, which may be absent.
pub open spec fn supports_read(v: Option<JsonV>) -> Option<
    (Option<bool>, Option<u64>, Option<Seq<Seq<char>>>),
> {
    match v {
        None => Some((None, None, None)),
        Some(j) => match crate::reader::fields_of(
            j,
            seq!["adaptive_thinking"@, "max_thinking_budget"@, "reasoning_effort"@],
        ) {
            Some(f) => match (
                crate::reader::nullable_bool(crate::json::get_field(f, "adaptive_thinking"@)),
                crate::reader::nullable_u64(crate::json::get_field(f, "max_thinking_budget"@)),
                crate::reader::nullable_list(crate::json::get_field(f, "reasoning_effort"@)),
            ) {
                (Some(a), Some(b), Some(c)) => Some((a, b, c)),
                _ => None,
            },
            None => None,
        },
    }
}

fn read_supports(v: Option<&Json>) -> (r: Option<(Option<bool>, Option<u64>, Option<Vec<String>>)>)
    ensures
        match r {
            Some(t) => supports_read(v.views()) == Some((t.0, t.1, crate::views::opt_list(t.2))),
            None => supports_read(v.views()) is None,
        },
{
    let names = vec!["adaptive_thinking", "max_thinking_budget", "reasoning_effort"];
    assert(names.views() =~= seq![
        "adaptive_thinking"@,
        "max_thinking_budget"@,
        "reasoning_effort"@,
    ]);
    match v {
        None => Some((None, None, None)),
        Some(j) => match crate::reader::read_fields(j, &names) {
            Some(f) => match (
                crate::reader::read_nullable_bool(f.get("adaptive_thinking")),
                crate::reader::read_nullable_u64(f.get("max_thinking_budget")),
                crate::reader::read_nullable_list(f.get("reasoning_effort")),
            ) {
                (Some(a), Some(b), Some(c)) => Some((a, b, c)),
                _ => None,
            },
            None => None,
        },
    }
}

/// What a model can do, which may be absent or null.
pub open spec fn capabilities_read(v: Option<JsonV>) -> Option<Option<LiveCapabilitiesV>> {
    match v {
        None | Some(JsonV::Null) => Some(None),
        Some(j) => match crate::reader::fields_of(j, seq!["type"@, "limits"@, "supports"@]) {
            Some(f) => match (
                crate::reader::nullable(crate::json::get_field(f, "type"@)),
                limit_read(crate::json::get_field(f, "limits"@)),
                supports_read(crate::json::get_field(f, "supports"@)),
            ) {
                (Some(kind), Some(limit), Some(s)) => Some(
                    Some(
                        LiveCapabilitiesV {
                            kind,
                            max_context_window_tokens: limit,
                            adaptive_thinking: s.0,
                            max_thinking_budget: s.1,
                            reasoning_effort: s.2,
                        },
                    ),
                ),
                _ => None,
            },
            None => None,
        },
    }
}

fn read_capabilities(v: Option<&Json>) -> (r: Option<Option<LiveCapabilities>>)
    ensures
        match r {
            Some(o) => capabilities_read(v.views()) == Some(o.views()),
            None => capabilities_read(v.views()) is None,
        },
{
    let names = vec!["type", "limits", "supports"];
    assert(names.views() =~= seq!["type"@, "limits"@, "supports"@]);
    match v {
        None => Some(None),
        Some(Json::Null) => Some(None),
        Some(j) => match crate::reader::read_fields(j, &names) {
            Some(f) => match (
                crate::reader::read_nullable(f.get("type")),
                read_limit(f.get("limits")),
                read_supports(f.get("supports")),
            ) {
                (Some(kind), Some(limit), Some(s)) => Some(
                    Some(
                        LiveCapabilities {
                            kind,
                            max_context_window_tokens: limit,
                            adaptive_thinking: s.0,
                            max_thinking_budget: s.1,
                            reasoning_effort: s.2,
                        },
                    ),
                ),
                _ => None,
            },
            None => None,
        },
    }
}

/// The fields of a listed model in the order by which a list stands for them.
pub open spec fn live_fields() -> Seq<Seq<char>> {
    seq!["id"@, "name"@, "model_picker_enabled"@, "supported_endpoints"@, "capabilities"@]
}

/// A listed model: its id is needed, the rest may be absent.
pub open spec fn live_read(v: JsonV) -> Option<LiveModelV> {
    match crate::reader::fields_of(v, live_fields()) {
        Some(f) => match (
            crate::json::get_field(f, "id"@),
            crate::reader::nullable(crate::json::get_field(f, "name"@)),
            crate::reader::nullable_bool(crate::json::get_field(f, "model_picker_enabled"@)),
            crate::reader::text_list(crate::json::get_field(f, "supported_endpoints"@)),
            capabilities_read(crate::json::get_field(f, "capabilities"@)),
        ) {
            (
                Some(JsonV::Text(id)),
                Some(name),
                Some(model_picker_enabled),
                Some(supported_endpoints),
                Some(capabilities),
            ) => Some(
                LiveModelV { id, name, model_picker_enabled, supported_endpoints, capabilities },
            ),
            _ => None,
        },
        None => None,
    }
}

fn read_live(v: &Json) -> (r: Option<LiveModel>)
    ensures
        r.views() == live_read(v@),
{
    let names = vec!["id", "name", "model_picker_enabled", "supported_endpoints", "capabilities"];
    assert(names.views() =~= live_fields());
    let f = match crate::reader::read_fields(v, &names) {
        Some(f) => f,
        None => {
            return None;
        },
    };
    let id = match f.get("id") {
        Some(Json::Text(s)) => s.clone(),
        _ => {
            return None;
        },
    };
    match (
        crate::reader::read_nullable(f.get("name")),
        crate::reader::read_nullable_bool(f.get("model_picker_enabled")),
        crate::reader::read_text_list(f.get("supported_endpoints")),
        read_capabilities(f.get("capabilities")),
    ) {
        (
            Some(name),
            Some(model_picker_enabled),
            Some(supported_endpoints),
            Some(capabilities),
        ) => Some(LiveModel { id, name, model_picker_enabled, supported_endpoints, capabilities }),
        _ => None,
    }
}

impl LiveModelV {
    /// The model can be chosen: it chats and is not taken out of the picker.
    pub open spec fn is_picker(self) -> bool {
        &&& self.model_picker_enabled != Some(false)
        &&& self.capabilities is Some
        &&& (self.capabilities->0).kind == Some("chat"@)
    }

    pub open spec fn serves(self, endpoint: Seq<char>) -> bool {
        self.supported_endpoints.contains(endpoint)
    }

    /// The model as it is offered. One that serves the messages endpoint takes a million tokens.
    pub open spec fn offered(self) -> GithubCopilotModelV {
        GithubCopilotModelV {
            id: self.id,
            name: match self.name {
                Some(name) => name,
                None => self.id,
            },
            context_window: if self.serves("/v1/messages"@) {
                Some(1_000_000)
            } else {
                match self.capabilities {
                    Some(c) => c.max_context_window_tokens,
                    None => None,
                }
            },
            supports_reasoning: match self.capabilities {
                Some(c) => c.reasons(),
                None => false,
            },
            wire: if self.serves("/v1/messages"@) {
                WireProtocol::AnthropicMessages
            } else if self.serves("/responses"@) {
                WireProtocol::OpenaiResponses
            } else {
                WireProtocol::OpenaiCompletions
            },
        }
    }
}

impl LiveCapabilitiesV {
    /// One of the three signs of reasoning is there.
    pub open spec fn reasons(self) -> bool {
        ||| self.adaptive_thinking == Some(true)
        ||| self.max_thinking_budget is Some
        ||| (self.reasoning_effort is Some && (self.reasoning_effort->0).len() > 0)
    }
}

/// Whether a model can be chosen.
pub fn is_picker_model(model: &LiveModel) -> (r: bool)
    ensures
        r == model@.is_picker(),
{
    let hidden = match model.model_picker_enabled {
        Some(b) => !b,
        None => false,
    };
    let chats = match &model.capabilities {
        Some(c) => match &c.kind {
            Some(kind) => *kind.as_str() == *"chat",
            None => false,
        },
        None => false,
    };
    !hidden && chats
}

/// Whether a model reasons.
pub fn model_supports_reasoning(capabilities: &LiveCapabilities) -> (r: bool)
    ensures
        r == capabilities@.reasons(),
{
    let adaptive = match capabilities.adaptive_thinking {
        Some(b) => b,
        None => false,
    };
    let effort = match &capabilities.reasoning_effort {
        Some(values) => values.len() > 0,
        None => false,
    };
    adaptive || capabilities.max_thinking_budget.is_some() || effort
}

fn offered(model: LiveModel) -> (r: GithubCopilotModel)
    ensures
        r@ == model@.offered(),
{
    let messages = crate::text::has_text(&model.supported_endpoints, "/v1/messages");
    let responses = crate::text::has_text(&model.supported_endpoints, "/responses");
    let (limit, reasons) = match &model.capabilities {
        Some(c) => (c.max_context_window_tokens, model_supports_reasoning(c)),
        None => (None, false),
    };
    GithubCopilotModel {
        id: model.id.clone(),
        name: match model.name {
            Some(name) => name,
            None => model.id,
        },
        context_window: if messages {
            Some(1_000_000)
        } else {
            limit
        },
        supports_reasoning: reasons,
        wire: if messages {
            WireProtocol::AnthropicMessages
        } else if responses {
            WireProtocol::OpenaiResponses
        } else {
            WireProtocol::OpenaiCompletions
        },
    }
}

/// Those of the first `n` listed models that can be chosen; nothing where one cannot be read.
pub open spec fn offered_upto(data: Seq<JsonV>, n: nat) -> Option<Seq<GithubCopilotModelV>>
    decreases n,
{
    if n == 0 {
        Some(Seq::empty())
    } else {
        match (offered_upto(data, (n - 1) as nat), live_read(data[n - 1])) {
            (Some(rest), Some(m)) => if m.is_picker() {
                Some(rest.push(m.offered()))
            } else {
                Some(rest)
            },
            _ => None,
        }
    }
}

/// The models in a list of models, in the order of their ids.
pub open spec fn models_read(body: JsonV) -> Result<Seq<GithubCopilotModelV>, Seq<char>> {
    let data = match crate::reader::fields_of(body, seq!["data"@]) {
        Some(f) => match crate::json::get_field(f, "data"@) {
            None => Some(Seq::empty()),
            Some(JsonV::Array(items)) => Some(items),
            Some(_) => None,
        },
        None => None,
    };
    match data {
        Some(items) => match offered_upto(items, items.len()) {
            Some(models) => Ok(crate::order::sorted::<GithubCopilotModel>(models)),
            None => Err("Invalid GitHub Copilot models response"@),
        },
        None => Err("Invalid GitHub Copilot models response"@),
    }
}

proof fn lemma_offered_fails(data: Seq<JsonV>, n: nat, m: nat)
    requires
        n <= m,
        offered_upto(data, n) is None,
    ensures
        offered_upto(data, m) is None,
    decreases m,
{
    if n < m {
        lemma_offered_fails(data, n, (m - 1) as nat);
    }
}

fn offered_all(data: &Vec<Json>) -> (r: Option<Vec<GithubCopilotModel>>)
    ensures
        crate::views::opt_list(r) == offered_upto(data.views(), data.views().len()),
{
    let mut out: Vec<GithubCopilotModel> = crate::views::none();
    for i in 0..data.len()
        invariant
            offered_upto(data.views(), i as nat) == Some(out.views()),
    {
        assert(data.views()[i as int] == data@[i as int]@);
        match read_live(&data[i]) {
            Some(m) => {
                if is_picker_model(&m) {
                    crate::views::push(&mut out, offered(m));
                }
            },
            None => {
                proof {
                    lemma_offered_fails(data.views(), (i + 1) as nat, data.views().len());
                }
                return None;
            },
        }
    }
    Some(out)
}

/// Reads a list of models.
pub fn parse_models_response(body: &Json) -> (r: Result<Vec<GithubCopilotModel>, Fault>)
    ensures
        match r {
            Ok(models) => models_read(body@) == Ok::<_, Seq<char>>(models.views()),
            Err(e) => models_read(body@) == Err::<Seq<GithubCopilotModelV>, _>(e@),
        },
{
    broadcast use {crate::json::lemma_array_view, crate::json::lemma_object_view};

    let names = vec!["data"];
    assert(names.views() =~= seq!["data"@]);
    let none: Vec<Json> = crate::views::none();
    let read = match crate::reader::read_fields(body, &names) {
        Some(f) => match f.get("data") {
            None => offered_all(&none),
            Some(Json::Array(items)) => offered_all(items),
            Some(_) => None,
        },
        None => None,
    };
    match read {
        Some(models) => Ok(crate::order::sort(models)),
        None => Err(Fault::new("Invalid GitHub Copilot models response")),
    }
}

/// The models in the answer to a request for them.
pub open spec fn models_answer(success: bool, status: Seq<char>, body: JsonV) -> Result<
    Seq<GithubCopilotModelV>,
    Seq<char>,
> {
    if !success {
        Err(refusal("GitHub Copilot models request"@, status, body))
    } else {
        models_read(body)
    }
}

/// Reads the models from the answer to a request for them.
pub fn answered_models(success: bool, status: &str, body: &Json) -> (r: Result<
    Vec<GithubCopilotModel>,
    Fault,
>)
    ensures
        match r {
            Ok(models) => models_answer(success, status@, body@) == Ok::<_, Seq<char>>(
                models.views(),
            ),
            Err(e) => models_answer(success, status@, body@) == Err::<
                Seq<GithubCopilotModelV>,
                _,
            >(e@),
        },
{
    if !success {
        return Err(refused("GitHub Copilot models request", status, body));
    }
    parse_models_response(body)
}

// ---------------------------------------------------------------- headers


fn push_header(headers: &mut Vec<(String, String)>, name: &str, value: &str)
    ensures
        final(headers).views() == old(headers).views().push((name@, value@)),
{
    headers.push((name.to_string(), value.to_string()));
    assert(headers.views() =~= old(headers).views().push((name@, value@)));
}

/// The headers of every request.
pub open spec fn base_header_list(token: Seq<char>) -> Seq<(Seq<char>, Seq<char>)> {
    Seq::empty().push(("accept"@, "application/json"@)).push(
        ("authorization"@, "Bearer "@ + token),
    ).push(("user-agent"@, "GitHubCopilotChat/0.38.0"@)).push(
        ("Editor-Version"@, "vscode/1.110.1"@),
    ).push(("Editor-Plugin-Version"@, "copilot-chat/0.38.0"@)).push(
        ("Copilot-Integration-Id"@, "vscode-chat"@),
    )
}

pub fn base_headers(token: &str) -> (r: Vec<(String, String)>)
    ensures
        r.views() == base_header_list(token@),
{
    let mut h: Vec<(String, String)> = crate::views::none();
    push_header(&mut h, "accept", "application/json");
    push_header(&mut h, "authorization", crate::text::cat("Bearer ", token).as_str());
    push_header(&mut h, "user-agent", "GitHubCopilotChat/0.38.0");
    push_header(&mut h, "Editor-Version", "vscode/1.110.1");
    push_header(&mut h, "Editor-Plugin-Version", "copilot-chat/0.38.0");
    push_header(&mut h, "Copilot-Integration-Id", "vscode-chat");
    h
}

/// The headers of a request for the models.
pub open spec fn model_header_list(token: Seq<char>, request_id: Seq<char>) -> Seq<
    (Seq<char>, Seq<char>),
> {
    base_header_list(token).push(("Openai-Intent"@, "model-access"@)).push(
        ("X-GitHub-Api-Version"@, "2025-05-01"@),
    ).push(("X-Interaction-Type"@, "model-access"@)).push(("X-Request-Id"@, request_id))
}

pub fn model_headers_with_id(access_token: &str, request_id: &str) -> (r: Vec<(String, String)>)
    ensures
        r.views() == model_header_list(access_token@, request_id@),
{
    let mut h = base_headers(access_token);
    push_header(&mut h, "Openai-Intent", "model-access");
    push_header(&mut h, "X-GitHub-Api-Version", "2025-05-01");
    push_header(&mut h, "X-Interaction-Type", "model-access");
    push_header(&mut h, "X-Request-Id", request_id);
    h
}

/// `rand::random` of sixteen bytes: sixteen bytes come back, and which they are is left to chance.
#[verifier::external_body]
fn sixteen_random_bytes() -> (r: Vec<u8>)
    ensures
        r@.len() == 16,
{
    rand::random::<[u8; 16]>().to_vec()
}

/// An id of a request: the hexadecimal digits of sixteen bytes.
pub open spec fn is_request_id(id: Seq<char>) -> bool {
    exists|bytes: Seq<u8>| bytes.len() == 16 && id == #[trigger] crate::text::hex_text(bytes)
}

/// A new id of a request.
pub fn random_request_id() -> (r: String)
    ensures
        is_request_id(r@),
{
    let bytes = sixteen_random_bytes();
    crate::text::hex(&bytes)
}

/// The headers of a request for the models, with a new id.
pub fn model_headers(access_token: &str) -> (r: Vec<(String, String)>)
    ensures
        exists|id: Seq<char>|
            is_request_id(id) && r.views() == #[trigger] model_header_list(access_token@, id),
{
    let id = random_request_id();
    model_headers_with_id(access_token, id.as_str())
}

/// One of the parts has the type.
pub open spec fn has_part(message: JsonV, kind: Seq<char>) -> bool {
    match message.get_array("content"@) {
        Some(parts) => exists|i: int|
            0 <= i < parts.len() && (#[trigger] parts[i]).get_str("type"@) == Some(kind),
        None => false,
    }
}

fn holds_part(message: &Json, kind: &str) -> (r: bool)
    ensures
        r == has_part(message@, kind@),
{
    match message.get_array("content") {
        Some(parts) => {
            for i in 0..parts.len()
                invariant
                    forall|j: int|
                        0 <= j < i ==> (#[trigger] parts.views()[j]).get_str("type"@) != Some(
                            kind@,
                        ),
                    message@.get_array("content"@) == Some(parts.views()),
            {
                assert(parts.views()[i as int] == parts@[i as int]@);
                if parts[i].field_is("type", kind) {
                    return true;
                }
            }
            false
        },
        None => false,
    }
}

pub fn openai_message_has_image(message: &Json) -> (r: bool)
    ensures
        r == has_part(message@, "image_url"@),
{
    holds_part(message, "image_url")
}

pub fn responses_item_has_image(item: &Json) -> (r: bool)
    ensures
        r == has_part(item@, "input_image"@),
{
    holds_part(item, "input_image")
}

pub fn anthropic_message_has_image(message: &Json) -> (r: bool)
    ensures
        r == has_part(message@, "image"@),
{
    holds_part(message, "image")
}

/// The types of items that an agent writes.
pub open spec fn agent_kinds() -> Seq<Seq<char>> {
    seq![
        "file_search_call"@,
        "computer_call"@,
        "computer_call_output"@,
        "web_search_call"@,
        "function_call"@,
        "function_call_output"@,
        "image_generation_call"@,
        "code_interpreter_call"@,
        "local_shell_call"@,
        "local_shell_call_output"@,
        "mcp_list_tools"@,
        "mcp_approval_request"@,
        "mcp_approval_response"@,
        "mcp_call"@,
        "reasoning"@,
    ]
}

/// An item comes from the agent: by its role or by its type.
pub open spec fn from_agent(item: JsonV) -> bool {
    ||| item.get_str("role"@) == Some("assistant"@)
    ||| (item.get_str("type"@) is Some && agent_kinds().contains(item.get_str("type"@)->0))
}

pub fn item_is_agent(item: &Json) -> (r: bool)
    ensures
        r == from_agent(item@),
{
    if item.field_is("role", "assistant") {
        return true;
    }
    let kinds = vec![
        "file_search_call",
        "computer_call",
        "computer_call_output",
        "web_search_call",
        "function_call",
        "function_call_output",
        "image_generation_call",
        "code_interpreter_call",
        "local_shell_call",
        "local_shell_call_output",
        "mcp_list_tools",
        "mcp_approval_request",
        "mcp_approval_response",
        "mcp_call",
        "reasoning",
    ];
    assert(kinds.views() =~= agent_kinds());
    match item.get_str("type") {
        Some(kind) => {
            for i in 0..kinds.len()
                invariant
                    forall|j: int| 0 <= j < i ==> (#[trigger] kinds.views()[j]) != kind@,
                    kinds.views() == agent_kinds(),
                    item@.get_str("type"@) == Some(kind@),
            {
                assert(kinds.views()[i as int] == kinds@[i as int]@);
                if *kinds[i] == *kind {
                    assert(agent_kinds()[i as int] == kind@);
                    return true;
                }
            }
            false
        },
        None => false,
    }
}

/// Whether a request shows an image, and whether it goes on for an agent.
pub open spec fn metadata(body: Option<JsonV>) -> (bool, bool) {
    match body {
        None => (false, false),
        Some(b) => match b.get_array("messages"@) {
            Some(m) => (
                exists|i: int|
                    0 <= i < m.len() && (has_part(#[trigger] m[i], "image_url"@) || has_part(
                        m[i],
                        "image"@,
                    )),
                m.len() > 0 && (m.last().get_str("role"@) == Some("assistant"@)
                    || m.last().get_str("role"@) == Some("tool"@)),
            ),
            None => match b.get_array("input"@) {
                Some(m) => (
                    exists|i: int| 0 <= i < m.len() && has_part(#[trigger] m[i], "input_image"@),
                    m.len() > 0 && from_agent(m.last()),
                ),
                None => (false, false),
            },
        },
    }
}

fn any_message_image(m: &Vec<Json>) -> (r: bool)
    ensures
        r == (exists|i: int|
            0 <= i < m.views().len() && (has_part(#[trigger] m.views()[i], "image_url"@)
                || has_part(m.views()[i], "image"@))),
{
    for i in 0..m.len()
        invariant
            forall|j: int|
                0 <= j < i ==> !has_part(#[trigger] m.views()[j], "image_url"@) && !has_part(
                    m.views()[j],
                    "image"@,
                ),
    {
        assert(m.views()[i as int] == m@[i as int]@);
        if openai_message_has_image(&m[i]) || anthropic_message_has_image(&m[i]) {
            return true;
        }
    }
    false
}

fn any_item_image(m: &Vec<Json>) -> (r: bool)
    ensures
        r == (exists|i: int|
            0 <= i < m.views().len() && has_part(#[trigger] m.views()[i], "input_image"@)),
{
    for i in 0..m.len()
        invariant
            forall|j: int| 0 <= j < i ==> !has_part(#[trigger] m.views()[j], "input_image"@),
    {
        assert(m.views()[i as int] == m@[i as int]@);
        if responses_item_has_image(&m[i]) {
            return true;
        }
    }
    false
}

/// Tells whether a request shows an image, and whether it goes on for an agent.
pub fn conversation_metadata(body: Option<&Json>) -> (r: (bool, bool))
    ensures
        r == metadata(body.views()),
{
    let b = match body {
        None => {
            return (false, false);
        },
        Some(b) => b,
    };
    if let Some(m) = b.get_array("messages") {
        let agent = if m.len() > 0 {
            let last = &m[m.len() - 1];
            assert(m.views().last() == last@);
            last.field_is("role", "assistant") || last.field_is("role", "tool")
        } else {
            false
        };
        return (any_message_image(m), agent);
    }
    if let Some(m) = b.get_array("input") {
        let agent = if m.len() > 0 {
            let last = &m[m.len() - 1];
            assert(m.views().last() == last@);
            item_is_agent(last)
        } else {
            false
        };
        return (any_item_image(m), agent);
    }
    (false, false)
}

/// The headers of a conversation.
pub open spec fn conversation_header_list(
    access_token: Seq<char>,
    body: Option<JsonV>,
    interaction_id: Seq<char>,
    request_id: Seq<char>,
) -> Seq<(Seq<char>, Seq<char>)> {
    let h = Seq::empty().push(("Authorization"@, "Bearer "@ + access_token)).push(
        ("User-Agent"@, "GitHubCopilotChat/0.38.0"@),
    ).push(("Editor-Version"@, "vscode/1.110.1"@)).push(
        ("Editor-Plugin-Version"@, "copilot-chat/0.38.0"@),
    ).push(("Copilot-Integration-Id"@, "vscode-chat"@)).push(
        ("Openai-Intent"@, "conversation-agent"@),
    ).push(("X-GitHub-Api-Version"@, "2025-05-01"@)).push(
        (
            "X-Initiator"@,
            if metadata(body).1 {
                "agent"@
            } else {
                "user"@
            },
        ),
    ).push(("X-Interaction-Id"@, interaction_id)).push(
        ("X-Interaction-Type"@, "conversation-agent"@),
    ).push(("X-Request-Id"@, request_id));
    if metadata(body).0 {
        h.push(("Copilot-Vision-Request"@, "true"@))
    } else {
        h
    }
}

pub fn conversation_headers_with_ids(
    access_token: &str,
    body: Option<&Json>,
    interaction_id: &str,
    request_id: &str,
) -> (r: Vec<(String, String)>)
    ensures
        r.views() == conversation_header_list(
            access_token@,
            body.views(),
            interaction_id@,
            request_id@,
        ),
{
    let (vision, agent) = conversation_metadata(body);
    let mut h: Vec<(String, String)> = crate::views::none();
    push_header(&mut h, "Authorization", crate::text::cat("Bearer ", access_token).as_str());
    push_header(&mut h, "User-Agent", "GitHubCopilotChat/0.38.0");
    push_header(&mut h, "Editor-Version", "vscode/1.110.1");
    push_header(&mut h, "Editor-Plugin-Version", "copilot-chat/0.38.0");
    push_header(&mut h, "Copilot-Integration-Id", "vscode-chat");
    push_header(&mut h, "Openai-Intent", "conversation-agent");
    push_header(&mut h, "X-GitHub-Api-Version", "2025-05-01");
    push_header(
        &mut h,
        "X-Initiator",
        if agent {
            "agent"
        } else {
            "user"
        },
    );
    push_header(&mut h, "X-Interaction-Id", interaction_id);
    push_header(&mut h, "X-Interaction-Type", "conversation-agent");
    push_header(&mut h, "X-Request-Id", request_id);
    if vision {
        push_header(&mut h, "Copilot-Vision-Request", "true");
    }
    h
}

/// The headers of a conversation, with new ids.
pub fn conversation_headers(access_token: &str, body: Option<&Json>) -> (r: Vec<(String, String)>)
    ensures
        exists|a: Seq<char>, b: Seq<char>|
            is_request_id(a) && is_request_id(b) && r.views()
                == #[trigger] conversation_header_list(access_token@, body.views(), a, b),
{
    let a = random_request_id();
    let b = random_request_id();
    conversation_headers_with_ids(access_token, body, a.as_str(), b.as_str())
}

} // verus!
