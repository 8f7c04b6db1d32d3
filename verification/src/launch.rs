//! What starting a tool comes to: which endpoint it talks to, its arguments and its environment.
use vstd::prelude::*;

use crate::cli::{LaunchArgs, LaunchArgsV};
use crate::config::{ApiKey, ApiKeyV};
use crate::copilot_proxy::ProxyMode;
use crate::fault::Fault;
use crate::models::{ResolvedModel, ResolvedModelV};
use crate::provider::WireProtocol;
use crate::table::{Entry, Table};
use crate::views::Views;

verus! {

/// A tool that can be started.
#[derive(Debug, Clone, Copy, PartialEq, Eq, Structural)]
pub enum Tool {
    Codex,
    Claude,
}

/// The tool of a name.
pub open spec fn tool_named(s: Seq<char>) -> Result<Tool, Seq<char>> {
    if s == "codex"@ {
        Ok(Tool::Codex)
    } else if s == crate::names::claude() || s == crate::names::kebab(crate::names::claude_code()) {
        Ok(Tool::Claude)
    } else {
        Err(
            "Unsupported tool `"@ + s + ("`. First step supports codex and "@
                + crate::names::kebab(crate::names::claude_code()) + " only."@),
        )
    }
}

impl Tool {
    pub open spec fn command(self) -> Seq<char> {
        match self {
            Tool::Codex => "codex"@,
            Tool::Claude => crate::names::claude(),
        }
    }

    pub fn parse(s: &str) -> (r: Result<Tool, Fault>)
        ensures
            match r {
                Ok(tool) => tool_named(s@) == Ok::<_, Seq<char>>(tool),
                Err(e) => tool_named(s@) == Err::<Tool, _>(e@),
            },
    {
        let long = crate::names::kebab_text(crate::names::claude_code_ident());
        if *s == *"codex" {
            Ok(Tool::Codex)
        } else if *s == *crate::names::claude_text() || *s == *long.as_str() {
            Ok(Tool::Claude)
        } else {
            let after = crate::text::cat3(
                "`. First step supports codex and ",
                long.as_str(),
                " only.",
            );
            Err(Fault::about("Unsupported tool `", s, after.as_str()))
        }
    }

    /// The program that is started.
    pub fn command_name(self) -> (r: &'static str)
        ensures
            r@ == self.command(),
    {
        match self {
            Tool::Codex => "codex",
            Tool::Claude => crate::names::claude_text(),
        }
    }
}

// ---------------------------------------------------------------- tools and protocols

/// A tool can work with a protocol: codex with every one, if need be through a router; the other
/// with its own alone.
pub open spec fn supports(tool: Tool, wire: WireProtocol) -> bool {
    tool == Tool::Codex || wire == WireProtocol::AnthropicMessages
}

pub fn tool_supports_wire(tool: Tool, wire: WireProtocol) -> (r: bool)
    ensures
        r == supports(tool, wire),
{
    match tool {
        Tool::Codex => true,
        Tool::Claude => wire == WireProtocol::AnthropicMessages,
    }
}

/// codex speaks one protocol itself and needs a router for the others.
pub open spec fn needs_router(wire: WireProtocol) -> bool {
    wire != WireProtocol::OpenaiResponses
}

pub fn wire_needs_codex_router(wire: WireProtocol) -> (r: bool)
    ensures
        r == needs_router(wire),
{
    match wire {
        WireProtocol::OpenaiCompletions | WireProtocol::AnthropicMessages => true,
        WireProtocol::OpenaiResponses => false,
    }
}

/// The protocol of a launch: that of the chosen model, or else the key's.
pub open spec fn wire_for(model: Option<ResolvedModelV>, key: ApiKeyV) -> WireProtocol {
    match model {
        Some(m) => m.wire,
        None => key.wire_protocol(),
    }
}

pub fn effective_wire(model: &Option<ResolvedModel>, key: &ApiKey) -> (r: WireProtocol)
    ensures
        r == wire_for(model.views(), key@),
{
    match model {
        Some(m) => m.wire,
        None => key.wire_protocol(),
    }
}

/// Why a tool does not go with a key, if it does not.
pub open spec fn tool_fault(tool: Tool, key: ApiKeyV, wire: WireProtocol) -> Option<Seq<char>> {
    if supports(tool, wire) {
        None
    } else {
        let head = "Key `"@ + key.name + ("` uses wire `"@ + wire.name() + ("` ("@ + key.base_url
            + ("). "@ + crate::names::title(crate::names::claude_code())
            + " requires `anthropic-messages`."@)));
        if key.is_copilot() {
            Some(
                head + (" For `github-copilot`, choose a "@ + crate::names::title(
                    crate::names::claude(),
                ) + " model that exposes `/v1/messages`."@),
            )
        } else {
            Some(
                head + (" Use `swcli -k "@ + key.name
                    + " codex` or choose an Anthropic-compatible key such as `minimax-cn`/`custom-anthropic`."@),
            )
        }
    }
}

/// Tells why a tool does not go with a key.
pub fn validate_tool_provider(tool: Tool, key: &ApiKey, wire: WireProtocol) -> (r: Option<Fault>)
    ensures
        r.views() == tool_fault(tool, key@, wire),
{
    if tool_supports_wire(tool, wire) {
        return None;
    }
    let needs = crate::text::cat3(
        "). ",
        crate::names::title_text(crate::names::claude_code_ident()).as_str(),
        " requires `anthropic-messages`.",
    );
    let place = crate::text::cat3("` (", key.base_url.as_str(), needs.as_str());
    let uses = crate::text::cat3("` uses wire `", wire.as_str(), place.as_str());
    let head = crate::text::cat3("Key `", key.name.as_str(), uses.as_str());
    if crate::config::is_github_copilot_key(key) {
        let hint = crate::text::cat3(
            " For `github-copilot`, choose a ",
            crate::names::title_text(crate::names::claude_text()).as_str(),
            " model that exposes `/v1/messages`.",
        );
        return Some(Fault { message: crate::text::cat(head.as_str(), hint.as_str()) });
    }
    let hint = crate::text::cat3(
        " Use `swcli -k ",
        key.name.as_str(),
        " codex` or choose an Anthropic-compatible key such as `minimax-cn`/`custom-anthropic`.",
    );
    Some(Fault { message: crate::text::cat(head.as_str(), hint.as_str()) })
}

// ---------------------------------------------------------------- the endpoint

/// What the tool shows its endpoint: a fixed word where the proxy holds the login.
pub open spec fn token_for(key: ApiKeyV) -> Result<Seq<char>, Seq<char>> {
    if key.is_copilot() {
        Ok("github-copilot"@)
    } else {
        key.plain_secret()
    }
}

pub fn launch_token(key: &ApiKey) -> (r: Result<String, Fault>)
    ensures
        r.views() == token_for(key@),
{
    if crate::config::is_github_copilot_key(key) {
        Ok("github-copilot".to_string())
    } else {
        key.plain_secret()
    }
}

/// The protocol that a router turns into the one that codex speaks.
#[derive(Debug, Clone, Copy, PartialEq, Eq, Structural)]
pub enum RouterKind {
    Anthropic,
    OpenaiChat,
}

/// What stands between the tool and the provider.
#[derive(Debug)]
pub enum LaunchRoute {
    /// Nothing.
    Direct,
    /// Nothing is started; this stands for the URL of what would be.
    Placeholder(&'static str),
    /// A proxy with a login, and a router in front of it if need be.
    Proxy {
        mode: ProxyMode,
        refresh_token: String,
        router: Option<RouterKind>,
    },
    /// A router to the key's endpoint.
    Router {
        kind: RouterKind,
        api_key: String,
    },
}

pub enum LaunchRouteV {
    Direct,
    Placeholder(Seq<char>),
    Proxy {
        mode: ProxyMode,
        refresh_token: Seq<char>,
        router: Option<RouterKind>,
    },
    Router {
        kind: RouterKind,
        api_key: Seq<char>,
    },
}

impl View for LaunchRoute {
    type V = LaunchRouteV;

    open spec fn view(&self) -> LaunchRouteV {
        match self {
            LaunchRoute::Direct => LaunchRouteV::Direct,
            LaunchRoute::Placeholder(url) => LaunchRouteV::Placeholder(url@),
            LaunchRoute::Proxy { mode, refresh_token, router } => LaunchRouteV::Proxy {
                mode: *mode,
                refresh_token: refresh_token@,
                router: *router,
            },
            LaunchRoute::Router { kind, api_key } => LaunchRouteV::Router {
                kind: *kind,
                api_key: api_key@,
            },
        }
    }
}

/// The proxy and router of a launch with GitHub Copilot.
pub open spec fn copilot_parts(tool: Tool, wire: WireProtocol) -> (ProxyMode, Option<RouterKind>) {
    match (tool, wire) {
        (Tool::Codex, WireProtocol::OpenaiResponses) => (ProxyMode::OpenaiResponses, None),
        (Tool::Codex, WireProtocol::OpenaiCompletions) => (
            ProxyMode::OpenaiChat,
            Some(RouterKind::OpenaiChat),
        ),
        (Tool::Codex, WireProtocol::AnthropicMessages) => (
            ProxyMode::AnthropicMessages,
            Some(RouterKind::Anthropic),
        ),
        (Tool::Claude, _) => (ProxyMode::AnthropicMessages, None),
    }
}

/// What stands between the tool and the provider.
pub open spec fn route_for(tool: Tool, key: ApiKeyV, wire: WireProtocol, dry_run: bool) -> Result<
    LaunchRouteV,
    Seq<char>,
> {
    if key.is_copilot() {
        if dry_run {
            Ok(
                LaunchRouteV::Placeholder(
                    "http://127.0.0.1:<swcli-github-copilot-router>/v1"@,
                ),
            )
        } else {
            match key.plain_oauth_token() {
                Ok(refresh_token) => Ok(
                    LaunchRouteV::Proxy {
                        mode: copilot_parts(tool, wire).0,
                        refresh_token,
                        router: copilot_parts(tool, wire).1,
                    },
                ),
                Err(e) => Err(e),
            }
        }
    } else if tool == Tool::Codex && needs_router(wire) {
        if dry_run {
            Ok(LaunchRouteV::Placeholder("http://127.0.0.1:<swcli-responses-router>/v1"@))
        } else {
            match key.plain_secret() {
                Ok(api_key) => Ok(
                    LaunchRouteV::Router {
                        kind: if wire == WireProtocol::AnthropicMessages {
                            RouterKind::Anthropic
                        } else {
                            RouterKind::OpenaiChat
                        },
                        api_key,
                    },
                ),
                Err(e) => Err(e),
            }
        }
    } else {
        Ok(LaunchRouteV::Direct)
    }
}

/// Tells what stands between the tool and the provider.
pub fn launch_route(tool: Tool, key: &ApiKey, wire: WireProtocol, dry_run: bool) -> (r: Result<
    LaunchRoute,
    Fault,
>)
    ensures
        r.views() == route_for(tool, key@, wire, dry_run),
{
    if crate::config::is_github_copilot_key(key) {
        if dry_run {
            return Ok(
                LaunchRoute::Placeholder("http://127.0.0.1:<swcli-github-copilot-router>/v1"),
            );
        }
        let refresh_token = match key.plain_oauth_token() {
            Ok(t) => t,
            Err(e) => {
                return Err(e);
            },
        };
        let (mode, router) = match tool {
            Tool::Codex => match wire {
                WireProtocol::OpenaiResponses => (ProxyMode::OpenaiResponses, None),
                WireProtocol::OpenaiCompletions => (
                    ProxyMode::OpenaiChat,
                    Some(RouterKind::OpenaiChat),
                ),
                WireProtocol::AnthropicMessages => (
                    ProxyMode::AnthropicMessages,
                    Some(RouterKind::Anthropic),
                ),
            },
            Tool::Claude => (ProxyMode::AnthropicMessages, None),
        };
        return Ok(LaunchRoute::Proxy { mode, refresh_token, router });
    }
    if tool == Tool::Codex && wire_needs_codex_router(wire) {
        if dry_run {
            return Ok(LaunchRoute::Placeholder("http://127.0.0.1:<swcli-responses-router>/v1"));
        }
        let api_key = match key.plain_secret() {
            Ok(t) => t,
            Err(e) => {
                return Err(e);
            },
        };
        let kind = if wire == WireProtocol::AnthropicMessages {
            RouterKind::Anthropic
        } else {
            RouterKind::OpenaiChat
        };
        return Ok(LaunchRoute::Router { kind, api_key });
    }
    Ok(LaunchRoute::Direct)
}

/// The URL of what listens on a local port.
pub fn local_base_url(port: u16) -> (r: String)
    ensures
        r@ == "http://127.0.0.1:"@ + crate::text::decimal(port as nat) + "/v1"@,
{
    crate::text::cat3(
        "http://127.0.0.1:",
        crate::text::decimal_text(port as u64).as_str(),
        "/v1",
    )
}

/// Nothing is started in a dry run.
pub proof fn lemma_dry_run_starts_nothing(tool: Tool, key: ApiKeyV, wire: WireProtocol)
    ensures
        route_for(tool, key, wire, true) matches Ok(route) ==> route is Direct || route
            is Placeholder,
{
}

/// What the tool is connected to speaks its protocol: a tool that is connected directly, or to a
/// proxy without a router, supports the protocol itself.
pub proof fn lemma_route_speaks(tool: Tool, key: ApiKeyV, wire: WireProtocol, dry_run: bool)
    requires
        supports(tool, wire),
    ensures
        match route_for(tool, key, wire, dry_run) {
            Ok(LaunchRouteV::Direct) => !(tool == Tool::Codex && needs_router(wire)),
            Ok(LaunchRouteV::Proxy { mode, router, .. }) => match (mode, router) {
                (ProxyMode::OpenaiResponses, None) => tool == Tool::Codex,
                (ProxyMode::AnthropicMessages, None) => tool == Tool::Claude,
                (ProxyMode::OpenaiChat, Some(kind)) => tool == Tool::Codex && kind
                    == RouterKind::OpenaiChat,
                (ProxyMode::AnthropicMessages, Some(kind)) => tool == Tool::Codex && kind
                    == RouterKind::Anthropic,
                _ => false,
            },
            Ok(LaunchRouteV::Router { kind, .. }) => tool == Tool::Codex && (kind
                == RouterKind::Anthropic <==> wire == WireProtocol::AnthropicMessages),
            _ => true,
        },
{
}

// ---------------------------------------------------------------- the environment

/// The variables that tell a tool its endpoint.
pub open spec fn env_for(tool: Tool, base_url: Seq<char>, token: Seq<char>) -> Seq<
    (Seq<char>, Seq<char>),
> {
    let none = Seq::<(Seq<char>, Seq<char>)>::empty();
    match tool {
        Tool::Codex => crate::table::put(
            crate::table::put(none, "OPENAI_API_KEY"@, token),
            "OPENAI_BASE_URL"@,
            base_url,
        ),
        Tool::Claude => crate::table::put(
            crate::table::put(none, "ANTHROPIC_API_KEY"@, token),
            "ANTHROPIC_BASE_URL"@,
            base_url,
        ),
    }
}

pub fn tool_env(tool: Tool, base_url: &str, token: &str) -> (r: Table<String>)
    ensures
        r@ == env_for(tool, base_url@, token@),
{
    let mut envs: Table<String> = Table::new();
    match tool {
        Tool::Codex => {
            envs.insert("OPENAI_API_KEY", token.to_string());
            envs.insert("OPENAI_BASE_URL", base_url.to_string());
        },
        Tool::Claude => {
            envs.insert("ANTHROPIC_API_KEY", token.to_string());
            envs.insert("ANTHROPIC_BASE_URL", base_url.to_string());
        },
    }
    envs
}

/// The environment with the first `n` variables of the command line.
pub open spec fn with_pairs(
    envs: Seq<(Seq<char>, Seq<char>)>,
    pairs: Seq<Seq<char>>,
    n: nat,
) -> Result<Seq<(Seq<char>, Seq<char>)>, Seq<char>>
    decreases n,
{
    if n == 0 {
        Ok(envs)
    } else {
        match with_pairs(envs, pairs, (n - 1) as nat) {
            Err(e) => Err(e),
            Ok(rest) => match crate::text::cut(pairs[n - 1], "="@) {
                Some((k, v)) => Ok(crate::table::put(rest, k, v)),
                None => Err("--env expects KEY=VALUE, got `"@ + pairs[n - 1] + "`"@),
            },
        }
    }
}

proof fn lemma_pairs_fail(
    envs: Seq<(Seq<char>, Seq<char>)>,
    pairs: Seq<Seq<char>>,
    n: nat,
    m: nat,
)
    requires
        n <= m,
        with_pairs(envs, pairs, n) is Err,
    ensures
        with_pairs(envs, pairs, m) == with_pairs(envs, pairs, n),
    decreases m,
{
    if n < m {
        lemma_pairs_fail(envs, pairs, n, (m - 1) as nat);
    }
}

/// Puts the pairs `name=value` of the command line into an environment.
pub fn put_pairs(start: Table<String>, pairs: &Vec<String>) -> (r: Result<Table<String>, Fault>)
    ensures
        r.views() == with_pairs(start@, pairs.views(), pairs.views().len()),
{
    proof {
        reveal_strlit("=");
    }
    let ghost before = start@;
    let mut envs = start;
    for i in 0..pairs.len()
        invariant
            before == start@,
            "="@.len() > 0,
            with_pairs(before, pairs.views(), i as nat) == Ok::<_, Seq<char>>(envs@),
    {
        assert(pairs.views()[i as int] == pairs@[i as int]@);
        match crate::text::split_once(pairs[i].as_str(), "=") {
            Some((k, v)) => {
                envs.insert(k, v.to_string());
            },
            None => {
                proof {
                    lemma_pairs_fail(before, pairs.views(), (i + 1) as nat, pairs.views().len());
                }
                return Err(
                    Fault::about("--env expects KEY=VALUE, got `", pairs[i].as_str(), "`"),
                );
            },
        }
    }
    Ok(envs)
}

// ---------------------------------------------------------------- the arguments

/// A model's name with its context tag, unless it ends with a tag already.
pub open spec fn tagged(model: Seq<char>, tag: Option<Seq<char>>) -> Seq<char> {
    match tag {
        Some(t) => if crate::text::ends(model, "]"@) {
            model
        } else {
            model + "["@ + (t + "]"@)
        },
        None => model,
    }
}

pub fn maybe_context_model(model: &str, ctx: Option<&str>) -> (r: String)
    ensures
        r@ == tagged(model@, ctx.views()),
{
    match ctx {
        Some(t) => if crate::text::ends_with(model, "]") {
            model.to_string()
        } else {
            crate::text::cat3(model, "[", crate::text::cat(t, "]").as_str())
        },
        None => model.to_string(),
    }
}

/// A name gets a tag once: what is tagged stays as it is.
pub proof fn lemma_tagged_once(model: Seq<char>, tag: Seq<char>, other: Option<Seq<char>>)
    ensures
        tagged(tagged(model, Some(tag)), other) == tagged(model, Some(tag)),
{
    reveal_strlit("]");
    let t = tagged(model, Some(tag));
    if !crate::text::ends(model, "]"@) {
        assert(t.subrange(t.len() - 1, t.len() as int) =~= "]"@);
    }
}

/// The settings that make codex use an endpoint.
pub open spec fn provider_settings(base_url: Seq<char>) -> Seq<Seq<char>> {
    Seq::empty().push("--config"@).push("model_provider=\"aivo\""@).push("--config"@).push(
        "model_providers.aivo.name=\"aivo\""@,
    ).push("--config"@).push(
        "model_providers.aivo.base_url=\""@ + crate::text::replaced(base_url, '"', "\\\""@)
            + "\""@,
    ).push("--config"@).push("model_providers.aivo.env_key=\"AIVO_CODEX_API_KEY\""@)
}

/// The environment and arguments with the settings that make codex use an endpoint, unless the
/// arguments name a provider already. The token moves to a variable of its own.
pub open spec fn injected(
    envs: Seq<(Seq<char>, Seq<char>)>,
    args: Seq<Seq<char>>,
    base_url: Seq<char>,
) -> (Seq<(Seq<char>, Seq<char>)>, Seq<Seq<char>>) {
    if crate::models::mentions(args, "model_provider"@) {
        (envs, args)
    } else {
        match crate::table::lookup(envs, "OPENAI_API_KEY"@) {
            Some(token) => (
                crate::table::put(
                    crate::table::dropped(
                        crate::table::dropped(envs, "OPENAI_API_KEY"@),
                        "OPENAI_BASE_URL"@,
                    ),
                    "AIVO_CODEX_API_KEY"@,
                    token,
                ),
                args + provider_settings(base_url),
            ),
            None => (crate::table::dropped(envs, "OPENAI_API_KEY"@), args),
        }
    }
}

pub fn inject_codex_provider_config(
    envs: &mut Table<String>,
    args: &mut Vec<String>,
    base_url: &str,
)
    ensures
        (final(envs)@, final(args).views()) == injected(old(envs)@, old(args).views(), base_url@),
{
    if crate::text::any_contains(args, "model_provider") {
        return;
    }
    if let Some(token) = envs.remove("OPENAI_API_KEY") {
        let _ = envs.remove("OPENAI_BASE_URL");
        envs.insert("AIVO_CODEX_API_KEY", token);
        let mut more: Vec<String> = crate::views::none();
        crate::views::push(&mut more, "--config".to_string());
        crate::views::push(&mut more, "model_provider=\"aivo\"".to_string());
        crate::views::push(&mut more, "--config".to_string());
        crate::views::push(&mut more, "model_providers.aivo.name=\"aivo\"".to_string());
        crate::views::push(&mut more, "--config".to_string());
        crate::views::push(
            &mut more,
            crate::text::cat3(
                "model_providers.aivo.base_url=\"",
                crate::text::replace(base_url, '"', "\\\"").as_str(),
                "\"",
            ),
        );
        crate::views::push(&mut more, "--config".to_string());
        crate::views::push(
            &mut more,
            "model_providers.aivo.env_key=\"AIVO_CODEX_API_KEY\"".to_string(),
        );
        crate::views::extend(args, more);
    }
}

/// codex is told of the chosen model in a file, unless its own arguments name one.
pub open spec fn wants_catalog(tool: Tool, resolved: bool, tool_args: Seq<Seq<char>>) -> bool {
    tool == Tool::Codex && resolved && !crate::models::mentions(tool_args, "model_catalog_json"@)
}

pub fn needs_model_catalog(tool: Tool, resolved: bool, tool_args: &Vec<String>) -> (r: bool)
    ensures
        r == wants_catalog(tool, resolved, tool_args.views()),
{
    tool == Tool::Codex && resolved && !crate::models::has_model_catalog_config(tool_args)
}

/// What is started: the arguments and the environment.
#[derive(Debug)]
pub struct LaunchCommand {
    pub args: Vec<String>,
    pub envs: Table<String>,
}

pub struct LaunchCommandV {
    pub args: Seq<Seq<char>>,
    pub envs: Seq<(Seq<char>, Seq<char>)>,
}

impl View for LaunchCommand {
    type V = LaunchCommandV;

    open spec fn view(&self) -> LaunchCommandV {
        LaunchCommandV { args: self.args.views(), envs: self.envs@ }
    }
}

/// The arguments that name the model and the file that describes it.
pub open spec fn model_args(
    tool: Tool,
    args: LaunchArgsV,
    resolved: Option<ResolvedModelV>,
    catalog_path: Seq<char>,
) -> Seq<Seq<char>> {
    let named = if tool == Tool::Codex && args.model is Some {
        Seq::empty().push("-m"@).push(args.model->0)
    } else {
        Seq::empty()
    };
    if wants_catalog(tool, resolved is Some, args.tool_args) {
        named.push("--config"@).push(
            "model_catalog_json=\""@ + crate::text::replaced(catalog_path, '"', "\\\""@) + "\""@,
        )
    } else {
        named
    }
}

/// The environment: what tells the tool its endpoint, then the variables of the command line, then
/// the model where the tool takes it from there.
pub open spec fn launch_envs(
    tool: Tool,
    args: LaunchArgsV,
    resolved: Option<ResolvedModelV>,
    base_url: Seq<char>,
    token: Seq<char>,
) -> Result<Seq<(Seq<char>, Seq<char>)>, Seq<char>> {
    match with_pairs(env_for(tool, base_url, token), args.envs, args.envs.len()) {
        Err(e) => Err(e),
        Ok(envs) => if tool == Tool::Claude && args.model is Some {
            Ok(
                crate::table::put(
                    envs,
                    "ANTHROPIC_MODEL"@,
                    tagged(
                        args.model->0,
                        match resolved {
                            Some(m) => crate::models::context_tag(m.context_window),
                            None => None,
                        },
                    ),
                ),
            )
        } else {
            Ok(envs)
        },
    }
}

/// The arguments with the size of the model's context, where it is known and not set already.
pub open spec fn with_window(
    own: Seq<Seq<char>>,
    tool_args: Seq<Seq<char>>,
    resolved: Option<ResolvedModelV>,
) -> Seq<Seq<char>> {
    if resolved is Some && (resolved->0).context_window is Some && !crate::models::mentions(
        own,
        "model_context_window"@,
    ) && !crate::models::mentions(tool_args, "model_context_window"@) {
        own.push("--config"@).push(
            "model_context_window="@ + crate::text::decimal(
                (resolved->0).context_window->0 as nat,
            ),
        )
    } else {
        own
    }
}

/// What is started. The tool's own arguments come last, as they were given.
pub open spec fn command_for(
    tool: Tool,
    args: LaunchArgsV,
    resolved: Option<ResolvedModelV>,
    base_url: Seq<char>,
    token: Seq<char>,
    catalog_path: Seq<char>,
) -> Result<LaunchCommandV, Seq<char>> {
    match launch_envs(tool, args, resolved, base_url, token) {
        Err(e) => Err(e),
        Ok(envs) => {
            let own = model_args(tool, args, resolved, catalog_path);
            if tool == Tool::Codex {
                let (envs, own) = injected(envs, own, base_url);
                Ok(
                    LaunchCommandV {
                        args: with_window(own, args.tool_args, resolved) + args.tool_args,
                        envs,
                    },
                )
            } else {
                Ok(LaunchCommandV { args: own + args.tool_args, envs })
            }
        },
    }
}

/// Puts together what is started. `catalog_path` is where the model's description stands.
pub fn launch_command(
    tool: Tool,
    args: &LaunchArgs,
    resolved: &Option<ResolvedModel>,
    base_url: &str,
    token: &str,
    catalog_path: &str,
) -> (r: Result<LaunchCommand, Fault>)
    ensures
        r.views() == command_for(
            tool,
            args@,
            resolved.views(),
            base_url@,
            token@,
            catalog_path@,
        ),
{
    let mut envs = match put_pairs(tool_env(tool, base_url, token), &args.envs) {
        Ok(envs) => envs,
        Err(e) => {
            return Err(e);
        },
    };
    let mut own: Vec<String> = crate::views::none();
    if let Some(model) = &args.model {
        match tool {
            Tool::Codex => {
                crate::views::push(&mut own, "-m".to_string());
                crate::views::push(&mut own, model.clone());
            },
            Tool::Claude => {
                let tag = match resolved {
                    Some(m) => crate::models::context_tag_for_window(m.context_window),
                    None => None,
                };
                let name = match &tag {
                    Some(t) => maybe_context_model(model.as_str(), Some(t.as_str())),
                    None => maybe_context_model(model.as_str(), None),
                };
                envs.insert("ANTHROPIC_MODEL", name);
            },
        }
    }
    if needs_model_catalog(tool, resolved.is_some(), &args.tool_args) {
        crate::views::push(&mut own, "--config".to_string());
        crate::views::push(
            &mut own,
            crate::text::cat3(
                "model_catalog_json=\"",
                crate::text::replace(catalog_path, '"', "\\\"").as_str(),
                "\"",
            ),
        );
    }
    if tool == Tool::Codex {
        inject_codex_provider_config(&mut envs, &mut own, base_url);
        if let Some(m) = resolved {
            if let Some(n) = m.context_window {
                if !crate::models::has_model_context_window_config(&own)
                    && !crate::models::has_model_context_window_config(&args.tool_args) {
                    crate::views::push(&mut own, "--config".to_string());
                    crate::views::push(
                        &mut own,
                        crate::text::cat(
                            "model_context_window=",
                            crate::text::decimal_text(n).as_str(),
                        ),
                    );
                }
            }
        }
    }
    let more = crate::text::clone_all(&args.tool_args);
    crate::views::extend(&mut own, more);
    Ok(LaunchCommand { args: own, envs })
}

/// The tool's own arguments come last, unchanged.
pub proof fn lemma_args_pass_through(
    tool: Tool,
    args: LaunchArgsV,
    resolved: Option<ResolvedModelV>,
    base_url: Seq<char>,
    token: Seq<char>,
    catalog_path: Seq<char>,
)
    ensures
        command_for(tool, args, resolved, base_url, token, catalog_path) matches Ok(c)
            ==> c.args.len() >= args.tool_args.len() && c.args.skip(
            c.args.len() - args.tool_args.len(),
        ) == args.tool_args,
{
    if let Ok(c) = command_for(tool, args, resolved, base_url, token, catalog_path) {
        assert(c.args.skip(c.args.len() - args.tool_args.len()) =~= args.tool_args);
    }
}

/// A `KEY=VALUE` of the command line sets a variable.
pub open spec fn sets(pair: Seq<char>, k: Seq<char>) -> bool {
    match crate::text::cut(pair, "="@) {
        Some((name, _)) => name == k,
        None => false,
    }
}

proof fn lemma_pairs_keep(
    envs: Seq<(Seq<char>, Seq<char>)>,
    pairs: Seq<Seq<char>>,
    n: nat,
    k: Seq<char>,
)
    requires
        crate::table::once_each(envs),
        n <= pairs.len(),
    ensures
        with_pairs(envs, pairs, n) matches Ok(t) ==> crate::table::once_each(t) && ((forall|i: int|
            0 <= i < n ==> !sets(#[trigger] pairs[i], k)) ==> crate::table::lookup(t, k)
            == crate::table::lookup(envs, k)),
    decreases n,
{
    if n > 0 {
        lemma_pairs_keep(envs, pairs, (n - 1) as nat, k);
        if let Ok(rest) = with_pairs(envs, pairs, (n - 1) as nat) {
            if let Some((name, value)) = crate::text::cut(pairs[n - 1], "="@) {
                crate::table::lemma_put(rest, name, value, k);
            }
        }
    }
}

/// codex finds its token under a name of its own and no longer under the usual one, unless its
/// arguments name a provider or the command line sets the usual variable itself.
pub proof fn lemma_codex_token(
    args: LaunchArgsV,
    resolved: Option<ResolvedModelV>,
    base_url: Seq<char>,
    token: Seq<char>,
    catalog_path: Seq<char>,
)
    requires
        !crate::models::mentions(
            model_args(Tool::Codex, args, resolved, catalog_path),
            "model_provider"@,
        ),
        forall|i: int|
            0 <= i < args.envs.len() ==> !sets(#[trigger] args.envs[i], "OPENAI_API_KEY"@),
    ensures
        command_for(Tool::Codex, args, resolved, base_url, token, catalog_path) matches Ok(c) ==> {
            &&& crate::table::lookup(c.envs, "AIVO_CODEX_API_KEY"@) == Some(token)
            &&& crate::table::lookup(c.envs, "OPENAI_API_KEY"@) is None
            &&& crate::table::lookup(c.envs, "OPENAI_BASE_URL"@) is None
        },
{
    let k = "OPENAI_API_KEY"@;
    let u = "OPENAI_BASE_URL"@;
    let a = "AIVO_CODEX_API_KEY"@;
    reveal_strlit("OPENAI_API_KEY");
    reveal_strlit("OPENAI_BASE_URL");
    reveal_strlit("AIVO_CODEX_API_KEY");
    assert(k.len() == 14 && u.len() == 15 && a.len() == 18);
    let none = Seq::<(Seq<char>, Seq<char>)>::empty();
    let base = env_for(Tool::Codex, base_url, token);
    crate::table::lemma_put(none, k, token, k);
    crate::table::lemma_put(crate::table::put(none, k, token), u, base_url, k);
    lemma_pairs_keep(base, args.envs, args.envs.len(), k);
    if let Ok(envs) = with_pairs(base, args.envs, args.envs.len()) {
        let d = crate::table::dropped(envs, k);
        let e = crate::table::dropped(d, u);
        crate::table::lemma_dropped(envs, k, u);
        crate::table::lemma_dropped(d, u, k);
        crate::table::lemma_put(e, a, token, k);
        crate::table::lemma_put(e, a, token, u);
    }
}

// ---------------------------------------------------------------- a dry run

/// The text that `Debug` writes for a string.
pub uninterp spec fn quoted(s: Seq<char>) -> Seq<char>;

/// `{:?}` of a `str`: the text in quotes with its special characters escaped, a function of the
/// text alone.
#[verifier::external_body]
fn debug_text(s: &str) -> (r: String)
    ensures
        r@ == quoted(s@),
{
    format!("{:?}", s)
}

/// A character that needs no quotes.
pub open spec fn is_simple(c: char) -> bool {
    crate::text::is_alnum(c) || c == '-' || c == '_' || c == '.' || c == '/' || c == ':' || c == '='
        || c == '@'
}

/// An argument as it is shown: in quotes unless all its characters are simple.
pub open spec fn shown(s: Seq<char>) -> Seq<char> {
    if forall|i: int| 0 <= i < s.len() ==> is_simple(#[trigger] s[i]) {
        s
    } else {
        quoted(s)
    }
}

fn show(s: &str) -> (r: String)
    ensures
        r@ == shown(s@),
{
    let v = crate::text::chars_of(s);
    for i in 0..v.len()
        invariant
            v@ == s@,
            forall|j: int| 0 <= j < i ==> is_simple(#[trigger] s@[j]),
    {
        let c = v[i];
        if !(crate::text::alnum(c) || c == '-' || c == '_' || c == '.' || c == '/' || c == ':' || c
            == '=' || c == '@') {
            assert(!is_simple(s@[i as int]));
            return debug_text(s);
        }
    }
    s.to_string()
}

/// Arguments on one line.
pub fn shell_join(args: &Vec<String>) -> (r: String)
    ensures
        r@ == crate::text::join_of(
            Seq::new(args.views().len(), |i: int| shown(args.views()[i])),
            " "@,
        ),
{
    let mut parts: Vec<String> = Vec::new();
    for i in 0..args.len()
        invariant
            parts@.len() == i,
            forall|j: int| 0 <= j < i ==> (#[trigger] parts@[j])@ == shown(args.views()[j]),
    {
        assert(args.views()[i as int] == args@[i as int]@);
        parts.push(show(args[i].as_str()));
    }
    assert(parts.views() =~= Seq::new(args.views().len(), |i: int| shown(args.views()[i])));
    crate::text::join(&parts, " ")
}

/// What stands for a secret.
pub fn redact(value: &str) -> (r: String)
    ensures
        r@ == "***"@,
{
    let _ = value;
    "***".to_string()
}

/// A variable whose value is not shown.
pub open spec fn is_secret(name: Seq<char>) -> bool {
    crate::text::find_of(name, "KEY"@) is Some || crate::text::find_of(name, "TOKEN"@) is Some
}

/// The line of a variable.
pub open spec fn env_line(name: Seq<char>, value: Seq<char>) -> Seq<char> {
    "  "@ + name + ("="@ + if is_secret(name) {
        "***"@
    } else {
        value
    })
}

/// The line of the chosen model.
pub open spec fn model_line(m: ResolvedModelV) -> Seq<char> {
    "resolved_model: "@ + m.id + (" ("@ + m.name + (") context_window="@
        + match m.context_window {
        Some(n) => crate::text::decimal(n as nat),
        None => "unknown"@,
    }))
}

/// The lines that stand before the variables.
pub open spec fn head_lines(tool: Tool, c: LaunchCommandV, resolved: Option<ResolvedModelV>) -> Seq<
    Seq<char>,
> {
    let first = Seq::empty().push(
        "command: "@ + tool.command() + (" "@ + crate::text::join_of(
            Seq::new(c.args.len(), |i: int| shown(c.args[i])),
            " "@,
        )),
    );
    match resolved {
        Some(m) => first.push(model_line(m)).push("env:"@),
        None => first.push("env:"@),
    }
}

/// What a dry run prints: the command, the model and the variables in the order of their names,
/// without the values of secrets.
pub open spec fn dry_run_text(
    tool: Tool,
    c: LaunchCommandV,
    resolved: Option<ResolvedModelV>,
) -> Seq<Seq<char>> {
    let envs = crate::order::sorted::<Entry<String>>(c.envs);
    head_lines(tool, c, resolved) + Seq::new(
        envs.len(),
        |i: int| env_line(envs[i].0, envs[i].1),
    )
}

/// Tells what a dry run prints.
pub fn dry_run_lines(tool: Tool, command: LaunchCommand, resolved: &Option<ResolvedModel>) -> (r:
    Vec<String>)
    ensures
        r.views() == dry_run_text(tool, command@, resolved.views()),
{
    let mut lines: Vec<String> = crate::views::none();
    let joined = shell_join(&command.args);
    crate::views::push(
        &mut lines,
        crate::text::cat3(
            "command: ",
            tool.command_name(),
            crate::text::cat(" ", joined.as_str()).as_str(),
        ),
    );
    if let Some(m) = resolved {
        let size = match m.context_window {
            Some(n) => crate::text::decimal_text(n),
            None => "unknown".to_string(),
        };
        let tail = crate::text::cat3(
            " (",
            m.name.as_str(),
            crate::text::cat(") context_window=", size.as_str()).as_str(),
        );
        crate::views::push(
            &mut lines,
            crate::text::cat3("resolved_model: ", m.id.as_str(), tail.as_str()),
        );
    }
    crate::views::push(&mut lines, "env:".to_string());
    let envs = crate::order::sort(command.envs.entries);
    let ghost sorted = crate::order::sorted::<Entry<String>>(command@.envs);
    let mut rest: Vec<String> = Vec::new();
    for i in 0..envs.len()
        invariant
            envs.views() == sorted,
            rest@.len() == i,
            forall|j: int|
                0 <= j < i ==> (#[trigger] rest@[j])@ == env_line(sorted[j].0, sorted[j].1),
    {
        assert(envs.views()[i as int] == envs@[i as int]@);
        let name = envs[i].key.as_str();
        let value = if crate::text::contains(name, "KEY") || crate::text::contains(name, "TOKEN") {
            redact(envs[i].value.as_str())
        } else {
            envs[i].value.clone()
        };
        rest.push(
            crate::text::cat3("  ", name, crate::text::cat("=", value.as_str()).as_str()),
        );
    }
    assert(rest.views() =~= Seq::new(
        sorted.len(),
        |i: int| env_line(sorted[i].0, sorted[i].1),
    ));
    crate::views::extend(&mut lines, rest);
    lines
}

/// Two environments with the same names, whose values differ at most where they are secret.
pub open spec fn alike(a: Seq<(Seq<char>, Seq<char>)>, b: Seq<(Seq<char>, Seq<char>)>) -> bool {
    &&& a.len() == b.len()
    &&& forall|i: int|
        0 <= i < a.len() ==> (#[trigger] a[i]).0 == (#[trigger] b[i]).0 && (is_secret(a[i].0)
            || a[i].1 == b[i].1)
}

proof fn lemma_spot_alike(
    a: Seq<(Seq<char>, Seq<char>)>,
    b: Seq<(Seq<char>, Seq<char>)>,
    k: Seq<char>,
    i: int,
)
    requires
        alike(a, b),
        0 <= i <= a.len(),
    ensures
        crate::order::spot::<Entry<String>>(a, k, i) == crate::order::spot::<Entry<String>>(
            b,
            k,
            i,
        ),
        i <= crate::order::spot::<Entry<String>>(a, k, i) <= a.len(),
    decreases a.len() - i,
{
    if i < a.len() {
        assert(a[i].0 == b[i].0);
        lemma_spot_alike(a, b, k, i + 1);
    }
}

proof fn lemma_sorted_alike(a: Seq<(Seq<char>, Seq<char>)>, b: Seq<(Seq<char>, Seq<char>)>)
    requires
        alike(a, b),
    ensures
        alike(crate::order::sorted::<Entry<String>>(a), crate::order::sorted::<Entry<String>>(b)),
    decreases a.len(),
{
    if a.len() > 0 {
        let c = a.subrange(1, a.len() as int);
        let d = b.subrange(1, b.len() as int);
        assert forall|i: int| 0 <= i < c.len() implies (#[trigger] c[i]).0 == (#[trigger] d[i]).0
            && (is_secret(c[i].0) || c[i].1 == d[i].1) by {
            assert(c[i] == a[i + 1] && d[i] == b[i + 1]);
        }
        lemma_sorted_alike(c, d);
        let p = crate::order::sorted::<Entry<String>>(c);
        let q = crate::order::sorted::<Entry<String>>(d);
        assert(a[0].0 == b[0].0);
        lemma_spot_alike(p, q, a[0].0, 0);
    }
}

/// What a dry run prints does not depend on secrets: two commands that differ in nothing but the
/// values of variables named for a key or a token are shown alike.
pub proof fn lemma_secrets_hidden(
    tool: Tool,
    c: LaunchCommandV,
    d: LaunchCommandV,
    resolved: Option<ResolvedModelV>,
)
    requires
        c.args == d.args,
        alike(c.envs, d.envs),
    ensures
        dry_run_text(tool, c, resolved) == dry_run_text(tool, d, resolved),
{
    lemma_sorted_alike(c.envs, d.envs);
    let a = crate::order::sorted::<Entry<String>>(c.envs);
    let b = crate::order::sorted::<Entry<String>>(d.envs);
    assert(Seq::new(a.len(), |i: int| env_line(a[i].0, a[i].1)) =~= Seq::new(
        b.len(),
        |i: int| env_line(b[i].0, b[i].1),
    )) by {
        assert forall|i: int| 0 <= i < a.len() implies env_line(
            (#[trigger] a[i]).0,
            a[i].1,
        ) == env_line(b[i].0, b[i].1) by {
            assert(a[i].0 == b[i].0);
        }
    }
}

} // verus!
