//! Laws of what is started.
use vstd::prelude::*;

use crate::cli::LaunchArgsV;
use crate::config::ApiKeyV;
use crate::copilot_proxy::ProxyMode;
use crate::launch::{LaunchCommandV, LaunchRouteV, RouterKind, Tool};
use crate::models::ResolvedModelV;
use crate::provider::WireProtocol;
use crate::table::Entry;

verus! {

// ---------------------------------------------------------------- the environment

/// Whether a pair of the command line gives a variable a value: it is the name, `=` and the value,
/// and the name holds no `=`.
pub open spec fn gives(pair: Seq<char>, name: Seq<char>, value: Seq<char>) -> bool {
    &&& pair == name + "="@ + value
    &&& forall|i: int| 0 <= i < name.len() ==> name[i] != '='
}

proof fn lemma_cut_pair(pair: Seq<char>, name: Seq<char>, value: Seq<char>)
    requires
        gives(pair, name, value),
    ensures
        crate::text::cut(pair, "="@) == Some((name, value)),
{
    reveal_strlit("=");
    crate::text::lemma_find_least(pair, "="@);
    let n = name.len() as int;
    assert(pair.subrange(n, n + 1) =~= "="@);
    assert(crate::text::occurs_at(pair, "="@, n));
    let i = crate::text::find_of(pair, "="@)->0;
    if i < n {
        assert(pair.subrange(i, i + 1)[0] == '=');
        assert(name[i] == '=');
    }
    assert(pair.subrange(0, n) =~= name);
    assert(pair.subrange(n + 1, pair.len() as int) =~= value);
}

proof fn lemma_pairs_set(
    envs: Seq<(Seq<char>, Seq<char>)>,
    pairs: Seq<Seq<char>>,
    n: nat,
    at: int,
    name: Seq<char>,
    value: Seq<char>,
)
    requires
        0 <= at < n <= pairs.len(),
        gives(pairs[at], name, value),
        forall|i: int| at < i < pairs.len() ==> !crate::launch::sets(#[trigger] pairs[i], name),
    ensures
        crate::launch::with_pairs(envs, pairs, n) matches Ok(t) ==> crate::table::lookup(t, name)
            == Some(value),
    decreases n,
{
    if let Ok(rest) = crate::launch::with_pairs(envs, pairs, (n - 1) as nat) {
        if n - 1 == at {
            lemma_cut_pair(pairs[at], name, value);
            crate::table::lemma_put(rest, name, value, name);
        } else {
            lemma_pairs_set(envs, pairs, (n - 1) as nat, at, name, value);
            assert(!crate::launch::sets(pairs[n - 1], name));
            if let Some((k, v)) = crate::text::cut(pairs[n - 1], "="@) {
                crate::table::lemma_put(rest, k, v, name);
            }
        }
    }
}

proof fn lemma_pairs_keep(
    envs: Seq<(Seq<char>, Seq<char>)>,
    pairs: Seq<Seq<char>>,
    n: nat,
    k: Seq<char>,
)
    requires
        n <= pairs.len(),
        forall|i: int| 0 <= i < pairs.len() ==> !crate::launch::sets(#[trigger] pairs[i], k),
    ensures
        crate::launch::with_pairs(envs, pairs, n) matches Ok(t) ==> crate::table::lookup(t, k)
            == crate::table::lookup(envs, k),
    decreases n,
{
    if n > 0 {
        lemma_pairs_keep(envs, pairs, (n - 1) as nat, k);
        if let Ok(rest) = crate::launch::with_pairs(envs, pairs, (n - 1) as nat) {
            assert(!crate::launch::sets(pairs[n - 1], k));
            if let Some((name, value)) = crate::text::cut(pairs[n - 1], "="@) {
                crate::table::lemma_put(rest, name, value, k);
            }
        }
    }
}

proof fn lemma_pairs_ok(envs: Seq<(Seq<char>, Seq<char>)>, pairs: Seq<Seq<char>>, n: nat)
    requires
        n <= pairs.len(),
    ensures
        crate::launch::with_pairs(envs, pairs, n) is Ok <==> forall|i: int|
            0 <= i < n ==> crate::text::find_of(#[trigger] pairs[i], "="@) is Some,
    decreases n,
{
    if n > 0 {
        lemma_pairs_ok(envs, pairs, (n - 1) as nat);
    }
}

/// What the tool that speaks the Messages protocol is told: the token as its key, the endpoint, and
/// the model with the size of its context; unless the command line sets these variables itself.
pub proof fn lemma_messages_tool_told(
    args: LaunchArgsV,
    resolved: Option<ResolvedModelV>,
    base_url: Seq<char>,
    token: Seq<char>,
    catalog_path: Seq<char>,
)
    ensures
        crate::launch::command_for(
            Tool::Claude,
            args,
            resolved,
            base_url,
            token,
            catalog_path,
        ) matches Ok(c) ==> {
            &&& (forall|i: int|
                0 <= i < args.envs.len() ==> !crate::launch::sets(
                    #[trigger] args.envs[i],
                    "ANTHROPIC_API_KEY"@,
                )) ==> crate::table::lookup(c.envs, "ANTHROPIC_API_KEY"@) == Some(token)
            &&& (forall|i: int|
                0 <= i < args.envs.len() ==> !crate::launch::sets(
                    #[trigger] args.envs[i],
                    "ANTHROPIC_BASE_URL"@,
                )) ==> crate::table::lookup(c.envs, "ANTHROPIC_BASE_URL"@) == Some(base_url)
            &&& args.model matches Some(m) ==> {
                let told = crate::table::lookup(c.envs, "ANTHROPIC_MODEL"@);
                let window: nat = match resolved {
                    Some(r) => match r.context_window {
                        Some(n) => n as nat,
                        None => 0,
                    },
                    None => 0,
                };
                &&& window < 1_000_000 || (m.len() > 0 && m.last() == ']') ==> told == Some(m)
                &&& 1_000_000 <= window < 2_000_000 && !(m.len() > 0 && m.last() == ']') ==> told
                    == Some(m + "[1m]"@)
                &&& 2_000_000 <= window && !(m.len() > 0 && m.last() == ']') ==> told == Some(
                    m + "[2m]"@,
                )
            }
            &&& c.args == args.tool_args
        },
{
    let k = "ANTHROPIC_API_KEY"@;
    let u = "ANTHROPIC_BASE_URL"@;
    let d = "ANTHROPIC_MODEL"@;
    reveal_strlit("ANTHROPIC_API_KEY");
    reveal_strlit("ANTHROPIC_BASE_URL");
    reveal_strlit("ANTHROPIC_MODEL");
    assert(k.len() == 17 && u.len() == 18 && d.len() == 15);
    let none = Seq::<(Seq<char>, Seq<char>)>::empty();
    let base = crate::launch::env_for(Tool::Claude, base_url, token);
    crate::table::lemma_put(none, k, token, k);
    crate::table::lemma_put(crate::table::put(none, k, token), u, base_url, k);
    crate::table::lemma_put(crate::table::put(none, k, token), u, base_url, u);
    if let Ok(c) = crate::launch::command_for(
        Tool::Claude,
        args,
        resolved,
        base_url,
        token,
        catalog_path,
    ) {
        let envs = crate::launch::with_pairs(base, args.envs, args.envs.len())->Ok_0;
        if forall|i: int| 0 <= i < args.envs.len() ==> !crate::launch::sets(
            #[trigger] args.envs[i],
            k,
        ) {
            lemma_pairs_keep(base, args.envs, args.envs.len(), k);
        }
        if forall|i: int| 0 <= i < args.envs.len() ==> !crate::launch::sets(
            #[trigger] args.envs[i],
            u,
        ) {
            lemma_pairs_keep(base, args.envs, args.envs.len(), u);
        }
        if let Some(m) = args.model {
            let told = crate::launch::tagged(
                m,
                match resolved {
                    Some(r) => crate::models::context_tag(r.context_window),
                    None => None,
                },
            );
            crate::table::lemma_put(envs, d, told, k);
            crate::table::lemma_put(envs, d, told, u);
            reveal_strlit("]");
            reveal_strlit("[");
            reveal_strlit("1m");
            reveal_strlit("2m");
            reveal_strlit("[1m]");
            reveal_strlit("[2m]");
            assert(m + "["@ + ("1m"@ + "]"@) =~= m + "[1m]"@);
            assert(m + "["@ + ("2m"@ + "]"@) =~= m + "[2m]"@);
            if m.len() > 0 {
                assert(m.subrange(m.len() - 1, m.len() as int)[0] == m.last());
                if m.last() == ']' {
                    assert(m.subrange(m.len() - 1, m.len() as int) =~= "]"@);
                }
            }
        }
        assert(Seq::<Seq<char>>::empty() + args.tool_args =~= args.tool_args);
    }
}

/// A variable of the command line reaches the tool with its value, the last one where a name stands
/// twice; it is an error exactly where a pair holds no `=`.
pub proof fn lemma_pairs_reach_the_tool(
    tool: Tool,
    args: LaunchArgsV,
    resolved: Option<ResolvedModelV>,
    base_url: Seq<char>,
    token: Seq<char>,
    catalog_path: Seq<char>,
    at: int,
    name: Seq<char>,
    value: Seq<char>,
)
    requires
        0 <= at < args.envs.len(),
        gives(args.envs[at], name, value),
        forall|i: int|
            at < i < args.envs.len() ==> !crate::launch::sets(#[trigger] args.envs[i], name),
        name != "ANTHROPIC_MODEL"@,
        tool == Tool::Codex ==> name != "OPENAI_API_KEY"@ && name != "OPENAI_BASE_URL"@ && name
            != "AIVO_CODEX_API_KEY"@,
    ensures
        ({
            let r = crate::launch::command_for(
                tool,
                args,
                resolved,
                base_url,
                token,
                catalog_path,
            );
            &&& r matches Ok(c) ==> crate::table::lookup(c.envs, name) == Some(value)
            &&& r is Ok <==> forall|i: int|
                0 <= i < args.envs.len() ==> crate::text::find_of(#[trigger] args.envs[i], "="@)
                    is Some
        }),
{
    let base = crate::launch::env_for(tool, base_url, token);
    lemma_pairs_ok(base, args.envs, args.envs.len());
    lemma_pairs_set(base, args.envs, args.envs.len(), at, name, value);
    if let Ok(envs) = crate::launch::with_pairs(base, args.envs, args.envs.len()) {
        lemma_once(tool, base_url, token, args.envs, args.envs.len());
        if tool == Tool::Claude && args.model is Some {
            let told = crate::launch::tagged(
                args.model->0,
                match resolved {
                    Some(r) => crate::models::context_tag(r.context_window),
                    None => None,
                },
            );
            crate::table::lemma_put(envs, "ANTHROPIC_MODEL"@, told, name);
        }
        if tool == Tool::Codex {
            let k = "OPENAI_API_KEY"@;
            let u = "OPENAI_BASE_URL"@;
            let a = "AIVO_CODEX_API_KEY"@;
            crate::table::lemma_dropped(envs, k, name);
            let d = crate::table::dropped(envs, k);
            crate::table::lemma_dropped(d, u, name);
            if let Some(t) = crate::table::lookup(envs, k) {
                crate::table::lemma_put(crate::table::dropped(d, u), a, t, name);
            }
        }
    }
}

proof fn lemma_once(
    tool: Tool,
    base_url: Seq<char>,
    token: Seq<char>,
    pairs: Seq<Seq<char>>,
    n: nat,
)
    requires
        n <= pairs.len(),
    ensures
        crate::launch::with_pairs(crate::launch::env_for(tool, base_url, token), pairs, n)
            matches Ok(t) ==> crate::table::once_each(t),
    decreases n,
{
    let none = Seq::<(Seq<char>, Seq<char>)>::empty();
    if n == 0 {
        let (k, u) = match tool {
            Tool::Codex => ("OPENAI_API_KEY"@, "OPENAI_BASE_URL"@),
            Tool::Claude => ("ANTHROPIC_API_KEY"@, "ANTHROPIC_BASE_URL"@),
        };
        crate::table::lemma_put(none, k, token, k);
        crate::table::lemma_put(crate::table::put(none, k, token), u, base_url, k);
    } else {
        lemma_once(tool, base_url, token, pairs, (n - 1) as nat);
        if let Ok(rest) = crate::launch::with_pairs(
            crate::launch::env_for(tool, base_url, token),
            pairs,
            (n - 1) as nat,
        ) {
            if let Some((k, v)) = crate::text::cut(pairs[n - 1], "="@) {
                crate::table::lemma_put(rest, k, v, k);
            }
        }
    }
}

// ---------------------------------------------------------------- the arguments of codex

/// Whether the arguments set something: the word for a setting, and behind it the setting.
pub open spec fn configures(args: Seq<Seq<char>>, setting: Seq<char>) -> bool {
    exists|i: int|
        0 <= i && i + 1 < args.len() && args[i] == "--config"@ && #[trigger] args[i + 1] == setting
}

proof fn lemma_configures_push(own: Seq<Seq<char>>, setting: Seq<char>, more: Seq<Seq<char>>)
    ensures
        configures(own.push("--config"@).push(setting) + more, setting),
{
    let a = own.push("--config"@).push(setting) + more;
    let i = own.len() as int;
    assert(a[i] == "--config"@ && a[i + 1] == setting);
}

proof fn lemma_configures_cat(a: Seq<Seq<char>>, b: Seq<Seq<char>>, setting: Seq<char>)
    requires
        configures(a, setting) || configures(b, setting),
    ensures
        configures(a + b, setting),
{
    let c = a + b;
    if configures(a, setting) {
        let i = choose|i: int|
            0 <= i && i + 1 < a.len() && a[i] == "--config"@ && #[trigger] a[i + 1] == setting;
        assert(c[i] == "--config"@ && c[i + 1] == setting);
    } else {
        let i = choose|i: int|
            0 <= i && i + 1 < b.len() && b[i] == "--config"@ && #[trigger] b[i + 1] == setting;
        assert(c[a.len() + i] == "--config"@);
        assert(c[(a.len() + i) + 1] == setting);
    }
}

/// What codex is told: the model that was asked for, before all else; the endpoint, and the
/// variable that holds the token; the file with the model's description, and the size of its
/// context; unless its own arguments say so.
pub proof fn lemma_codex_told(
    args: LaunchArgsV,
    resolved: Option<ResolvedModelV>,
    base_url: Seq<char>,
    token: Seq<char>,
    catalog_path: Seq<char>,
)
    requires
        !crate::models::mentions(
            crate::launch::model_args(Tool::Codex, args, resolved, catalog_path),
            "model_provider"@,
        ),
        forall|i: int|
            0 <= i < args.envs.len() ==> !crate::launch::sets(
                #[trigger] args.envs[i],
                "OPENAI_API_KEY"@,
            ),
    ensures
        crate::launch::command_for(
            Tool::Codex,
            args,
            resolved,
            base_url,
            token,
            catalog_path,
        ) matches Ok(c) ==> {
            &&& args.model matches Some(m) ==> c.args.len() >= 2 && c.args[0] == "-m"@ && c.args[1]
                == m
            &&& configures(c.args, "model_provider=\"aivo\""@)
            &&& configures(
                c.args,
                "model_providers.aivo.base_url=\""@ + crate::text::replaced(base_url, '"', "\\\""@)
                    + "\""@,
            )
            &&& configures(c.args, "model_providers.aivo.env_key=\"AIVO_CODEX_API_KEY\""@)
            &&& crate::table::lookup(c.envs, "AIVO_CODEX_API_KEY"@) == Some(token)
            &&& resolved is Some && !crate::models::mentions(args.tool_args, "model_catalog_json"@)
                ==> configures(
                c.args,
                "model_catalog_json=\""@ + crate::text::replaced(catalog_path, '"', "\\\""@)
                    + "\""@,
            )
            &&& (resolved matches Some(m) && m.context_window is Some)
                && !crate::models::mentions(args.tool_args, "model_context_window"@)
                && !crate::models::mentions(
                crate::launch::model_args(Tool::Codex, args, resolved, catalog_path)
                    + crate::launch::provider_settings(base_url),
                "model_context_window"@,
            ) ==> configures(
                c.args,
                "model_context_window="@ + crate::text::decimal(
                    (resolved->0).context_window->0 as nat,
                ),
            )
        },
{
    crate::launch::lemma_codex_token(args, resolved, base_url, token, catalog_path);
    let k = "OPENAI_API_KEY"@;
    let u = "OPENAI_BASE_URL"@;
    reveal_strlit("OPENAI_API_KEY");
    reveal_strlit("OPENAI_BASE_URL");
    assert(k.len() == 14 && u.len() == 15);
    let none = Seq::<(Seq<char>, Seq<char>)>::empty();
    let base = crate::launch::env_for(Tool::Codex, base_url, token);
    crate::table::lemma_put(none, k, token, k);
    crate::table::lemma_put(crate::table::put(none, k, token), u, base_url, k);
    lemma_pairs_keep(base, args.envs, args.envs.len(), k);
    if let Ok(c) = crate::launch::command_for(
        Tool::Codex,
        args,
        resolved,
        base_url,
        token,
        catalog_path,
    ) {
        let own = crate::launch::model_args(Tool::Codex, args, resolved, catalog_path);
        let more = crate::launch::provider_settings(base_url);
        let all = own + more;
        let wide = crate::launch::with_window(all, args.tool_args, resolved);
        assert(c.args == wide + args.tool_args);
        let url = "model_providers.aivo.base_url=\""@ + crate::text::replaced(
            base_url,
            '"',
            "\\\""@,
        ) + "\""@;
        assert(more[0] == "--config"@ && more[0int + 1] == "model_provider=\"aivo\""@);
        assert(more[4] == "--config"@ && more[4int + 1] == url);
        assert(more[6] == "--config"@ && more[6int + 1]
            == "model_providers.aivo.env_key=\"AIVO_CODEX_API_KEY\""@);
        lemma_wide(own, more, "model_provider=\"aivo\""@, args, resolved);
        lemma_wide(own, more, url, args, resolved);
        lemma_wide(
            own,
            more,
            "model_providers.aivo.env_key=\"AIVO_CODEX_API_KEY\""@,
            args,
            resolved,
        );
        if resolved is Some && !crate::models::mentions(args.tool_args, "model_catalog_json"@) {
            let named = if args.model is Some {
                Seq::empty().push("-m"@).push(args.model->0)
            } else {
                Seq::empty()
            };
            let setting = "model_catalog_json=\""@ + crate::text::replaced(
                catalog_path,
                '"',
                "\\\""@,
            ) + "\""@;
            lemma_configures_push(named, setting, Seq::empty());
            assert(named.push("--config"@).push(setting) + Seq::<Seq<char>>::empty()
                =~= named.push("--config"@).push(setting));
            lemma_wide(own, more, setting, args, resolved);
        }
        if (resolved matches Some(m) && m.context_window is Some) && !crate::models::mentions(
            args.tool_args,
            "model_context_window"@,
        ) && !crate::models::mentions(all, "model_context_window"@) {
            lemma_configures_push(
                all,
                "model_context_window="@ + crate::text::decimal(
                    (resolved->0).context_window->0 as nat,
                ),
                args.tool_args,
            );
        }
    }
}

proof fn lemma_wide(
    own: Seq<Seq<char>>,
    more: Seq<Seq<char>>,
    setting: Seq<char>,
    args: LaunchArgsV,
    resolved: Option<ResolvedModelV>,
)
    requires
        configures(own, setting) || configures(more, setting),
    ensures
        configures(
            crate::launch::with_window(own + more, args.tool_args, resolved) + args.tool_args,
            setting,
        ),
{
    lemma_configures_cat(own, more, setting);
    let all = own + more;
    let wide = crate::launch::with_window(all, args.tool_args, resolved);
    if wide != all {
        let tail = wide.skip(all.len() as int);
        assert(wide =~= all + tail);
        lemma_configures_cat(all, tail, setting);
    }
    lemma_configures_cat(wide, args.tool_args, setting);
}

// ---------------------------------------------------------------- the route

/// What stands between holds the credential of the key: the login where there is one to be kept
/// from the tool, else the secret. A tool that is connected directly gets the key's own secret, and
/// one behind a login gets none of it.
pub proof fn lemma_route_credentials(
    tool: Tool,
    key: ApiKeyV,
    wire: WireProtocol,
    dry_run: bool,
)
    ensures
        match crate::launch::route_for(tool, key, wire, dry_run) {
            Ok(LaunchRouteV::Proxy { refresh_token, .. }) => !dry_run && key.preset_alias == Some(
                "github-copilot"@,
            ) && key.oauth_token == Some(refresh_token),
            Ok(LaunchRouteV::Router { api_key, .. }) => !dry_run && tool == Tool::Codex && wire
                != WireProtocol::OpenaiResponses && (key.secret == Some(api_key) || (key.secret
                is None && key.oauth_token == Some(api_key))),
            Ok(LaunchRouteV::Direct) => key.preset_alias != Some("github-copilot"@) && (tool
                == Tool::Claude || wire == WireProtocol::OpenaiResponses),
            Ok(LaunchRouteV::Placeholder(_)) => dry_run,
            Err(_) => !dry_run && (key.oauth_token is None),
        },
        key.preset_alias != Some("github-copilot"@) ==> match crate::launch::token_for(key) {
            Ok(t) => key.secret == Some(t) || (key.secret is None && key.oauth_token == Some(t)),
            Err(_) => key.secret is None && key.oauth_token is None,
        },
        key.preset_alias == Some("github-copilot"@) ==> crate::launch::token_for(key) == Ok::<
            _,
            Seq<char>,
        >("github-copilot"@),
{
}

/// What stands between speaks the tool's protocol on one side and the provider's on the other: a
/// router stands before codex exactly where the provider does not speak the responses protocol.
pub proof fn lemma_route_speaks(tool: Tool, key: ApiKeyV, wire: WireProtocol)
    ensures
        match crate::launch::route_for(tool, key, wire, false) {
            Ok(LaunchRouteV::Proxy { mode, router, .. }) => {
                &&& tool == Tool::Claude ==> mode == ProxyMode::AnthropicMessages && router is None
                &&& tool == Tool::Codex && wire == WireProtocol::OpenaiResponses ==> mode
                    == ProxyMode::OpenaiResponses && router is None
                &&& tool == Tool::Codex && wire == WireProtocol::OpenaiCompletions ==> mode
                    == ProxyMode::OpenaiChat && router == Some(RouterKind::OpenaiChat)
                &&& tool == Tool::Codex && wire == WireProtocol::AnthropicMessages ==> mode
                    == ProxyMode::AnthropicMessages && router == Some(RouterKind::Anthropic)
            },
            Ok(LaunchRouteV::Router { kind, .. }) => (kind == RouterKind::Anthropic <==> wire
                == WireProtocol::AnthropicMessages),
            _ => true,
        },
{
}

/// The protocol of a launch is the model's where one was chosen, else the one written down for the
/// key, else the one that its preset or its provider speaks.
pub proof fn lemma_wire(model: Option<ResolvedModelV>, key: ApiKeyV)
    ensures
        model matches Some(m) ==> crate::launch::wire_for(model, key) == m.wire,
        model is None && key.wire is Some ==> crate::launch::wire_for(model, key) == key.wire->0,
        model is None && key.wire is None && key.preset_alias is None ==> (crate::launch::wire_for(
            model,
            key,
        ) == WireProtocol::AnthropicMessages <==> crate::provider::base_url_of(key.provider)
            == "https://api.anthropic.com/v1"@),
        model is None && key.wire is None ==> forall|i: int|
            0 <= i < crate::provider::presets().len() && key.preset_alias == Some(
                (#[trigger] crate::provider::presets()[i]).alias,
            ) ==> crate::launch::wire_for(model, key) == crate::provider::presets()[i].wire,
{
    reveal_strlit("https://api.anthropic.com/v1");
    reveal_strlit("https://api.openai.com/v1");
    assert("https://api.anthropic.com/v1"@.len() == 28);
    assert("https://api.openai.com/v1"@.len() == 25);
    assert forall|i: int|
        0 <= i < crate::provider::presets().len() && key.preset_alias == Some(
            (#[trigger] crate::provider::presets()[i]).alias,
        ) && model is None && key.wire is None implies crate::launch::wire_for(model, key)
        == crate::provider::presets()[i].wire by {
        crate::provider::lemma_presets_distinct(i);
    }
}

/// Every tool is started under its own name, and its name is taken for it.
pub proof fn lemma_tools_named(tool: Tool, s: Seq<char>)
    ensures
        crate::launch::tool_named(tool.command()) == Ok::<_, Seq<char>>(tool),
        Tool::Codex.command() == "codex"@,
        crate::launch::tool_named(s) == Ok::<_, Seq<char>>(Tool::Codex) ==> s == "codex"@,
        crate::launch::tool_named(crate::names::kebab(crate::names::claude_code())) is Ok,
{
    crate::names::lemma_claude();
    reveal_strlit("codex");
    assert("codex"@.len() == 5);
}

/// A tool goes with a key exactly where it can speak the protocol: codex always, the other with
/// the Messages protocol alone.
pub proof fn lemma_tool_goes_with(tool: Tool, key: ApiKeyV, wire: WireProtocol)
    ensures
        crate::launch::tool_fault(tool, key, wire) is None <==> (tool == Tool::Codex || wire
            == WireProtocol::AnthropicMessages),
{
}

// ---------------------------------------------------------------- a dry run

proof fn lemma_sorted_holds(a: Seq<(Seq<char>, Seq<char>)>, x: (Seq<char>, Seq<char>))
    ensures
        crate::order::sorted::<Entry<String>>(a).contains(x) <==> a.contains(x),
{
    broadcast use vstd::seq_lib::group_to_multiset_ensures;

    crate::order::lemma_sorted::<Entry<String>>(a);
    let s = crate::order::sorted::<Entry<String>>(a);
    assert(s.to_multiset().count(x) == a.to_multiset().count(x));
}

/// A dry run shows every variable of the environment: its value where it is no secret, and never
/// the value of a secret; behind them stand no other lines. The program comes first.
pub proof fn lemma_dry_run_shows(
    tool: Tool,
    c: LaunchCommandV,
    resolved: Option<ResolvedModelV>,
    name: Seq<char>,
    value: Seq<char>,
)
    requires
        c.envs.contains((name, value)),
    ensures
        ({
            let lines = crate::launch::dry_run_text(tool, c, resolved);
            let head: int = if resolved is Some {
                3
            } else {
                2
            };
            &&& lines.len() == head + c.envs.len()
            &&& crate::text::begins(lines[0], "command: "@ + tool.command())
            &&& exists|i: int|
                head <= i < lines.len() && #[trigger] lines[i] == "  "@ + name + ("="@ + if (
                crate::text::find_of(name, "KEY"@) is Some || crate::text::find_of(name, "TOKEN"@)
                    is Some) {
                    "***"@
                } else {
                    value
                })
            &&& resolved matches Some(m) ==> crate::text::begins(
                lines[1],
                "resolved_model: "@ + m.id,
            )
        }),
{
    let lines = crate::launch::dry_run_text(tool, c, resolved);
    let head: int = if resolved is Some {
        3
    } else {
        2
    };
    let envs = crate::order::sorted::<Entry<String>>(c.envs);
    crate::order::lemma_sorted::<Entry<String>>(c.envs);
    lemma_sorted_holds(c.envs, (name, value));
    let j = choose|j: int| 0 <= j < envs.len() && envs[j] == (name, value);
    assert(lines[head + j] == crate::launch::env_line(envs[j].0, envs[j].1));
    let a = "command: "@ + tool.command();
    assert(lines[0] == crate::launch::head_lines(tool, c, resolved)[0]);
    assert(lines[0].subrange(0, a.len() as int) =~= a);
    if let Some(m) = resolved {
        let b = "resolved_model: "@ + m.id;
        assert(lines[1] == crate::launch::model_line(m));
        assert(lines[1].subrange(0, b.len() as int) =~= b);
    }
}

} // verus!
