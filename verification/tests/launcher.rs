use swcli::cli::{
    find_dispatch_token, normalize_cli, split_args, Cli, Commands, DispatchToken, KeysArgs,
    ModelsArgs, ParsedCommand,
};
use swcli::config::{ApiKey, CacheEntry, Config, ModelsCache};
use swcli::copilot_proxy::{
    content_length, error_body, find_header_end, http_json, http_text, read_http_request,
    request_body, request_path, route_request, ProxyMode, ProxyRoute, ReadStep,
};
use swcli::github_copilot::{
    answered_models, api_domain, conversation_headers, conversation_headers_with_ids,
    conversation_metadata, endpoint_url, entitlement_base_url, exchanged_token, load_auth_entry,
    model_headers, normalize_domain, parse_models_response, random_request_id,
    resolve_access_token, resolve_base_url, AuthEntry, GithubCopilotModel, Known,
};
use swcli::json::Json;
use swcli::keys::{
    add_key, apply_choice, cat_key, choice_items, chosen_provider, credential_wanted, default_key,
    default_name, draft_key, edit_key, keys_action, keys_to_ping, list_json, list_lines, ping_json,
    ping_key, ping_line, preset_for, provider_choices, remove_key, should_prompt_for_key_add,
    store_edit, url_question, with_base_url, with_credential, with_name, Credential, KeysAction,
    UrlQuestion,
};
use swcli::launch::{
    dry_run_lines, effective_wire, inject_codex_provider_config, launch_command, launch_route,
    launch_token, local_base_url, maybe_context_model, redact, shell_join, tool_env,
    tool_supports_wire, validate_tool_provider, wire_needs_codex_router, LaunchRoute, RouterKind,
    Tool,
};
use swcli::models::{
    build_endpoint_url, cache_key, cached_models, catalog_picker_items, catalog_source,
    context_tag_for_window, copilot_listing, copilot_picker_items, has_model_catalog_config,
    has_model_context_window_config, infer_provider_kind, infer_wire_protocol, keep_models,
    listed_models, model_context_window, model_home, model_json, model_pick, models_dev_listing,
    models_listing, models_to_pick, models_url, parse_models_dev_catalog, picked_catalog_model,
    picked_copilot_model, probe_wire_protocol, resolve_github_copilot_model, resolve_model,
    resolve_models_dev_provider, resolved_model_from, search_catalog, search_copilot,
    search_models, CatalogSource, ModelHome, ModelPick, ProbeStep, ResolvedModel,
};
use swcli::order::{less, sort};
use swcli::names::{head_text, kebab_text, title_text};
use swcli::provider::{
    builtin_presets, default_base_url, default_wire_for_provider, resolve_builtin_preset,
    ProviderKind, WireProtocol,
};
use swcli::table::Table;

/// A name in snake case as it is written with hyphens.
fn kebab(name: &str) -> String {
    name.replace('_', "-")
}

/// The first word of a name in snake case.
fn head(name: &str) -> String {
    name.split('_').next().unwrap().to_string()
}

/// A text with hyphens in a name that it holds.
fn hyphened(text: &str, name: &str) -> String {
    text.replace(name, &kebab(name))
}

/// A name in snake case as it is written with blanks.
fn spaced(name: &str) -> String {
    name.replace('_', " ")
}

fn texts(items: &[&str]) -> Vec<String> {
    items.iter().map(|s| s.to_string()).collect()
}

fn json(text: &str) -> Json {
    Json::parse(text).unwrap()
}

fn key(name: &str) -> ApiKey {
    ApiKey {
        id: "id".to_string(),
        name: name.to_string(),
        base_url: "https://api.example.com/v1".to_string(),
        provider: ProviderKind::Openai,
        wire: Some(WireProtocol::OpenaiResponses),
        secret: Some("sk-test".to_string()),
        oauth_token: None,
        preset_alias: None,
        models_dev_provider_name: None,
        created_at: "2025-01-01T00:00:00Z".to_string(),
    }
}

fn launch_line(tool: Option<&str>) -> Cli {
    Cli {
        key: None,
        model: None,
        dry_run: false,
        envs: Vec::new(),
        command: None,
        tool: tool.map(|s| s.to_string()),
        tool_args: Vec::new(),
    }
}

fn models_args() -> ModelsArgs {
    ModelsArgs { key: None, refresh: false, search: None, json: false }
}

fn keys_args(action: Option<&str>, args: &[&str]) -> KeysArgs {
    KeysArgs {
        action: action.map(|s| s.to_string()),
        args: texts(args),
        name: None,
        base_url: None,
        key: None,
        provider: None,
        wire: None,
        preset: None,
        refresh: false,
        oauth_token: None,
        all: false,
        ping: false,
        json: false,
    }
}

#[test]
fn builds_copilot_endpoint_urls_without_double_v1() {
    assert_eq!(
        endpoint_url("https://api.githubcopilot.com", "/responses"),
        "https://api.githubcopilot.com/responses"
    );
    assert_eq!(
        endpoint_url("http://127.0.0.1:1234/v1", "/v1/chat/completions"),
        "http://127.0.0.1:1234/v1/chat/completions"
    );
}

#[test]
fn parses_picker_models_and_promotes_messages_models_to_1m() {
    let models = parse_models_response(&json(&hyphened(
        &r#"{
        "data": [
            {
                "id": "claude_sonnet_4.6",
                "name": "Claude_Sonnet_4.6",
                "model_picker_enabled": true,
                "supported_endpoints": ["/chat/completions", "/v1/messages"],
                "capabilities": {
                    "type": "chat",
                    "limits": {
                        "max_context_window_tokens": 200000
                    },
                    "supports": {
                        "adaptive_thinking": true
                    }
                }
            },
            {
                "id": "gpt-4o",
                "name": "GPT-4o",
                "model_picker_enabled": true,
                "supported_endpoints": ["/chat/completions"],
                "capabilities": {
                    "type": "chat",
                    "limits": {
                        "max_context_window_tokens": 128000
                    },
                    "supports": {}
                }
            },
            {
                "id": "gpt-5.5",
                "name": "GPT-5.5",
                "model_picker_enabled": true,
                "supported_endpoints": ["/responses", "ws:/responses"],
                "capabilities": {
                    "type": "chat",
                    "limits": {
                        "max_context_window_tokens": 400000
                    },
                    "supports": {}
                }
            }
        ]
    }"#
        .replace("Claude_Sonnet_4.6", &spaced("Claude_Sonnet_4.6")),
        "claude_sonnet_4.6",
    )))
    .unwrap();

    assert_eq!(models.len(), 3);
    assert_eq!(models[0].wire, WireProtocol::AnthropicMessages);
    assert_eq!(models[0].context_window, Some(1_000_000));
    assert!(models[0].supports_reasoning);
    assert_eq!(models[1].wire, WireProtocol::OpenaiCompletions);
    assert_eq!(models[1].context_window, Some(128000));
    assert_eq!(models[2].wire, WireProtocol::OpenaiResponses);
    assert_eq!(models[2].context_window, Some(400000));
}

#[test]
fn parses_top_level_launch_and_passthrough_args() {
    let split =
        split_args(&texts(&["swcli", "-k", "minimax", "-m", "minimax-m2.7", "codex", "--auto"]));
    assert_eq!(split.own, texts(&["swcli", "-k", "minimax", "-m", "minimax-m2.7", "codex"]));
    let mut cli = launch_line(Some("codex"));
    cli.key = Some("minimax".to_string());
    cli.model = Some("minimax-m2.7".to_string());
    cli.tool_args = split.tool_args.unwrap();

    let ParsedCommand::Launch(args) = normalize_cli(cli).unwrap() else {
        panic!("expected launch command");
    };
    assert_eq!(args.key.as_deref(), Some("minimax"));
    assert_eq!(args.model.as_deref(), Some("minimax-m2.7"));
    assert_eq!(args.tool, "codex");
    assert_eq!(args.tool_args, vec!["--auto"]);
}

#[test]
fn parses_management_subcommand_without_launch_mode() {
    let split = split_args(&texts(&["swcli", "models", "--json"]));
    assert_eq!(split.own, texts(&["swcli", "models", "--json"]));
    assert!(split.tool_args.is_none());
    let mut cli = launch_line(None);
    cli.command = Some(Commands::Models(ModelsArgs { json: true, ..models_args() }));

    match normalize_cli(cli).unwrap() {
        ParsedCommand::Models(args) => assert!(args.json),
        _ => panic!("expected models command"),
    }
}

#[test]
fn rejects_launch_flags_for_management_subcommands() {
    let split = split_args(&texts(&["swcli", "-k", "minimax", "models"]));
    assert_eq!(split.own, texts(&["swcli", "-k", "minimax", "models"]));
    let mut cli = launch_line(None);
    cli.key = Some("minimax".to_string());
    cli.command = Some(Commands::Models(models_args()));
    assert!(normalize_cli(cli).is_err());
}

#[test]
fn passes_through_swcli_like_flags_after_tool_name() {
    let split = split_args(&texts(&["swcli", "codex", "-k", "mimo"]));
    assert_eq!(split.own, texts(&["swcli", "codex"]));
    let mut cli = launch_line(Some("codex"));
    cli.tool_args = split.tool_args.unwrap();
    let ParsedCommand::Launch(args) = normalize_cli(cli).unwrap() else {
        panic!("expected launch command");
    };
    assert_eq!(args.tool, "codex");
    assert_eq!(args.tool_args, vec!["-k", "mimo"]);
}

#[test]
fn appends_claude_context_suffix_once() {
    let model = kebab("claude_sonnet_4_5");
    let tagged = kebab("claude_sonnet_4_5[1m]");
    assert_eq!(maybe_context_model(&model, Some("1m")), tagged);
    assert_eq!(maybe_context_model(&tagged, Some("2m")), tagged);
}

#[test]
fn builds_models_url_without_double_v1() {
    assert_eq!(models_url(&key("name")), "https://api.example.com/v1/models");
    let mut other = key("name");
    other.base_url = "https://api.example.com/".to_string();
    assert_eq!(models_url(&other), "https://api.example.com/v1/models");
}

#[test]
fn resolves_builtin_minimax_to_exact_models_dev_name() {
    let preset = resolve_builtin_preset("minimax-cn").unwrap();
    assert_eq!(preset.models_dev_provider_name, Some("MiniMax (minimaxi.com)"));
    assert_eq!(preset.endpoint, "https://api.minimaxi.com/anthropic/v1");
}

#[test]
fn resolves_builtin_xiaomi_token_plan_china() {
    let preset = resolve_builtin_preset("xiaomi-token-plan-cn").unwrap();
    assert_eq!(preset.models_dev_provider_name, Some("Xiaomi Token Plan (China)"));
    assert_eq!(preset.endpoint, "https://token-plan-cn.xiaomimimo.com/v1");
}

#[test]
fn resolves_builtin_github_copilot_preset() {
    let preset = resolve_builtin_preset("github-copilot").unwrap();
    assert_eq!(preset.models_dev_provider_name, None);
    assert_eq!(preset.endpoint, "https://api.githubcopilot.com");
}

#[test]
fn parses_models_dev_catalog_and_matches_exact_provider_name() {
    let catalog = parse_models_dev_catalog(
        &json(
            r#"{
        "minimax-cn": {
            "name": "MiniMax (minimaxi.com)",
            "npm": "@ai-sdk/anthropic",
            "api": "https://api.minimaxi.com/anthropic/v1",
            "env": ["MINIMAX_API_KEY"],
            "models": {
                "MiniMax-M2.7": {
                    "name": "MiniMax M2.7",
                    "reasoning": true,
                    "tool_call": true,
                    "limit": { "context": 1000000, "output": 131072 },
                    "cost": { "input": 0.3, "output": 1.2 }
                }
            }
        }
    }"#,
        ),
        7,
    )
    .unwrap();
    assert_eq!(catalog.fetched_at, 7);

    let provider = resolve_models_dev_provider(&catalog, "MiniMax (minimaxi.com)").unwrap();
    assert_eq!(provider.id, "minimax-cn");
    assert_eq!(infer_provider_kind(provider), Some(ProviderKind::Anthropic));
    let model = provider.models.get("MiniMax-M2.7").unwrap();
    assert_eq!(model.id, "MiniMax-M2.7");
    assert_eq!(model.name, "MiniMax M2.7");
    assert_eq!(model.extra.get_bool("reasoning"), Some(true));
    assert!(resolved_model_from(model, WireProtocol::AnthropicMessages).supports_reasoning);
    assert_eq!(provider.env, texts(&["MINIMAX_API_KEY"]));
    assert!(model.extra.get("name").is_none());
}

#[test]
fn resolves_model_by_exact_and_casefolded_id_or_name() {
    let catalog = parse_models_dev_catalog(
        &json(
            r#"{
        "minimax-cn": {
            "name": "MiniMax (minimaxi.com)",
            "models": {
                "MiniMax-M2.7": {
                    "name": "MiniMax M2.7",
                    "limit": { "context": 204800 }
                }
            }
        }
    }"#,
        ),
        0,
    )
    .unwrap();
    let provider = resolve_models_dev_provider(&catalog, "MiniMax (minimaxi.com)").unwrap();

    assert_eq!(resolve_model(provider, "MiniMax-M2.7").unwrap().id, "MiniMax-M2.7");
    assert_eq!(resolve_model(provider, "minimax-m2.7").unwrap().id, "MiniMax-M2.7");
    assert_eq!(resolve_model(provider, "MiniMax M2.7").unwrap().id, "MiniMax-M2.7");
    assert!(!resolve_model(provider, "MiniMax M2.7").unwrap().supports_reasoning);
    assert!(resolve_model(provider, "MiniMax-M2").is_err());
    let found = resolve_model(provider, "MiniMax-M2.7").unwrap();
    assert_eq!(found.context_window, Some(204800));
    assert_eq!(found.wire, WireProtocol::OpenaiResponses);
    assert_eq!(
        resolve_model(provider, "MiniMax-M2").unwrap_err().to_string(),
        "Model `MiniMax-M2` was not found in models.dev provider `MiniMax (minimaxi.com)`."
    );
    assert_eq!(
        resolve_models_dev_provider(&catalog, "nobody").unwrap_err().to_string(),
        "models.dev provider named `nobody` was not found. Run with --refresh after the catalog updates."
    );
}

#[test]
fn derives_context_tags_from_models_dev_limit() {
    assert_eq!(context_tag_for_window(Some(999_999)), None);
    assert_eq!(context_tag_for_window(Some(1_000_000)).as_deref(), Some("1m"));
    assert_eq!(context_tag_for_window(Some(2_000_000)).as_deref(), Some("2m"));
    assert_eq!(context_tag_for_window(None), None);
}

#[test]
fn detects_existing_codex_context_config() {
    assert!(has_model_context_window_config(&vec![
        "--config".to_string(),
        "model_context_window=204800".to_string()
    ]));
    assert!(!has_model_context_window_config(&vec![
        "--config".to_string(),
        "approval_policy=never".to_string()
    ]));
    assert!(has_model_catalog_config(&texts(&["model_catalog_json=\"x\""])));
    assert!(!has_model_catalog_config(&texts(&["model=x"])));
}

#[test]
fn validates_native_tool_provider_protocols() {
    assert!(tool_supports_wire(Tool::Codex, WireProtocol::OpenaiResponses));
    assert!(tool_supports_wire(Tool::Codex, WireProtocol::OpenaiCompletions));
    assert!(tool_supports_wire(Tool::Codex, WireProtocol::AnthropicMessages));
    assert!(!wire_needs_codex_router(WireProtocol::OpenaiResponses));
    assert!(wire_needs_codex_router(WireProtocol::OpenaiCompletions));
    assert!(wire_needs_codex_router(WireProtocol::AnthropicMessages));

    assert!(tool_supports_wire(Tool::Claude, WireProtocol::AnthropicMessages));
    assert!(!tool_supports_wire(Tool::Claude, WireProtocol::OpenaiResponses));
    assert!(!tool_supports_wire(Tool::Claude, WireProtocol::OpenaiCompletions));
}

// ---------------------------------------------------------------- the command line

#[test]
fn finds_the_word_that_decides() {
    let token = |args: &[&str]| find_dispatch_token(&texts(args));
    assert_eq!(token(&["swcli"]), None);
    assert_eq!(token(&["swcli", &kebab("claude_code")]), Some(DispatchToken::Tool(1)));
    assert_eq!(token(&["swcli", "--dry-run", &head("claude_code")]), Some(DispatchToken::Tool(2)));
    assert_eq!(token(&["swcli", "--env=A=1", "-x", "keys", "codex"]), Some(DispatchToken::Command));
    assert_eq!(token(&["swcli", "-k"]), None);
    assert_eq!(token(&["swcli", "-k", "codex"]), None);
    assert_eq!(token(&["swcli", "vim", "codex"]), None);
}

#[test]
fn refuses_what_does_not_go_with_a_command() {
    let err = normalize_cli(launch_line(None)).unwrap_err();
    assert_eq!(err.to_string(), "Missing tool. Use `swcli <tool> [args...]`.");
    let mut cli = launch_line(None);
    cli.dry_run = true;
    cli.command = Some(Commands::Keys(keys_args(None, &[])));
    assert_eq!(
        normalize_cli(cli).unwrap_err().to_string(),
        "Launch options `-k`, `-m`, `--dry-run`, and `--env` are only valid when launching a tool, not with `swcli keys ...`."
    );
    let mut cli = launch_line(Some("codex"));
    cli.command = Some(Commands::Models(models_args()));
    assert_eq!(
        normalize_cli(cli).unwrap_err().to_string(),
        "Unexpected launch arguments for `swcli models ...`."
    );
}

// ---------------------------------------------------------------- providers and keys

#[test]
fn names_presets_and_defaults() {
    let aliases: Vec<&str> = builtin_presets().iter().map(|p| p.alias).collect();
    assert_eq!(aliases, vec!["github-copilot", "minimax", "minimax-cn", "xiaomi-token-plan-cn"]);
    for preset in builtin_presets() {
        assert_eq!(resolve_builtin_preset(preset.alias).unwrap().endpoint, preset.endpoint);
    }
    assert_eq!(
        resolve_builtin_preset("nope").unwrap_err().to_string(),
        "Unknown builtin preset `nope`. Available presets: github-copilot, minimax, minimax-cn, xiaomi-token-plan-cn"
    );
    assert_eq!(default_base_url(ProviderKind::CodexOauth), "https://api.openai.com/v1");
    assert_eq!(default_base_url(ProviderKind::ClaudeOauth), "https://api.anthropic.com/v1");
    assert_eq!(default_wire_for_provider(ProviderKind::Openai), WireProtocol::OpenaiResponses);
    assert_eq!(default_wire_for_provider(ProviderKind::Anthropic), WireProtocol::AnthropicMessages);
    assert_eq!(ProviderKind::CodexOauth.to_string(), "codex-oauth");
    assert_eq!(WireProtocol::OpenaiCompletions.to_string(), "openai-completions");
}

fn stored() -> Config {
    let mut a = key("main");
    a.id = "aa11".to_string();
    let mut b = key("spare");
    b.id = "aa22".to_string();
    b.wire = None;
    b.preset_alias = Some("minimax".to_string());
    Config { keys: vec![a, b], active_key_id: Some("aa22".to_string()) }
}

#[test]
fn resolves_keys_by_id_name_or_beginning() {
    let config = stored();
    assert_eq!(config.resolve_key("aa11").unwrap().name, "main");
    assert_eq!(config.resolve_key("spare").unwrap().id, "aa22");
    assert_eq!(config.resolve_key("aa2").unwrap().id, "aa22");
    assert_eq!(
        config.resolve_key("aa").unwrap_err().to_string(),
        "Multiple keys match `aa`; use a longer id."
    );
    assert_eq!(config.resolve_key("zz").unwrap_err().to_string(), "No key matches `zz`.");
    assert_eq!(config.active_key().unwrap().name, "spare");
    assert_eq!(config.chosen_key(&Some("main".to_string())).unwrap().id, "aa11");
    assert_eq!(
        Config::default().active_key().unwrap_err().to_string(),
        "No default key. Run `swcli keys add ...` or `swcli keys default <name>`."
    );
}

#[test]
fn writes_protocols_down_once() {
    let mut config = stored();
    assert!(config.ensure_key_wires());
    assert_eq!(config.keys[0].wire, Some(WireProtocol::OpenaiResponses));
    assert_eq!(config.keys[1].wire, Some(WireProtocol::AnthropicMessages));
    assert!(!config.ensure_key_wires());
}

#[test]
fn tells_what_a_key_lacks() {
    let mut k = key("main");
    assert_eq!(k.plain_secret().unwrap(), "sk-test");
    assert_eq!(
        k.plain_oauth_token().unwrap_err().to_string(),
        format!(
            "Key `main` has no OAuth token."
        )
    );
    k.secret = None;
    assert_eq!(k.plain_secret().unwrap_err().to_string(), "Key `main` has no usable secret.");
    k.oauth_token = Some("tok".to_string());
    assert_eq!(k.plain_secret().unwrap(), "tok");
}

#[test]
fn makes_ids_of_hexadecimal_digits() {
    let id = swcli::config::random_id();
    assert_eq!(id.len(), 12);
    assert!(id.chars().all(|c| c.is_ascii_hexdigit()));
    let request = random_request_id();
    assert_eq!(request.len(), 32);
    assert_ne!(request, random_request_id());
    assert_eq!(swcli::text::hex(&vec![0, 10, 255]), "000aff");
}

#[test]
fn adds_chooses_and_removes_keys() {
    let mut config = Config::default();
    assert_eq!(add_key(&mut config, key("one")), "Added key one (id).");
    assert_eq!(config.active_key_id.as_deref(), Some("id"));
    let mut two = key("two");
    two.id = "xy".to_string();
    add_key(&mut config, two);
    assert_eq!(config.active_key_id.as_deref(), Some("id"));
    assert_eq!(
        default_key(&mut config, &keys_args(Some("default"), &["two"])).unwrap(),
        "Default key: two (xy)"
    );
    assert_eq!(
        default_key(&mut config, &keys_args(Some("default"), &[])).unwrap_err().to_string(),
        "Missing key id or name."
    );
    assert_eq!(
        remove_key(&mut config, &keys_args(Some("rm"), &["xy"])).unwrap(),
        "Removed key two (xy)."
    );
    assert_eq!(config.active_key_id.as_deref(), Some("id"));
    assert_eq!(config.keys.len(), 1);
    remove_key(&mut config, &keys_args(Some("rm"), &["one"])).unwrap();
    assert_eq!(config.active_key_id, None);
}

#[test]
fn edits_keys() {
    let mut config = stored();
    let mut args = keys_args(Some("edit"), &["main"]);
    args.name = Some("renamed".to_string());
    let edit = edit_key(&config, &args).unwrap();
    assert!(edit.probe.is_none());
    assert_eq!(store_edit(&mut config, edit.key), "Updated key renamed (aa11).");
    assert_eq!(config.keys[0].name, "renamed");
    assert_eq!(config.keys[0].secret.as_deref(), Some("sk-test"));
    args.base_url = Some("http://x".to_string());
    args.args = texts(&["aa11"]);
    let edit = edit_key(&config, &args).unwrap();
    assert_eq!(edit.probe.as_deref(), Some("sk-test"));
    assert_eq!(edit.key.base_url, "http://x");
    args.wire = Some(WireProtocol::AnthropicMessages);
    assert!(edit_key(&config, &args).unwrap().probe.is_none());
}

#[test]
fn tells_what_is_to_be_done() {
    assert_eq!(keys_action(&keys_args(None, &[])).unwrap(), KeysAction::List { with_ping: false });
    for (word, action) in [
        ("add", KeysAction::Add),
        ("default", KeysAction::Default),
        ("rm", KeysAction::Remove),
        ("remove", KeysAction::Remove),
        ("cat", KeysAction::Cat),
        ("show", KeysAction::Cat),
        ("edit", KeysAction::Edit),
        ("ping", KeysAction::Ping),
    ] {
        assert_eq!(keys_action(&keys_args(Some(word), &[])).unwrap(), action);
    }
    assert_eq!(
        keys_action(&keys_args(Some("x"), &[])).unwrap_err().to_string(),
        "Unknown keys action `x`."
    );
    let mut ping = keys_args(Some("add"), &[]);
    ping.ping = true;
    assert_eq!(keys_action(&ping).unwrap(), KeysAction::List { with_ping: true });
}

#[test]
fn asks_about_a_new_key() {
    assert!(should_prompt_for_key_add(&keys_args(Some("add"), &[])));
    assert!(!should_prompt_for_key_add(&keys_args(Some("add"), &["x"])));
    let choices = provider_choices();
    let items = choice_items(&choices);
    assert_eq!(items.len(), 6);
    assert_eq!(items[1].label, "minimax");
    assert_eq!(items[4].label, "custom-openai");
    assert_eq!(items[5].detail.as_deref(), Some("https://api.anthropic.com/v1"));
    assert_eq!(
        chosen_provider(&choices, None).unwrap_err().to_string(),
        "Key creation cancelled."
    );
    let custom = chosen_provider(&choices, Some(5)).unwrap();
    let args = apply_choice(keys_args(Some("add"), &[]), &custom);
    assert_eq!(default_name(&args).as_deref(), Some("anthropic"));
    match url_question(&args) {
        UrlQuestion::Ask(Some(url)) => assert_eq!(url, "https://api.anthropic.com/v1"),
        _ => panic!("expected a question"),
    }
    let args = with_name(args, String::new());
    assert_eq!(args.name, None);
    assert_eq!(
        with_base_url(keys_args(None, &[]), String::new()).unwrap_err().to_string(),
        "Base URL is required."
    );
    let args = with_base_url(args, "http://u".to_string()).unwrap();
    assert_eq!(credential_wanted(&args), Credential::ApiKey);
    assert_eq!(
        with_credential(keys_args(None, &[]), String::new()).unwrap_err().to_string(),
        "API key is required."
    );
    let args = with_credential(args, "sk".to_string()).unwrap();
    assert_eq!(args.key.as_deref(), Some("sk"));
    let mut oauth = keys_args(None, &[]);
    oauth.provider = Some(ProviderKind::CodexOauth);
    assert_eq!(credential_wanted(&oauth), Credential::OauthToken);
    assert_eq!(
        with_credential(oauth, String::new()).unwrap_err().to_string(),
        "OAuth token is required."
    );
    let builtin = chosen_provider(&choices, Some(0)).unwrap();
    let args = apply_choice(keys_args(Some("add"), &[]), &builtin);
    assert_eq!(default_name(&args).as_deref(), Some("github-copilot"));
    assert!(matches!(url_question(&args), UrlQuestion::Skip));
    assert_eq!(credential_wanted(&args), Credential::Login);
    assert_eq!(with_name(args, "mine".to_string()).name.as_deref(), Some("mine"));
}

#[test]
fn drafts_a_key() {
    let err = draft_key(keys_args(Some("add"), &[]), None, None).unwrap_err();
    assert_eq!(
        err.to_string(),
        "Missing key name. Use `swcli keys add <name> ...` or run `swcli keys add` interactively."
    );
    let plain = draft_key(keys_args(Some("add"), &["mine"]), None, None).unwrap();
    assert_eq!(plain.name, "mine");
    assert_eq!(plain.provider, ProviderKind::Openai);
    assert_eq!(plain.base_url, "https://api.openai.com/v1");
    assert_eq!(plain.wire, None);
    assert_eq!(
        plain.fault(true).unwrap().to_string(),
        "Missing credential. Pass --key/--oauth-token or run `swcli keys add` interactively."
    );
    let mut args = keys_args(Some("add"), &[]);
    args.preset = Some("github-copilot".to_string());
    let preset = preset_for(&args).unwrap();
    let mut draft = draft_key(args, preset, None).unwrap();
    assert!(draft.needs_login());
    assert!(draft.fault(true).is_none());
    assert_eq!(
        draft.fault(false).unwrap().to_string(),
        "Missing GitHub Copilot login. Run `swcli keys add github-copilot --preset github-copilot` interactively to complete device login."
    );
    assert_eq!(draft.token(), "");
    draft.set_login("gho".to_string());
    assert!(draft.fault(false).is_none());
    assert_eq!(draft.token(), "gho");
    assert_eq!(draft.wire, Some(WireProtocol::OpenaiCompletions));
    let made = draft.into_key(
        WireProtocol::OpenaiCompletions,
        "0011".to_string(),
        "2025-01-01T00:00:00Z".to_string(),
    );
    assert_eq!(made.id, "0011");
    assert_eq!(made.oauth_token.as_deref(), Some("gho"));
    assert_eq!(made.preset_alias.as_deref(), Some("github-copilot"));
    let mut unknown = keys_args(Some("add"), &[]);
    unknown.preset = Some("nope".to_string());
    assert!(preset_for(&unknown).is_err());
    let catalog = parse_models_dev_catalog(
        &json(r#"{"p":{"name":"P","npm":"@ai-sdk/openai-compatible"}}"#),
        0,
    )
    .unwrap();
    let provider = resolve_models_dev_provider(&catalog, "P").unwrap();
    let draft = draft_key(keys_args(Some("add"), &["n"]), None, Some(provider)).unwrap();
    assert_eq!(draft.wire, Some(WireProtocol::OpenaiCompletions));
    assert_eq!(draft.models_dev_provider_name.as_deref(), Some("P"));
}

#[test]
fn shows_keys_without_secrets() {
    let config = stored();
    let shown = cat_key(&config, &keys_args(Some("cat"), &["main"])).unwrap().to_text();
    assert_eq!(
        shown,
        r#"{"id":"aa11","name":"main","baseUrl":"https://api.example.com/v1","provider":"openai","wire":"openai-responses","presetAlias":null,"modelsDevProviderName":null,"active":false,"hasSecret":true,"hasOAuthToken":false,"createdAt":"2025-01-01T00:00:00Z"}"#
    );
    let active = cat_key(&config, &keys_args(Some("cat"), &[])).unwrap();
    assert_eq!(active.get_str("id"), Some("aa22"));
    let pings = vec![Some(ping_key(Ok(3))), Some(ping_key(Err("no".to_string())))];
    assert_eq!(
        list_lines(&config, &pings),
        texts(&[
            "  aa11         openai         openai-responses     main ok",
            "* aa22         openai         anthropic-messages   spare fail",
        ])
    );
    assert_eq!(list_lines(&Config::default(), &Vec::new()), texts(&["No keys configured."]));
    let rows = list_json(&config, &pings);
    let rows = rows.as_array().unwrap();
    assert_eq!(rows.len(), 2);
    assert_eq!(
        rows[0].get("ping").unwrap().to_text(),
        r#"{"ok":true,"message":"3 models"}"#
    );
    assert_eq!(
        ping_json(&config.keys[1], &ping_key(Err("no".to_string()))).to_text(),
        r#"{"id":"aa22","name":"spare","wire":"anthropic-messages","ok":false,"message":"no"}"#
    );
    assert_eq!(ping_line(&config.keys[0], &ping_key(Ok(3))), "ok   aa11         3 models");
    assert_eq!(keys_to_ping(&config, &keys_args(Some("ping"), &[])).unwrap().len(), 2);
    assert_eq!(keys_to_ping(&config, &keys_args(Some("ping"), &["main"])).unwrap().len(), 1);
    assert!(keys_to_ping(&config, &keys_args(Some("ping"), &["zz"])).is_err());
}

// ---------------------------------------------------------------- models

#[test]
fn lists_and_searches_models() {
    let body = json(r#"{"data":[{"id":"b"},{"x":1},{"id":"A-one"}]}"#);
    assert_eq!(listed_models(true, "200 OK", &body).unwrap(), texts(&["b", "A-one"]));
    assert_eq!(
        listed_models(true, "200 OK", &json("{}")).unwrap_err().to_string(),
        "models response did not contain data[]"
    );
    assert_eq!(
        listed_models(false, "401 Unauthorized", &json(r#"{"e":1}"#)).unwrap_err().to_string(),
        r#"models request failed with 401 Unauthorized: {"e":1}"#
    );
    let models = texts(&["gpt-b", "GPT-a", "cobra"]);
    assert_eq!(search_models(&models, &Some("Gpt".to_string())), texts(&["GPT-a", "gpt-b"]));
    assert_eq!(search_models(&models, &None), texts(&["GPT-a", "cobra", "gpt-b"]));
    assert_eq!(search_models(&texts(&["Ärger"]), &Some("ärg".to_string())), texts(&["Ärger"]));
    assert_eq!(
        models_listing(&key("k"), &texts(&["m"])).to_text(),
        r#"{"provider":"openai","baseUrl":"https://api.example.com/v1","models":["m"]}"#
    );
}

#[test]
fn keeps_models_for_an_hour() {
    let k = key("k");
    assert_eq!(cache_key(&k), "openai:https://api.example.com/v1");
    let mut cache = ModelsCache(Table::new());
    assert_eq!(cached_models(&cache, &k, false, 0), None);
    keep_models(&mut cache, &k, &texts(&["m"]), 1000);
    assert_eq!(cached_models(&cache, &k, false, 4599), Some(texts(&["m"])));
    assert_eq!(cached_models(&cache, &k, false, 4600), None);
    assert_eq!(cached_models(&cache, &k, true, 1000), None);
    assert_eq!(cached_models(&cache, &k, false, 10), Some(texts(&["m"])));
    cache.0.insert("other", CacheEntry { fetched_at: 0, models: Vec::new() });
    assert_eq!(cache.0.len(), 2);
}

#[test]
fn takes_the_catalog_from_where_it_is_fresh() {
    assert_eq!(catalog_source(true, Some(10), 10), CatalogSource::Fetched);
    assert_eq!(catalog_source(false, Some(10), 86409), CatalogSource::Kept);
    assert_eq!(catalog_source(false, Some(10), 86410), CatalogSource::Bundled);
    assert_eq!(catalog_source(false, None, 0), CatalogSource::Bundled);
}

#[test]
fn reads_the_catalog_strictly() {
    let fault = |text: &str| parse_models_dev_catalog(&json(text), 0).unwrap_err().to_string();
    assert_eq!(fault("[]"), "models.dev catalog root is not an object");
    assert_eq!(fault(r#"{"p":{}}"#), "Invalid models.dev provider `p`");
    assert_eq!(fault(r#"{"p":{"name":"P","id":null}}"#), "Invalid models.dev provider `p`");
    assert_eq!(fault(r#"{"p":{"name":"P","env":[1]}}"#), "Invalid models.dev provider `p`");
    assert_eq!(fault(r#"{"p":{"name":"P","models":{"m":{}}}}"#), "Invalid models.dev provider `p`");
    let catalog = parse_models_dev_catalog(
        &json(r#"{"z":{"name":"Z","npm":null},"a":["own","A"],"m":{"name":"M","models":{"y":{"name":"Y"},"x":{"id":"xx","name":"X"}}}}"#),
        0,
    )
    .unwrap();
    let ids: Vec<&str> = catalog.catalog.entries.iter().map(|e| e.value.id.as_str()).collect();
    assert_eq!(ids, vec!["own", "m", "z"]);
    let m = catalog.catalog.get("m").unwrap();
    let names: Vec<&str> = m.models.entries.iter().map(|e| e.value.id.as_str()).collect();
    assert_eq!(names, vec!["xx", "y"]);
    assert_eq!(infer_wire_protocol(m), None);
}

fn catalog_of(text: &str) -> swcli::config::ModelsDevCache {
    parse_models_dev_catalog(&json(text), 0).unwrap()
}

#[test]
fn reads_the_size_of_a_context() {
    let catalog = catalog_of(
        r#"{"p":{"name":"P","models":{
            "a":{"name":"A","limit":{"context":1000}},
            "b":{"name":"B","limit":{"context":2.5e3}},
            "c":{"name":"C","limit":{"context":"+42"}},
            "d":{"name":"D","limit":{"context":-1}},
            "e":{"name":"E","limit":{"context":"many"}},
            "f":{"name":"F"},
            "g":{"name":"G","limit":{"context":"99999999999999999999"}}}}}"#,
    );
    let p = resolve_models_dev_provider(&catalog, "P").unwrap();
    let window = |id: &str| model_context_window(p.models.get(id).unwrap());
    assert_eq!(window("a"), Some(1000));
    assert_eq!(window("b"), Some(2500));
    assert_eq!(window("c"), Some(42));
    assert_eq!(window("d"), Some(0));
    assert_eq!(window("e"), None);
    assert_eq!(window("f"), None);
    assert_eq!(window("g"), None);
}

#[test]
fn lists_and_offers_catalog_models() {
    let catalog = catalog_of(
        r#"{"p":{"name":"P","npm":"@ai-sdk/anthropic","models":{
            "k1":{"id":"z","name":"Big One","limit":{"context":1000000}},
            "k2":{"id":"b","name":"Small"}}}}"#,
    );
    let p = resolve_models_dev_provider(&catalog, "P").unwrap();
    let all = search_catalog(p, &None);
    assert_eq!(all.iter().map(|m| m.id.as_str()).collect::<Vec<_>>(), vec!["b", "z"]);
    let hits = search_catalog(p, &Some("big".to_string()));
    assert_eq!(hits.len(), 1);
    assert_eq!(
        model_json(&hits[0]).to_text(),
        r#"{"limit":{"context":1000000},"id":"z","name":"Big One"}"#
    );
    assert_eq!(
        models_dev_listing(&key("k"), p, &search_catalog(p, &Some("small".to_string()))).to_text(),
        r#"{"provider":"openai","baseUrl":"https://api.example.com/v1","modelsDevProviderName":"P","modelsDevProviderId":"p","models":[{"id":"b","name":"Small"}]}"#
    );
    let models = models_to_pick(p).unwrap();
    let items = catalog_picker_items(&models);
    assert_eq!(items[1].label, "z");
    assert_eq!(items[1].detail.as_deref(), Some("ctx=1000000"));
    assert_eq!(items[0].detail, None);
    let picked = picked_catalog_model(p, &models, Some(1)).unwrap();
    assert_eq!(picked.id, "z");
    assert_eq!(picked.wire, WireProtocol::AnthropicMessages);
    assert_eq!(
        picked_catalog_model(p, &models, None).unwrap_err().to_string(),
        "Model selection cancelled."
    );
    let empty = catalog_of(r#"{"p":{"name":"P"}}"#);
    let p = resolve_models_dev_provider(&empty, "P").unwrap();
    assert_eq!(
        models_to_pick(p).unwrap_err().to_string(),
        "models.dev provider `P` has no models."
    );
}

fn copilot_models() -> Vec<GithubCopilotModel> {
    parse_models_response(&json(
        r#"{"data":[
            {"id":"Zed","name":"Zed Model","capabilities":{"type":"chat","supports":{"reasoning_effort":["low"]}}},
            {"id":"alpha","capabilities":{"type":"chat","limits":{"max_context_window_tokens":5}}},
            {"id":"embed","capabilities":{"type":"embeddings"}},
            {"id":"hidden","model_picker_enabled":false,"capabilities":{"type":"chat"}},
            {"id":"none"}]}"#,
    ))
    .unwrap()
}

#[test]
fn offers_copilot_models() {
    let models = copilot_models();
    assert_eq!(models.iter().map(|m| m.id.as_str()).collect::<Vec<_>>(), vec!["Zed", "alpha"]);
    assert!(models[0].supports_reasoning);
    assert_eq!(models[1].name, "alpha");
    assert!(!models[1].supports_reasoning);
    assert_eq!(resolve_github_copilot_model(&models, "zed model").unwrap().id, "Zed");
    assert_eq!(
        resolve_github_copilot_model(&models, "x").unwrap_err().to_string(),
        "Model `x` was not found in builtin provider `github-copilot`."
    );
    assert_eq!(search_copilot(&models, &Some("MODEL".to_string())).len(), 1);
    assert_eq!(search_copilot(&models, &None).len(), 2);
    assert_eq!(
        copilot_listing(&key("k"), &search_copilot(&models, &Some("alpha".to_string()))).to_text(),
        r#"{"provider":"openai","baseUrl":"https://api.example.com/v1","models":[{"id":"alpha","name":"alpha","wire":"openai-completions","contextWindow":5,"supportsReasoning":false}]}"#
    );
    let items = copilot_picker_items(&models).unwrap();
    assert_eq!(items[1].detail.as_deref(), Some("ctx=5"));
    assert_eq!(picked_copilot_model(&models, Some(1)).unwrap().id, "alpha");
    assert!(picked_copilot_model(&models, None).is_err());
    assert_eq!(
        copilot_picker_items(&Vec::new()).unwrap_err().to_string(),
        "github-copilot did not return any models."
    );
    assert_eq!(
        parse_models_response(&json(r#"{"data":[{}]}"#)).unwrap_err().to_string(),
        "Invalid GitHub Copilot models response"
    );
    assert!(parse_models_response(&json("null")).is_err());
    assert!(parse_models_response(&json("{}")).unwrap().is_empty());
    assert_eq!(
        answered_models(false, "403 Forbidden", &json("null")).unwrap_err().to_string(),
        "GitHub Copilot models request failed with 403 Forbidden: null"
    );
}

#[test]
fn chooses_a_model_for_a_launch() {
    let mut k = key("k");
    assert!(matches!(model_home(&k), ModelHome::Unknown));
    k.models_dev_provider_name = Some("P".to_string());
    match model_home(&k) {
        ModelHome::Catalog(name) => assert_eq!(name, "P"),
        _ => panic!("expected the catalog"),
    }
    k.preset_alias = Some("github-copilot".to_string());
    assert!(matches!(model_home(&k), ModelHome::Copilot));
    assert!(matches!(model_pick("P", &None, true), Ok(ModelPick::Ask)));
    match model_pick("P", &Some("m".to_string()), false).unwrap() {
        ModelPick::Named(m) => assert_eq!(m, "m"),
        _ => panic!("expected a name"),
    }
    assert_eq!(
        model_pick("P", &None, false).unwrap_err().to_string(),
        "No model selected for builtin provider `P`. Pass `-m <model>` when stdin is not interactive."
    );
}

#[test]
fn tries_the_protocols_in_order() {
    match probe_wire_protocol("http://x/v1", &vec![]) {
        ProbeStep::Post { url, body } => {
            assert_eq!(url, "http://x/v1/responses");
            assert_eq!(
                body.to_text(),
                r#"{"model":"swcli-probe","input":"ping","max_output_tokens":1,"stream":false}"#
            );
        }
        _ => panic!("expected a request"),
    }
    match probe_wire_protocol("http://x", &vec![Some(404)]) {
        ProbeStep::Post { url, body } => {
            assert_eq!(url, "http://x/v1/chat/completions");
            assert_eq!(
                body.to_text(),
                r#"{"model":"swcli-probe","messages":[{"role":"user","content":"ping"}],"max_tokens":1,"stream":false}"#
            );
        }
        _ => panic!("expected a request"),
    }
    match probe_wire_protocol("http://x", &vec![Some(404), None]) {
        ProbeStep::Post { url, .. } => assert_eq!(url, "http://x/v1/messages"),
        _ => panic!("expected a request"),
    }
    match probe_wire_protocol("http://x", &vec![None, Some(401)]) {
        ProbeStep::Done(wire) => assert_eq!(wire, WireProtocol::OpenaiCompletions),
        _ => panic!("expected a protocol"),
    }
    match probe_wire_protocol("http://x", &vec![None, Some(404), Some(404)]) {
        ProbeStep::Failed(e) => assert_eq!(
            e.to_string(),
            "Could not determine wire protocol for `http://x` by probing endpoints."
        ),
        _ => panic!("expected a failure"),
    }
    assert_eq!(build_endpoint_url("http://x//", "//v1/a"), "http://x/v1/a");
    assert_eq!(build_endpoint_url("http://x/v1/", "/v1/v1/a"), "http://x/v1/a");
}

#[test]
fn sorts_texts() {
    assert!(less("a", "ab") && less("B", "a") && !less("a", "a") && less("a", "ä"));
    assert_eq!(sort(texts(&["b", "", "a", "b"])), texts(&["", "a", "b", "b"]));
}

// ---------------------------------------------------------------- GitHub Copilot

#[test]
fn reads_logins() {
    let path = "/a/auth.json";
    let text = r#"{"github-copilot":{"type":"oauth","refresh":"r","access":"a","expires":1000000},"k":{"type":"api","refresh":"r"},"bad":{"type":"oauth"}}"#;
    let info = load_auth_entry(text, path, "github-copilot").unwrap();
    assert_eq!(info.refresh, "r");
    match resolve_access_token(&info, 699_999) {
        Known::Value(token) => assert_eq!(token, "a"),
        _ => panic!("expected the token"),
    }
    match resolve_access_token(&info, 700_000) {
        Known::Ask(url) => assert_eq!(url, "https://api.github.com/copilot_internal/v2/token"),
        _ => panic!("expected a request"),
    }
    match resolve_base_url(&info) {
        Known::Value(url) => assert_eq!(url, "https://api.githubcopilot.com"),
        _ => panic!("expected a URL"),
    }
    let fault = |text: &str, id: &str| load_auth_entry(text, path, id).unwrap_err().to_string();
    assert_eq!(fault("[", "x"), "Invalid JSON in /a/auth.json");
    assert_eq!(fault("[]", "x"), "Invalid JSON in /a/auth.json");
    assert_eq!(
        fault(text, "x"),
        "No opencode auth entry `x` in /a/auth.json. Log in with opencode first."
    );
    assert_eq!(fault(text, "k"), "opencode auth entry `k` is not an oauth provider");
    assert_eq!(
        fault(text, "bad"),
        "opencode auth entry `bad` in /a/auth.json is not a supported GitHub Copilot oauth record"
    );
    let enterprise = AuthEntry {
        kind: "oauth".to_string(),
        refresh: "r".to_string(),
        access: None,
        expires: None,
        enterprise_url: Some(" https://ghe.example.com/ ".to_string()),
        base_url: None,
    };
    match resolve_base_url(&enterprise) {
        Known::Ask(url) => {
            assert_eq!(url, "https://api.ghe.example.com/copilot_internal/user")
        }
        _ => panic!("expected a request"),
    }
}

#[test]
fn reads_answers_about_a_session() {
    let ok = |text: &str| entitlement_base_url(true, "200 OK", &json(text));
    assert_eq!(ok(r#"{"endpoints":{"api":"https://e"}}"#).unwrap(), "https://e");
    assert_eq!(
        ok("{}").unwrap_err().to_string(),
        "GitHub Copilot entitlement response did not include endpoints.api"
    );
    assert_eq!(
        ok(r#"{"endpoints":7}"#).unwrap_err().to_string(),
        "Invalid GitHub Copilot entitlement response"
    );
    assert_eq!(
        entitlement_base_url(false, "500 X", &json("1")).unwrap_err().to_string(),
        "GitHub Copilot entitlement request failed with 500 X: 1"
    );
    let token = |text: &str| exchanged_token(true, "200 OK", &json(text));
    assert_eq!(token(r#"{"token":"t","expires_at":5}"#).unwrap(), "t");
    assert_eq!(
        token(r#"{"token":"t"}"#).unwrap_err().to_string(),
        "Invalid GitHub Copilot token response"
    );
    assert_eq!(
        exchanged_token(false, "401 U", &json("{}")).unwrap_err().to_string(),
        "GitHub Copilot token exchange failed with 401 U: {}"
    );
    assert_eq!(normalize_domain("http://a.b//"), "a.b");
    assert_eq!(api_domain("github.com"), "api.github.com");
}

#[test]
fn writes_conversation_headers() {
    let body = json(
        r#"{"messages":[{"role":"user","content":[{"type":"image_url"}]},{"role":"tool","content":"x"}]}"#,
    );
    assert_eq!(conversation_metadata(Some(&body)), (true, true));
    let items = json(r#"{"input":[{"role":"user","content":[{"type":"input_text"}]}]}"#);
    assert_eq!(conversation_metadata(Some(&items)), (false, false));
    let calls = json(r#"{"input":[{"type":"function_call_output"}]}"#);
    assert_eq!(conversation_metadata(Some(&calls)), (false, true));
    assert_eq!(conversation_metadata(None), (false, false));
    let h = conversation_headers_with_ids("tok", Some(&body), "i", "r");
    assert_eq!(h.len(), 12);
    assert_eq!(h[0], ("Authorization".to_string(), "Bearer tok".to_string()));
    assert_eq!(h[7], ("X-Initiator".to_string(), "agent".to_string()));
    assert_eq!(h[11], ("Copilot-Vision-Request".to_string(), "true".to_string()));
    let fresh = conversation_headers("tok", None);
    assert_eq!(fresh.len(), 11);
    assert_eq!(fresh[7].1, "user");
    assert_ne!(fresh[8].1, fresh[10].1);
    let models = model_headers("tok");
    assert_eq!(models.len(), 10);
    assert_eq!(models[1].1, "Bearer tok");
    assert_eq!(models[9].1.len(), 32);
}

// ---------------------------------------------------------------- the proxy

#[test]
fn routes_proxy_requests() {
    match route_request(ProxyMode::AnthropicMessages, "/messages") {
        ProxyRoute::Forward { upstream_path, anthropic } => {
            assert_eq!(upstream_path, "/v1/messages");
            assert!(anthropic);
        }
        _ => panic!("expected forwarding"),
    }
    assert!(matches!(
        route_request(ProxyMode::OpenaiResponses, "/v1/models"),
        ProxyRoute::Models
    ));
    match route_request(ProxyMode::OpenaiChat, "/v1/models") {
        ProxyRoute::Unsupported(body) => assert_eq!(
            body.to_text(),
            r#"{"error":{"message":"Unsupported proxy path /v1/models"}}"#
        ),
        _ => panic!("expected an error"),
    }
    assert_eq!(
        error_body("no").to_text(),
        r#"{"error":{"message":"no","type":"swcli_github_copilot_proxy_error"}}"#
    );
}

#[test]
fn reads_proxy_requests() {
    let step = |text: &str, closed: bool| read_http_request(&text.as_bytes().to_vec(), closed);
    assert!(matches!(step("", false), ReadStep::Read(4096)));
    match step("POST /x", true) {
        ReadStep::Failed(e) => assert_eq!(e.to_string(), "connection closed before headers"),
        _ => panic!("expected a failure"),
    }
    let head = "POST  /v1/messages HTTP/1.1\r\nContent-Length: 4\r\n\r\n";
    assert!(matches!(step(&format!("{head}ab"), false), ReadStep::Read(2)));
    match step(&format!("{head}abcdef"), false) {
        ReadStep::Done(r) => {
            assert_eq!(r.path, "/v1/messages");
            assert_eq!(r.body, b"abcd".to_vec());
        }
        _ => panic!("expected a request"),
    }
    match step(&format!("{head}ab"), true) {
        ReadStep::Done(r) => assert!(r.body.is_empty()),
        _ => panic!("expected a request"),
    }
    match step("GET / X\r\ncontent-length: x\r\n\r\n", false) {
        ReadStep::Failed(e) => assert_eq!(e.to_string(), "Invalid content-length"),
        _ => panic!("expected a failure"),
    }
    match read_http_request(&vec![b'a'; 1024 * 1024 + 1], false) {
        ReadStep::Failed(e) => assert_eq!(e.to_string(), "request headers too large"),
        _ => panic!("expected a failure"),
    }
    assert_eq!(request_path(""), "/");
    assert_eq!(request_path("GET"), "/");
    assert_eq!(content_length("a: b\r\nCONTENT-LENGTH:  12 ").unwrap(), 12);
    assert_eq!(content_length("").unwrap(), 0);
    assert_eq!(find_header_end(&b"a\r\n\r\n".to_vec()), Some(1));
    assert_eq!(find_header_end(&b"a\r\n".to_vec()), None);
    assert!(request_body(&Vec::new()).unwrap().is_none());
    assert_eq!(request_body(&b"[1]".to_vec()).unwrap().unwrap().to_text(), "[1]");
    assert_eq!(
        request_body(&vec![0xff]).unwrap_err().to_string(),
        "Invalid proxy request JSON"
    );
}

#[test]
fn writes_proxy_answers() {
    assert_eq!(
        http_text(200, "text/plain", "hé"),
        "HTTP/1.1 200 OK\r\ncontent-type: text/plain\r\ncontent-length: 3\r\nconnection: close\r\n\r\nhé"
            .as_bytes()
            .to_vec()
    );
    let status = |n: u16| {
        let text = String::from_utf8(http_json(n, &json("{}"))).unwrap();
        text.lines().next().unwrap().to_string()
    };
    assert_eq!(status(404), "HTTP/1.1 404 Not Found");
    assert_eq!(status(500), "HTTP/1.1 500 Internal Server Error");
    assert_eq!(status(418), "HTTP/1.1 418 Upstream");
}

// ---------------------------------------------------------------- launching

fn launch_args(tool: &str, model: Option<&str>, tool_args: &[&str]) -> swcli::cli::LaunchArgs {
    swcli::cli::LaunchArgs {
        tool: tool.to_string(),
        tool_args: texts(tool_args),
        model: model.map(|s| s.to_string()),
        key: None,
        dry_run: true,
        envs: Vec::new(),
    }
}

fn resolved(context_window: Option<u64>) -> Option<ResolvedModel> {
    Some(ResolvedModel {
        id: "m1".to_string(),
        name: "Model One".to_string(),
        context_window,
        supports_reasoning: true,
        wire: WireProtocol::AnthropicMessages,
    })
}

#[test]
fn parses_tools_and_validates_keys() {
    assert_eq!(Tool::parse(&kebab("claude_code")).unwrap(), Tool::Claude);
    assert_eq!(Tool::parse(&head("claude_code")).unwrap(), Tool::Claude);
    assert_eq!(Tool::Claude.command_name(), head("claude_code"));
    assert!(Tool::parse("claude_code").is_err());
    assert_eq!(Tool::parse("codex").unwrap().command_name(), "codex");
    assert_eq!(
        Tool::parse("vim").unwrap_err().to_string(),
        hyphened(
            "Unsupported tool `vim`. First step supports codex and claude_code only.",
            "claude_code"
        )
    );
    let long = spaced("Claude_Code");
    let short = head("Claude_Code");
    let k = key("main");
    assert!(validate_tool_provider(Tool::Codex, &k, WireProtocol::OpenaiCompletions).is_none());
    assert_eq!(
        validate_tool_provider(Tool::Claude, &k, WireProtocol::OpenaiResponses).unwrap().to_string(),
        format!(
            "Key `main` uses wire `openai-responses` (https://api.example.com/v1). {long} requires `anthropic-messages`. Use `swcli -k main codex` or choose an Anthropic-compatible key such as `minimax-cn`/`custom-anthropic`."
        )
    );
    let mut copilot = key("gh");
    copilot.preset_alias = Some("github-copilot".to_string());
    assert_eq!(
        validate_tool_provider(Tool::Claude, &copilot, WireProtocol::OpenaiCompletions)
            .unwrap()
            .to_string(),
        format!(
            "Key `gh` uses wire `openai-completions` (https://api.example.com/v1). {long} requires `anthropic-messages`. For `github-copilot`, choose a {short} model that exposes `/v1/messages`."
        )
    );
    assert_eq!(launch_token(&copilot).unwrap(), "github-copilot");
    assert_eq!(launch_token(&k).unwrap(), "sk-test");
    assert_eq!(effective_wire(&None, &k), WireProtocol::OpenaiResponses);
    assert_eq!(effective_wire(&resolved(None), &k), WireProtocol::AnthropicMessages);
}

#[test]
fn plans_what_stands_between() {
    let k = key("main");
    let route = |tool, wire, dry| launch_route(tool, &k, wire, dry).unwrap();
    assert!(matches!(
        route(Tool::Codex, WireProtocol::OpenaiResponses, false),
        LaunchRoute::Direct
    ));
    match route(Tool::Codex, WireProtocol::OpenaiCompletions, false) {
        LaunchRoute::Router { kind, api_key } => {
            assert_eq!(kind, RouterKind::OpenaiChat);
            assert_eq!(api_key, "sk-test");
        }
        _ => panic!("expected a router"),
    }
    match route(Tool::Codex, WireProtocol::AnthropicMessages, true) {
        LaunchRoute::Placeholder(url) => {
            assert_eq!(url, "http://127.0.0.1:<swcli-responses-router>/v1")
        }
        _ => panic!("expected a placeholder"),
    }
    let mut copilot = key("gh");
    copilot.preset_alias = Some("github-copilot".to_string());
    assert_eq!(
        launch_route(Tool::Codex, &copilot, WireProtocol::OpenaiResponses, false)
            .unwrap_err()
            .to_string(),
        format!(
            "Key `gh` has no OAuth token."
        )
    );
    copilot.oauth_token = Some("gho".to_string());
    for (tool, wire, want, want_router) in [
        (Tool::Codex, WireProtocol::OpenaiResponses, ProxyMode::OpenaiResponses, None),
        (
            Tool::Codex,
            WireProtocol::OpenaiCompletions,
            ProxyMode::OpenaiChat,
            Some(RouterKind::OpenaiChat),
        ),
        (
            Tool::Codex,
            WireProtocol::AnthropicMessages,
            ProxyMode::AnthropicMessages,
            Some(RouterKind::Anthropic),
        ),
        (Tool::Claude, WireProtocol::AnthropicMessages, ProxyMode::AnthropicMessages, None),
    ] {
        match launch_route(tool, &copilot, wire, false).unwrap() {
            LaunchRoute::Proxy { mode, refresh_token, router } => {
                assert_eq!(mode, want);
                assert_eq!(refresh_token, "gho");
                assert_eq!(router, want_router);
            }
            _ => panic!("expected a proxy"),
        }
    }
    assert!(matches!(
        launch_route(Tool::Claude, &copilot, WireProtocol::AnthropicMessages, true).unwrap(),
        LaunchRoute::Placeholder("http://127.0.0.1:<swcli-github-copilot-router>/v1")
    ));
    assert_eq!(local_base_url(8080), "http://127.0.0.1:8080/v1");
}

#[test]
fn puts_a_codex_command_together() {
    let mut args = launch_args("codex", Some("m1"), &["-h"]);
    args.envs = texts(&["A=1=2"]);
    let command = launch_command(
        Tool::Codex,
        &args,
        &resolved(Some(200)),
        "http://u\"/v1",
        "tok",
        "/tmp/swcli-codex-model-catalog-<pid>.json",
    )
    .unwrap();
    assert_eq!(
        command.args,
        texts(&[
            "-m",
            "m1",
            "--config",
            "model_catalog_json=\"/tmp/swcli-codex-model-catalog-<pid>.json\"",
            "--config",
            "model_provider=\"aivo\"",
            "--config",
            "model_providers.aivo.name=\"aivo\"",
            "--config",
            "model_providers.aivo.base_url=\"http://u\\\"/v1\"",
            "--config",
            "model_providers.aivo.env_key=\"AIVO_CODEX_API_KEY\"",
            "--config",
            "model_context_window=200",
            "-h",
        ])
    );
    assert_eq!(command.envs.get("AIVO_CODEX_API_KEY").unwrap(), "tok");
    assert!(command.envs.get("OPENAI_API_KEY").is_none());
    assert_eq!(command.envs.get("A").unwrap(), "1=2");
    let lines = dry_run_lines(Tool::Codex, command, &resolved(Some(200)));
    assert!(lines[0].starts_with("command: codex -m m1 --config \"model_catalog_json="));
    assert_eq!(lines[1], "resolved_model: m1 (Model One) context_window=200");
    assert_eq!(lines[2..], texts(&["env:", "  A=1=2", "  AIVO_CODEX_API_KEY=***"])[..]);
    let mut bad = launch_args("codex", None, &[]);
    bad.envs = texts(&["A"]);
    assert_eq!(
        launch_command(Tool::Codex, &bad, &None, "u", "t", "").unwrap_err().to_string(),
        "--env expects KEY=VALUE, got `A`"
    );
}

#[test]
fn puts_a_claude_command_together() {
    let args = launch_args(&head("claude_code"), Some("m1"), &["--model_context_window"]);
    let command =
        launch_command(Tool::Claude, &args, &resolved(Some(1_000_000)), "u", "t", "").unwrap();
    assert_eq!(command.args, texts(&["--model_context_window"]));
    assert_eq!(command.envs.get("ANTHROPIC_MODEL").unwrap(), "m1[1m]");
    assert_eq!(command.envs.get("ANTHROPIC_BASE_URL").unwrap(), "u");
    let lines = dry_run_lines(Tool::Claude, command, &None);
    assert_eq!(
        lines,
        texts(&[
            &format!("command: {} --model_context_window", head("claude_code")),
            "env:",
            "  ANTHROPIC_API_KEY=***",
            "  ANTHROPIC_BASE_URL=u",
            "  ANTHROPIC_MODEL=m1[1m]",
        ])
    );
}

#[test]
fn leaves_a_named_provider_alone() {
    let mut envs = tool_env(Tool::Codex, "u", "t");
    let mut args = texts(&["--config", "model_provider=\"x\""]);
    inject_codex_provider_config(&mut envs, &mut args, "u");
    assert_eq!(args.len(), 2);
    assert_eq!(envs.get("OPENAI_API_KEY").unwrap(), "t");
    assert_eq!(shell_join(&texts(&["a=b", "c d", ""])), "a=b \"c d\" ");
    assert_eq!(redact("x"), "***");
}

#[test]
fn tells_where_the_files_are() {
    let at = |own: Option<&str>, xdg: Option<&str>, home: Option<&str>| {
        swcli::config::config_dir(own.map(String::from), xdg.map(String::from), home.map(String::from))
    };
    let place = at(Some("/own"), Some("/xdg"), Some("/home/me")).unwrap();
    assert_eq!((place.base.as_str(), place.below.len()), ("/own", 0));
    let place = at(None, Some("/xdg"), Some("/home/me")).unwrap();
    assert_eq!((place.base.as_str(), place.below), ("/xdg", texts(&["swcli"])));
    let place = at(None, None, Some("/home/me")).unwrap();
    assert_eq!((place.base.as_str(), place.below), ("/home/me", texts(&[".config", "swcli"])));
    assert_eq!(
        at(None, None, None).unwrap_err().to_string(),
        "HOME is not set; set SWCLI_CONFIG_DIR explicitly"
    );
}

#[test]
fn writes_names_from_snake_case() {
    assert_eq!(kebab_text("codex_oauth"), "codex-oauth");
    assert_eq!(head_text("codex_oauth"), "codex");
    assert_eq!(head_text("codex"), "codex");
    assert_eq!(title_text("codex_oauth"), "Codex Oauth");
    assert_eq!(title_text(""), "");
    assert_eq!(ProviderKind::CodexOauth.to_string(), "codex-oauth");
    assert_eq!(ProviderKind::ClaudeOauth.to_string(), kebab("claude_oauth"));
    assert_eq!(ProviderKind::Openai.to_string(), "openai");
}

#[test]
fn edits_the_first_key_of_an_id() {
    let mut config = stored();
    config.keys[1].id = "aa11".to_string();
    let mut args = keys_args(Some("edit"), &["spare"]);
    args.wire = Some(WireProtocol::AnthropicMessages);
    let edit = edit_key(&config, &args).unwrap();
    assert_eq!(edit.key.name, "main");
    store_edit(&mut config, edit.key);
    let names: Vec<&str> = config.keys.iter().map(|k| k.name.as_str()).collect();
    assert_eq!(names, ["main", "spare"]);
    assert_eq!(config.keys[0].wire, Some(WireProtocol::AnthropicMessages));
    assert_eq!(config.keys[1].wire, None);
}
