use std::collections::HashSet;
use swcli::protocol::ids::{
    anthropic_messages_2023_06_01, google_generate_content_v1beta, google_generate_v1beta,
    openai_chat_completions_v1, openai_chat_v1, openai_embeddings_v1, openai_responses_v1, Protocol,
};
use swcli::protocol::registry::ProtocolRegistry;
use swcli::protocol::traits::EndpointHandler;

/// The first word of a name in snake case.
fn head(name: &str) -> String {
    name.split('_').next().unwrap().to_string()
}

#[test]
fn display_canonical_form() {
    assert_eq!(
        openai_chat_completions_v1().to_string(),
        "openai-compat/chat-completions/v1"
    );
    assert_eq!(openai_responses_v1().to_string(), "openai-resps/responses/v1");
    assert_eq!(
        anthropic_messages_2023_06_01().to_string(),
        "anthropic-msgs/messages/2023-06-01"
    );
    assert_eq!(
        google_generate_content_v1beta().to_string(),
        "google-genai/generate-content/v1beta"
    );
    assert_eq!(
        openai_embeddings_v1().to_string(),
        "openai-compat/embeddings/v1"
    );
}

#[test]
fn protocol_round_trip() {
    for p in [
        Protocol::OpenAICompatible,
        Protocol::OpenAIResponses,
        Protocol::AnthropicMessages,
        Protocol::GoogleGenerativeAI,
    ] {
        assert_eq!(Protocol::parse(p.as_str()).unwrap(), p);
    }
}

#[test]
fn protocol_endpoint_is_copy_and_hashable() {
    let id = openai_chat_completions_v1();
    let copied = id;
    let mut set = HashSet::new();
    set.insert(id);
    set.insert(copied);
    assert_eq!(set.len(), 1);
}

#[test]
fn backward_compat_aliases() {
    assert_eq!(openai_chat_v1(), openai_chat_completions_v1());
    assert_eq!(google_generate_v1beta(), google_generate_content_v1beta());
}


#[test]
fn registers_five_handlers() {
    let reg = ProtocolRegistry::global();
    assert!(reg.get(&openai_chat_completions_v1()).is_some());
    assert!(reg.get(&openai_responses_v1()).is_some());
    assert!(reg.get(&openai_embeddings_v1()).is_some());
    assert!(reg.get(&anthropic_messages_2023_06_01()).is_some());
    assert!(reg.get(&google_generate_content_v1beta()).is_some());
    assert_eq!(reg.list().len(), 5);
}

#[test]
fn alias_table_resolves_new_canonical() {
    let reg = ProtocolRegistry::global();
    // New canonical form
    assert_eq!(
        reg.resolve_alias("openai-compat/chat-completions/v1"),
        Some(openai_chat_completions_v1())
    );
    assert_eq!(
        reg.resolve_alias("openai-resps/responses/v1"),
        Some(openai_responses_v1())
    );
    assert_eq!(
        reg.resolve_alias("anthropic-msgs/messages/2023-06-01"),
        Some(anthropic_messages_2023_06_01())
    );
    assert_eq!(
        reg.resolve_alias("google-genai/generate-content/v1beta"),
        Some(google_generate_content_v1beta())
    );
}

#[test]
fn alias_table_resolves_old_canonical_and_short() {
    let reg = ProtocolRegistry::global();
    // Old canonical (tier 1)
    assert_eq!(
        reg.resolve_alias("openai/chat/v1"),
        Some(openai_chat_completions_v1())
    );
    assert_eq!(
        reg.resolve_alias("anthropic/messages/2023-06-01"),
        Some(anthropic_messages_2023_06_01())
    );
    assert_eq!(
        reg.resolve_alias("google/generate/v1beta"),
        Some(google_generate_content_v1beta())
    );

    // Canonical short (tier 2)
    assert_eq!(
        reg.resolve_alias("openai-chat"),
        Some(openai_chat_completions_v1())
    );
    assert_eq!(
        reg.resolve_alias("openai-chat-completions"),
        Some(openai_chat_completions_v1())
    );
    assert_eq!(
        reg.resolve_alias("anthropic-messages"),
        Some(anthropic_messages_2023_06_01())
    );
    assert_eq!(
        reg.resolve_alias("google-generate"),
        Some(google_generate_content_v1beta())
    );
    assert_eq!(
        reg.resolve_alias("google-generate-content"),
        Some(google_generate_content_v1beta())
    );

    // Legacy brand (tier 3)
    assert_eq!(
        reg.resolve_alias("openai"),
        Some(openai_chat_completions_v1())
    );
    assert_eq!(
        reg.resolve_alias("anthropic"),
        Some(anthropic_messages_2023_06_01())
    );
    assert_eq!(
        reg.resolve_alias(&head("claude_code")),
        Some(anthropic_messages_2023_06_01())
    );
    assert_eq!(
        reg.resolve_alias("gemini"),
        Some(google_generate_content_v1beta())
    );
}

#[test]
fn alias_resolution_is_case_insensitive_and_trims() {
    let reg = ProtocolRegistry::global();
    assert_eq!(
        reg.resolve_alias("  OpenAI  "),
        Some(openai_chat_completions_v1())
    );
    assert_eq!(
        reg.resolve_alias("GEMINI"),
        Some(google_generate_content_v1beta())
    );
}

#[test]
fn unknown_returns_none() {
    let reg = ProtocolRegistry::global();
    assert_eq!(reg.resolve_alias(""), None);
    assert_eq!(reg.resolve_alias("nope"), None);
    assert_eq!(reg.resolve_alias("openai/nope/v1"), None);
}

#[test]
fn list_by_protocol_groups_correctly() {
    let reg = ProtocolRegistry::global();
    let openai_compat = reg.list_by_protocol(Protocol::OpenAICompatible);
    assert_eq!(openai_compat.len(), 2);
    assert!(
        openai_compat
            .iter()
            .any(|h| h.id() == openai_chat_completions_v1())
    );
    assert!(openai_compat.iter().any(|h| h.id() == openai_embeddings_v1()));

    assert_eq!(reg.list_by_protocol(Protocol::OpenAIResponses).len(), 1);
    assert_eq!(reg.list_by_protocol(Protocol::AnthropicMessages).len(), 1);
    assert_eq!(reg.list_by_protocol(Protocol::GoogleGenerativeAI).len(), 1);
}

#[test]
fn parse_protocol_resolves_aliases() {
    let reg = ProtocolRegistry::global();
    assert_eq!(
        reg.parse_protocol("openai-compat"),
        Some(Protocol::OpenAICompatible)
    );
    assert_eq!(
        reg.parse_protocol("openai"),
        Some(Protocol::OpenAICompatible)
    );
    assert_eq!(
        reg.parse_protocol(&head("claude_code")),
        Some(Protocol::AnthropicMessages)
    );
    assert_eq!(
        reg.parse_protocol("gemini"),
        Some(Protocol::GoogleGenerativeAI)
    );
    assert_eq!(
        reg.parse_protocol("google-genai"),
        Some(Protocol::GoogleGenerativeAI)
    );
}

#[test]
fn list_protocols_returns_all_four() {
    let reg = ProtocolRegistry::global();
    let protocols = reg.list_protocols();
    assert_eq!(protocols.len(), 4);
    assert!(protocols.contains(&Protocol::OpenAICompatible));
    assert!(protocols.contains(&Protocol::OpenAIResponses));
    assert!(protocols.contains(&Protocol::AnthropicMessages));
    assert!(protocols.contains(&Protocol::GoogleGenerativeAI));
}

#[test]
fn ingress_route_matches_method_and_path() {
    let reg = ProtocolRegistry::global();
    assert_eq!(
        reg.find_by_ingress_route("POST", "/v1/chat/completions")
            .map(|h| h.id()),
        Some(openai_chat_completions_v1())
    );
    assert_eq!(
        reg.find_by_ingress_route("POST", "/v1/responses")
            .map(|h| h.id()),
        Some(openai_responses_v1())
    );
    assert_eq!(
        reg.find_by_ingress_route("POST", "/v1/messages")
            .map(|h| h.id()),
        Some(anthropic_messages_2023_06_01())
    );
    assert_eq!(
        reg.find_by_ingress_route("POST", "/v1/embeddings")
            .map(|h| h.id()),
        Some(openai_embeddings_v1())
    );
    assert!(
        reg.find_by_ingress_route("GET", "/v1/chat/completions")
            .is_none()
    );
}

#[test]
fn capabilities_match_legacy_special_cases() {
    let reg = ProtocolRegistry::global();
    let chat = reg.get(&openai_chat_completions_v1()).unwrap();
    let responses = reg.get(&openai_responses_v1()).unwrap();
    let google = reg.get(&google_generate_content_v1beta()).unwrap();

    assert!(!chat.capabilities().force_upstream_stream);
    assert!(responses.capabilities().force_upstream_stream);
    assert!(google.capabilities().override_model_in_body);
    assert!(!chat.capabilities().override_model_in_body);
}

#[test]
fn writes_identifiers_in_canonical_form() {
    let reg = ProtocolRegistry::global();
    assert_eq!(reg.normalize_string(" OpenAI "), "openai-compat/chat-completions/v1");
    assert_eq!(
        reg.normalize_string("openai-compat/chat-completions/v1"),
        "openai-compat/chat-completions/v1"
    );
    assert_eq!(reg.normalize_string(" fax "), " fax ");
    assert_eq!(reg.normalize_string("  "), "");
}

#[test]
fn brings_tables_under_the_names_of_suites() {
    let reg = ProtocolRegistry::global();
    let out = reg.normalize_endpoints_json(
        r#"{
            "openai/chat/v1": {"base_url": "https://a", "extra": 1},
            "openai-compat": {"base_url": "https://b"},
            "anthropic-msgs": "https://c",
            "fax": [1]
        }"#,
    );
    assert_eq!(
        out,
        r#"{"openai-compat":{"base_url":"https://a"},"anthropic-msgs":{"base_url":"https://c"},"fax":[1]}"#
    );
    for same in ["", " {} ", "no json", "[1]"] {
        assert_eq!(reg.normalize_endpoints_json(same), same);
    }
}

#[test]
fn serves_embeddings_under_both_paths() {
    let reg = ProtocolRegistry::global();
    for path in ["/v1/embeddings", "/embeddings"] {
        assert_eq!(
            reg.find_by_ingress_route("POST", path).map(|h| h.id()),
            Some(openai_embeddings_v1())
        );
    }
    assert!(reg.find_by_ingress_route("GET", "/embeddings").is_none());
    assert!(reg.find_by_ingress_route("POST", "/chat/embeddings").is_none());
}

#[test]
fn finds_the_suite_of_an_endpoint() {
    let reg = ProtocolRegistry::global();
    assert_eq!(reg.protocol_of(&openai_embeddings_v1()), Some(Protocol::OpenAICompatible));
    assert_eq!(reg.protocol_of(&openai_responses_v1()), Some(Protocol::OpenAIResponses));
}
