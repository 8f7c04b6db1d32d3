//! Kinds of providers, wire protocols and the presets that come with the program.
use vstd::prelude::*;

use crate::fault::Fault;
use crate::views::Views;

verus! {

/// What kind of account a key belongs to.
#[derive(Debug, Clone, Copy, PartialEq, Eq, Structural)]
pub enum ProviderKind {
    Openai,
    Anthropic,
    CodexOauth,
    ClaudeOauth,
}

impl ProviderKind {
    pub open spec fn ident(self) -> Seq<char> {
        match self {
            ProviderKind::Openai => "openai"@,
            ProviderKind::Anthropic => "anthropic"@,
            ProviderKind::CodexOauth => "codex_oauth"@,
            ProviderKind::ClaudeOauth => "claude_oauth"@,
        }
    }

    /// The name that stands in files and on the command line.
    pub open spec fn name(self) -> Seq<char> {
        crate::names::kebab(self.ident())
    }

    pub fn to_string(self) -> (r: String)
        ensures
            r@ == self.name(),
    {
        let ident = match self {
            ProviderKind::Openai => "openai",
            ProviderKind::Anthropic => "anthropic",
            ProviderKind::CodexOauth => "codex_oauth",
            ProviderKind::ClaudeOauth => "claude_oauth",
        };
        crate::names::kebab_text(ident)
    }
}

/// The protocol that an endpoint speaks.
#[derive(Debug, Clone, Copy, PartialEq, Eq, Structural)]
pub enum WireProtocol {
    OpenaiResponses,
    OpenaiCompletions,
    AnthropicMessages,
}

impl WireProtocol {
    /// The name that stands in files and on the command line.
    pub open spec fn name(self) -> Seq<char> {
        match self {
            WireProtocol::OpenaiResponses => "openai-responses"@,
            WireProtocol::OpenaiCompletions => "openai-completions"@,
            WireProtocol::AnthropicMessages => "anthropic-messages"@,
        }
    }

    pub fn as_str(self) -> (r: &'static str)
        ensures
            r@ == self.name(),
    {
        match self {
            WireProtocol::OpenaiResponses => "openai-responses",
            WireProtocol::OpenaiCompletions => "openai-completions",
            WireProtocol::AnthropicMessages => "anthropic-messages",
        }
    }

    pub fn to_string(self) -> (r: String)
        ensures
            r@ == self.name(),
    {
        self.as_str().to_string()
    }
}

/// A provider that is known beforehand.
#[derive(Debug, Clone, Copy)]
pub struct BuiltinPreset {
    pub alias: &'static str,
    pub provider: ProviderKind,
    pub models_dev_provider_name: Option<&'static str>,
    pub endpoint: &'static str,
    pub wire: WireProtocol,
}

pub struct PresetV {
    pub alias: Seq<char>,
    pub provider: ProviderKind,
    pub models_dev_provider_name: Option<Seq<char>>,
    pub endpoint: Seq<char>,
    pub wire: WireProtocol,
}

impl View for BuiltinPreset {
    type V = PresetV;

    open spec fn view(&self) -> PresetV {
        PresetV {
            alias: self.alias@,
            provider: self.provider,
            models_dev_provider_name: self.models_dev_provider_name.views(),
            endpoint: self.endpoint@,
            wire: self.wire,
        }
    }
}

/// The presets in the order in which they are offered.
pub open spec fn presets() -> Seq<PresetV> {
    seq![
        PresetV {
            alias: "github-copilot"@,
            provider: ProviderKind::Openai,
            models_dev_provider_name: None,
            endpoint: "https://api.githubcopilot.com"@,
            wire: WireProtocol::OpenaiCompletions,
        },
        PresetV {
            alias: "minimax"@,
            provider: ProviderKind::Anthropic,
            models_dev_provider_name: Some("MiniMax (minimax.io)"@),
            endpoint: "https://api.minimax.io/anthropic/v1"@,
            wire: WireProtocol::AnthropicMessages,
        },
        PresetV {
            alias: "minimax-cn"@,
            provider: ProviderKind::Anthropic,
            models_dev_provider_name: Some("MiniMax (minimaxi.com)"@),
            endpoint: "https://api.minimaxi.com/anthropic/v1"@,
            wire: WireProtocol::AnthropicMessages,
        },
        PresetV {
            alias: "xiaomi-token-plan-cn"@,
            provider: ProviderKind::Openai,
            models_dev_provider_name: Some("Xiaomi Token Plan (China)"@),
            endpoint: "https://token-plan-cn.xiaomimimo.com/v1"@,
            wire: WireProtocol::OpenaiCompletions,
        },
    ]
}

/// The presets.
pub fn builtin_presets() -> (r: Vec<BuiltinPreset>)
    ensures
        r.views() == presets(),
{
    let copilot = BuiltinPreset {
        alias: "github-copilot",
        provider: ProviderKind::Openai,
        models_dev_provider_name: None,
        endpoint: "https://api.githubcopilot.com",
        wire: WireProtocol::OpenaiCompletions,
    };
    let minimax = BuiltinPreset {
        alias: "minimax",
        provider: ProviderKind::Anthropic,
        models_dev_provider_name: Some("MiniMax (minimax.io)"),
        endpoint: "https://api.minimax.io/anthropic/v1",
        wire: WireProtocol::AnthropicMessages,
    };
    let minimax_cn = BuiltinPreset {
        alias: "minimax-cn",
        provider: ProviderKind::Anthropic,
        models_dev_provider_name: Some("MiniMax (minimaxi.com)"),
        endpoint: "https://api.minimaxi.com/anthropic/v1",
        wire: WireProtocol::AnthropicMessages,
    };
    let xiaomi = BuiltinPreset {
        alias: "xiaomi-token-plan-cn",
        provider: ProviderKind::Openai,
        models_dev_provider_name: Some("Xiaomi Token Plan (China)"),
        endpoint: "https://token-plan-cn.xiaomimimo.com/v1",
        wire: WireProtocol::OpenaiCompletions,
    };
    let r = vec![copilot, minimax, minimax_cn, xiaomi];
    assert(r.views() =~= presets());
    r
}

/// The first preset from the `i`-th on with the alias.
pub open spec fn preset_from(s: Seq<PresetV>, alias: Seq<char>, i: int) -> Option<PresetV>
    decreases s.len() - i,
{
    if i < 0 || i >= s.len() {
        None
    } else if s[i].alias == alias {
        Some(s[i])
    } else {
        preset_from(s, alias, i + 1)
    }
}

/// The preset of an alias.
pub open spec fn preset_of(alias: Seq<char>) -> Option<PresetV> {
    preset_from(presets(), alias, 0)
}

/// The aliases of the presets.
pub open spec fn preset_aliases() -> Seq<Seq<char>> {
    Seq::new(presets().len(), |i: int| presets()[i].alias)
}

/// The preset of an alias, or an error that names all aliases.
pub open spec fn preset_resolved(alias: Seq<char>) -> Result<PresetV, Seq<char>> {
    match preset_of(alias) {
        Some(p) => Ok(p),
        None => Err(
            "Unknown builtin preset `"@ + alias + ("`. Available presets: "@ + crate::text::join_of(
                preset_aliases(),
                ", "@,
            )),
        ),
    }
}

/// Finds the preset of an alias.
pub fn resolve_builtin_preset(alias: &str) -> (r: Result<BuiltinPreset, Fault>)
    ensures
        r.views() == preset_resolved(alias@),
{
    let all = builtin_presets();
    let n: usize = all.len();
    let mut names: Vec<String> = Vec::new();
    let mut i: usize = 0;
    while i < n
        invariant
            n == all@.len(),
            all.views() == presets(),
            i <= n,
            names@.len() == i,
            forall|j: int| 0 <= j < i ==> (#[trigger] names@[j])@ == presets()[j].alias,
            preset_of(alias@) == preset_from(presets(), alias@, i as int),
        decreases n - i,
    {
        assert(all.views()[i as int] == all@[i as int]@);
        if *all[i].alias == *alias {
            return Ok(all[i]);
        }
        names.push(all[i].alias.to_string());
        i = i + 1;
    }
    assert(names.views() =~= preset_aliases());
    Err(Fault::about(
        "Unknown builtin preset `",
        alias,
        crate::text::cat("`. Available presets: ", crate::text::join(&names, ", ").as_str()).as_str(),
    ))
}

/// Where a provider is reached unless told otherwise.
pub open spec fn base_url_of(provider: ProviderKind) -> Seq<char> {
    match provider {
        ProviderKind::Openai | ProviderKind::CodexOauth => "https://api.openai.com/v1"@,
        ProviderKind::Anthropic | ProviderKind::ClaudeOauth => "https://api.anthropic.com/v1"@,
    }
}

pub fn default_base_url(provider: ProviderKind) -> (r: &'static str)
    ensures
        r@ == base_url_of(provider),
{
    match provider {
        ProviderKind::Openai | ProviderKind::CodexOauth => "https://api.openai.com/v1",
        ProviderKind::Anthropic | ProviderKind::ClaudeOauth => "https://api.anthropic.com/v1",
    }
}

/// The protocol that a provider speaks unless told otherwise.
pub open spec fn wire_of(provider: ProviderKind) -> WireProtocol {
    match provider {
        ProviderKind::Openai | ProviderKind::CodexOauth => WireProtocol::OpenaiResponses,
        ProviderKind::Anthropic | ProviderKind::ClaudeOauth => WireProtocol::AnthropicMessages,
    }
}

pub fn default_wire_for_provider(provider: ProviderKind) -> (r: WireProtocol)
    ensures
        r == wire_of(provider),
{
    match provider {
        ProviderKind::Openai | ProviderKind::CodexOauth => WireProtocol::OpenaiResponses,
        ProviderKind::Anthropic | ProviderKind::ClaudeOauth => WireProtocol::AnthropicMessages,
    }
}

/// Every preset is found under its own alias.
pub proof fn lemma_presets_distinct(i: int)
    requires
        0 <= i < presets().len(),
    ensures
        preset_of(presets()[i].alias) == Some(presets()[i]),
{
    reveal_strlit("github-copilot");
    reveal_strlit("minimax");
    reveal_strlit("minimax-cn");
    reveal_strlit("xiaomi-token-plan-cn");
    reveal_with_fuel(preset_from, 5);
    assert("github-copilot"@.len() == 14);
    assert("minimax"@.len() == 7);
    assert("minimax-cn"@.len() == 10);
    assert("xiaomi-token-plan-cn"@.len() == 20);
}

} // verus!
