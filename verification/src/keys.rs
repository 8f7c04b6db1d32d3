//! Managing the stored keys: adding, choosing, changing, removing and showing them.
use vstd::prelude::*;

use crate::cli::{KeysArgs, KeysArgsV};
use crate::config::{ApiKey, ApiKeyV, Config, ConfigV, ModelsDevProvider, ModelsDevProviderV};
use crate::fault::Fault;
use crate::json::{Json, JsonV};
use crate::models::{PickerItem, PickerItemV};
use crate::provider::{BuiltinPreset, PresetV, ProviderKind, WireProtocol};
use crate::views::Views;

verus! {

/// What is done with the keys.
#[derive(Debug, Clone, Copy, PartialEq, Eq, Structural)]
pub enum KeysAction {
    List {
        with_ping: bool,
    },
    Add,
    Default,
    Remove,
    Cat,
    Edit,
    Ping,
}

/// What a command line asks to be done.
pub open spec fn action_of(args: KeysArgsV) -> Result<KeysAction, Seq<char>> {
    if args.ping {
        Ok(KeysAction::List { with_ping: true })
    } else {
        match args.action {
            None => Ok(KeysAction::List { with_ping: false }),
            Some(a) => if a == "add"@ {
                Ok(KeysAction::Add)
            } else if a == "default"@ {
                Ok(KeysAction::Default)
            } else if a == "rm"@ || a == "remove"@ {
                Ok(KeysAction::Remove)
            } else if a == "cat"@ || a == "show"@ {
                Ok(KeysAction::Cat)
            } else if a == "edit"@ {
                Ok(KeysAction::Edit)
            } else if a == "ping"@ {
                Ok(KeysAction::Ping)
            } else {
                Err("Unknown keys action `"@ + a + "`."@)
            },
        }
    }
}

/// Tells what a command line asks to be done.
pub fn keys_action(args: &KeysArgs) -> (r: Result<KeysAction, Fault>)
    ensures
        match r {
            Ok(a) => action_of(args@) == Ok::<_, Seq<char>>(a),
            Err(e) => action_of(args@) == Err::<KeysAction, _>(e@),
        },
{
    if args.ping {
        return Ok(KeysAction::List { with_ping: true });
    }
    let a = match &args.action {
        None => {
            return Ok(KeysAction::List { with_ping: false });
        },
        Some(a) => a.as_str(),
    };
    if *a == *"add" {
        Ok(KeysAction::Add)
    } else if *a == *"default" {
        Ok(KeysAction::Default)
    } else if *a == *"rm" || *a == *"remove" {
        Ok(KeysAction::Remove)
    } else if *a == *"cat" || *a == *"show" {
        Ok(KeysAction::Cat)
    } else if *a == *"edit" {
        Ok(KeysAction::Edit)
    } else if *a == *"ping" {
        Ok(KeysAction::Ping)
    } else {
        Err(Fault::about("Unknown keys action `", a, "`."))
    }
}

// ---------------------------------------------------------------- adding by questions

/// Nothing is said about the key that is to be added.
pub open spec fn says_nothing(args: KeysArgsV) -> bool {
    args.args.len() == 0 && args.name is None && args.base_url is None && args.key is None
        && args.provider is None && args.wire is None && args.preset is None && args.oauth_token
        is None
}

/// Whether the user is asked about the key that is to be added.
pub fn should_prompt_for_key_add(args: &KeysArgs) -> (r: bool)
    ensures
        r == says_nothing(args@),
{
    args.args.len() == 0 && args.name.is_none() && args.base_url.is_none() && args.key.is_none()
        && args.provider.is_none() && args.wire.is_none() && args.preset.is_none()
        && args.oauth_token.is_none()
}

/// The name that a key gets unless told otherwise.
pub fn default_key_name_for_provider(provider: ProviderKind) -> (r: String)
    ensures
        r@ == provider.name(),
{
    provider.to_string()
}

/// A provider that the user can choose.
#[derive(Debug, Clone, Copy)]
pub enum AddProviderChoice {
    Builtin(BuiltinPreset),
    Custom(ProviderKind),
}

pub enum ChoiceV {
    Builtin(PresetV),
    Custom(ProviderKind),
}

impl View for AddProviderChoice {
    type V = ChoiceV;

    open spec fn view(&self) -> ChoiceV {
        match self {
            AddProviderChoice::Builtin(p) => ChoiceV::Builtin(p@),
            AddProviderChoice::Custom(k) => ChoiceV::Custom(*k),
        }
    }
}

/// The choices: the presets, then the two kinds of providers with a URL of one's own.
pub open spec fn choices() -> Seq<ChoiceV> {
    Seq::new(
        crate::provider::presets().len(),
        |i: int| ChoiceV::Builtin(crate::provider::presets()[i]),
    ).push(ChoiceV::Custom(ProviderKind::Openai)).push(ChoiceV::Custom(ProviderKind::Anthropic))
}

/// The line of a choice: its name and where it is reached.
pub open spec fn choice_line(c: ChoiceV) -> PickerItemV {
    match c {
        ChoiceV::Builtin(p) => PickerItemV { label: p.alias, detail: Some(p.endpoint) },
        ChoiceV::Custom(k) => PickerItemV {
            label: "custom-"@ + k.name(),
            detail: Some(crate::provider::base_url_of(k)),
        },
    }
}

/// The providers that the user can choose.
pub fn provider_choices() -> (r: Vec<AddProviderChoice>)
    ensures
        r.views() == choices(),
{
    let presets = crate::provider::builtin_presets();
    let mut out: Vec<AddProviderChoice> = Vec::new();
    for i in 0..presets.len()
        invariant
            presets.views() == crate::provider::presets(),
            out@.len() == i,
            forall|j: int|
                0 <= j < i ==> (#[trigger] out@[j])@ == ChoiceV::Builtin(
                    crate::provider::presets()[j],
                ),
    {
        assert(presets.views()[i as int] == presets@[i as int]@);
        out.push(AddProviderChoice::Builtin(presets[i]));
    }
    assert(out.views() =~= Seq::new(
        crate::provider::presets().len(),
        |i: int| ChoiceV::Builtin(crate::provider::presets()[i]),
    ));
    crate::views::push(&mut out, AddProviderChoice::Custom(ProviderKind::Openai));
    crate::views::push(&mut out, AddProviderChoice::Custom(ProviderKind::Anthropic));
    out
}

/// The lines of the choices.
pub fn choice_items(choices: &Vec<AddProviderChoice>) -> (r: Vec<PickerItem>)
    ensures
        r.views() == Seq::new(choices.views().len(), |i: int| choice_line(choices.views()[i])),
{
    let mut items: Vec<PickerItem> = Vec::new();
    for i in 0..choices.len()
        invariant
            items@.len() == i,
            forall|j: int| 0 <= j < i ==> (#[trigger] items@[j])@ == choice_line(choices.views()[j]),
    {
        assert(choices.views()[i as int] == choices@[i as int]@);
        let item = match choices[i] {
            AddProviderChoice::Builtin(p) => PickerItem {
                label: p.alias.to_string(),
                detail: Some(p.endpoint.to_string()),
            },
            AddProviderChoice::Custom(k) => PickerItem {
                label: crate::text::cat("custom-", k.to_string().as_str()),
                detail: Some(crate::provider::default_base_url(k).to_string()),
            },
        };
        items.push(item);
    }
    assert(items.views() =~= Seq::new(
        choices.views().len(),
        |i: int| choice_line(choices.views()[i]),
    ));
    items
}

/// The choice that the user made.
pub fn chosen_provider(choices: &Vec<AddProviderChoice>, index: Option<usize>) -> (r: Result<
    AddProviderChoice,
    Fault,
>)
    requires
        index is Some ==> index->0 < choices@.len(),
    ensures
        r.views() == match index {
            Some(i) => Ok(choices.views()[i as int]),
            None => Err("Key creation cancelled."@),
        },
{
    match index {
        Some(i) => Ok(choices[i]),
        None => Err(Fault::new("Key creation cancelled.")),
    }
}

/// The arguments with a choice written down.
pub open spec fn with_choice(args: KeysArgsV, choice: ChoiceV) -> KeysArgsV {
    match choice {
        ChoiceV::Builtin(p) => KeysArgsV {
            preset: Some(p.alias),
            provider: match args.provider {
                Some(k) => Some(k),
                None => Some(p.provider),
            },
            ..args
        },
        ChoiceV::Custom(k) => KeysArgsV { provider: Some(k), ..args },
    }
}

/// Writes a choice down.
pub fn apply_choice(args: KeysArgs, choice: &AddProviderChoice) -> (r: KeysArgs)
    ensures
        r@ == with_choice(args@, choice@),
{
    let mut args = args;
    match choice {
        AddProviderChoice::Builtin(p) => {
            args.preset = Some(p.alias.to_string());
            if args.provider.is_none() {
                args.provider = Some(p.provider);
            }
        },
        AddProviderChoice::Custom(k) => {
            args.provider = Some(*k);
        },
    }
    args
}

/// The name that is offered: the preset's, or else the provider's.
pub open spec fn offered_name(args: KeysArgsV) -> Option<Seq<char>> {
    match args.preset {
        Some(alias) => Some(alias),
        None => match args.provider {
            Some(k) => Some(k.name()),
            None => None,
        },
    }
}

pub fn default_name(args: &KeysArgs) -> (r: Option<String>)
    ensures
        r.views() == offered_name(args@),
{
    match &args.preset {
        Some(alias) => Some(alias.clone()),
        None => match args.provider {
            Some(k) => Some(default_key_name_for_provider(k)),
            None => None,
        },
    }
}

/// The URL that is offered; nothing is asked where a preset has one.
pub enum UrlQuestionV {
    Skip,
    Ask(Option<Seq<char>>),
}

/// Whether the URL is asked for, and which one is offered.
#[derive(Debug)]
pub enum UrlQuestion {
    Skip,
    Ask(Option<&'static str>),
}

impl View for UrlQuestion {
    type V = UrlQuestionV;

    open spec fn view(&self) -> UrlQuestionV {
        match self {
            UrlQuestion::Skip => UrlQuestionV::Skip,
            UrlQuestion::Ask(o) => UrlQuestionV::Ask(o.views()),
        }
    }
}

pub open spec fn url_asked(args: KeysArgsV) -> UrlQuestionV {
    if args.preset is Some {
        UrlQuestionV::Skip
    } else {
        UrlQuestionV::Ask(
            match args.provider {
                Some(k) => Some(crate::provider::base_url_of(k)),
                None => None,
            },
        )
    }
}

pub fn url_question(args: &KeysArgs) -> (r: UrlQuestion)
    ensures
        r@ == url_asked(args@),
{
    if args.preset.is_some() {
        return UrlQuestion::Skip;
    }
    UrlQuestion::Ask(
        match args.provider {
            Some(k) => Some(crate::provider::default_base_url(k)),
            None => None,
        },
    )
}

/// The arguments with the user's name for the key, if it is not empty.
pub fn with_name(args: KeysArgs, name: String) -> (r: KeysArgs)
    ensures
        r@ == if name@.len() == 0 {
            args@
        } else {
            KeysArgsV { name: Some(name@), ..args@ }
        },
{
    let mut args = args;
    if !name.as_str().is_empty() {
        args.name = Some(name);
    }
    args
}

/// The arguments with the user's URL, which is needed.
pub fn with_base_url(args: KeysArgs, base_url: String) -> (r: Result<KeysArgs, Fault>)
    ensures
        r.views() == if base_url@.len() == 0 {
            Err("Base URL is required."@)
        } else {
            Ok(KeysArgsV { base_url: Some(base_url@), ..args@ })
        },
{
    if base_url.as_str().is_empty() {
        return Err(Fault::new("Base URL is required."));
    }
    let mut args = args;
    args.base_url = Some(base_url);
    Ok(args)
}

/// Which credential is asked for.
#[derive(Debug, Clone, Copy, PartialEq, Eq, Structural)]
pub enum Credential {
    /// None: there is a login of its own.
    Login,
    OauthToken,
    ApiKey,
}

pub open spec fn credential_of(args: KeysArgsV) -> Credential {
    if args.preset == Some("github-copilot"@) {
        Credential::Login
    } else if args.provider == Some(ProviderKind::CodexOauth) || args.provider == Some(
        ProviderKind::ClaudeOauth,
    ) {
        Credential::OauthToken
    } else {
        Credential::ApiKey
    }
}

/// Which credential is asked for.
pub fn credential_wanted(args: &KeysArgs) -> (r: Credential)
    ensures
        r == credential_of(args@),
{
    if let Some(alias) = &args.preset {
        if *alias.as_str() == *"github-copilot" {
            return Credential::Login;
        }
    }
    match args.provider {
        Some(ProviderKind::CodexOauth) | Some(ProviderKind::ClaudeOauth) => Credential::OauthToken,
        _ => Credential::ApiKey,
    }
}

/// The arguments with the credential that was asked for, which is needed.
pub open spec fn credited(args: KeysArgsV, text: Seq<char>) -> Result<KeysArgsV, Seq<char>> {
    match credential_of(args) {
        Credential::Login => Ok(args),
        Credential::OauthToken => if text.len() == 0 {
            Err("OAuth token is required."@)
        } else {
            Ok(KeysArgsV { oauth_token: Some(text), ..args })
        },
        Credential::ApiKey => if text.len() == 0 {
            Err("API key is required."@)
        } else {
            Ok(KeysArgsV { key: Some(text), ..args })
        },
    }
}

pub fn with_credential(args: KeysArgs, text: String) -> (r: Result<KeysArgs, Fault>)
    ensures
        r.views() == credited(args@, text@),
{
    let mut args = args;
    match credential_wanted(&args) {
        Credential::Login => Ok(args),
        Credential::OauthToken => {
            if text.as_str().is_empty() {
                return Err(Fault::new("OAuth token is required."));
            }
            args.oauth_token = Some(text);
            Ok(args)
        },
        Credential::ApiKey => {
            if text.as_str().is_empty() {
                return Err(Fault::new("API key is required."));
            }
            args.key = Some(text);
            Ok(args)
        },
    }
}

// ---------------------------------------------------------------- adding a key

/// The preset that the arguments name.
pub open spec fn preset_named(args: KeysArgsV) -> Result<Option<PresetV>, Seq<char>> {
    match args.preset {
        None => Ok(None),
        Some(alias) => match crate::provider::preset_resolved(alias) {
            Ok(p) => Ok(Some(p)),
            Err(e) => Err(e),
        },
    }
}

pub fn preset_for(args: &KeysArgs) -> (r: Result<Option<BuiltinPreset>, Fault>)
    ensures
        match r {
            Ok(o) => preset_named(args@) == Ok::<_, Seq<char>>(o.views()),
            Err(e) => preset_named(args@) == Err::<Option<PresetV>, _>(e@),
        },
{
    match &args.preset {
        None => Ok(None),
        Some(alias) => match crate::provider::resolve_builtin_preset(alias.as_str()) {
            Ok(p) => Ok(Some(p)),
            Err(e) => Err(e),
        },
    }
}

/// A key that is about to be added.
#[derive(Debug)]
pub struct KeyDraft {
    pub name: String,
    pub provider: ProviderKind,
    pub base_url: String,
    pub secret: Option<String>,
    pub oauth_token: Option<String>,
    pub preset_alias: Option<String>,
    pub models_dev_provider_name: Option<String>,
    /// The protocol, where it is known without asking the endpoint.
    pub wire: Option<WireProtocol>,
}

pub struct KeyDraftV {
    pub name: Seq<char>,
    pub provider: ProviderKind,
    pub base_url: Seq<char>,
    pub secret: Option<Seq<char>>,
    pub oauth_token: Option<Seq<char>>,
    pub preset_alias: Option<Seq<char>>,
    pub models_dev_provider_name: Option<Seq<char>>,
    pub wire: Option<WireProtocol>,
}

impl View for KeyDraft {
    type V = KeyDraftV;

    open spec fn view(&self) -> KeyDraftV {
        KeyDraftV {
            name: self.name@,
            provider: self.provider,
            base_url: self.base_url@,
            secret: self.secret.views(),
            oauth_token: self.oauth_token.views(),
            preset_alias: self.preset_alias.views(),
            models_dev_provider_name: self.models_dev_provider_name.views(),
            wire: self.wire,
        }
    }
}

/// The first of three that is there.
pub open spec fn first_of<T>(a: Option<T>, b: Option<T>, c: Option<T>) -> Option<T> {
    if a is Some {
        a
    } else if b is Some {
        b
    } else {
        c
    }
}

/// The name of a new key: as it was given, or else the first argument, or else the preset's alias.
pub open spec fn name_for(args: KeysArgsV, preset: Option<PresetV>) -> Option<Seq<char>> {
    first_of(
        args.name,
        if args.args.len() > 0 {
            Some(args.args[0])
        } else {
            None
        },
        match preset {
            Some(p) => Some(p.alias),
            None => None,
        },
    )
}

/// The kind of provider of a new key.
pub open spec fn provider_for(
    args: KeysArgsV,
    preset: Option<PresetV>,
    catalog: Option<ModelsDevProviderV>,
) -> ProviderKind {
    match first_of(
        args.provider,
        match preset {
            Some(p) => Some(p.provider),
            None => None,
        },
        match catalog {
            Some(c) => crate::models::kind_of(c.npm),
            None => None,
        },
    ) {
        Some(k) => k,
        None => ProviderKind::Openai,
    }
}

/// The protocol of a new key, where it is known without asking the endpoint.
pub open spec fn wire_known(
    args: KeysArgsV,
    preset: Option<PresetV>,
    catalog: Option<ModelsDevProviderV>,
) -> Option<WireProtocol> {
    first_of(
        args.wire,
        match preset {
            Some(p) => Some(p.wire),
            None => None,
        },
        match catalog {
            Some(c) => match crate::models::package_wire(c.npm) {
                Some(wire) => Some(wire),
                None => Some(crate::provider::wire_of(provider_for(args, preset, catalog))),
            },
            None => None,
        },
    )
}

/// A new key from what the arguments, the preset and the catalog say.
pub open spec fn draft_of(
    args: KeysArgsV,
    preset: Option<PresetV>,
    catalog: Option<ModelsDevProviderV>,
) -> Result<KeyDraftV, Seq<char>> {
    match name_for(args, preset) {
        None => Err(
            "Missing key name. Use `swcli keys add <name> ...` or run `swcli keys add` interactively."@,
        ),
        Some(name) => {
            let provider = provider_for(args, preset, catalog);
            Ok(
                KeyDraftV {
                    name,
                    provider,
                    base_url: match first_of(
                        args.base_url,
                        match preset {
                            Some(p) => Some(p.endpoint),
                            None => None,
                        },
                        None,
                    ) {
                        Some(url) => url,
                        None => crate::provider::base_url_of(provider),
                    },
                    secret: args.key,
                    oauth_token: args.oauth_token,
                    preset_alias: match preset {
                        Some(p) => Some(p.alias),
                        None => None,
                    },
                    models_dev_provider_name: match catalog {
                        Some(c) => Some(c.name),
                        None => None,
                    },
                    wire: wire_known(args, preset, catalog),
                },
            )
        },
    }
}

/// Drafts a new key.
pub fn draft_key(
    args: KeysArgs,
    preset: Option<BuiltinPreset>,
    catalog: Option<&ModelsDevProvider>,
) -> (r: Result<KeyDraft, Fault>)
    ensures
        r.views() == draft_of(args@, preset.views(), catalog.views()),
{
    let name = match args.name {
        Some(name) => name,
        None => if args.args.len() > 0 {
            assert(args.args.views()[0] == args.args@[0]@);
            args.args[0].clone()
        } else {
            match preset {
                Some(p) => p.alias.to_string(),
                None => {
                    return Err(
                        Fault::new(
                            "Missing key name. Use `swcli keys add <name> ...` or run `swcli keys add` interactively.",
                        ),
                    );
                },
            }
        },
    };
    let provider = match args.provider {
        Some(k) => k,
        None => match preset {
            Some(p) => p.provider,
            None => match catalog {
                Some(c) => match crate::models::infer_provider_kind(c) {
                    Some(k) => k,
                    None => ProviderKind::Openai,
                },
                None => ProviderKind::Openai,
            },
        },
    };
    let base_url = match args.base_url {
        Some(url) => url,
        None => match preset {
            Some(p) => p.endpoint.to_string(),
            None => crate::provider::default_base_url(provider).to_string(),
        },
    };
    let wire = match args.wire {
        Some(wire) => Some(wire),
        None => match preset {
            Some(p) => Some(p.wire),
            None => match catalog {
                Some(c) => match crate::models::infer_wire_protocol(c) {
                    Some(wire) => Some(wire),
                    None => Some(crate::provider::default_wire_for_provider(provider)),
                },
                None => None,
            },
        },
    };
    Ok(
        KeyDraft {
            name,
            provider,
            base_url,
            secret: args.key,
            oauth_token: args.oauth_token,
            preset_alias: match preset {
                Some(p) => Some(p.alias.to_string()),
                None => None,
            },
            models_dev_provider_name: match catalog {
                Some(c) => Some(c.name.clone()),
                None => None,
            },
            wire,
        },
    )
}

impl KeyDraftV {
    /// A login is needed: the preset has one and no token was given.
    pub open spec fn needs_login(self) -> bool {
        self.preset_alias == Some("github-copilot"@) && self.oauth_token is None
    }

    /// Why the key cannot be added, if it cannot: without a terminal there is no login, and without
    /// a login a credential is needed.
    pub open spec fn fault(self, terminal: bool) -> Option<Seq<char>> {
        if self.needs_login() {
            if terminal {
                None
            } else {
                Some(
                    "Missing GitHub Copilot login. Run `swcli keys add "@ + self.name
                        + " --preset github-copilot` interactively to complete device login."@,
                )
            }
        } else if self.secret is None && self.oauth_token is None {
            Some(
                "Missing credential. Pass --key/--oauth-token or run `swcli keys add` interactively."@,
            )
        } else {
            None
        }
    }

    /// What an endpoint is shown to find out its protocol.
    pub open spec fn token(self) -> Seq<char> {
        match first_of(self.secret, self.oauth_token, None) {
            Some(t) => t,
            None => Seq::empty(),
        }
    }

    /// The key.
    pub open spec fn key(self, wire: WireProtocol, id: Seq<char>, created_at: Seq<char>) -> ApiKeyV {
        ApiKeyV {
            id,
            name: self.name,
            base_url: self.base_url,
            provider: self.provider,
            wire: Some(wire),
            secret: self.secret,
            oauth_token: self.oauth_token,
            preset_alias: self.preset_alias,
            models_dev_provider_name: self.models_dev_provider_name,
            created_at,
        }
    }
}

impl KeyDraft {
    /// Whether a login is needed.
    pub fn needs_login(&self) -> (r: bool)
        ensures
            r == self@.needs_login(),
    {
        match &self.preset_alias {
            Some(alias) => *alias.as_str() == *"github-copilot" && self.oauth_token.is_none(),
            None => false,
        }
    }

    /// Tells why the key cannot be added.
    pub fn fault(&self, terminal: bool) -> (r: Option<Fault>)
        ensures
            r.views() == self@.fault(terminal),
    {
        if self.needs_login() {
            if terminal {
                return None;
            }
            return Some(
                Fault::about(
                    "Missing GitHub Copilot login. Run `swcli keys add ",
                    self.name.as_str(),
                    " --preset github-copilot` interactively to complete device login.",
                ),
            );
        }
        if self.secret.is_none() && self.oauth_token.is_none() {
            return Some(
                Fault::new(
                    "Missing credential. Pass --key/--oauth-token or run `swcli keys add` interactively.",
                ),
            );
        }
        None
    }

    /// Takes the token of a login.
    pub fn set_login(&mut self, token: String)
        ensures
            final(self)@ == (KeyDraftV { oauth_token: Some(token@), ..old(self)@ }),
    {
        self.oauth_token = Some(token);
    }

    /// What an endpoint is shown to find out its protocol.
    pub fn token(&self) -> (r: String)
        ensures
            r@ == self@.token(),
    {
        match &self.secret {
            Some(s) => s.clone(),
            None => match &self.oauth_token {
                Some(t) => t.clone(),
                None => {
                    let empty = String::new();
                    assert(empty@ =~= Seq::<char>::empty());
                    empty
                },
            },
        }
    }

    /// The key.
    pub fn into_key(self, wire: WireProtocol, id: String, created_at: String) -> (r: ApiKey)
        ensures
            r@ == self@.key(wire, id@, created_at@),
    {
        ApiKey {
            id,
            name: self.name,
            base_url: self.base_url,
            provider: self.provider,
            wire: Some(wire),
            secret: self.secret,
            oauth_token: self.oauth_token,
            preset_alias: self.preset_alias,
            models_dev_provider_name: self.models_dev_provider_name,
            created_at,
        }
    }
}

impl ConfigV {
    /// With a key added; the first one becomes the default.
    pub open spec fn added(self, key: ApiKeyV) -> ConfigV {
        ConfigV {
            keys: self.keys.push(key),
            active_key_id: match self.active_key_id {
                Some(id) => Some(id),
                None => Some(key.id),
            },
        }
    }

    /// With a key as the default.
    pub open spec fn defaulted(self, key: ApiKeyV) -> ConfigV {
        ConfigV { active_key_id: Some(key.id), ..self }
    }

    /// Without the keys of an id. Where one of them was the default, the first that is left is.
    pub open spec fn removed(self, id: Seq<char>) -> ConfigV {
        let keys = kept_upto(self.keys, id, self.keys.len());
        ConfigV {
            keys,
            active_key_id: if self.active_key_id == Some(id) {
                if keys.len() > 0 {
                    Some(keys[0].id)
                } else {
                    None
                }
            } else {
                self.active_key_id
            },
        }
    }
}

/// Those of the first `n` keys that have another id.
pub open spec fn kept_upto(keys: Seq<ApiKeyV>, id: Seq<char>, n: nat) -> Seq<ApiKeyV>
    decreases n,
{
    if n == 0 {
        Seq::empty()
    } else {
        let rest = kept_upto(keys, id, (n - 1) as nat);
        if keys[n - 1].id != id {
            rest.push(keys[n - 1])
        } else {
            rest
        }
    }
}

/// A message on a key: its name and id.
pub open spec fn key_message(before: Seq<char>, key: ApiKeyV, after: Seq<char>) -> Seq<char> {
    before + key.name + (" ("@ + key.id + after)
}

fn message_on(before: &str, key: &ApiKey, after: &str) -> (r: String)
    ensures
        r@ == key_message(before@, key@, after@),
{
    crate::text::cat3(
        before,
        key.name.as_str(),
        crate::text::cat3(" (", key.id.as_str(), after).as_str(),
    )
}

/// Adds a key, and tells so.
pub fn add_key(config: &mut Config, key: ApiKey) -> (r: String)
    ensures
        final(config)@ == old(config)@.added(key@),
        r@ == key_message("Added key "@, key@, ")."@),
{
    let message = message_on("Added key ", &key, ").");
    if config.active_key_id.is_none() {
        config.active_key_id = Some(key.id.clone());
    }
    crate::views::push(&mut config.keys, key);
    message
}

// ---------------------------------------------------------------- choosing and removing

/// The key that the first argument stands for.
pub open spec fn target_of(config: ConfigV, args: KeysArgsV) -> Result<ApiKeyV, Seq<char>> {
    if args.args.len() == 0 {
        Err("Missing key id or name."@)
    } else {
        config.resolve_key(args.args[0])
    }
}

fn target(config: &Config, args: &KeysArgs) -> (r: Result<ApiKey, Fault>)
    ensures
        r.views() == target_of(config@, args@),
{
    if args.args.len() == 0 {
        return Err(Fault::new("Missing key id or name."));
    }
    assert(args.args.views()[0] == args.args@[0]@);
    config.resolve_key(args.args[0].as_str())
}

/// Makes a key the default, and tells so; nothing changes where it is not found.
pub fn default_key(config: &mut Config, args: &KeysArgs) -> (r: Result<String, Fault>)
    ensures
        match target_of(old(config)@, args@) {
            Ok(key) => r.views() == Ok::<_, Seq<char>>(
                key_message("Default key: "@, key, ")"@),
            ) && final(config)@ == old(config)@.defaulted(key),
            Err(e) => r.views() == Err::<Seq<char>, _>(e) && final(config)@ == old(config)@,
        },
{
    match target(config, args) {
        Ok(key) => {
            let message = message_on("Default key: ", &key, ")");
            config.set_active(key.id);
            Ok(message)
        },
        Err(e) => Err(e),
    }
}

/// Removes a key, and tells so; nothing changes where it is not found.
pub fn remove_key(config: &mut Config, args: &KeysArgs) -> (r: Result<String, Fault>)
    ensures
        match target_of(old(config)@, args@) {
            Ok(key) => r.views() == Ok::<_, Seq<char>>(key_message("Removed key "@, key, ")."@))
                && final(config)@ == old(config)@.removed(key.id),
            Err(e) => r.views() == Err::<Seq<char>, _>(e) && final(config)@ == old(config)@,
        },
{
    let key = match target(config, args) {
        Ok(key) => key,
        Err(e) => {
            return Err(e);
        },
    };
    let mut keys: Vec<ApiKey> = crate::views::none();
    let n: usize = config.keys.len();
    for i in 0..n
        invariant
            n == config.keys@.len(),
            config@ == old(config)@,
            keys.views() == kept_upto(config.keys.views(), key@.id, i as nat),
    {
        assert(config.keys.views()[i as int] == config.keys@[i as int]@);
        if *config.keys[i].id.as_str() != *key.id.as_str() {
            crate::views::push(&mut keys, config.keys[i].dup());
        }
    }
    if config.is_active(&key) {
        config.active_key_id = if keys.len() > 0 {
            assert(keys.views()[0] == keys@[0]@);
            Some(keys[0].id.clone())
        } else {
            None
        };
    }
    config.keys = keys;
    Ok(message_on("Removed key ", &key, ")."))
}

/// The default, where there is one, is the id of a stored key.
pub open spec fn default_stored(config: ConfigV) -> bool {
    config.active_key_id matches Some(id) ==> exists|i: int|
        0 <= i < config.keys.len() && (#[trigger] config.keys[i]).id == id
}

proof fn lemma_kept(keys: Seq<ApiKeyV>, id: Seq<char>, n: nat)
    requires
        n <= keys.len(),
    ensures
        forall|i: int|
            0 <= i < kept_upto(keys, id, n).len() ==> (#[trigger] kept_upto(keys, id, n)[i]).id
                != id,
        forall|i: int|
            0 <= i < n && (#[trigger] keys[i]).id != id ==> kept_upto(keys, id, n).contains(
                keys[i],
            ),
    decreases n,
{
    if n > 0 {
        lemma_kept(keys, id, (n - 1) as nat);
        let rest = kept_upto(keys, id, (n - 1) as nat);
        let all = kept_upto(keys, id, n);
        assert forall|i: int| 0 <= i < n && (#[trigger] keys[i]).id != id implies all.contains(
            keys[i],
        ) by {
            if i < n - 1 {
                let j = choose|j: int| 0 <= j < rest.len() && rest[j] == keys[i];
                assert(all[j] == keys[i]);
            } else {
                assert(all[all.len() - 1] == keys[i]);
            }
        }
    }
}

/// Adding and removing keys keep the default among the stored keys, and no key of a removed id is
/// left.
pub proof fn lemma_default_stays_stored(config: ConfigV, key: ApiKeyV, id: Seq<char>)
    requires
        default_stored(config),
    ensures
        default_stored(config.added(key)),
        default_stored(config.removed(id)),
        forall|i: int|
            0 <= i < config.removed(id).keys.len() ==> (#[trigger] config.removed(id).keys[i]).id
                != id,
        config.added(key).active_key_id is Some,
{
    let a = config.added(key);
    assert(a.keys[config.keys.len() as int] == key);
    if let Some(d) = config.active_key_id {
        let i = choose|i: int| 0 <= i < config.keys.len() && (#[trigger] config.keys[i]).id == d;
        assert(a.keys[i].id == d);
        lemma_kept(config.keys, id, config.keys.len());
        if d != id {
            let r = config.removed(id);
            let j = choose|j: int| 0 <= j < r.keys.len() && r.keys[j] == config.keys[i];
            assert(r.keys[j].id == d);
        } else {
            let r = config.removed(id);
            if r.keys.len() > 0 {
                assert(r.keys[0].id == r.active_key_id->0);
            }
        }
    } else {
        lemma_kept(config.keys, id, config.keys.len());
    }
}

// ---------------------------------------------------------------- changing a key

/// A change of a key.
#[derive(Debug)]
pub struct KeyEdit {
    /// The key as it is to be.
    pub key: ApiKey,
    /// Its protocol is found out anew, with this token.
    pub probe: Option<String>,
}

/// The protocol is to be found out anew: where the key points to another place and no protocol is
/// given.
pub open spec fn reprobes(args: KeysArgsV) -> bool {
    args.wire is None && (args.base_url is Some || args.provider is Some)
}

/// A key with what the arguments change.
pub open spec fn edited(key: ApiKeyV, args: KeysArgsV) -> ApiKeyV {
    ApiKeyV {
        name: match args.name {
            Some(s) => s,
            None => key.name,
        },
        base_url: match args.base_url {
            Some(s) => s,
            None => key.base_url,
        },
        secret: first_of(args.key, key.secret, None),
        oauth_token: first_of(args.oauth_token, key.oauth_token, None),
        provider: match args.provider {
            Some(k) => k,
            None => key.provider,
        },
        wire: first_of(args.wire, key.wire, None),
        ..key
    }
}

/// The change that the arguments ask for, of the first stored key with the id that they lead to.
pub open spec fn edit_of(config: ConfigV, args: KeysArgsV) -> Result<
    (ApiKeyV, Option<Seq<char>>),
    Seq<char>,
> {
    match target_of(config, args) {
        Err(e) => Err(e),
        Ok(target) => {
            let key = first_of_id(config, target);
            if reprobes(args) {
                match edited(key, args).plain_secret() {
                    Ok(token) => Ok((edited(key, args), Some(token))),
                    Err(e) => Err(e),
                }
            } else {
                Ok((edited(key, args), None))
            }
        },
    }
}

/// The first stored key with the id of a key.
pub open spec fn first_of_id(config: ConfigV, key: ApiKeyV) -> ApiKeyV {
    match id_from(config.keys, key.id, 0) {
        Some(i) => config.keys[i],
        None => key,
    }
}

fn find_first_of_id(config: &Config, key: ApiKey) -> (r: ApiKey)
    ensures
        r@ == first_of_id(config@, key@),
{
    let n: usize = config.keys.len();
    let mut i: usize = 0;
    while i < n
        invariant
            n == config.keys@.len(),
            i <= n,
            id_from(config@.keys, key@.id, 0) == id_from(config@.keys, key@.id, i as int),
        decreases n - i,
    {
        assert(config@.keys[i as int] == config.keys@[i as int]@);
        if *config.keys[i].id.as_str() == *key.id.as_str() {
            return config.keys[i].dup();
        }
        i = i + 1;
    }
    key
}

/// Tells what the arguments change of a key.
pub fn edit_key(config: &Config, args: &KeysArgs) -> (r: Result<KeyEdit, Fault>)
    ensures
        match r {
            Ok(e) => edit_of(config@, args@) == Ok::<_, Seq<char>>((e.key@, e.probe.views())),
            Err(e) => edit_of(config@, args@) == Err::<(ApiKeyV, Option<Seq<char>>), _>(e@),
        },
{
    let mut key = match target(config, args) {
        Ok(key) => find_first_of_id(config, key),
        Err(e) => {
            return Err(e);
        },
    };
    if let Some(name) = &args.name {
        key.name = name.clone();
    }
    if let Some(url) = &args.base_url {
        key.base_url = url.clone();
    }
    if let Some(secret) = &args.key {
        key.secret = Some(secret.clone());
    }
    if let Some(token) = &args.oauth_token {
        key.oauth_token = Some(token.clone());
    }
    if let Some(provider) = args.provider {
        key.provider = provider;
    }
    if args.wire.is_some() {
        key.wire = args.wire;
        return Ok(KeyEdit { key, probe: None });
    }
    if args.base_url.is_some() || args.provider.is_some() {
        return match key.plain_secret() {
            Ok(token) => Ok(KeyEdit { key, probe: Some(token) }),
            Err(e) => Err(e),
        };
    }
    Ok(KeyEdit { key, probe: None })
}

/// The first place from the `i`-th on with a key of the id.
pub open spec fn id_from(keys: Seq<ApiKeyV>, id: Seq<char>, i: int) -> Option<int>
    decreases keys.len() - i,
{
    if i < 0 || i >= keys.len() {
        None
    } else if keys[i].id == id {
        Some(i)
    } else {
        id_from(keys, id, i + 1)
    }
}

/// With a key in place of the first one of its id.
pub open spec fn replaced(config: ConfigV, key: ApiKeyV) -> ConfigV {
    match id_from(config.keys, key.id, 0) {
        Some(i) => ConfigV { keys: config.keys.update(i, key), ..config },
        None => config,
    }
}

/// Stores a changed key, and tells so.
pub fn store_edit(config: &mut Config, key: ApiKey) -> (r: String)
    ensures
        final(config)@ == replaced(old(config)@, key@),
        r@ == key_message("Updated key "@, key@, ")."@),
{
    let message = message_on("Updated key ", &key, ").");
    let n: usize = config.keys.len();
    let mut i: usize = 0;
    while i < n
        invariant
            n == config.keys@.len(),
            i <= n,
            config@ == old(config)@,
            message@ == key_message("Updated key "@, key@, ")."@),
            id_from(config@.keys, key@.id, 0) == id_from(config@.keys, key@.id, i as int),
        decreases n - i,
    {
        assert(config@.keys[i as int] == config.keys@[i as int]@);
        if *config.keys[i].id.as_str() == *key.id.as_str() {
            config.keys.set(i, key);
            assert(config@.keys =~= old(config)@.keys.update(i as int, key@));
            return message;
        }
        i = i + 1;
    }
    message
}

/// A change keeps the id of the key, and leaves all that the arguments do not name.
pub proof fn lemma_edit_keeps(key: ApiKeyV, args: KeysArgsV)
    ensures
        edited(key, args).id == key.id,
        edited(key, args).created_at == key.created_at,
        edited(key, args).preset_alias == key.preset_alias,
        args.name is None ==> edited(key, args).name == key.name,
        args.key is None ==> edited(key, args).secret == key.secret,
        args.oauth_token is None ==> edited(key, args).oauth_token == key.oauth_token,
        args.wire is None ==> edited(key, args).wire == key.wire,
{
}

// ---------------------------------------------------------------- showing keys

/// A key as it is shown: whether it has secrets, but not which.
pub open spec fn cat_value(config: ConfigV, key: ApiKeyV) -> JsonV {
    JsonV::obj().with("id"@, JsonV::Text(key.id)).with("name"@, JsonV::Text(key.name)).with(
        "baseUrl"@,
        JsonV::Text(key.base_url),
    ).with("provider"@, JsonV::Text(key.provider.name())).with(
        "wire"@,
        JsonV::Text(key.wire_protocol().name()),
    ).with("presetAlias"@, JsonV::text_or_null(key.preset_alias)).with(
        "modelsDevProviderName"@,
        JsonV::text_or_null(key.models_dev_provider_name),
    ).with("active"@, JsonV::Bool(config.is_active(key))).with(
        "hasSecret"@,
        JsonV::Bool(key.secret is Some),
    ).with("hasOAuthToken"@, JsonV::Bool(key.oauth_token is Some)).with(
        "createdAt"@,
        JsonV::Text(key.created_at),
    )
}

/// The key that the first argument stands for, or the default, as it is shown.
pub open spec fn cat_of(config: ConfigV, args: KeysArgsV) -> Result<JsonV, Seq<char>> {
    match config.chosen_key(
        if args.args.len() > 0 {
            Some(args.args[0])
        } else {
            None
        },
    ) {
        Ok(key) => Ok(cat_value(config, key)),
        Err(e) => Err(e),
    }
}

/// Shows a key.
pub fn cat_key(config: &Config, args: &KeysArgs) -> (r: Result<Json, Fault>)
    ensures
        r.views() == cat_of(config@, args@),
{
    let found = if args.args.len() > 0 {
        assert(args.args.views()[0] == args.args@[0]@);
        config.resolve_key(args.args[0].as_str())
    } else {
        config.active_key()
    };
    match found {
        Ok(key) => Ok(
            Json::object().with("id", Json::text(key.id.as_str())).with(
                "name",
                Json::text(key.name.as_str()),
            ).with("baseUrl", Json::text(key.base_url.as_str())).with(
                "provider",
                Json::text(key.provider.to_string().as_str()),
            ).with("wire", Json::text(key.wire_protocol().as_str())).with(
                "presetAlias",
                Json::text_or_null(&key.preset_alias),
            ).with(
                "modelsDevProviderName",
                Json::text_or_null(&key.models_dev_provider_name),
            ).with("active", Json::Bool(config.is_active(&key))).with(
                "hasSecret",
                Json::Bool(key.secret.is_some()),
            ).with("hasOAuthToken", Json::Bool(key.oauth_token.is_some())).with(
                "createdAt",
                Json::text(key.created_at.as_str()),
            ),
        ),
        Err(e) => Err(e),
    }
}

/// No secret is shown: two keys that differ in nothing but the text of their secrets look alike.
pub proof fn lemma_cat_hides_secrets(config: ConfigV, key: ApiKeyV, other: ApiKeyV)
    requires
        key.secret is Some <==> other.secret is Some,
        key.oauth_token is Some <==> other.oauth_token is Some,
        (ApiKeyV { secret: None, oauth_token: None, ..key }) == (ApiKeyV {
            secret: None,
            oauth_token: None,
            ..other
        }),
    ensures
        cat_value(config, key) == cat_value(config, other),
{
    let k = ApiKeyV { secret: None, oauth_token: None, ..key };
    let o = ApiKeyV { secret: None, oauth_token: None, ..other };
    assert(k.id == o.id && k.name == o.name && k.base_url == o.base_url && k.provider == o.provider
        && k.wire == o.wire && k.preset_alias == o.preset_alias && k.models_dev_provider_name
        == o.models_dev_provider_name && k.created_at == o.created_at);
}

/// What a provider answered.
#[derive(Debug)]
pub struct PingResult {
    pub ok: bool,
    pub message: String,
}

pub struct PingResultV {
    pub ok: bool,
    pub message: Seq<char>,
}

impl View for PingResult {
    type V = PingResultV;

    open spec fn view(&self) -> PingResultV {
        PingResultV { ok: self.ok, message: self.message@ }
    }
}

/// What asking a provider for its models came to: how many there are, or why it failed.
pub open spec fn ping_of(models: Result<usize, Seq<char>>) -> PingResultV {
    match models {
        Ok(n) => PingResultV { ok: true, message: crate::text::decimal(n as nat) + " models"@ },
        Err(e) => PingResultV { ok: false, message: e },
    }
}

pub fn ping_key(models: Result<usize, String>) -> (r: PingResult)
    ensures
        r@ == ping_of(
            match models {
                Ok(n) => Ok(n),
                Err(e) => Err(e@),
            },
        ),
{
    match models {
        Ok(n) => PingResult {
            ok: true,
            message: crate::text::cat(crate::text::decimal_text(n as u64).as_str(), " models"),
        },
        Err(e) => PingResult { ok: false, message: e },
    }
}

/// A key in the list, with what its provider answered where it was asked.
pub open spec fn row_value(config: ConfigV, key: ApiKeyV, ping: Option<PingResultV>) -> JsonV {
    JsonV::obj().with("id"@, JsonV::Text(key.id)).with("name"@, JsonV::Text(key.name)).with(
        "provider"@,
        JsonV::Text(key.provider.name()),
    ).with("wire"@, JsonV::Text(key.wire_protocol().name())).with(
        "baseUrl"@,
        JsonV::Text(key.base_url),
    ).with("presetAlias"@, JsonV::text_or_null(key.preset_alias)).with(
        "modelsDevProviderName"@,
        JsonV::text_or_null(key.models_dev_provider_name),
    ).with("active"@, JsonV::Bool(config.is_active(key))).with(
        "ping"@,
        match ping {
            Some(p) => JsonV::obj().with("ok"@, JsonV::Bool(p.ok)).with(
                "message"@,
                JsonV::Text(p.message),
            ),
            None => JsonV::Null,
        },
    )
}

fn row_json(config: &Config, key: &ApiKey, ping: &Option<PingResult>) -> (r: Json)
    ensures
        r@ == row_value(config@, key@, ping.views()),
{
    let ping = match ping {
        Some(p) => Json::object().with("ok", Json::Bool(p.ok)).with(
            "message",
            Json::text(p.message.as_str()),
        ),
        None => Json::Null,
    };
    Json::object().with("id", Json::text(key.id.as_str())).with(
        "name",
        Json::text(key.name.as_str()),
    ).with("provider", Json::text(key.provider.to_string().as_str())).with(
        "wire",
        Json::text(key.wire_protocol().as_str()),
    ).with("baseUrl", Json::text(key.base_url.as_str())).with(
        "presetAlias",
        Json::text_or_null(&key.preset_alias),
    ).with("modelsDevProviderName", Json::text_or_null(&key.models_dev_provider_name)).with(
        "active",
        Json::Bool(config.is_active(key)),
    ).with("ping", ping)
}

/// A text with blanks behind it up to a width.
pub open spec fn padded(s: Seq<char>, width: nat) -> Seq<char>
    decreases width - s.len(),
{
    if s.len() >= width {
        s
    } else {
        padded(s.push(' '), width)
    }
}

fn pad(s: &str, width: usize) -> (r: String)
    ensures
        r@ == padded(s@, width as nat),
{
    let mut n: usize = crate::text::chars_of(s).len();
    let mut out = s.to_string();
    while n < width
        invariant
            n == out@.len(),
            padded(s@, width as nat) == padded(out@, width as nat),
        decreases width - n,
    {
        out.push(' ');
        n = n + 1;
    }
    out
}

/// A padded text holds the text and is at least as wide as asked.
pub proof fn lemma_padded(s: Seq<char>, width: nat)
    ensures
        padded(s, width).len() == if s.len() >= width {
            s.len()
        } else {
            width
        },
        crate::text::begins(padded(s, width), s),
    decreases width - s.len(),
{
    if s.len() < width {
        lemma_padded(s.push(' '), width);
        assert(padded(s, width).subrange(0, s.len() as int) =~= padded(s, width).subrange(
            0,
            (s.len() + 1) as int,
        ).subrange(0, s.len() as int));
        assert(s.push(' ').subrange(0, s.len() as int) =~= s);
    } else {
        assert(s.subrange(0, s.len() as int) =~= s);
    }
}

/// The line of a key in the list.
pub open spec fn row_line(config: ConfigV, key: ApiKeyV, ping: Option<PingResultV>) -> Seq<char> {
    let mark = if config.is_active(key) {
        "* "@
    } else {
        "  "@
    };
    let answer = match ping {
        Some(p) => if p.ok {
            " ok"@
        } else {
            " fail"@
        },
        None => Seq::empty(),
    };
    mark + padded(key.id, 12) + (" "@ + padded(key.provider.name(), 14) + (" "@ + padded(
        key.wire_protocol().name(),
        20,
    ) + (" "@ + key.name + answer)))
}

fn line_of(config: &Config, key: &ApiKey, ping: &Option<PingResult>) -> (r: String)
    ensures
        r@ == row_line(config@, key@, ping.views()),
{
    let mark = if config.is_active(key) {
        "* "
    } else {
        "  "
    };
    let empty = String::new();
    assert(empty@ =~= Seq::<char>::empty());
    let answer = match ping {
        Some(p) => if p.ok {
            " ok"
        } else {
            " fail"
        },
        None => empty.as_str(),
    };
    let tail = crate::text::cat3(" ", key.name.as_str(), answer);
    let wire = crate::text::cat3(
        " ",
        pad(key.wire_protocol().as_str(), 20).as_str(),
        tail.as_str(),
    );
    let provider = crate::text::cat3(
        " ",
        pad(key.provider.to_string().as_str(), 14).as_str(),
        wire.as_str(),
    );
    crate::text::cat3(mark, pad(key.id.as_str(), 12).as_str(), provider.as_str())
}

/// The list of keys as JSON.
pub fn list_json(config: &Config, pings: &Vec<Option<PingResult>>) -> (r: Json)
    requires
        pings@.len() == config.keys@.len(),
    ensures
        r@ == JsonV::Array(
            Seq::new(
                config@.keys.len(),
                |i: int| row_value(config@, config@.keys[i], pings@[i].views()),
            ),
        ),
{
    let mut rows: Vec<Json> = Vec::new();
    let n: usize = config.keys.len();
    for i in 0..n
        invariant
            n == config.keys@.len(),
            pings@.len() == n,
            rows@.len() == i,
            forall|j: int|
                0 <= j < i ==> (#[trigger] rows@[j])@ == row_value(
                    config@,
                    config@.keys[j],
                    pings@[j].views(),
                ),
    {
        assert(config@.keys[i as int] == config.keys@[i as int]@);
        rows.push(row_json(config, &config.keys[i], &pings[i]));
    }
    assert(rows.views() =~= Seq::new(
        config@.keys.len(),
        |i: int| row_value(config@, config@.keys[i], pings@[i].views()),
    ));
    Json::array(rows)
}

/// The list of keys as lines.
pub fn list_lines(config: &Config, pings: &Vec<Option<PingResult>>) -> (r: Vec<String>)
    requires
        pings@.len() == config.keys@.len(),
    ensures
        r.views() == if config@.keys.len() == 0 {
            Seq::empty().push("No keys configured."@)
        } else {
            Seq::new(
                config@.keys.len(),
                |i: int| row_line(config@, config@.keys[i], pings@[i].views()),
            )
        },
{
    let n: usize = config.keys.len();
    let mut lines: Vec<String> = crate::views::none();
    if n == 0 {
        crate::views::push(&mut lines, "No keys configured.".to_string());
        return lines;
    }
    let mut rows: Vec<String> = Vec::new();
    for i in 0..n
        invariant
            n == config.keys@.len(),
            pings@.len() == n,
            rows@.len() == i,
            forall|j: int|
                0 <= j < i ==> (#[trigger] rows@[j])@ == row_line(
                    config@,
                    config@.keys[j],
                    pings@[j].views(),
                ),
    {
        assert(config@.keys[i as int] == config.keys@[i as int]@);
        rows.push(line_of(config, &config.keys[i], &pings[i]));
    }
    assert(rows.views() =~= Seq::new(
        config@.keys.len(),
        |i: int| row_line(config@, config@.keys[i], pings@[i].views()),
    ));
    rows
}

/// The keys whose providers are asked: all of them, or the one that the first argument stands for.
pub open spec fn asked_of(config: ConfigV, args: KeysArgsV) -> Result<Seq<ApiKeyV>, Seq<char>> {
    if args.all || args.args.len() == 0 {
        Ok(config.keys)
    } else {
        match config.resolve_key(args.args[0]) {
            Ok(key) => Ok(Seq::empty().push(key)),
            Err(e) => Err(e),
        }
    }
}

pub fn keys_to_ping(config: &Config, args: &KeysArgs) -> (r: Result<Vec<ApiKey>, Fault>)
    ensures
        match r {
            Ok(keys) => asked_of(config@, args@) == Ok::<_, Seq<char>>(keys.views()),
            Err(e) => asked_of(config@, args@) == Err::<Seq<ApiKeyV>, _>(e@),
        },
{
    if args.all || args.args.len() == 0 {
        let mut keys: Vec<ApiKey> = Vec::new();
        let n: usize = config.keys.len();
        for i in 0..n
            invariant
                n == config.keys@.len(),
                keys@.len() == i,
                forall|j: int| 0 <= j < i ==> (#[trigger] keys@[j])@ == config.keys@[j]@,
        {
            keys.push(config.keys[i].dup());
        }
        assert(keys.views() =~= config@.keys);
        return Ok(keys);
    }
    assert(args.args.views()[0] == args.args@[0]@);
    match config.resolve_key(args.args[0].as_str()) {
        Ok(key) => {
            let mut keys: Vec<ApiKey> = crate::views::none();
            crate::views::push(&mut keys, key);
            Ok(keys)
        },
        Err(e) => Err(e),
    }
}

/// What a key's provider answered, as JSON.
pub open spec fn ping_value(key: ApiKeyV, ping: PingResultV) -> JsonV {
    JsonV::obj().with("id"@, JsonV::Text(key.id)).with("name"@, JsonV::Text(key.name)).with(
        "wire"@,
        JsonV::Text(key.wire_protocol().name()),
    ).with("ok"@, JsonV::Bool(ping.ok)).with("message"@, JsonV::Text(ping.message))
}

pub fn ping_json(key: &ApiKey, ping: &PingResult) -> (r: Json)
    ensures
        r@ == ping_value(key@, ping@),
{
    Json::object().with("id", Json::text(key.id.as_str())).with(
        "name",
        Json::text(key.name.as_str()),
    ).with("wire", Json::text(key.wire_protocol().as_str())).with("ok", Json::Bool(ping.ok)).with(
        "message",
        Json::text(ping.message.as_str()),
    )
}

/// What a key's provider answered, as a line.
pub fn ping_line(key: &ApiKey, ping: &PingResult) -> (r: String)
    ensures
        r@ == padded(
            if ping@.ok {
                "ok"@
            } else {
                "fail"@
            },
            4,
        ) + " "@ + (padded(key@.id, 12) + " "@ + ping@.message),
{
    let status = pad(
        if ping.ok {
            "ok"
        } else {
            "fail"
        },
        4,
    );
    let tail = crate::text::cat3(
        pad(key.id.as_str(), 12).as_str(),
        " ",
        ping.message.as_str(),
    );
    crate::text::cat3(status.as_str(), " ", tail.as_str())
}

} // verus!
