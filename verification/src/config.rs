//! Stored keys and what was fetched about models.
use vstd::prelude::*;

use crate::fault::Fault;
use crate::json::{Json, JsonV};
use crate::provider::{ProviderKind, WireProtocol};
use crate::table::Table;
use crate::views::Views;

verus! {

/// A stored key with the provider that it is for.
#[derive(Debug)]
pub struct ApiKey {
    pub id: String,
    pub name: String,
    pub base_url: String,
    pub provider: ProviderKind,
    pub wire: Option<WireProtocol>,
    pub secret: Option<String>,
    pub oauth_token: Option<String>,
    pub preset_alias: Option<String>,
    pub models_dev_provider_name: Option<String>,
    /// The time at which the key was added, as text.
    pub created_at: String,
}

pub struct ApiKeyV {
    pub id: Seq<char>,
    pub name: Seq<char>,
    pub base_url: Seq<char>,
    pub provider: ProviderKind,
    pub wire: Option<WireProtocol>,
    pub secret: Option<Seq<char>>,
    pub oauth_token: Option<Seq<char>>,
    pub preset_alias: Option<Seq<char>>,
    pub models_dev_provider_name: Option<Seq<char>>,
    pub created_at: Seq<char>,
}

impl View for ApiKey {
    type V = ApiKeyV;

    open spec fn view(&self) -> ApiKeyV {
        ApiKeyV {
            id: self.id@,
            name: self.name@,
            base_url: self.base_url@,
            provider: self.provider,
            wire: self.wire,
            secret: self.secret.views(),
            oauth_token: self.oauth_token.views(),
            preset_alias: self.preset_alias.views(),
            models_dev_provider_name: self.models_dev_provider_name.views(),
            created_at: self.created_at@,
        }
    }
}

impl ApiKeyV {
    /// The protocol that follows from the preset, or else from the provider.
    pub open spec fn inferred_wire(self) -> WireProtocol {
        match self.preset_alias {
            Some(alias) => match crate::provider::preset_of(alias) {
                Some(preset) => preset.wire,
                None => crate::provider::wire_of(self.provider),
            },
            None => crate::provider::wire_of(self.provider),
        }
    }

    pub open spec fn wire_protocol(self) -> WireProtocol {
        match self.wire {
            Some(wire) => wire,
            None => self.inferred_wire(),
        }
    }

    pub open spec fn plain_oauth_token(self) -> Result<Seq<char>, Seq<char>> {
        match self.oauth_token {
            Some(token) => Ok(token),
            None => Err("Key `"@ + self.name + "` has no OAuth token."@),
        }
    }

    pub open spec fn plain_secret(self) -> Result<Seq<char>, Seq<char>> {
        match self.secret {
            Some(secret) => Ok(secret),
            None => match self.oauth_token {
                Some(token) => Ok(token),
                None => Err("Key `"@ + self.name + "` has no usable secret."@),
            },
        }
    }

    /// The key belongs to the preset of GitHub Copilot.
    pub open spec fn is_copilot(self) -> bool {
        self.preset_alias == Some("github-copilot"@)
    }

    /// What a query finds: the id, the name or the beginning of the id.
    pub open spec fn answers(self, query: Seq<char>) -> bool {
        self.id == query || self.name == query || crate::text::begins(self.id, query)
    }

    /// The key with its protocol written down.
    pub open spec fn wired(self) -> ApiKeyV {
        ApiKeyV { wire: Some(self.wire_protocol()), ..self }
    }
}

/// The protocol that follows from a key's preset, or else from its provider.
pub fn infer_key_wire(key: &ApiKey) -> (r: WireProtocol)
    ensures
        r == key@.inferred_wire(),
{
    if let Some(alias) = &key.preset_alias {
        if let Ok(preset) = crate::provider::resolve_builtin_preset(alias.as_str()) {
            return preset.wire;
        }
    }
    crate::provider::default_wire_for_provider(key.provider)
}

/// Whether a key belongs to the preset of GitHub Copilot.
pub fn is_github_copilot_key(key: &ApiKey) -> (r: bool)
    ensures
        r == key@.is_copilot(),
{
    match &key.preset_alias {
        Some(alias) => *alias.as_str() == *"github-copilot",
        None => false,
    }
}

impl ApiKey {
    pub fn dup(&self) -> (r: ApiKey)
        ensures
            r@ == self@,
    {
        ApiKey {
            id: self.id.clone(),
            name: self.name.clone(),
            base_url: self.base_url.clone(),
            provider: self.provider,
            wire: self.wire,
            secret: crate::text::clone_opt(&self.secret),
            oauth_token: crate::text::clone_opt(&self.oauth_token),
            preset_alias: crate::text::clone_opt(&self.preset_alias),
            models_dev_provider_name: crate::text::clone_opt(&self.models_dev_provider_name),
            created_at: self.created_at.clone(),
        }
    }

    /// The protocol that the key's endpoint speaks.
    pub fn wire_protocol(&self) -> (r: WireProtocol)
        ensures
            r == self@.wire_protocol(),
    {
        match self.wire {
            Some(wire) => wire,
            None => infer_key_wire(self),
        }
    }

    pub fn plain_oauth_token(&self) -> (r: Result<String, Fault>)
        ensures
            r.views() == self@.plain_oauth_token(),
    {
        match &self.oauth_token {
            Some(token) => Ok(token.clone()),
            None => Err(
                Fault::about("Key `", self.name.as_str(), "` has no OAuth token."),
            ),
        }
    }

    /// What the provider is shown: the secret, or else the OAuth token.
    pub fn plain_secret(&self) -> (r: Result<String, Fault>)
        ensures
            r.views() == self@.plain_secret(),
    {
        match &self.secret {
            Some(secret) => Ok(secret.clone()),
            None => match &self.oauth_token {
                Some(token) => Ok(token.clone()),
                None => Err(
                    Fault::about("Key `", self.name.as_str(), "` has no usable secret."),
                ),
            },
        }
    }

    fn answers(&self, query: &str) -> (r: bool)
        ensures
            r == self@.answers(query@),
    {
        *self.id.as_str() == *query || *self.name.as_str() == *query || crate::text::starts_with(
            self.id.as_str(),
            query,
        )
    }
}

/// The stored keys and which of them is the default.
#[derive(Debug)]
pub struct Config {
    pub keys: Vec<ApiKey>,
    pub active_key_id: Option<String>,
}

pub struct ConfigV {
    pub keys: Seq<ApiKeyV>,
    pub active_key_id: Option<Seq<char>>,
}

impl View for Config {
    type V = ConfigV;

    open spec fn view(&self) -> ConfigV {
        ConfigV { keys: self.keys.views(), active_key_id: self.active_key_id.views() }
    }
}

impl Default for Config {
    fn default() -> (r: Self)
        ensures
            r@ == (ConfigV { keys: Seq::empty(), active_key_id: None }),
    {
        Config { keys: crate::views::none(), active_key_id: None }
    }
}

/// Those of the first `n` keys that a query finds.
pub open spec fn found_upto(keys: Seq<ApiKeyV>, query: Seq<char>, n: nat) -> Seq<ApiKeyV>
    decreases n,
{
    if n == 0 {
        Seq::empty()
    } else {
        let rest = found_upto(keys, query, (n - 1) as nat);
        if keys[n - 1].answers(query) {
            rest.push(keys[n - 1])
        } else {
            rest
        }
    }
}

impl ConfigV {
    /// The one key that a query finds.
    pub open spec fn resolve_key(self, query: Seq<char>) -> Result<ApiKeyV, Seq<char>> {
        let found = found_upto(self.keys, query, self.keys.len());
        if found.len() == 0 {
            Err("No key matches `"@ + query + "`."@)
        } else if found.len() == 1 {
            Ok(found[0])
        } else {
            Err("Multiple keys match `"@ + query + "`; use a longer id."@)
        }
    }

    /// The default key.
    pub open spec fn active_key(self) -> Result<ApiKeyV, Seq<char>> {
        match self.active_key_id {
            Some(id) => self.resolve_key(id),
            None => Err(
                "No default key. Run `swcli keys add ...` or `swcli keys default <name>`."@,
            ),
        }
    }

    /// The key of a query, or the default key where there is none.
    pub open spec fn chosen_key(self, query: Option<Seq<char>>) -> Result<ApiKeyV, Seq<char>> {
        match query {
            Some(q) => self.resolve_key(q),
            None => self.active_key(),
        }
    }

    pub open spec fn is_active(self, key: ApiKeyV) -> bool {
        self.active_key_id == Some(key.id)
    }

    /// With every key's protocol written down.
    pub open spec fn wired(self) -> ConfigV {
        ConfigV {
            keys: Seq::new(self.keys.len(), |i: int| self.keys[i].wired()),
            active_key_id: self.active_key_id,
        }
    }

    /// Some key's protocol is not written down.
    pub open spec fn lacks_wire(self) -> bool {
        exists|i: int| 0 <= i < self.keys.len() && (#[trigger] self.keys[i]).wire is None
    }
}

impl Config {
    pub fn all_keys(&self) -> (r: &Vec<ApiKey>)
        ensures
            r.views() == self@.keys,
    {
        &self.keys
    }

    /// Finds the one key that a query stands for: by its id, its name or the beginning of its id.
    pub fn resolve_key(&self, query: &str) -> (r: Result<ApiKey, Fault>)
        ensures
            r.views() == self@.resolve_key(query@),
    {
        let mut found: Vec<ApiKey> = crate::views::none();
        for i in 0..self.keys.len()
            invariant
                found.views() == found_upto(self.keys.views(), query@, i as nat),
        {
            assert(self.keys.views()[i as int] == self.keys@[i as int]@);
            if self.keys[i].answers(query) {
                crate::views::push(&mut found, self.keys[i].dup());
            }
        }
        let n: usize = found.len();
        assert(found.views().len() == n);
        if n == 0 {
            Err(Fault::about("No key matches `", query, "`."))
        } else if n == 1 {
            assert(found.views()[0] == found@[0]@);
            Ok(found[0].dup())
        } else {
            Err(Fault::about("Multiple keys match `", query, "`; use a longer id."))
        }
    }

    /// The default key.
    pub fn active_key(&self) -> (r: Result<ApiKey, Fault>)
        ensures
            r.views() == self@.active_key(),
    {
        match &self.active_key_id {
            Some(id) => self.resolve_key(id.as_str()),
            None => Err(
                Fault::new(
                    "No default key. Run `swcli keys add ...` or `swcli keys default <name>`.",
                ),
            ),
        }
    }

    /// The key of a query, or the default key where there is none.
    pub fn chosen_key(&self, query: &Option<String>) -> (r: Result<ApiKey, Fault>)
        ensures
            r.views() == self@.chosen_key(query.views()),
    {
        match query {
            Some(q) => self.resolve_key(q.as_str()),
            None => self.active_key(),
        }
    }

    /// Makes a key the default.
    pub fn set_active(&mut self, id: String)
        ensures
            final(self)@ == (ConfigV { active_key_id: Some(id@), ..old(self)@ }),
    {
        self.active_key_id = Some(id);
    }

    pub fn is_active(&self, key: &ApiKey) -> (r: bool)
        ensures
            r == self@.is_active(key@),
    {
        match &self.active_key_id {
            Some(id) => *id.as_str() == *key.id.as_str(),
            None => false,
        }
    }

    /// Writes down the protocol of every key that lacks it, and tells whether there was one.
    pub fn ensure_key_wires(&mut self) -> (r: bool)
        ensures
            final(self)@ == old(self)@.wired(),
            r == old(self)@.lacks_wire(),
    {
        let ghost before = self.keys.views();
        let mut changed = false;
        let n: usize = self.keys.len();
        let mut i: usize = 0;
        while i < n
            invariant
                n == self.keys@.len(),
                before.len() == n,
                i <= n,
                self.active_key_id == old(self).active_key_id,
                forall|j: int| 0 <= j < i ==> (#[trigger] self.keys@[j])@ == before[j].wired(),
                forall|j: int| i <= j < n ==> (#[trigger] self.keys@[j])@ == before[j],
                changed == (exists|j: int| 0 <= j < i && (#[trigger] before[j]).wire is None),
            decreases n - i,
        {
            assert(self.keys@[i as int]@ == before[i as int]);
            let wire = self.keys[i].wire;
            if wire.is_none() {
                let mut key = self.keys[i].dup();
                key.wire = Some(infer_key_wire(&key));
                self.keys.set(i, key);
                changed = true;
            }
            i = i + 1;
        }
        assert(self@.keys =~= old(self)@.wired().keys);
        changed
    }
}

proof fn lemma_found(keys: Seq<ApiKeyV>, query: Seq<char>, n: nat)
    requires
        n <= keys.len(),
    ensures
        found_upto(keys, query, n).len() == 0 <==> forall|j: int|
            0 <= j < n ==> !(#[trigger] keys[j]).answers(query),
        found_upto(keys, query, n).len() == 1 ==> exists|i: int|
            0 <= i < n && found_upto(keys, query, n)[0] == (#[trigger] keys[i])
                && keys[i].answers(query) && forall|j: int|
                0 <= j < n && j != i ==> !(#[trigger] keys[j]).answers(query),
    decreases n,
{
    if n > 0 {
        let m = (n - 1) as nat;
        lemma_found(keys, query, m);
        let rest = found_upto(keys, query, m);
        if keys[m as int].answers(query) {
            if rest.len() == 0 {
                assert(found_upto(keys, query, n)[0] == keys[m as int]);
            }
        } else if rest.len() == 1 {
            let i = choose|i: int|
                0 <= i < m && rest[0] == (#[trigger] keys[i]) && keys[i].answers(query)
                    && forall|j: int|
                    0 <= j < m && j != i ==> !(#[trigger] keys[j]).answers(query);
            assert(keys[i].answers(query));
        }
    }
}

/// A query is answered by a stored key that it stands for, and by that one alone; it fails with
/// the first message where it stands for none.
pub proof fn lemma_resolved(config: ConfigV, query: Seq<char>)
    ensures
        match config.resolve_key(query) {
            Ok(k) => exists|i: int|
                0 <= i < config.keys.len() && k == (#[trigger] config.keys[i]) && k.answers(query)
                    && forall|j: int|
                    0 <= j < config.keys.len() && j != i ==> !(
                    #[trigger] config.keys[j]).answers(query),
            Err(message) => (message == "No key matches `"@ + query + "`."@) || exists|i: int|
                0 <= i < config.keys.len() && (#[trigger] config.keys[i]).answers(query),
        },
{
    lemma_found(config.keys, query, config.keys.len());
}

/// Writing the protocols down changes no key's protocol, and once is enough.
pub proof fn lemma_wired_once(config: ConfigV)
    ensures
        config.wired().wired() == config.wired(),
        !config.wired().lacks_wire(),
        forall|i: int|
            0 <= i < config.keys.len() ==> (#[trigger] config.wired().keys[i]).wire_protocol()
                == config.keys[i].wire_protocol(),
{
    assert(config.wired().wired().keys =~= config.wired().keys);
}

/// A key's models as they were fetched.
#[derive(Debug)]
pub struct CacheEntry {
    pub fetched_at: u64,
    pub models: Vec<String>,
}

pub struct CacheEntryV {
    pub fetched_at: u64,
    pub models: Seq<Seq<char>>,
}

impl View for CacheEntry {
    type V = CacheEntryV;

    open spec fn view(&self) -> CacheEntryV {
        CacheEntryV { fetched_at: self.fetched_at, models: self.models.views() }
    }
}

/// The models of all keys that were asked, by provider and base URL.
#[derive(Debug)]
pub struct ModelsCache(pub Table<CacheEntry>);

impl View for ModelsCache {
    type V = Seq<(Seq<char>, CacheEntryV)>;

    open spec fn view(&self) -> Seq<(Seq<char>, CacheEntryV)> {
        self.0@
    }
}

/// The catalog of models.dev as it was fetched.
#[derive(Debug)]
pub struct ModelsDevCache {
    pub fetched_at: u64,
    /// The providers by their ids, in the order of the ids.
    pub catalog: Table<ModelsDevProvider>,
}

pub struct ModelsDevCacheV {
    pub fetched_at: u64,
    pub catalog: Seq<(Seq<char>, ModelsDevProviderV)>,
}

impl View for ModelsDevCache {
    type V = ModelsDevCacheV;

    open spec fn view(&self) -> ModelsDevCacheV {
        ModelsDevCacheV { fetched_at: self.fetched_at, catalog: self.catalog@ }
    }
}

/// A provider of the catalog.
#[derive(Debug)]
pub struct ModelsDevProvider {
    pub id: String,
    pub name: String,
    pub npm: Option<String>,
    pub api: Option<String>,
    pub env: Vec<String>,
    pub doc: Option<String>,
    /// The models by their ids, in the order of the ids.
    pub models: Table<ModelsDevModel>,
}

pub struct ModelsDevProviderV {
    pub id: Seq<char>,
    pub name: Seq<char>,
    pub npm: Option<Seq<char>>,
    pub api: Option<Seq<char>>,
    pub env: Seq<Seq<char>>,
    pub doc: Option<Seq<char>>,
    pub models: Seq<(Seq<char>, ModelsDevModelV)>,
}

impl View for ModelsDevProvider {
    type V = ModelsDevProviderV;

    open spec fn view(&self) -> ModelsDevProviderV {
        ModelsDevProviderV {
            id: self.id@,
            name: self.name@,
            npm: self.npm.views(),
            api: self.api.views(),
            env: self.env.views(),
            doc: self.doc.views(),
            models: self.models@,
        }
    }
}

/// A model of the catalog.
#[derive(Debug)]
pub struct ModelsDevModel {
    pub id: String,
    pub name: String,
    /// All other fields.
    pub extra: Json,
}

pub struct ModelsDevModelV {
    pub id: Seq<char>,
    pub name: Seq<char>,
    pub extra: JsonV,
}

impl View for ModelsDevModel {
    type V = ModelsDevModelV;

    open spec fn view(&self) -> ModelsDevModelV {
        ModelsDevModelV { id: self.id@, name: self.name@, extra: self.extra@ }
    }
}

impl ModelsDevModel {
    pub fn dup(&self) -> (r: ModelsDevModel)
        ensures
            r@ == self@,
    {
        ModelsDevModel { id: self.id.clone(), name: self.name.clone(), extra: self.extra.dup() }
    }
}

/// Whether what was fetched at a time is still to be used: less than `ttl` seconds have passed. A
/// time in the future counts as now.
pub open spec fn is_fresh(now: u64, fetched_at: u64, ttl: u64) -> bool {
    if now >= fetched_at {
        now - fetched_at < ttl
    } else {
        0 < ttl
    }
}

pub fn still_fresh(now: u64, fetched_at: u64, ttl: u64) -> (r: bool)
    ensures
        r == is_fresh(now, fetched_at, ttl),
{
    now.saturating_sub(fetched_at) < ttl
}

// ---------------------------------------------------------------- where the files are

/// A directory: one below another.
#[derive(Debug)]
pub struct ConfigPlace {
    pub base: String,
    /// The names of the directories below, each in the one before it.
    pub below: Vec<String>,
}

pub struct PlaceV {
    pub base: Seq<char>,
    pub below: Seq<Seq<char>>,
}

impl View for ConfigPlace {
    type V = PlaceV;

    open spec fn view(&self) -> PlaceV {
        PlaceV { base: self.base@, below: self.below.views() }
    }
}

/// The directory of the files: the program's own where it is set, else one below the user's
/// directory for configurations, else one below the user's home.
pub open spec fn place_of(
    own: Option<Seq<char>>,
    xdg: Option<Seq<char>>,
    home: Option<Seq<char>>,
) -> Result<PlaceV, Seq<char>> {
    match (own, xdg, home) {
        (Some(base), _, _) => Ok(PlaceV { base, below: Seq::empty() }),
        (None, Some(base), _) => Ok(PlaceV { base, below: seq!["swcli"@] }),
        (None, None, Some(base)) => Ok(PlaceV { base, below: seq![".config"@, "swcli"@] }),
        (None, None, None) => Err("HOME is not set; set SWCLI_CONFIG_DIR explicitly"@),
    }
}

/// Tells in which directory the files are by three variables of the environment.
pub fn config_dir(own: Option<String>, xdg: Option<String>, home: Option<String>) -> (r: Result<
    ConfigPlace,
    Fault,
>)
    ensures
        r.views() == place_of(own.views(), xdg.views(), home.views()),
{
    let mut below: Vec<String> = crate::views::none();
    if let Some(base) = own {
        return Ok(ConfigPlace { base, below });
    }
    if let Some(base) = xdg {
        crate::views::push(&mut below, "swcli".to_string());
        assert(below.views() =~= seq!["swcli"@]);
        return Ok(ConfigPlace { base, below });
    }
    match home {
        Some(base) => {
            crate::views::push(&mut below, ".config".to_string());
            crate::views::push(&mut below, "swcli".to_string());
            assert(below.views() =~= seq![".config"@, "swcli"@]);
            Ok(ConfigPlace { base, below })
        },
        None => Err(Fault::new("HOME is not set; set SWCLI_CONFIG_DIR explicitly")),
    }
}

// ---------------------------------------------------------------- ids

/// `RngCore::fill_bytes` of the thread's generator on six bytes: six bytes come back, and which
/// they are is left to chance.
#[verifier::external_body]
fn six_random_bytes() -> (r: Vec<u8>)
    ensures
        r@.len() == 6,
{
    let mut bytes = [0u8; 6];
    rand::RngCore::fill_bytes(&mut rand::thread_rng(), &mut bytes);
    bytes.to_vec()
}

/// A new id for a key: twelve hexadecimal digits of six random bytes.
pub fn random_id() -> (r: String)
    ensures
        exists|bytes: Seq<u8>| bytes.len() == 6 && r@ == #[trigger] crate::text::hex_text(bytes),
{
    let bytes = six_random_bytes();
    crate::text::hex(&bytes)
}

} // verus!
