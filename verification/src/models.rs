//! Lists of models: how they are asked for, kept, searched and resolved.
use vstd::prelude::*;

use crate::config::{
    ApiKey, ApiKeyV, CacheEntry, CacheEntryV, ModelsCache, ModelsDevCache, ModelsDevCacheV,
    ModelsDevModel, ModelsDevModelV, ModelsDevProvider, ModelsDevProviderV,
};
use crate::fault::Fault;
use crate::github_copilot::{GithubCopilotModel, GithubCopilotModelV};
use crate::json::{Fields, Json, JsonNumber, JsonV, NumberV};
use crate::order::Keyed;
use crate::provider::{ProviderKind, WireProtocol};
use crate::table::{Entry, Table};
use crate::views::Views;

verus! {

/// For how many seconds a list of models is kept.
pub const CACHE_TTL_SECS: u64 = 3600;

/// For how many seconds the catalog is kept.
pub const MODELS_DEV_CACHE_TTL_SECS: u64 = 86400;

// ---------------------------------------------------------------- URLs

/// A base URL and a path put together; where both have the version part, it stands once.
pub open spec fn joined_url(base_url: Seq<char>, path: Seq<char>) -> Seq<char> {
    let base = crate::text::without_suffixes(base_url, "/"@);
    let rest = crate::text::without_prefixes(path, "/"@);
    if crate::text::ends(base, "/v1"@) && crate::text::begins(rest, "v1/"@) {
        base + "/"@ + crate::text::without_prefixes(rest, "v1/"@)
    } else {
        base + "/"@ + rest
    }
}

/// Puts a base URL and a path together.
pub fn build_endpoint_url(base_url: &str, path: &str) -> (r: String)
    ensures
        r@ == joined_url(base_url@, path@),
{
    proof {
        reveal_strlit("/");
        reveal_strlit("v1/");
    }
    let base = crate::text::trim_end_matches(base_url, "/");
    let rest = crate::text::trim_start_matches(path, "/");
    if crate::text::ends_with(base, "/v1") && crate::text::starts_with(rest, "v1/") {
        crate::text::cat3(base, "/", crate::text::trim_start_matches(rest, "v1/"))
    } else {
        crate::text::cat3(base, "/", rest)
    }
}

proof fn lemma_prefixes_gone(s: Seq<char>, p: Seq<char>)
    requires
        p.len() > 0,
    ensures
        !crate::text::begins(crate::text::without_prefixes(s, p), p),
    decreases s.len(),
{
    if crate::text::begins(s, p) {
        lemma_prefixes_gone(s.subrange(p.len() as int, s.len() as int), p);
    }
}

/// The version part never stands twice where a base URL and a path meet: behind a base URL that
/// ends with it comes a rest that does not begin with it.
pub proof fn lemma_no_double_v1(base_url: Seq<char>, path: Seq<char>)
    ensures
        exists|base: Seq<char>, rest: Seq<char>|
            joined_url(base_url, path) == #[trigger] (base + "/"@ + rest) && base
                == crate::text::without_suffixes(base_url, "/"@) && !(crate::text::ends(
                base,
                "/v1"@,
            ) && crate::text::begins(rest, "v1/"@)),
{
    reveal_strlit("v1/");
    let base = crate::text::without_suffixes(base_url, "/"@);
    let rest = crate::text::without_prefixes(path, "/"@);
    lemma_prefixes_gone(rest, "v1/"@);
    let inner = crate::text::without_prefixes(rest, "v1/"@);
    let r = if crate::text::ends(base, "/v1"@) && crate::text::begins(rest, "v1/"@) {
        inner
    } else {
        rest
    };
    assert(joined_url(base_url, path) == base + "/"@ + r);
}

/// Where the models of a key are listed.
pub open spec fn models_url_of(base_url: Seq<char>) -> Seq<char> {
    let base = crate::text::without_suffixes(base_url, "/"@);
    if crate::text::ends(base, "/v1"@) {
        base + "/models"@
    } else {
        base + "/v1/models"@
    }
}

pub fn models_url(key: &ApiKey) -> (r: String)
    ensures
        r@ == models_url_of(key@.base_url),
{
    proof {
        reveal_strlit("/");
    }
    let base = crate::text::trim_end_matches(key.base_url.as_str(), "/");
    if crate::text::ends_with(base, "/v1") {
        crate::text::cat(base, "/models")
    } else {
        crate::text::cat(base, "/v1/models")
    }
}

// ---------------------------------------------------------------- a provider's own list

/// The ids of the first `n` models that have one.
pub open spec fn ids_upto(data: Seq<JsonV>, n: nat) -> Seq<Seq<char>>
    decreases n,
{
    if n == 0 {
        Seq::empty()
    } else {
        let rest = ids_upto(data, (n - 1) as nat);
        match data[n - 1].get_str("id"@) {
            Some(id) => rest.push(id),
            None => rest,
        }
    }
}

/// The ids of the models in a provider's answer.
pub open spec fn listed(success: bool, status: Seq<char>, body: JsonV) -> Result<
    Seq<Seq<char>>,
    Seq<char>,
> {
    if !success {
        Err("models request failed with "@ + status + (": "@ + crate::json::text_of(body)))
    } else {
        match body.get_array("data"@) {
            Some(data) => Ok(ids_upto(data, data.len())),
            None => Err("models response did not contain data[]"@),
        }
    }
}

/// Reads the ids of the models from a provider's answer. `status` is the text of its status.
pub fn listed_models(success: bool, status: &str, body: &Json) -> (r: Result<Vec<String>, Fault>)
    ensures
        match r {
            Ok(ids) => listed(success, status@, body@) == Ok::<_, Seq<char>>(ids.views()),
            Err(e) => listed(success, status@, body@) == Err::<Seq<Seq<char>>, _>(e@),
        },
{
    if !success {
        return Err(
            Fault::about(
                "models request failed with ",
                status,
                crate::text::cat(": ", body.to_text().as_str()).as_str(),
            ),
        );
    }
    match body.get_array("data") {
        Some(data) => {
            let mut ids: Vec<String> = crate::views::none();
            for i in 0..data.len()
                invariant
                    ids.views() == ids_upto(data.views(), i as nat),
            {
                assert(data.views()[i as int] == data@[i as int]@);
                if let Some(id) = data[i].get_str("id") {
                    crate::views::push(&mut ids, id.to_string());
                }
            }
            Ok(ids)
        },
        None => Err(Fault::new("models response did not contain data[]")),
    }
}

/// The name under which a key's models are kept.
pub open spec fn cache_name(key: ApiKeyV) -> Seq<char> {
    key.provider.name() + ":"@ + key.base_url
}

pub fn cache_key(key: &ApiKey) -> (r: String)
    ensures
        r@ == cache_name(key@),
{
    crate::text::cat3(key.provider.to_string().as_str(), ":", key.base_url.as_str())
}

/// What is kept of a key's models, unless it is too old or is to be passed over.
pub open spec fn kept(
    cache: Seq<(Seq<char>, CacheEntryV)>,
    key: ApiKeyV,
    refresh: bool,
    now: u64,
) -> Option<Seq<Seq<char>>> {
    if refresh {
        None
    } else {
        match crate::table::lookup(cache, cache_name(key)) {
            Some(e) => if crate::config::is_fresh(now, e.fetched_at, CACHE_TTL_SECS) {
                Some(e.models)
            } else {
                None
            },
            None => None,
        }
    }
}

/// The models of a key that can be used without asking.
pub fn cached_models(cache: &ModelsCache, key: &ApiKey, refresh: bool, now: u64) -> (r: Option<
    Vec<String>,
>)
    ensures
        crate::views::opt_list(r) == kept(cache@, key@, refresh, now),
{
    if refresh {
        return None;
    }
    match cache.0.get(cache_key(key).as_str()) {
        Some(e) => if crate::config::still_fresh(now, e.fetched_at, CACHE_TTL_SECS) {
            Some(crate::text::clone_all(&e.models))
        } else {
            None
        },
        None => None,
    }
}

/// Keeps a key's models.
pub fn keep_models(cache: &mut ModelsCache, key: &ApiKey, models: &Vec<String>, now: u64)
    ensures
        final(cache)@ == crate::table::put(
            old(cache)@,
            cache_name(key@),
            (CacheEntryV { fetched_at: now, models: models.views() }),
        ),
{
    let entry = CacheEntry { fetched_at: now, models: crate::text::clone_all(models) };
    cache.0.insert(cache_key(key).as_str(), entry);
}

/// What was just fetched is used until its time is over, and not longer.
pub proof fn lemma_kept_for_an_hour(
    cache: Seq<(Seq<char>, CacheEntryV)>,
    key: ApiKeyV,
    models: Seq<Seq<char>>,
    then: u64,
    now: u64,
)
    requires
        then <= now,
    ensures
        kept(
            crate::table::put(cache, cache_name(key), CacheEntryV { fetched_at: then, models }),
            key,
            false,
            now,
        ) == if now - then < 3600 {
            Some(models)
        } else {
            None
        },
{
    crate::table::lemma_put(
        cache,
        cache_name(key),
        CacheEntryV { fetched_at: then, models },
        cache_name(key),
    );
}

/// Whether a text holds what is searched for, letters of either case alike.
pub open spec fn hit(text: Seq<char>, search: Option<Seq<char>>) -> bool {
    match search {
        Some(s) => crate::text::find_of(
            crate::text::unicode_lowercase(text),
            crate::text::unicode_lowercase(s),
        ) is Some,
        None => true,
    }
}

fn is_hit(text: &str, search: &Option<String>) -> (r: bool)
    ensures
        r == hit(text@, search.views()),
{
    match search {
        Some(s) => crate::text::contains(
            text.to_lowercase().as_str(),
            s.as_str().to_lowercase().as_str(),
        ),
        None => true,
    }
}

/// Those of the first `n` texts that hold what is searched for.
pub open spec fn hits_upto(models: Seq<Seq<char>>, search: Option<Seq<char>>, n: nat) -> Seq<
    Seq<char>,
>
    decreases n,
{
    if n == 0 {
        Seq::empty()
    } else {
        let rest = hits_upto(models, search, (n - 1) as nat);
        if hit(models[n - 1], search) {
            rest.push(models[n - 1])
        } else {
            rest
        }
    }
}

/// The models that hold what is searched for, in order.
pub fn search_models(models: &Vec<String>, search: &Option<String>) -> (r: Vec<String>)
    ensures
        r.views() == crate::order::sorted::<String>(
            hits_upto(models.views(), search.views(), models.views().len()),
        ),
{
    let mut hits: Vec<String> = crate::views::none();
    for i in 0..models.len()
        invariant
            hits.views() == hits_upto(models.views(), search.views(), i as nat),
    {
        assert(models.views()[i as int] == models@[i as int]@);
        if is_hit(models[i].as_str(), search) {
            crate::views::push(&mut hits, models[i].clone());
        }
    }
    crate::order::sort(hits)
}

/// The list of a provider's own models as JSON.
pub open spec fn listing(key: ApiKeyV, models: Seq<Seq<char>>) -> JsonV {
    JsonV::obj().with("provider"@, JsonV::Text(key.provider.name())).with(
        "baseUrl"@,
        JsonV::Text(key.base_url),
    ).with("models"@, JsonV::texts(models))
}

pub fn models_listing(key: &ApiKey, models: &Vec<String>) -> (r: Json)
    ensures
        r@ == listing(key@, models.views()),
{
    Json::object().with("provider", Json::text(key.provider.to_string().as_str())).with(
        "baseUrl",
        Json::text(key.base_url.as_str()),
    ).with("models", Json::texts(models))
}

// ---------------------------------------------------------------- the catalog

impl Keyed for ModelsDevModel {
    open spec fn key_of(v: ModelsDevModelV) -> Seq<char> {
        v.id
    }

    fn key(&self) -> &str {
        self.id.as_str()
    }
}

/// A model of the catalog: an object with a name. Its id may be absent; what else it holds is
/// kept.
pub open spec fn model_read(v: JsonV) -> Option<ModelsDevModelV> {
    match v {
        JsonV::Object(f) => match (
            crate::reader::text_or(crate::json::get_field(f, "id"@), Seq::empty()),
            crate::json::get_field(f, "name"@),
        ) {
            (Some(id), Some(JsonV::Text(name))) => Some(
                ModelsDevModelV {
                    id,
                    name,
                    extra: JsonV::Object(
                        crate::json::drop_field(crate::json::drop_field(f, "id"@), "name"@),
                    ),
                },
            ),
            _ => None,
        },
        _ => None,
    }
}

fn read_model(v: &Json) -> (r: Option<ModelsDevModel>)
    ensures
        r.views() == model_read(v@),
{
    broadcast use {crate::json::lemma_array_view, crate::json::lemma_object_view};

    match v {
        Json::Object(f) => {
            let empty = String::new();
            assert(empty@ =~= Seq::<char>::empty());
            match (crate::reader::read_text_or(f.get("id"), empty.as_str()), f.get("name")) {
                (Some(id), Some(Json::Text(name))) => {
                    let mut rest = f.dup();
                    let _ = rest.remove("id");
                    let _ = rest.remove("name");
                    Some(ModelsDevModel { id, name: name.clone(), extra: Json::of_fields(rest) })
                },
                _ => None,
            }
        },
        _ => None,
    }
}

/// The id, or the name of the entry where it is empty.
pub open spec fn id_or(id: Seq<char>, name: Seq<char>) -> Seq<char> {
    if id.len() == 0 {
        name
    } else {
        id
    }
}

fn read_id_or(id: String, name: &str) -> (r: String)
    ensures
        r@ == id_or(id@, name@),
{
    if id.as_str().is_empty() {
        name.to_string()
    } else {
        id
    }
}

/// The first `n` models of a table, each under its name.
pub open spec fn models_upto(f: Seq<(Seq<char>, JsonV)>, n: nat) -> Option<
    Seq<(Seq<char>, ModelsDevModelV)>,
>
    decreases n,
{
    if n == 0 {
        Some(Seq::empty())
    } else {
        match (models_upto(f, (n - 1) as nat), model_read(f[n - 1].1)) {
            (Some(rest), Some(m)) => Some(
                crate::table::put(
                    rest,
                    f[n - 1].0,
                    ModelsDevModelV { id: id_or(m.id, f[n - 1].0), ..m },
                ),
            ),
            _ => None,
        }
    }
}

/// The models of a provider in the order of their names; none where the field is absent.
pub open spec fn models_read(v: Option<JsonV>) -> Option<Seq<(Seq<char>, ModelsDevModelV)>> {
    match v {
        None => Some(Seq::empty()),
        Some(JsonV::Object(f)) => match models_upto(f, f.len()) {
            Some(t) => Some(crate::order::sorted::<Entry<ModelsDevModel>>(t)),
            None => None,
        },
        Some(_) => None,
    }
}

proof fn lemma_models_upto_fails(f: Seq<(Seq<char>, JsonV)>, n: nat, m: nat)
    requires
        n <= m,
        models_upto(f, n) is None,
    ensures
        models_upto(f, m) is None,
    decreases m,
{
    if n < m {
        lemma_models_upto_fails(f, n, (m - 1) as nat);
    }
}

fn read_models(v: Option<&Json>) -> (r: Option<Table<ModelsDevModel>>)
    ensures
        r.views() == models_read(v.views()),
{
    broadcast use {crate::json::lemma_array_view, crate::json::lemma_object_view};

    match v {
        None => Some(Table::new()),
        Some(Json::Object(f)) => {
            let mut out: Table<ModelsDevModel> = Table::new();
            let n: usize = f.len();
            for i in 0..n
                invariant
                    n == f@.len(),
                    models_upto(f@, i as nat) == Some(out@),
                    v.views() == Some(JsonV::Object(f@)),
            {
                match read_model(f.value_at(i)) {
                    Some(m) => {
                        let id = read_id_or(m.id, f.key_at(i));
                        out.insert(f.key_at(i), ModelsDevModel { id, name: m.name, extra: m.extra });
                    },
                    None => {
                        proof {
                            lemma_models_upto_fails(f@, (i + 1) as nat, f@.len());
                        }
                        return None;
                    },
                }
            }
            Some(Table { entries: crate::order::sort(out.entries) })
        },
        Some(_) => None,
    }
}

/// The fields of a provider in the order by which a list stands for them.
pub open spec fn provider_fields() -> Seq<Seq<char>> {
    seq!["id"@, "name"@, "npm"@, "api"@, "env"@, "doc"@, "models"@]
}

/// A provider of the catalog from its fields: a name is needed, the rest may be absent.
pub open spec fn provider_of(f: Seq<(Seq<char>, JsonV)>) -> Option<ModelsDevProviderV> {
    match (
        crate::reader::text_or(crate::json::get_field(f, "id"@), Seq::empty()),
        crate::json::get_field(f, "name"@),
        crate::reader::nullable(crate::json::get_field(f, "npm"@)),
        crate::reader::nullable(crate::json::get_field(f, "api"@)),
        crate::reader::text_list(crate::json::get_field(f, "env"@)),
        crate::reader::nullable(crate::json::get_field(f, "doc"@)),
        models_read(crate::json::get_field(f, "models"@)),
    ) {
        (
            Some(id),
            Some(JsonV::Text(name)),
            Some(npm),
            Some(api),
            Some(env),
            Some(doc),
            Some(models),
        ) => Some(ModelsDevProviderV { id, name, npm, api, env, doc, models }),
        _ => None,
    }
}

/// A provider of the catalog: an object, or a list of its fields in their order.
pub open spec fn provider_read(v: JsonV) -> Option<ModelsDevProviderV> {
    match crate::reader::fields_of(v, provider_fields()) {
        Some(f) => provider_of(f),
        None => None,
    }
}

fn provider_from(f: &Fields) -> (r: Option<ModelsDevProvider>)
    ensures
        r.views() == provider_of(f@),
{
    let empty = String::new();
    assert(empty@ =~= Seq::<char>::empty());
    let name = match f.get("name") {
        Some(Json::Text(name)) => name.clone(),
        _ => {
            return None;
        },
    };
    match (
        crate::reader::read_text_or(f.get("id"), empty.as_str()),
        crate::reader::read_nullable(f.get("npm")),
        crate::reader::read_nullable(f.get("api")),
        crate::reader::read_text_list(f.get("env")),
        crate::reader::read_nullable(f.get("doc")),
        read_models(f.get("models")),
    ) {
        (Some(id), Some(npm), Some(api), Some(env), Some(doc), Some(models)) => Some(
            ModelsDevProvider { id, name, npm, api, env, doc, models },
        ),
        _ => None,
    }
}

fn read_provider(v: &Json) -> (r: Option<ModelsDevProvider>)
    ensures
        r.views() == provider_read(v@),
{
    let names = vec!["id", "name", "npm", "api", "env", "doc", "models"];
    assert(names.views() =~= provider_fields());
    match crate::reader::read_fields(v, &names) {
        Some(f) => provider_from(&f),
        None => None,
    }
}

/// The first `n` providers of the catalog, each under its name.
pub open spec fn catalog_upto(f: Seq<(Seq<char>, JsonV)>, n: nat) -> Result<
    Seq<(Seq<char>, ModelsDevProviderV)>,
    Seq<char>,
>
    decreases n,
{
    if n == 0 {
        Ok(Seq::empty())
    } else {
        match catalog_upto(f, (n - 1) as nat) {
            Err(e) => Err(e),
            Ok(rest) => match provider_read(f[n - 1].1) {
                Some(p) => Ok(
                    crate::table::put(
                        rest,
                        f[n - 1].0,
                        ModelsDevProviderV { id: id_or(p.id, f[n - 1].0), ..p },
                    ),
                ),
                None => Err("Invalid models.dev provider `"@ + f[n - 1].0 + "`"@),
            },
        }
    }
}

/// The catalog that a value stands for.
pub open spec fn catalog_read(v: JsonV, now: u64) -> Result<ModelsDevCacheV, Seq<char>> {
    match v {
        JsonV::Object(f) => match catalog_upto(f, f.len()) {
            Ok(t) => Ok(
                ModelsDevCacheV {
                    fetched_at: now,
                    catalog: crate::order::sorted::<Entry<ModelsDevProvider>>(t),
                },
            ),
            Err(e) => Err(e),
        },
        _ => Err("models.dev catalog root is not an object"@),
    }
}

proof fn lemma_catalog_upto_fails(f: Seq<(Seq<char>, JsonV)>, n: nat, m: nat)
    requires
        n <= m,
        catalog_upto(f, n) is Err,
    ensures
        catalog_upto(f, m) == catalog_upto(f, n),
    decreases m,
{
    if n < m {
        lemma_catalog_upto_fails(f, n, (m - 1) as nat);
    }
}

/// Reads the catalog. A provider and a model without an id get the name under which they stand.
pub fn parse_models_dev_catalog(value: &Json, now: u64) -> (r: Result<ModelsDevCache, Fault>)
    ensures
        r.views() == catalog_read(value@, now),
{
    broadcast use {crate::json::lemma_array_view, crate::json::lemma_object_view};

    match value {
        Json::Object(f) => {
            let mut out: Table<ModelsDevProvider> = Table::new();
            let n: usize = f.len();
            for i in 0..n
                invariant
                    n == f@.len(),
                    catalog_upto(f@, i as nat) == Ok::<_, Seq<char>>(out@),
                    value@ == JsonV::Object(f@),
            {
                match read_provider(f.value_at(i)) {
                    Some(p) => {
                        let id = read_id_or(p.id, f.key_at(i));
                        out.insert(
                            f.key_at(i),
                            ModelsDevProvider {
                                id,
                                name: p.name,
                                npm: p.npm,
                                api: p.api,
                                env: p.env,
                                doc: p.doc,
                                models: p.models,
                            },
                        );
                    },
                    None => {
                        proof {
                            lemma_catalog_upto_fails(f@, (i + 1) as nat, f@.len());
                        }
                        return Err(
                            Fault::about("Invalid models.dev provider `", f.key_at(i), "`"),
                        );
                    },
                }
            }
            Ok(
                ModelsDevCache {
                    fetched_at: now,
                    catalog: Table { entries: crate::order::sort(out.entries) },
                },
            )
        },
        _ => Err(Fault::new("models.dev catalog root is not an object")),
    }
}

/// Where the catalog is taken from.
#[derive(Debug, Clone, Copy, PartialEq, Eq, Structural)]
pub enum CatalogSource {
    /// What was fetched before.
    Kept,
    /// What came with the program.
    Bundled,
    /// A new request.
    Fetched,
}

/// Where the catalog is taken from: a refresh asks for it; what was fetched before is used while
/// it is fresh, and what came with the program otherwise. `kept_at` is when it was fetched before.
pub open spec fn source_of(refresh: bool, kept_at: Option<u64>, now: u64) -> CatalogSource {
    if refresh {
        CatalogSource::Fetched
    } else {
        match kept_at {
            Some(t) => if crate::config::is_fresh(now, t, MODELS_DEV_CACHE_TTL_SECS) {
                CatalogSource::Kept
            } else {
                CatalogSource::Bundled
            },
            None => CatalogSource::Bundled,
        }
    }
}

pub fn catalog_source(refresh: bool, kept_at: Option<u64>, now: u64) -> (r: CatalogSource)
    ensures
        r == source_of(refresh, kept_at, now),
{
    if refresh {
        return CatalogSource::Fetched;
    }
    match kept_at {
        Some(t) => if crate::config::still_fresh(now, t, MODELS_DEV_CACHE_TTL_SECS) {
            CatalogSource::Kept
        } else {
            CatalogSource::Bundled
        },
        None => CatalogSource::Bundled,
    }
}

/// The first provider from the `i`-th on with the name.
pub open spec fn provider_named_from(
    s: Seq<(Seq<char>, ModelsDevProviderV)>,
    name: Seq<char>,
    i: int,
) -> Option<ModelsDevProviderV>
    decreases s.len() - i,
{
    if i < 0 || i >= s.len() {
        None
    } else if s[i].1.name == name {
        Some(s[i].1)
    } else {
        provider_named_from(s, name, i + 1)
    }
}

/// The provider of a name.
pub open spec fn provider_named(c: ModelsDevCacheV, name: Seq<char>) -> Result<
    ModelsDevProviderV,
    Seq<char>,
> {
    match provider_named_from(c.catalog, name, 0) {
        Some(p) => Ok(p),
        None => Err(
            "models.dev provider named `"@ + name
                + "` was not found. Run with --refresh after the catalog updates."@,
        ),
    }
}

/// Finds the provider of a name.
pub fn resolve_models_dev_provider<'a>(catalog: &'a ModelsDevCache, provider_name: &str) -> (r:
    Result<&'a ModelsDevProvider, Fault>)
    ensures
        r.views() == provider_named(catalog@, provider_name@),
{
    let n: usize = catalog.catalog.len();
    let mut i: usize = 0;
    while i < n
        invariant
            n == catalog.catalog.entries@.len(),
            i <= n,
            provider_named_from(catalog@.catalog, provider_name@, 0) == provider_named_from(
                catalog@.catalog,
                provider_name@,
                i as int,
            ),
        decreases n - i,
    {
        assert(catalog@.catalog[i as int] == catalog.catalog.entries@[i as int]@);
        let p = &catalog.catalog.entries[i].value;
        if *p.name.as_str() == *provider_name {
            return Ok(p);
        }
        i = i + 1;
    }
    Err(
        Fault::about(
            "models.dev provider named `",
            provider_name,
            "` was not found. Run with --refresh after the catalog updates.",
        ),
    )
}

/// The kind of account that a provider's package stands for.
pub open spec fn kind_of(npm: Option<Seq<char>>) -> Option<ProviderKind> {
    if npm == Some("@ai-sdk/anthropic"@) {
        Some(ProviderKind::Anthropic)
    } else if npm == Some("@ai-sdk/openai"@) || npm == Some("@ai-sdk/openai-compatible"@) {
        Some(ProviderKind::Openai)
    } else {
        None
    }
}

/// The protocol that a provider's package stands for.
pub open spec fn package_wire(npm: Option<Seq<char>>) -> Option<WireProtocol> {
    if npm == Some("@ai-sdk/anthropic"@) {
        Some(WireProtocol::AnthropicMessages)
    } else if npm == Some("@ai-sdk/openai"@) {
        Some(WireProtocol::OpenaiResponses)
    } else if npm == Some("@ai-sdk/openai-compatible"@) {
        Some(WireProtocol::OpenaiCompletions)
    } else {
        None
    }
}

pub fn infer_provider_kind(provider: &ModelsDevProvider) -> (r: Option<ProviderKind>)
    ensures
        r == kind_of(provider@.npm),
{
    match &provider.npm {
        Some(npm) => {
            let npm = npm.as_str();
            if *npm == *"@ai-sdk/anthropic" {
                Some(ProviderKind::Anthropic)
            } else if *npm == *"@ai-sdk/openai" || *npm == *"@ai-sdk/openai-compatible" {
                Some(ProviderKind::Openai)
            } else {
                None
            }
        },
        None => None,
    }
}

pub fn infer_wire_protocol(provider: &ModelsDevProvider) -> (r: Option<WireProtocol>)
    ensures
        r == package_wire(provider@.npm),
{
    match &provider.npm {
        Some(npm) => {
            let npm = npm.as_str();
            if *npm == *"@ai-sdk/anthropic" {
                Some(WireProtocol::AnthropicMessages)
            } else if *npm == *"@ai-sdk/openai" {
                Some(WireProtocol::OpenaiResponses)
            } else if *npm == *"@ai-sdk/openai-compatible" {
                Some(WireProtocol::OpenaiCompletions)
            } else {
                None
            }
        },
        None => None,
    }
}

// ---------------------------------------------------------------- one model

/// A model that was chosen, with what is known of it.
#[derive(Debug)]
pub struct ResolvedModel {
    pub id: String,
    pub name: String,
    pub context_window: Option<u64>,
    pub supports_reasoning: bool,
    pub wire: WireProtocol,
}

pub struct ResolvedModelV {
    pub id: Seq<char>,
    pub name: Seq<char>,
    pub context_window: Option<u64>,
    pub supports_reasoning: bool,
    pub wire: WireProtocol,
}

impl View for ResolvedModel {
    type V = ResolvedModelV;

    open spec fn view(&self) -> ResolvedModelV {
        ResolvedModelV {
            id: self.id@,
            name: self.name@,
            context_window: self.context_window,
            supports_reasoning: self.supports_reasoning,
            wire: self.wire,
        }
    }
}

/// Whether a model of the catalog reasons.
pub open spec fn reasons(m: ModelsDevModelV) -> bool {
    m.extra.get_bool("reasoning"@) == Some(true)
}

pub fn model_supports_reasoning(model: &ModelsDevModel) -> (r: bool)
    ensures
        r == reasons(model@),
{
    match model.extra.get_bool("reasoning") {
        Some(b) => b,
        None => false,
    }
}

/// A number of tokens: a number, cut to a whole one that is not negative, or the text of one.
pub open spec fn tokens(v: JsonV) -> Option<u64> {
    match v {
        JsonV::Number(NumberV::PosInt(n)) => Some(n),
        JsonV::Number(NumberV::NegInt(_)) => Some(0),
        JsonV::Number(NumberV::Float(s)) => Some(crate::json::float_to_u64(s)),
        JsonV::Text(s) => crate::text::parsed(s),
        _ => None,
    }
}

/// How many tokens a model of the catalog takes.
pub open spec fn window(m: ModelsDevModelV) -> Option<u64> {
    match m.extra.get2("limit"@, "context"@) {
        Some(v) => tokens(v),
        None => None,
    }
}

pub fn model_context_window(model: &ModelsDevModel) -> (r: Option<u64>)
    ensures
        r == window(model@),
{
    match model.extra.get2("limit", "context") {
        Some(Json::Number(n)) => match n {
            JsonNumber::PosInt(n) => Some(*n),
            JsonNumber::NegInt(_) => Some(0),
            JsonNumber::Float(s) => Some(crate::json::whole_u64(s.as_str())),
        },
        Some(Json::Text(s)) => crate::text::parse_u64(s.as_str()),
        _ => None,
    }
}

/// A model of the catalog with what is known of it.
pub open spec fn resolved_from(m: ModelsDevModelV, wire: WireProtocol) -> ResolvedModelV {
    ResolvedModelV {
        id: m.id,
        name: m.name,
        context_window: window(m),
        supports_reasoning: reasons(m),
        wire,
    }
}

pub fn resolved_model_from(model: &ModelsDevModel, wire: WireProtocol) -> (r: ResolvedModel)
    ensures
        r@ == resolved_from(model@, wire),
{
    ResolvedModel {
        id: model.id.clone(),
        name: model.name.clone(),
        context_window: model_context_window(model),
        supports_reasoning: model_supports_reasoning(model),
        wire,
    }
}

/// Whether a model goes by a name: its id or its name, exactly or with letters of either case
/// alike.
pub open spec fn goes_by(id: Seq<char>, name: Seq<char>, query: Seq<char>, exact: bool) -> bool {
    if exact {
        id == query || name == query
    } else {
        crate::text::lower_of(id) == crate::text::lower_of(query) || crate::text::lower_of(name)
            == crate::text::lower_of(query)
    }
}

fn is_called(id: &str, name: &str, query: &str, exact: bool) -> (r: bool)
    ensures
        r == goes_by(id@, name@, query@, exact),
{
    if exact {
        *id == *query || *name == *query
    } else {
        crate::text::eq_ignore_ascii_case(id, query) || crate::text::eq_ignore_ascii_case(
            name,
            query,
        )
    }
}

/// The first model from the `i`-th on that goes by the name.
pub open spec fn model_from(
    s: Seq<(Seq<char>, ModelsDevModelV)>,
    query: Seq<char>,
    exact: bool,
    i: int,
) -> Option<ModelsDevModelV>
    decreases s.len() - i,
{
    if i < 0 || i >= s.len() {
        None
    } else if goes_by(s[i].1.id, s[i].1.name, query, exact) {
        Some(s[i].1)
    } else {
        model_from(s, query, exact, i + 1)
    }
}

fn find_model<'a>(models: &'a Table<ModelsDevModel>, query: &str, exact: bool) -> (r: Option<
    &'a ModelsDevModel,
>)
    ensures
        r.views() == model_from(models@, query@, exact, 0),
{
    let n: usize = models.len();
    let mut i: usize = 0;
    while i < n
        invariant
            n == models.entries@.len(),
            i <= n,
            model_from(models@, query@, exact, 0) == model_from(models@, query@, exact, i as int),
        decreases n - i,
    {
        assert(models@[i as int] == models.entries@[i as int]@);
        let m = &models.entries[i].value;
        if is_called(m.id.as_str(), m.name.as_str(), query, exact) {
            return Some(m);
        }
        i = i + 1;
    }
    None
}

/// The protocol of a provider's models.
pub open spec fn provider_wire(p: ModelsDevProviderV) -> WireProtocol {
    match package_wire(p.npm) {
        Some(wire) => wire,
        None => WireProtocol::OpenaiResponses,
    }
}

fn wire_of_provider(p: &ModelsDevProvider) -> (r: WireProtocol)
    ensures
        r == provider_wire(p@),
{
    match infer_wire_protocol(p) {
        Some(wire) => wire,
        None => crate::provider::default_wire_for_provider(ProviderKind::Openai),
    }
}

/// The model of a provider that goes by a name: exactly, or else with letters of either case
/// alike.
pub open spec fn model_named(p: ModelsDevProviderV, query: Seq<char>) -> Result<
    ResolvedModelV,
    Seq<char>,
> {
    match model_from(p.models, query, true, 0) {
        Some(m) => Ok(resolved_from(m, provider_wire(p))),
        None => match model_from(p.models, query, false, 0) {
            Some(m) => Ok(resolved_from(m, provider_wire(p))),
            None => Err(
                "Model `"@ + query + ("` was not found in models.dev provider `"@ + p.name
                    + "`."@),
            ),
        },
    }
}

pub fn resolve_model(provider: &ModelsDevProvider, query: &str) -> (r: Result<ResolvedModel, Fault>)
    ensures
        r.views() == model_named(provider@, query@),
{
    let wire = wire_of_provider(provider);
    if let Some(m) = find_model(&provider.models, query, true) {
        return Ok(resolved_model_from(m, wire));
    }
    if let Some(m) = find_model(&provider.models, query, false) {
        return Ok(resolved_model_from(m, wire));
    }
    Err(
        Fault::about(
            "Model `",
            query,
            crate::text::cat3(
                "` was not found in models.dev provider `",
                provider.name.as_str(),
                "`.",
            ).as_str(),
        ),
    )
}

/// The first model from the `i`-th on that goes by the name.
pub open spec fn copilot_from(
    s: Seq<GithubCopilotModelV>,
    query: Seq<char>,
    exact: bool,
    i: int,
) -> Option<GithubCopilotModelV>
    decreases s.len() - i,
{
    if i < 0 || i >= s.len() {
        None
    } else if goes_by(s[i].id, s[i].name, query, exact) {
        Some(s[i])
    } else {
        copilot_from(s, query, exact, i + 1)
    }
}

fn find_copilot<'a>(models: &'a Vec<GithubCopilotModel>, query: &str, exact: bool) -> (r: Option<
    &'a GithubCopilotModel,
>)
    ensures
        r.views() == copilot_from(models.views(), query@, exact, 0),
{
    let n: usize = models.len();
    let mut i: usize = 0;
    while i < n
        invariant
            n == models@.len(),
            i <= n,
            copilot_from(models.views(), query@, exact, 0) == copilot_from(
                models.views(),
                query@,
                exact,
                i as int,
            ),
        decreases n - i,
    {
        assert(models.views()[i as int] == models@[i as int]@);
        if is_called(models[i].id.as_str(), models[i].name.as_str(), query, exact) {
            return Some(&models[i]);
        }
        i = i + 1;
    }
    None
}

/// A model of GitHub Copilot with what is known of it.
pub open spec fn copilot_resolved(m: GithubCopilotModelV) -> ResolvedModelV {
    ResolvedModelV {
        id: m.id,
        name: m.name,
        context_window: m.context_window,
        supports_reasoning: m.supports_reasoning,
        wire: m.wire,
    }
}

/// The model of GitHub Copilot that goes by a name: exactly, or else with letters of either case
/// alike.
pub open spec fn copilot_named(s: Seq<GithubCopilotModelV>, query: Seq<char>) -> Result<
    ResolvedModelV,
    Seq<char>,
> {
    match copilot_from(s, query, true, 0) {
        Some(m) => Ok(copilot_resolved(m)),
        None => match copilot_from(s, query, false, 0) {
            Some(m) => Ok(copilot_resolved(m)),
            None => Err(
                "Model `"@ + query + "` was not found in builtin provider `github-copilot`."@,
            ),
        },
    }
}

pub fn resolve_github_copilot_model(models: &Vec<GithubCopilotModel>, query: &str) -> (r: Result<
    ResolvedModel,
    Fault,
>)
    ensures
        r.views() == copilot_named(models.views(), query@),
{
    let found = match find_copilot(models, query, true) {
        Some(m) => Some(m),
        None => find_copilot(models, query, false),
    };
    match found {
        Some(m) => Ok(
            ResolvedModel {
                id: m.id.clone(),
                name: m.name.clone(),
                context_window: m.context_window,
                supports_reasoning: m.supports_reasoning,
                wire: m.wire,
            },
        ),
        None => Err(
            Fault::about(
                "Model `",
                query,
                "` was not found in builtin provider `github-copilot`.",
            ),
        ),
    }
}

/// The tag that a model's name gets for the size of its context.
pub open spec fn context_tag(context_window: Option<u64>) -> Option<Seq<char>> {
    match context_window {
        Some(n) => if n >= 2_000_000 {
            Some("2m"@)
        } else if n >= 1_000_000 {
            Some("1m"@)
        } else {
            None
        },
        None => None,
    }
}

pub fn context_tag_for_window(context_window: Option<u64>) -> (r: Option<String>)
    ensures
        r.views() == context_tag(context_window),
{
    match context_window {
        Some(n) => if n >= 2_000_000 {
            Some("2m".to_string())
        } else if n >= 1_000_000 {
            Some("1m".to_string())
        } else {
            None
        },
        None => None,
    }
}

/// Whether one of the arguments holds a text.
pub open spec fn mentions(args: Seq<Seq<char>>, p: Seq<char>) -> bool {
    exists|i: int| 0 <= i < args.len() && crate::text::find_of(#[trigger] args[i], p) is Some
}

pub fn has_model_context_window_config(args: &Vec<String>) -> (r: bool)
    ensures
        r == mentions(args.views(), "model_context_window"@),
{
    crate::text::any_contains(args, "model_context_window")
}

pub fn has_model_catalog_config(args: &Vec<String>) -> (r: bool)
    ensures
        r == mentions(args.views(), "model_catalog_json"@),
{
    crate::text::any_contains(args, "model_catalog_json")
}

// ---------------------------------------------------------------- what is listed of the catalog

/// Those of the first `n` models whose id or name holds what is searched for.
pub open spec fn catalog_hits_upto(
    s: Seq<(Seq<char>, ModelsDevModelV)>,
    search: Option<Seq<char>>,
    n: nat,
) -> Seq<ModelsDevModelV>
    decreases n,
{
    if n == 0 {
        Seq::empty()
    } else {
        let rest = catalog_hits_upto(s, search, (n - 1) as nat);
        let m = s[n - 1].1;
        if hit(m.id, search) || hit(m.name, search) {
            rest.push(m)
        } else {
            rest
        }
    }
}

/// The models of a provider whose id or name holds what is searched for, in the order of their
/// ids.
pub fn search_catalog(provider: &ModelsDevProvider, search: &Option<String>) -> (r: Vec<
    ModelsDevModel,
>)
    ensures
        r.views() == crate::order::sorted::<ModelsDevModel>(
            catalog_hits_upto(provider@.models, search.views(), provider@.models.len()),
        ),
{
    let mut hits: Vec<ModelsDevModel> = crate::views::none();
    let n: usize = provider.models.len();
    for i in 0..n
        invariant
            n == provider.models.entries@.len(),
            hits.views() == catalog_hits_upto(provider@.models, search.views(), i as nat),
    {
        assert(provider@.models[i as int] == provider.models.entries@[i as int]@);
        let m = &provider.models.entries[i].value;
        if is_hit(m.id.as_str(), search) || is_hit(m.name.as_str(), search) {
            crate::views::push(&mut hits, m.dup());
        }
    }
    crate::order::sort(hits)
}

/// A model of the catalog as JSON: all that is known of it, with its id and name.
pub open spec fn model_value(m: ModelsDevModelV) -> JsonV {
    let base = match m.extra {
        JsonV::Object(f) => m.extra,
        _ => JsonV::obj(),
    };
    base.with("id"@, JsonV::Text(m.id)).with("name"@, JsonV::Text(m.name))
}

pub fn model_json(model: &ModelsDevModel) -> (r: Json)
    ensures
        r@ == model_value(model@),
{
    let base = match model.extra.as_object() {
        Some(_) => model.extra.dup(),
        None => Json::object(),
    };
    base.with("id", Json::text(model.id.as_str())).with("name", Json::text(model.name.as_str()))
}

/// The models of a provider of the catalog as JSON.
pub open spec fn catalog_listing(
    key: ApiKeyV,
    p: ModelsDevProviderV,
    models: Seq<ModelsDevModelV>,
) -> JsonV {
    JsonV::obj().with("provider"@, JsonV::Text(key.provider.name())).with(
        "baseUrl"@,
        JsonV::Text(key.base_url),
    ).with("modelsDevProviderName"@, JsonV::Text(p.name)).with(
        "modelsDevProviderId"@,
        JsonV::Text(p.id),
    ).with(
        "models"@,
        JsonV::Array(Seq::new(models.len(), |i: int| model_value(models[i]))),
    )
}

pub fn models_dev_listing(
    key: &ApiKey,
    provider: &ModelsDevProvider,
    models: &Vec<ModelsDevModel>,
) -> (r: Json)
    ensures
        r@ == catalog_listing(key@, provider@, models.views()),
{
    let mut items: Vec<Json> = Vec::new();
    for i in 0..models.len()
        invariant
            items@.len() == i,
            forall|j: int|
                0 <= j < i ==> (#[trigger] items@[j])@ == model_value(models.views()[j]),
    {
        assert(models.views()[i as int] == models@[i as int]@);
        items.push(model_json(&models[i]));
    }
    assert(items.views() =~= Seq::new(
        models.views().len(),
        |i: int| model_value(models.views()[i]),
    ));
    Json::object().with("provider", Json::text(key.provider.to_string().as_str())).with(
        "baseUrl",
        Json::text(key.base_url.as_str()),
    ).with("modelsDevProviderName", Json::text(provider.name.as_str())).with(
        "modelsDevProviderId",
        Json::text(provider.id.as_str()),
    ).with("models", Json::array(items))
}

// ---------------------------------------------------------------- what is listed of GitHub Copilot

/// Whether a model's id or name holds what is searched for, ASCII letters of either case alike.
pub open spec fn copilot_hit(m: GithubCopilotModelV, search: Option<Seq<char>>) -> bool {
    match search {
        Some(s) => crate::text::find_of(crate::text::lower_of(m.id), crate::text::lower_of(s))
            is Some || crate::text::find_of(
            crate::text::lower_of(m.name),
            crate::text::lower_of(s),
        ) is Some,
        None => true,
    }
}

fn is_copilot_hit(m: &GithubCopilotModel, search: &Option<String>) -> (r: bool)
    ensures
        r == copilot_hit(m@, search.views()),
{
    match search {
        Some(s) => {
            let needle = crate::text::to_ascii_lowercase(s.as_str());
            crate::text::contains(
                crate::text::to_ascii_lowercase(m.id.as_str()).as_str(),
                needle.as_str(),
            ) || crate::text::contains(
                crate::text::to_ascii_lowercase(m.name.as_str()).as_str(),
                needle.as_str(),
            )
        },
        None => true,
    }
}

/// Those of the first `n` models whose id or name holds what is searched for.
pub open spec fn copilot_hits_upto(
    s: Seq<GithubCopilotModelV>,
    search: Option<Seq<char>>,
    n: nat,
) -> Seq<GithubCopilotModelV>
    decreases n,
{
    if n == 0 {
        Seq::empty()
    } else {
        let rest = copilot_hits_upto(s, search, (n - 1) as nat);
        if copilot_hit(s[n - 1], search) {
            rest.push(s[n - 1])
        } else {
            rest
        }
    }
}

/// The models whose id or name holds what is searched for, in their order.
pub fn search_copilot(models: &Vec<GithubCopilotModel>, search: &Option<String>) -> (r: Vec<
    GithubCopilotModel,
>)
    ensures
        r.views() == copilot_hits_upto(models.views(), search.views(), models.views().len()),
{
    let mut hits: Vec<GithubCopilotModel> = crate::views::none();
    for i in 0..models.len()
        invariant
            hits.views() == copilot_hits_upto(models.views(), search.views(), i as nat),
    {
        assert(models.views()[i as int] == models@[i as int]@);
        if is_copilot_hit(&models[i], search) {
            let m = &models[i];
            let copy = GithubCopilotModel {
                id: m.id.clone(),
                name: m.name.clone(),
                context_window: m.context_window,
                supports_reasoning: m.supports_reasoning,
                wire: m.wire,
            };
            crate::views::push(&mut hits, copy);
        }
    }
    hits
}

/// A model of GitHub Copilot as JSON.
pub open spec fn copilot_value(m: GithubCopilotModelV) -> JsonV {
    JsonV::obj().with("id"@, JsonV::Text(m.id)).with("name"@, JsonV::Text(m.name)).with(
        "wire"@,
        JsonV::Text(m.wire.name()),
    ).with(
        "contextWindow"@,
        match m.context_window {
            Some(n) => JsonV::num(n),
            None => JsonV::Null,
        },
    ).with("supportsReasoning"@, JsonV::Bool(m.supports_reasoning))
}

fn copilot_json(m: &GithubCopilotModel) -> (r: Json)
    ensures
        r@ == copilot_value(m@),
{
    Json::object().with("id", Json::text(m.id.as_str())).with(
        "name",
        Json::text(m.name.as_str()),
    ).with("wire", Json::text(m.wire.as_str())).with(
        "contextWindow",
        match m.context_window {
            Some(n) => Json::num(n),
            None => Json::Null,
        },
    ).with("supportsReasoning", Json::Bool(m.supports_reasoning))
}

/// The models of GitHub Copilot as JSON.
pub open spec fn copilot_list(key: ApiKeyV, models: Seq<GithubCopilotModelV>) -> JsonV {
    JsonV::obj().with("provider"@, JsonV::Text(key.provider.name())).with(
        "baseUrl"@,
        JsonV::Text(key.base_url),
    ).with(
        "models"@,
        JsonV::Array(Seq::new(models.len(), |i: int| copilot_value(models[i]))),
    )
}

pub fn copilot_listing(key: &ApiKey, models: &Vec<GithubCopilotModel>) -> (r: Json)
    ensures
        r@ == copilot_list(key@, models.views()),
{
    let mut items: Vec<Json> = Vec::new();
    for i in 0..models.len()
        invariant
            items@.len() == i,
            forall|j: int|
                0 <= j < i ==> (#[trigger] items@[j])@ == copilot_value(models.views()[j]),
    {
        assert(models.views()[i as int] == models@[i as int]@);
        items.push(copilot_json(&models[i]));
    }
    assert(items.views() =~= Seq::new(
        models.views().len(),
        |i: int| copilot_value(models.views()[i]),
    ));
    Json::object().with("provider", Json::text(key.provider.to_string().as_str())).with(
        "baseUrl",
        Json::text(key.base_url.as_str()),
    ).with("models", Json::array(items))
}

// ---------------------------------------------------------------- choosing a model for a launch

/// Where a key's models are known from.
#[derive(Debug)]
pub enum ModelHome {
    Copilot,
    /// The provider of the catalog with this name.
    Catalog(String),
    Unknown,
}

pub enum ModelHomeV {
    Copilot,
    Catalog(Seq<char>),
    Unknown,
}

impl View for ModelHome {
    type V = ModelHomeV;

    open spec fn view(&self) -> ModelHomeV {
        match self {
            ModelHome::Copilot => ModelHomeV::Copilot,
            ModelHome::Catalog(name) => ModelHomeV::Catalog(name@),
            ModelHome::Unknown => ModelHomeV::Unknown,
        }
    }
}

pub open spec fn home_of(key: ApiKeyV) -> ModelHomeV {
    if key.is_copilot() {
        ModelHomeV::Copilot
    } else {
        match key.models_dev_provider_name {
            Some(name) => ModelHomeV::Catalog(name),
            None => ModelHomeV::Unknown,
        }
    }
}

/// Where a key's models are known from.
pub fn model_home(key: &ApiKey) -> (r: ModelHome)
    ensures
        r@ == home_of(key@),
{
    if crate::config::is_github_copilot_key(key) {
        return ModelHome::Copilot;
    }
    match &key.models_dev_provider_name {
        Some(name) => ModelHome::Catalog(name.clone()),
        None => ModelHome::Unknown,
    }
}

/// How a model is chosen.
#[derive(Debug)]
pub enum ModelPick {
    Named(String),
    /// By asking the user.
    Ask,
}

pub enum ModelPickV {
    Named(Seq<char>),
    Ask,
}

impl View for ModelPick {
    type V = ModelPickV;

    open spec fn view(&self) -> ModelPickV {
        match self {
            ModelPick::Named(m) => ModelPickV::Named(m@),
            ModelPick::Ask => ModelPickV::Ask,
        }
    }
}

/// How a model is chosen: as it was named; otherwise the user is asked, if there is a terminal.
pub open spec fn pick_of(provider: Seq<char>, model: Option<Seq<char>>, terminal: bool) -> Result<
    ModelPickV,
    Seq<char>,
> {
    match model {
        Some(m) => Ok(ModelPickV::Named(m)),
        None => if terminal {
            Ok(ModelPickV::Ask)
        } else {
            Err(
                "No model selected for builtin provider `"@ + provider
                    + "`. Pass `-m <model>` when stdin is not interactive."@,
            )
        },
    }
}

pub fn model_pick(provider_name: &str, model: &Option<String>, terminal: bool) -> (r: Result<
    ModelPick,
    Fault,
>)
    ensures
        r.views() == pick_of(provider_name@, model.views(), terminal),
{
    match model {
        Some(m) => Ok(ModelPick::Named(m.clone())),
        None => if terminal {
            Ok(ModelPick::Ask)
        } else {
            Err(
                Fault::about(
                    "No model selected for builtin provider `",
                    provider_name,
                    "`. Pass `-m <model>` when stdin is not interactive.",
                ),
            )
        },
    }
}

/// A line that the user can choose.
#[derive(Debug)]
pub struct PickerItem {
    pub label: String,
    pub detail: Option<String>,
}

pub struct PickerItemV {
    pub label: Seq<char>,
    pub detail: Option<Seq<char>>,
}

impl View for PickerItem {
    type V = PickerItemV;

    open spec fn view(&self) -> PickerItemV {
        PickerItemV { label: self.label@, detail: self.detail.views() }
    }
}

/// The line of a model: its id, and the size of its context where it is known.
pub open spec fn model_line(id: Seq<char>, context_window: Option<u64>) -> PickerItemV {
    PickerItemV {
        label: id,
        detail: match context_window {
            Some(n) => Some("ctx="@ + crate::text::decimal(n as nat)),
            None => None,
        },
    }
}

fn picker_line(id: &str, context_window: Option<u64>) -> (r: PickerItem)
    ensures
        r@ == model_line(id@, context_window),
{
    PickerItem {
        label: id.to_string(),
        detail: match context_window {
            Some(n) => Some(crate::text::cat("ctx=", crate::text::decimal_text(n).as_str())),
            None => None,
        },
    }
}

/// The models of a provider in the order of their ids.
pub open spec fn ordered_models(p: ModelsDevProviderV) -> Seq<ModelsDevModelV> {
    crate::order::sorted::<ModelsDevModel>(
        Seq::new(p.models.len(), |i: int| p.models[i].1),
    )
}

/// The models among which the user chooses, in their order; an error where there is none.
pub fn models_to_pick(provider: &ModelsDevProvider) -> (r: Result<Vec<ModelsDevModel>, Fault>)
    ensures
        match r {
            Ok(models) => provider@.models.len() > 0 && models.views() == ordered_models(provider@),
            Err(e) => provider@.models.len() == 0 && e@ == "models.dev provider `"@
                + provider@.name + "` has no models."@,
        },
{
    let n: usize = provider.models.len();
    if n == 0 {
        return Err(
            Fault::about("models.dev provider `", provider.name.as_str(), "` has no models."),
        );
    }
    let mut models: Vec<ModelsDevModel> = Vec::new();
    for i in 0..n
        invariant
            n == provider.models.entries@.len(),
            models@.len() == i,
            forall|j: int| 0 <= j < i ==> (#[trigger] models@[j])@ == provider@.models[j].1,
    {
        assert(provider@.models[i as int] == provider.models.entries@[i as int]@);
        models.push(provider.models.entries[i].value.dup());
    }
    assert(models.views() =~= Seq::new(
        provider@.models.len(),
        |i: int| provider@.models[i].1,
    ));
    Ok(crate::order::sort(models))
}

/// The lines of models of the catalog.
pub fn catalog_picker_items(models: &Vec<ModelsDevModel>) -> (r: Vec<PickerItem>)
    ensures
        r.views() == Seq::new(
            models.views().len(),
            |i: int| model_line(models.views()[i].id, window(models.views()[i])),
        ),
{
    let mut items: Vec<PickerItem> = Vec::new();
    for i in 0..models.len()
        invariant
            items@.len() == i,
            forall|j: int|
                0 <= j < i ==> (#[trigger] items@[j])@ == model_line(
                    models.views()[j].id,
                    window(models.views()[j]),
                ),
    {
        assert(models.views()[i as int] == models@[i as int]@);
        items.push(picker_line(models[i].id.as_str(), model_context_window(&models[i])));
    }
    assert(items.views() =~= Seq::new(
        models.views().len(),
        |i: int| model_line(models.views()[i].id, window(models.views()[i])),
    ));
    items
}

/// The model that the user chose from the catalog.
pub fn picked_catalog_model(
    provider: &ModelsDevProvider,
    models: &Vec<ModelsDevModel>,
    index: Option<usize>,
) -> (r: Result<ResolvedModel, Fault>)
    requires
        index is Some ==> index->0 < models@.len(),
    ensures
        r.views() == match index {
            Some(i) => Ok(resolved_from(models.views()[i as int], provider_wire(provider@))),
            None => Err("Model selection cancelled."@),
        },
{
    match index {
        Some(i) => {
            assert(models.views()[i as int] == models@[i as int]@);
            Ok(resolved_model_from(&models[i], wire_of_provider(provider)))
        },
        None => Err(Fault::new("Model selection cancelled.")),
    }
}

/// The lines of the models of GitHub Copilot; an error where there is none.
pub fn copilot_picker_items(models: &Vec<GithubCopilotModel>) -> (r: Result<Vec<PickerItem>, Fault>)
    ensures
        match r {
            Ok(items) => models.views().len() > 0 && items.views() == Seq::new(
                models.views().len(),
                |i: int| model_line(models.views()[i].id, models.views()[i].context_window),
            ),
            Err(e) => models.views().len() == 0 && e@
                == "github-copilot did not return any models."@,
        },
{
    if models.len() == 0 {
        return Err(Fault::new("github-copilot did not return any models."));
    }
    let mut items: Vec<PickerItem> = Vec::new();
    for i in 0..models.len()
        invariant
            items@.len() == i,
            forall|j: int|
                0 <= j < i ==> (#[trigger] items@[j])@ == model_line(
                    models.views()[j].id,
                    models.views()[j].context_window,
                ),
    {
        assert(models.views()[i as int] == models@[i as int]@);
        items.push(picker_line(models[i].id.as_str(), models[i].context_window));
    }
    assert(items.views() =~= Seq::new(
        models.views().len(),
        |i: int| model_line(models.views()[i].id, models.views()[i].context_window),
    ));
    Ok(items)
}

/// The model of GitHub Copilot that the user chose.
pub fn picked_copilot_model(models: &Vec<GithubCopilotModel>, index: Option<usize>) -> (r: Result<
    ResolvedModel,
    Fault,
>)
    requires
        index is Some ==> index->0 < models@.len(),
    ensures
        r.views() == match index {
            Some(i) => copilot_named(models.views(), models.views()[i as int].id),
            None => Err("Model selection cancelled."@),
        },
{
    match index {
        Some(i) => {
            assert(models.views()[i as int] == models@[i as int]@);
            resolve_github_copilot_model(models, models[i].id.as_str())
        },
        None => Err(Fault::new("Model selection cancelled.")),
    }
}

/// A model that goes by a name exactly is taken before one that does so only with letters of
/// either case alike, and what is taken goes by the name.
pub proof fn lemma_model_named(p: ModelsDevProviderV, query: Seq<char>)
    ensures
        match model_named(p, query) {
            Ok(r) => exists|i: int|
                0 <= i < p.models.len() && r == resolved_from(
                    (#[trigger] p.models[i]).1,
                    provider_wire(p),
                ) && (goes_by(r.id, r.name, query, true) || (goes_by(r.id, r.name, query, false)
                    && forall|j: int|
                    0 <= j < p.models.len() ==> !goes_by(
                        (#[trigger] p.models[j]).1.id,
                        p.models[j].1.name,
                        query,
                        true,
                    ))),
            Err(_) => forall|j: int|
                0 <= j < p.models.len() ==> !goes_by(
                    (#[trigger] p.models[j]).1.id,
                    p.models[j].1.name,
                    query,
                    false,
                ) && !goes_by(p.models[j].1.id, p.models[j].1.name, query, true),
        },
{
    lemma_model_from(p.models, query, true, 0);
    lemma_model_from(p.models, query, false, 0);
}

proof fn lemma_model_from(
    s: Seq<(Seq<char>, ModelsDevModelV)>,
    query: Seq<char>,
    exact: bool,
    i: int,
)
    requires
        0 <= i,
    ensures
        match model_from(s, query, exact, i) {
            Some(m) => exists|j: int|
                i <= j < s.len() && (#[trigger] s[j]).1 == m && goes_by(m.id, m.name, query, exact),
            None => forall|j: int|
                i <= j < s.len() ==> !goes_by((#[trigger] s[j]).1.id, s[j].1.name, query, exact),
        },
    decreases s.len() - i,
{
    if i < s.len() {
        if goes_by(s[i].1.id, s[i].1.name, query, exact) {
            assert(s[i].1 == model_from(s, query, exact, i)->0);
        } else {
            lemma_model_from(s, query, exact, i + 1);
        }
    }
}

// ---------------------------------------------------------------- finding the protocol of an endpoint

/// The protocols in the order in which they are tried.
pub open spec fn probe_wire(i: int) -> WireProtocol {
    if i == 0 {
        WireProtocol::OpenaiResponses
    } else if i == 1 {
        WireProtocol::OpenaiCompletions
    } else {
        WireProtocol::AnthropicMessages
    }
}

pub open spec fn probe_path(wire: WireProtocol) -> Seq<char> {
    match wire {
        WireProtocol::OpenaiResponses => "/v1/responses"@,
        WireProtocol::OpenaiCompletions => "/v1/chat/completions"@,
        WireProtocol::AnthropicMessages => "/v1/messages"@,
    }
}

/// The body with which a protocol is tried.
pub open spec fn probe_body(wire: WireProtocol) -> JsonV {
    match wire {
        WireProtocol::OpenaiResponses => JsonV::obj().with(
            "model"@,
            JsonV::Text("swcli-probe"@),
        ).with("input"@, JsonV::Text("ping"@)).with("max_output_tokens"@, JsonV::num(1)).with(
            "stream"@,
            JsonV::Bool(false),
        ),
        _ => JsonV::obj().with("model"@, JsonV::Text("swcli-probe"@)).with(
            "messages"@,
            JsonV::Array(
                Seq::empty().push(
                    JsonV::obj().with("role"@, JsonV::Text("user"@)).with(
                        "content"@,
                        JsonV::Text("ping"@),
                    ),
                ),
            ),
        ).with("max_tokens"@, JsonV::num(1)).with("stream"@, JsonV::Bool(false)),
    }
}

fn probe_value(wire: WireProtocol) -> (r: Json)
    ensures
        r@ == probe_body(wire),
{
    if wire == WireProtocol::OpenaiResponses {
        return Json::object().with("model", Json::text("swcli-probe")).with(
            "input",
            Json::text("ping"),
        ).with("max_output_tokens", Json::num(1)).with("stream", Json::Bool(false));
    }
    let mut messages: Vec<Json> = crate::views::none();
    crate::views::push(
        &mut messages,
        Json::object().with("role", Json::text("user")).with("content", Json::text("ping")),
    );
    Json::object().with("model", Json::text("swcli-probe")).with(
        "messages",
        Json::array(messages),
    ).with("max_tokens", Json::num(1)).with("stream", Json::Bool(false))
}

/// What trying to find out a protocol comes to next.
#[derive(Debug)]
pub enum ProbeStep {
    /// Post the body to the URL.
    Post {
        url: String,
        body: Json,
    },
    Done(WireProtocol),
    Failed(Fault),
}

pub enum ProbeStepV {
    Post {
        url: Seq<char>,
        body: JsonV,
    },
    Done(WireProtocol),
    Failed(Seq<char>),
}

impl View for ProbeStep {
    type V = ProbeStepV;

    open spec fn view(&self) -> ProbeStepV {
        match self {
            ProbeStep::Post { url, body } => ProbeStepV::Post { url: url@, body: body@ },
            ProbeStep::Done(wire) => ProbeStepV::Done(*wire),
            ProbeStep::Failed(e) => ProbeStepV::Failed(e@),
        }
    }
}

/// Whether an answer shows that the protocol is spoken: there is one, and it is not that the path
/// was not found.
pub open spec fn spoken(reply: Option<u16>) -> bool {
    reply is Some && reply->0 != 404
}

/// The first reply from the `i`-th on that shows that the protocol is spoken.
pub open spec fn spoken_from(replies: Seq<Option<u16>>, i: int) -> Option<int>
    decreases replies.len() - i,
{
    if i < 0 || i >= replies.len() {
        None
    } else if spoken(replies[i]) {
        Some(i)
    } else {
        spoken_from(replies, i + 1)
    }
}

/// What comes next after the replies to the protocols that were tried: the first protocol that was
/// spoken is it; otherwise the next one is tried.
pub open spec fn probe_step(base_url: Seq<char>, replies: Seq<Option<u16>>) -> ProbeStepV {
    match spoken_from(replies, 0) {
        Some(i) => ProbeStepV::Done(probe_wire(i)),
        None => if replies.len() < 3 {
            let wire = probe_wire(replies.len() as int);
            ProbeStepV::Post {
                url: joined_url(base_url, probe_path(wire)),
                body: probe_body(wire),
            }
        } else {
            ProbeStepV::Failed(
                "Could not determine wire protocol for `"@ + base_url
                    + "` by probing endpoints."@,
            )
        },
    }
}

fn wire_tried(i: usize) -> (r: WireProtocol)
    ensures
        r == probe_wire(i as int),
{
    if i == 0 {
        WireProtocol::OpenaiResponses
    } else if i == 1 {
        WireProtocol::OpenaiCompletions
    } else {
        WireProtocol::AnthropicMessages
    }
}

/// Tells what comes next in finding out the protocol of an endpoint. `replies` holds the statuses
/// of the answers so far, with nothing for a request that failed.
pub fn probe_wire_protocol(base_url: &str, replies: &Vec<Option<u16>>) -> (r: ProbeStep)
    ensures
        r@ == probe_step(base_url@, replies@),
{
    let n: usize = replies.len();
    let mut i: usize = 0;
    while i < n
        invariant
            n == replies@.len(),
            i <= n,
            spoken_from(replies@, 0) == spoken_from(replies@, i as int),
        decreases n - i,
    {
        if let Some(status) = replies[i] {
            if status != 404 {
                return ProbeStep::Done(wire_tried(i));
            }
        }
        i = i + 1;
    }
    if n < 3 {
        let wire = wire_tried(n);
        let path = match wire {
            WireProtocol::OpenaiResponses => "/v1/responses",
            WireProtocol::OpenaiCompletions => "/v1/chat/completions",
            WireProtocol::AnthropicMessages => "/v1/messages",
        };
        ProbeStep::Post { url: build_endpoint_url(base_url, path), body: probe_value(wire) }
    } else {
        ProbeStep::Failed(
            Fault::about(
                "Could not determine wire protocol for `",
                base_url,
                "` by probing endpoints.",
            ),
        )
    }
}

/// After three replies the protocol is found or known not to be: no further request is made.
pub proof fn lemma_probe_ends(base_url: Seq<char>, replies: Seq<Option<u16>>)
    requires
        replies.len() >= 3,
    ensures
        !(probe_step(base_url, replies) is Post),
{
}

} // verus!
