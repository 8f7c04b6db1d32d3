//! What holds of models, of where they are listed and of how they are found.
use vstd::prelude::*;

use crate::config::{ApiKeyV, CacheEntryV, ModelsDevCacheV, ModelsDevModelV, ModelsDevProviderV};
use crate::github_copilot::{AuthEntryV, GithubCopilotModelV};
use crate::json::{JsonV, NumberV};
use crate::models::{CatalogSource, ModelHomeV, ModelPickV, ProbeStepV};
use crate::provider::{ProviderKind, WireProtocol};

verus! {

/// The words in use differ.
proof fn lemma_words()
    ensures
        "1m"@.len() == 2,
        "1m"@[0] == '1',
        "2m"@.len() == 2,
        "2m"@[0] == '2',
        "id"@.len() == 2,
        "id"@[0] == 'i',
        "api"@.len() == 3,
        "api"@[0] == 'a',
        "doc"@.len() == 3,
        "doc"@[0] == 'd',
        "env"@.len() == 3,
        "env"@[0] == 'e',
        "npm"@.len() == 3,
        "npm"@[0] == 'n',
        "data"@.len() == 4,
        "data"@[0] == 'd',
        "name"@.len() == 4,
        "name"@[0] == 'n',
        "ping"@.len() == 4,
        "ping"@[0] == 'p',
        "role"@.len() == 4,
        "role"@[0] == 'r',
        "type"@.len() == 4,
        "type"@[0] == 't',
        "user"@.len() == 4,
        "user"@[0] == 'u',
        "wire"@.len() == 4,
        "wire"@[0] == 'w',
        "input"@.len() == 5,
        "input"@[0] == 'i',
        "limit"@.len() == 5,
        "limit"@[0] == 'l',
        "model"@.len() == 5,
        "model"@[0] == 'm',
        "token"@.len() == 5,
        "token"@[0] == 't',
        "access"@.len() == 6,
        "access"@[0] == 'a',
        "limits"@.len() == 6,
        "limits"@[0] == 'l',
        "models"@.len() == 6,
        "models"@[0] == 'm',
        "stream"@.len() == 6,
        "stream"@[0] == 's',
        "baseUrl"@.len() == 7,
        "baseUrl"@[5] == 'r',
        "content"@.len() == 7,
        "content"@[5] == 'n',
        "context"@.len() == 7,
        "context"@[5] == 'x',
        "expires"@.len() == 7,
        "expires"@[5] == 'e',
        "refresh"@.len() == 7,
        "refresh"@[5] == 's',
        "messages"@.len() == 8,
        "messages"@[0] == 'm',
        "provider"@.len() == 8,
        "provider"@[0] == 'p',
        "supports"@.len() == 8,
        "supports"@[0] == 's',
        "endpoints"@.len() == 9,
        "endpoints"@[0] == 'e',
        "reasoning"@.len() == 9,
        "reasoning"@[0] == 'r',
        "/responses"@.len() == 10,
        "/responses"@[0] == '/',
        "expires_at"@.len() == 10,
        "expires_at"@[0] == 'e',
        "max_tokens"@.len() == 10,
        "max_tokens"@[0] == 'm',
        "swcli-probe"@.len() == 11,
        "/v1/messages"@.len() == 12,
        "/v1/messages"@[0] == '/',
        "capabilities"@.len() == 12,
        "capabilities"@[0] == 'c',
        "contextWindow"@.len() == 13,
        "contextWindow"@[0] == 'c',
        "enterpriseUrl"@.len() == 13,
        "enterpriseUrl"@[0] == 'e',
        "@ai-sdk/openai"@.len() == 14,
        "reasoning_effort"@.len() == 16,
        "@ai-sdk/anthropic"@.len() == 17,
        "@ai-sdk/anthropic"@[0] == '@',
        "adaptive_thinking"@.len() == 17,
        "adaptive_thinking"@[0] == 'a',
        "max_output_tokens"@.len() == 17,
        "max_output_tokens"@[0] == 'm',
        "supportsReasoning"@.len() == 17,
        "supportsReasoning"@[0] == 's',
        "max_thinking_budget"@.len() == 19,
        "max_thinking_budget"@[1] == 'a',
        "modelsDevProviderId"@.len() == 19,
        "modelsDevProviderId"@[1] == 'o',
        "supported_endpoints"@.len() == 19,
        "supported_endpoints"@[1] == 'u',
        "model_picker_enabled"@.len() == 20,
        "modelsDevProviderName"@.len() == 21,
        "@ai-sdk/openai-compatible"@.len() == 25,
        "@ai-sdk/openai-compatible"@[0] == '@',
        "max_context_window_tokens"@.len() == 25,
        "max_context_window_tokens"@[0] == 'm',
{
    reveal_strlit("1m");
    reveal_strlit("2m");
    reveal_strlit("id");
    reveal_strlit("api");
    reveal_strlit("doc");
    reveal_strlit("env");
    reveal_strlit("npm");
    reveal_strlit("data");
    reveal_strlit("name");
    reveal_strlit("ping");
    reveal_strlit("role");
    reveal_strlit("type");
    reveal_strlit("user");
    reveal_strlit("wire");
    reveal_strlit("input");
    reveal_strlit("limit");
    reveal_strlit("model");
    reveal_strlit("token");
    reveal_strlit("access");
    reveal_strlit("limits");
    reveal_strlit("models");
    reveal_strlit("stream");
    reveal_strlit("baseUrl");
    reveal_strlit("content");
    reveal_strlit("context");
    reveal_strlit("expires");
    reveal_strlit("refresh");
    reveal_strlit("messages");
    reveal_strlit("provider");
    reveal_strlit("supports");
    reveal_strlit("endpoints");
    reveal_strlit("reasoning");
    reveal_strlit("/responses");
    reveal_strlit("expires_at");
    reveal_strlit("max_tokens");
    reveal_strlit("swcli-probe");
    reveal_strlit("/v1/messages");
    reveal_strlit("capabilities");
    reveal_strlit("contextWindow");
    reveal_strlit("enterpriseUrl");
    reveal_strlit("@ai-sdk/openai");
    reveal_strlit("reasoning_effort");
    reveal_strlit("@ai-sdk/anthropic");
    reveal_strlit("adaptive_thinking");
    reveal_strlit("max_output_tokens");
    reveal_strlit("supportsReasoning");
    reveal_strlit("max_thinking_budget");
    reveal_strlit("modelsDevProviderId");
    reveal_strlit("supported_endpoints");
    reveal_strlit("model_picker_enabled");
    reveal_strlit("modelsDevProviderName");
    reveal_strlit("@ai-sdk/openai-compatible");
    reveal_strlit("max_context_window_tokens");
}

// ---------------------------------------------------------------- addresses

proof fn lemma_one_slash(s: Seq<char>)
    requires
        !crate::text::ends(s, "/"@),
    ensures
        crate::text::without_suffixes(s, "/"@) == s,
        crate::text::without_suffixes(s + "/"@, "/"@) == s,
{
    reveal_strlit("/");
    reveal_with_fuel(crate::text::without_suffixes, 3);
    let t = s + "/"@;
    assert(t.subrange(t.len() - 1, t.len() as int) =~= "/"@);
    assert(t.subrange(0, t.len() - 1) =~= s);
}

proof fn lemma_first_slash(s: Seq<char>)
    requires
        !crate::text::begins(s, "/"@),
    ensures
        crate::text::without_prefixes(s, "/"@) == s,
        crate::text::without_prefixes("/"@ + s, "/"@) == s,
{
    reveal_strlit("/");
    reveal_with_fuel(crate::text::without_prefixes, 3);
    let t = "/"@ + s;
    assert(t.subrange(0, 1) =~= "/"@);
    assert(t.subrange(1, t.len() as int) =~= s);
}

/// A path stands behind a base URL with one slash between them, however many slashes of either
/// meet there.
pub proof fn lemma_joined(base: Seq<char>, rest: Seq<char>)
    requires
        !crate::text::ends(base, "/"@),
        !crate::text::begins(rest, "/"@),
        !(crate::text::ends(base, "/v1"@) && crate::text::begins(rest, "v1/"@)),
    ensures
        crate::models::joined_url(base, rest) == base + "/"@ + rest,
        crate::models::joined_url(base, "/"@ + rest) == base + "/"@ + rest,
        crate::models::joined_url(base + "/"@, rest) == base + "/"@ + rest,
        crate::models::joined_url(base + "/"@, "/"@ + rest) == base + "/"@ + rest,
{
    lemma_one_slash(base);
    lemma_first_slash(rest);
}

/// The version is not said twice.
pub proof fn lemma_joined_v1(base: Seq<char>, rest: Seq<char>)
    requires
        crate::text::ends(base, "/v1"@),
        !crate::text::begins(rest, "v1/"@),
    ensures
        crate::models::joined_url(base, "/v1/"@ + rest) == base + "/"@ + rest,
{
    reveal_strlit("/v1/");
    reveal_strlit("/v1");
    reveal_strlit("v1/");
    reveal_strlit("/");
    assert(!crate::text::ends(base, "/"@)) by {
        let n = base.len();
        assert(base.subrange(n - 3, n as int)[2] == '1');
        if crate::text::ends(base, "/"@) {
            assert(base.subrange(n - 1, n as int)[0] == '/');
        }
    }
    let tail = "v1/"@ + rest;
    assert("/v1/"@ + rest =~= "/"@ + tail);
    assert(!crate::text::begins(tail, "/"@)) by {
        if crate::text::begins(tail, "/"@) {
            assert(tail.subrange(0, 1)[0] == '/');
        }
    }
    lemma_one_slash(base);
    lemma_first_slash(tail);
    assert(tail.subrange(0, 3) =~= "v1/"@);
    assert(tail.subrange(3, tail.len() as int) =~= rest);
    reveal_with_fuel(crate::text::without_prefixes, 3);
}

/// The list of models stands below the version, which is added where the base URL lacks it.
pub proof fn lemma_models_url(base: Seq<char>)
    requires
        !crate::text::ends(base, "/"@),
    ensures
        crate::text::ends(base, "/v1"@) ==> crate::models::models_url_of(base) == base + "/models"@,
        !crate::text::ends(base, "/v1"@) ==> crate::models::models_url_of(base) == base
            + "/v1/models"@,
        crate::models::models_url_of(base + "/"@) == crate::models::models_url_of(base),
{
    lemma_one_slash(base);
}

// ---------------------------------------------------------------- lists

proof fn lemma_ids(data: Seq<JsonV>, n: nat, id: Seq<char>)
    requires
        n <= data.len(),
    ensures
        crate::models::ids_upto(data, n).contains(id) <==> exists|i: int|
            0 <= i < n && (#[trigger] data[i]).get_str("id"@) == Some(id),
    decreases n,
{
    if n > 0 {
        let m = (n - 1) as nat;
        lemma_ids(data, m, id);
        let a = crate::models::ids_upto(data, m);
        let b = crate::models::ids_upto(data, n);
        if a.contains(id) {
            let j = choose|j: int| 0 <= j < a.len() && a[j] == id;
            assert(b[j] == id);
        }
        if data[n - 1].get_str("id"@) == Some(id) {
            assert(b.last() == id);
        }
        if b.contains(id) {
            let j = choose|j: int| 0 <= j < b.len() && b[j] == id;
            if j < a.len() {
                assert(a[j] == id);
            }
        }
    }
}

/// A provider's list of models names just the models that its answer names.
pub proof fn lemma_listed(status: Seq<char>, body: JsonV, data: Seq<JsonV>, id: Seq<char>)
    requires
        body.get("data"@) == Some(JsonV::Array(data)),
    ensures
        crate::models::listed(true, status, body) is Ok,
        (crate::models::listed(true, status, body)->Ok_0).contains(id) <==> exists|i: int|
            0 <= i < data.len() && (#[trigger] data[i]).get_str("id"@) == Some(id),
        crate::models::listed(false, status, body) is Err,
{
    lemma_ids(data, data.len(), id);
}

proof fn lemma_hits(models: Seq<Seq<char>>, search: Option<Seq<char>>, n: nat, m: Seq<char>)
    requires
        n <= models.len(),
    ensures
        crate::models::hits_upto(models, search, n).contains(m) <==> exists|i: int|
            0 <= i < n && #[trigger] models[i] == m && match search {
                Some(s) => crate::text::find_of(
                    crate::text::unicode_lowercase(m),
                    crate::text::unicode_lowercase(s),
                ) is Some,
                None => true,
            },
        search is None ==> crate::models::hits_upto(models, search, n) == models.take(n as int),
    decreases n,
{
    if n == 0 {
        assert(models.take(0) =~= Seq::empty());
    } else {
        let k = (n - 1) as nat;
        lemma_hits(models, search, k, m);
        let a = crate::models::hits_upto(models, search, k);
        let b = crate::models::hits_upto(models, search, n);
        if a.contains(m) {
            let j = choose|j: int| 0 <= j < a.len() && a[j] == m;
            assert(b[j] == m);
        }
        if models[n - 1] == m && crate::models::hit(m, search) {
            assert(b.last() == m);
        }
        if b.contains(m) {
            let j = choose|j: int| 0 <= j < b.len() && b[j] == m;
            if j < a.len() {
                assert(a[j] == m);
            }
        }
        if search is None {
            assert(b =~= models.take(n as int));
        }
    }
}

/// A search keeps just the models whose names hold what is sought, in whatever case; without a
/// search all are kept, in their order.
pub proof fn lemma_search(models: Seq<Seq<char>>, search: Option<Seq<char>>, m: Seq<char>)
    ensures
        ({
            let v = crate::models::hits_upto(models, search, models.len());
            &&& v.contains(m) <==> models.contains(m) && match search {
                Some(s) => crate::text::find_of(
                    crate::text::unicode_lowercase(m),
                    crate::text::unicode_lowercase(s),
                ) is Some,
                None => true,
            }
            &&& search is None ==> v == models
        }),
{
    lemma_hits(models, search, models.len(), m);
    assert(models.take(models.len() as int) =~= models);
}

/// A list that is shown names the provider, the base URL and the models, in order.
pub proof fn lemma_listing(key: ApiKeyV, models: Seq<Seq<char>>)
    ensures
        ({
            let j = crate::models::listing(key, models);
            &&& j.get_str("provider"@) == Some(key.provider.name())
            &&& j.get_str("baseUrl"@) == Some(key.base_url)
            &&& j.get_array("models"@) == Some(
                Seq::new(models.len(), |i: int| JsonV::Text(models[i])),
            )
        }),
{
    broadcast use crate::json::lemma_with_get;

    lemma_words();
}

/// What was fetched is used again only where no fresh list is asked for, and only that of the same
/// provider at the same place.
pub proof fn lemma_kept_for_its_place(
    cache: Seq<(Seq<char>, CacheEntryV)>,
    key: ApiKeyV,
    now: u64,
    models: Seq<Seq<char>>,
)
    ensures
        crate::models::kept(cache, key, true, now) is None,
        crate::models::kept(cache, key, false, now) == Some(models) ==> exists|i: int|
            0 <= i < cache.len() && (#[trigger] cache[i]).0 == key.provider.name() + ":"@
                + key.base_url && cache[i].1.models == models,
{
    lemma_place(cache, crate::models::cache_name(key), 0);
}

proof fn lemma_place(cache: Seq<(Seq<char>, CacheEntryV)>, k: Seq<char>, i: int)
    requires
        0 <= i,
    ensures
        crate::table::place(cache, k, i) matches Some(j) ==> i <= j < cache.len() && cache[j].0
            == k,
    decreases cache.len() - i,
{
    if i < cache.len() {
        lemma_place(cache, k, i + 1);
    }
}

// ---------------------------------------------------------------- the catalog

/// A field that was dropped is gone, and every other field reads as before.
pub proof fn lemma_drop_get(f: Seq<(Seq<char>, JsonV)>, k: Seq<char>, other: Seq<char>)
    requires
        crate::json::distinct_names(f),
    ensures
        crate::json::distinct_names(crate::json::drop_field(f, k)),
        crate::json::get_field(crate::json::drop_field(f, k), other) == if other == k {
            None
        } else {
            crate::json::get_field(f, other)
        },
{
    let g = crate::json::drop_field(f, k);
    crate::json::lemma_field_pos(f, k, f.len());
    crate::json::lemma_field_pos(f, other, f.len());
    crate::json::lemma_field_pos(g, other, g.len());
    if let Some(i) = crate::json::field_pos(f, k, f.len()) {
        let last = f.len() - 1;
        assert forall|j: int| 0 <= j < g.len() implies g[j] == (if j == i {
            f[last]
        } else {
            f[j]
        }) by {}
        match crate::json::field_pos(f, other, f.len()) {
            Some(p) => {
                if other != k {
                    if p == last {
                        assert(g[i].0 == other);
                    } else {
                        assert(g[p].0 == other);
                    }
                }
            },
            None => {},
        }
    }
}

/// A model of the catalog is known by the identifier, the name, the window and the skill to reason
/// that its entry gives it.
pub proof fn lemma_model_read(f: Seq<(Seq<char>, JsonV)>, wire: WireProtocol)
    requires
        crate::json::distinct_names(f),
        crate::models::model_read(JsonV::Object(f)) is Some,
    ensures
        ({
            let j = JsonV::Object(f);
            let r = crate::models::resolved_from(crate::models::model_read(j)->0, wire);
            &&& j.get("id"@) is Some ==> j.get_str("id"@) == Some(r.id)
            &&& j.get_str("name"@) == Some(r.name)
            &&& r.supports_reasoning <==> j.get("reasoning"@) == Some(JsonV::Bool(true))
            &&& j.get2("limit"@, "context"@) matches Some(JsonV::Number(NumberV::PosInt(n)))
                ==> r.context_window == Some(n)
            &&& j.get("limit"@) is None ==> r.context_window is None
            &&& r.wire == wire
        }),
{
    lemma_words();
    lemma_drop_get(f, "id"@, "reasoning"@);
    lemma_drop_get(f, "id"@, "limit"@);
    let g = crate::json::drop_field(f, "id"@);
    lemma_drop_get(g, "name"@, "reasoning"@);
    lemma_drop_get(g, "name"@, "limit"@);
}

/// A model that is shown is the one that was read, with all that its entry says.
pub proof fn lemma_model_shown(f: Seq<(Seq<char>, JsonV)>, k: Seq<char>)
    requires
        crate::json::distinct_names(f),
        crate::models::model_read(JsonV::Object(f)) is Some,
        JsonV::Object(f).get("id"@) is Some,
    ensures
        crate::models::model_value(crate::models::model_read(JsonV::Object(f))->0).get(k)
            == JsonV::Object(f).get(k),
{
    broadcast use crate::json::lemma_with_get;

    lemma_words();
    lemma_drop_get(f, "id"@, k);
    let g = crate::json::drop_field(f, "id"@);
    lemma_drop_get(g, "name"@, k);
}

/// A provider of the catalog speaks what its package speaks; one with an unknown package the
/// responses protocol.
pub proof fn lemma_package(p: ModelsDevProviderV)
    ensures
        p.npm == Some("@ai-sdk/anthropic"@) ==> crate::models::provider_wire(p)
            == WireProtocol::AnthropicMessages && crate::models::kind_of(p.npm) == Some(
            ProviderKind::Anthropic,
        ),
        p.npm == Some("@ai-sdk/openai"@) ==> crate::models::provider_wire(p)
            == WireProtocol::OpenaiResponses && crate::models::kind_of(p.npm) == Some(
            ProviderKind::Openai,
        ),
        p.npm == Some("@ai-sdk/openai-compatible"@) ==> crate::models::provider_wire(p)
            == WireProtocol::OpenaiCompletions && crate::models::kind_of(p.npm) == Some(
            ProviderKind::Openai,
        ),
        p.npm is None ==> crate::models::provider_wire(p) == WireProtocol::OpenaiResponses
            && crate::models::kind_of(p.npm) is None,
{
    lemma_words();
}

proof fn lemma_provider_from(s: Seq<(Seq<char>, ModelsDevProviderV)>, name: Seq<char>, i: int)
    requires
        0 <= i,
    ensures
        match crate::models::provider_named_from(s, name, i) {
            Some(p) => p.name == name && exists|j: int|
                i <= j < s.len() && (#[trigger] s[j]).1 == p,
            None => forall|j: int| i <= j < s.len() ==> (#[trigger] s[j]).1.name != name,
        },
    decreases s.len() - i,
{
    if i < s.len() {
        lemma_provider_from(s, name, i + 1);
        if s[i].1.name == name {
            assert(s[i].1 == crate::models::provider_named_from(s, name, i)->0);
        }
    }
}

/// A provider is found in the catalog by its name, and only where it is there.
pub proof fn lemma_provider_found(c: ModelsDevCacheV, name: Seq<char>)
    ensures
        match crate::models::provider_named(c, name) {
            Ok(p) => p.name == name && exists|j: int|
                0 <= j < c.catalog.len() && (#[trigger] c.catalog[j]).1 == p,
            Err(_) => forall|j: int|
                0 <= j < c.catalog.len() ==> (#[trigger] c.catalog[j]).1.name != name,
        },
{
    lemma_provider_from(c.catalog, name, 0);
}

/// The catalog is fetched where that is asked for; else what is kept serves for a day, and what
/// came with the program behind that.
pub proof fn lemma_catalog_source(kept_at: u64, now: u64)
    requires
        now >= kept_at,
    ensures
        crate::models::source_of(true, Some(kept_at), now) == CatalogSource::Fetched,
        crate::models::source_of(true, None, now) == CatalogSource::Fetched,
        crate::models::source_of(false, None, now) == CatalogSource::Bundled,
        now - kept_at < crate::models::MODELS_DEV_CACHE_TTL_SECS ==> crate::models::source_of(
            false,
            Some(kept_at),
            now,
        ) == CatalogSource::Kept,
        now - kept_at >= crate::models::MODELS_DEV_CACHE_TTL_SECS ==> crate::models::source_of(
            false,
            Some(kept_at),
            now,
        ) == CatalogSource::Bundled,
{
}

/// The catalog's list of models is shown with the provider that it is of.
pub proof fn lemma_catalog_listing(
    key: ApiKeyV,
    p: ModelsDevProviderV,
    models: Seq<ModelsDevModelV>,
)
    ensures
        ({
            let j = crate::models::catalog_listing(key, p, models);
            &&& j.get_str("provider"@) == Some(key.provider.name())
            &&& j.get_str("baseUrl"@) == Some(key.base_url)
            &&& j.get_str("modelsDevProviderName"@) == Some(p.name)
            &&& j.get_str("modelsDevProviderId"@) == Some(p.id)
            &&& (match j.get_array("models"@) {
                Some(a) => a.len() == models.len() && forall|i: int|
                    0 <= i < a.len() ==> (#[trigger] a[i]).get_str("id"@) == Some(models[i].id)
                        && a[i].get_str("name"@) == Some(models[i].name),
                None => false,
            })
        }),
{
    broadcast use crate::json::lemma_with_get;

    lemma_words();
}

/// A large window has a tag of its own.
pub proof fn lemma_context_tag(n: u64)
    ensures
        n < 1_000_000 ==> crate::models::context_tag(Some(n)) is None,
        1_000_000 <= n < 2_000_000 ==> crate::models::context_tag(Some(n)) == Some("1m"@),
        2_000_000 <= n ==> crate::models::context_tag(Some(n)) == Some("2m"@),
        crate::models::context_tag(None) is None,
{
}

/// Where the models of a key are looked up, and which one is taken: the one that is named, or the
/// one that the user picks where there is a user.
pub proof fn lemma_home_and_pick(key: ApiKeyV, provider: Seq<char>, name: Seq<char>)
    ensures
        key.preset_alias == Some("github-copilot"@) ==> crate::models::home_of(key)
            == ModelHomeV::Copilot,
        key.preset_alias is None && key.models_dev_provider_name == Some(name)
            ==> crate::models::home_of(key) == ModelHomeV::Catalog(name),
        key.preset_alias is None && key.models_dev_provider_name is None
            ==> crate::models::home_of(key) == ModelHomeV::Unknown,
        crate::models::pick_of(provider, Some(name), true) == Ok::<ModelPickV, Seq<char>>(
            ModelPickV::Named(name),
        ),
        crate::models::pick_of(provider, Some(name), false) == Ok::<ModelPickV, Seq<char>>(
            ModelPickV::Named(name),
        ),
        crate::models::pick_of(provider, None, true) == Ok::<ModelPickV, Seq<char>>(
            ModelPickV::Ask,
        ),
        crate::models::pick_of(provider, None, false) is Err,
{
}

// ---------------------------------------------------------------- probing

/// The protocols are tried one behind the other, each at its own path with one token of an answer;
/// the first that is answered, by whatever but that there is nothing, is the one.
pub proof fn lemma_probe(base: Seq<char>, replies: Seq<Option<u16>>)
    requires
        replies.len() <= 3,
        forall|i: int|
            0 <= i < replies.len() - 1 ==> (#[trigger] replies[i] is None || replies[i] == Some(
                404u16,
            )),
    ensures
        ({
            let step = crate::models::probe_step(base, replies);
            let silent = replies.len() == 0 || replies.last() is None || replies.last() == Some(
                404u16,
            );
            &&& !silent ==> step == ProbeStepV::Done(
                if replies.len() == 1 {
                    WireProtocol::OpenaiResponses
                } else if replies.len() == 2 {
                    WireProtocol::OpenaiCompletions
                } else {
                    WireProtocol::AnthropicMessages
                },
            )
            &&& silent && replies.len() == 3 ==> step is Failed
            &&& silent && replies.len() < 3 ==> match step {
                ProbeStepV::Post { url, body } => {
                    &&& url == crate::models::joined_url(
                        base,
                        if replies.len() == 0 {
                            "/v1/responses"@
                        } else if replies.len() == 1 {
                            "/v1/chat/completions"@
                        } else {
                            "/v1/messages"@
                        },
                    )
                    &&& body.get_str("model"@) == Some("swcli-probe"@)
                    &&& body.get_bool("stream"@) == Some(false)
                    &&& replies.len() == 0 ==> body.get_str("input"@) == Some("ping"@)
                        && body.get_u64("max_output_tokens"@) == Some(1u64)
                    &&& replies.len() > 0 ==> body.get_u64("max_tokens"@) == Some(1u64) && match body.get_array("messages"@) {
                        Some(a) => a.len() == 1 && a[0].get_str("role"@) == Some("user"@)
                            && a[0].get_str("content"@) == Some("ping"@),
                        None => false,
                    }
                },
                _ => false,
            }
        }),
{
    broadcast use crate::json::lemma_with_get;

    lemma_words();
    reveal_with_fuel(crate::models::spoken_from, 5);
    if replies.len() > 0 && replies.len() < 3 {
        let m = JsonV::obj().with("role"@, JsonV::Text("user"@)).with(
            "content"@,
            JsonV::Text("ping"@),
        );
        let list = Seq::empty().push(m);
        assert(list[0] == m && list.len() == 1);
    }
    if replies.len() > 0 {
        assert(replies[replies.len() - 1] == replies.last());
    }
    if replies.len() > 1 {
        assert(replies[0] is None || replies[0] == Some(404u16));
    }
    if replies.len() > 2 {
        assert(replies[1] is None || replies[1] == Some(404u16));
    }
}

// ---------------------------------------------------------------- Copilot

/// A session's entry is read under its names.
pub proof fn lemma_auth_read(f: Seq<(Seq<char>, JsonV)>)
    requires
        crate::github_copilot::auth_read(JsonV::Object(f)) is Some,
    ensures
        ({
            let j = JsonV::Object(f);
            let a = crate::github_copilot::auth_read(j)->0;
            &&& j.get("type"@) == Some(JsonV::Text(a.kind))
            &&& j.get("refresh"@) == Some(JsonV::Text(a.refresh))
            &&& j.get_str("access"@) == a.access
            &&& j.get_str("enterpriseUrl"@) == a.enterprise_url
            &&& j.get_str("baseUrl"@) == a.base_url
            &&& j.get("expires"@) matches Some(JsonV::Number(NumberV::PosInt(n))) ==> a.expires
                == Some(n as i64)
        }),
{
}

/// Where Copilot is reached: at the place that the entry gives; else at the public one, or at the
/// one that the enterprise's own server names.
pub proof fn lemma_copilot_place(a: AuthEntryV, url: Seq<char>)
    ensures
        a.base_url == Some(url) ==> a.base() == crate::github_copilot::KnownV::Value(url),
        a.base_url is None && a.enterprise_url is None ==> a.base()
            == crate::github_copilot::KnownV::Value("https://api.githubcopilot.com"@),
        a.base_url is None && a.enterprise_url == Some(url) ==> a.base()
            == crate::github_copilot::KnownV::Ask(
            "https://"@ + ("api."@ + crate::github_copilot::domain_of(url))
                + "/copilot_internal/user"@,
        ),
{
}

/// A token that is still good for more than five minutes is used; else one is asked for.
pub proof fn lemma_copilot_token(a: AuthEntryV, token: Seq<char>, expires: i64, now: i64)
    requires
        a.access == Some(token),
        a.expires == Some(expires),
    ensures
        expires - 300000 > now ==> a.token(now) == crate::github_copilot::KnownV::Value(token),
        expires - 300000 <= now ==> a.token(now) is Ask,
{
}

/// What the server answers is taken only where it answers well.
pub proof fn lemma_copilot_answers(status: Seq<char>, body: JsonV, e: JsonV, t: Seq<char>, at: u64)
    ensures
        crate::github_copilot::exchanged(false, status, body) is Err,
        crate::github_copilot::entitlement(false, status, body) is Err,
        body is Object && body.get("token"@) == Some(JsonV::Text(t)) && body.get("expires_at"@)
            == Some(JsonV::num(at)) && at <= i64::MAX ==> crate::github_copilot::exchanged(
            true,
            status,
            body,
        ) == Ok::<Seq<char>, Seq<char>>(t),
        body is Object && body.get("endpoints"@) == Some(e) && e is Object && e.get("api"@) == Some(
            JsonV::Text(t),
        ) ==> crate::github_copilot::entitlement(true, status, body) == Ok::<
            Seq<char>,
            Seq<char>,
        >(t),
{
}

/// A model of Copilot is read under its names, and offered only where it is one to chat with and
/// not hidden. It speaks the messages protocol where it can, then the responses protocol, then the
/// chat protocol.
pub proof fn lemma_copilot_model(f: Seq<(Seq<char>, JsonV)>)
    requires
        crate::github_copilot::live_read(JsonV::Object(f)) is Some,
    ensures
        ({
            let j = JsonV::Object(f);
            let m = crate::github_copilot::live_read(j)->0;
            let o = m.offered();
            &&& j.get("id"@) == Some(JsonV::Text(m.id))
            &&& o.id == m.id
            &&& j.get_str("name"@) == m.name
            &&& o.name == (if m.name is Some {
                m.name->0
            } else {
                m.id
            })
            &&& j.get("model_picker_enabled"@) == Some(JsonV::Bool(false)) ==> !m.is_picker()
            &&& j.get("capabilities"@) is None ==> !m.is_picker() && !o.supports_reasoning
            &&& m.is_picker() ==> m.capabilities is Some && (m.capabilities->0).kind == Some(
                "chat"@,
            )
            &&& m.supported_endpoints.contains("/v1/messages"@) ==> o.wire
                == WireProtocol::AnthropicMessages && o.context_window == Some(1_000_000u64)
            &&& !m.supported_endpoints.contains("/v1/messages"@) && m.supported_endpoints.contains(
                "/responses"@,
            ) ==> o.wire == WireProtocol::OpenaiResponses
            &&& !m.supported_endpoints.contains("/v1/messages"@) && !m.supported_endpoints.contains(
                "/responses"@,
            ) ==> o.wire == WireProtocol::OpenaiCompletions
            &&& !m.supported_endpoints.contains("/v1/messages"@) && m.capabilities is Some
                ==> o.context_window == (m.capabilities->0).max_context_window_tokens
        }),
{
    lemma_words();
}

/// What a model of Copilot can do is read under its names; it reasons where it is said to think, to
/// have a budget for it, or to take an effort.
pub proof fn lemma_copilot_capabilities(
    f: Seq<(Seq<char>, JsonV)>,
    limits: Seq<(Seq<char>, JsonV)>,
    supports: Seq<(Seq<char>, JsonV)>,
)
    requires
        JsonV::Object(f).get("limits"@) == Some(JsonV::Object(limits)),
        JsonV::Object(f).get("supports"@) == Some(JsonV::Object(supports)),
        crate::github_copilot::capabilities_read(Some(JsonV::Object(f))) is Some,
    ensures
        crate::github_copilot::capabilities_read(Some(JsonV::Object(f)))->0 is Some,
        ({
            let c = (crate::github_copilot::capabilities_read(Some(JsonV::Object(f)))->0)->0;
            &&& c.kind == JsonV::Object(f).get_str("type"@)
            &&& c.max_context_window_tokens == JsonV::Object(limits).get_u64(
                "max_context_window_tokens"@,
            )
            &&& c.adaptive_thinking == JsonV::Object(supports).get_bool("adaptive_thinking"@)
            &&& c.max_thinking_budget == JsonV::Object(supports).get_u64("max_thinking_budget"@)
            &&& JsonV::Object(supports).get("adaptive_thinking"@) == Some(JsonV::Bool(true))
                ==> c.reasons()
            &&& JsonV::Object(supports).get_u64("max_thinking_budget"@) is Some ==> c.reasons()
            &&& JsonV::Object(supports).get("adaptive_thinking"@) is None && JsonV::Object(
                supports,
            ).get("max_thinking_budget"@) is None && JsonV::Object(supports).get(
                "reasoning_effort"@,
            ) is None ==> !c.reasons()
        }),
{
    lemma_words();
}

proof fn lemma_offered(data: Seq<JsonV>, n: nat, m: GithubCopilotModelV)
    requires
        n <= data.len(),
        crate::github_copilot::offered_upto(data, n) is Some,
    ensures
        (crate::github_copilot::offered_upto(data, n)->0).contains(m) <==> exists|i: int|
            0 <= i < n && offers(#[trigger] data[i], m),
    decreases n,
{
    if n > 0 {
        let k = (n - 1) as nat;
        lemma_offered(data, k, m);
        let a = crate::github_copilot::offered_upto(data, k)->0;
        let b = crate::github_copilot::offered_upto(data, n)->0;
        if a.contains(m) {
            let j = choose|j: int| 0 <= j < a.len() && a[j] == m;
            assert(b[j] == m);
        }
        if offers(data[n - 1], m) {
            assert(b.last() == m);
        }
        if b.contains(m) {
            let j = choose|j: int| 0 <= j < b.len() && b[j] == m;
            if j < a.len() {
                assert(a[j] == m);
            }
        }
    }
}

/// Whether an entry of Copilot's list offers a model.
pub open spec fn offers(j: JsonV, m: GithubCopilotModelV) -> bool {
    match crate::github_copilot::live_read(j) {
        Some(l) => l.is_picker() && l.offered() == m,
        None => false,
    }
}

/// Copilot's list offers just the models that its entries offer.
pub proof fn lemma_copilot_listed(body: JsonV, data: Seq<JsonV>, m: GithubCopilotModelV)
    requires
        body is Object,
        body.get("data"@) == Some(JsonV::Array(data)),
        crate::github_copilot::models_read(body) is Ok,
    ensures
        (crate::github_copilot::models_read(body)->Ok_0).contains(m) <==> exists|i: int|
            0 <= i < data.len() && offers(#[trigger] data[i], m),
{
    lemma_offered(data, data.len(), m);
    let v = crate::github_copilot::offered_upto(data, data.len())->0;
    let s = crate::order::sorted::<crate::github_copilot::GithubCopilotModel>(v);
    crate::order::lemma_sorted::<crate::github_copilot::GithubCopilotModel>(v);
    v.to_multiset_ensures();
    s.to_multiset_ensures();
    assert(v.contains(m) <==> v.to_multiset().count(m) > 0);
    assert(s.contains(m) <==> s.to_multiset().count(m) > 0);
}

/// Copilot's models are shown under their names.
pub proof fn lemma_copilot_shown(key: ApiKeyV, models: Seq<GithubCopilotModelV>)
    ensures
        ({
            let j = crate::models::copilot_list(key, models);
            &&& j.get_str("provider"@) == Some(key.provider.name())
            &&& j.get_str("baseUrl"@) == Some(key.base_url)
            &&& (match j.get_array("models"@) {
                Some(a) => a.len() == models.len() && forall|i: int|
                    0 <= i < a.len() ==> shows(#[trigger] a[i], models[i]),
                None => false,
            })
        }),
{
    broadcast use crate::json::lemma_with_get;

    lemma_words();
    let a = Seq::new(models.len(), |i: int| crate::models::copilot_value(models[i]));
    assert(crate::models::copilot_list(key, models).get("models"@) == Some(JsonV::Array(a)));
    assert forall|i: int| 0 <= i < a.len() implies shows(#[trigger] a[i], models[i]) by {
        assert(a[i] == crate::models::copilot_value(models[i]));
    }
}

/// Whether a value shows a model.
pub open spec fn shows(j: JsonV, m: GithubCopilotModelV) -> bool {
    &&& j.get_str("id"@) == Some(m.id)
    &&& j.get_str("name"@) == Some(m.name)
    &&& j.get_str("wire"@) == Some(m.wire.name())
    &&& j.get_u64("contextWindow"@) == m.context_window
    &&& j.get_bool("supportsReasoning"@) == Some(m.supports_reasoning)
}

/// A model of Copilot is found by its identifier or its name, the exact one before any other.
pub proof fn lemma_copilot_found(s: Seq<GithubCopilotModelV>, query: Seq<char>)
    ensures
        ({
            let r = crate::models::copilot_named(s, query);
            let exact = exists|i: int|
                0 <= i < s.len() && ((#[trigger] s[i]).id == query || s[i].name == query);
            &&& r is Ok ==> exists|i: int|
                0 <= i < s.len() && (#[trigger] s[i]).id == r->Ok_0.id && s[i].name
                    == r->Ok_0.name && s[i].wire == r->Ok_0.wire && s[i].context_window
                    == r->Ok_0.context_window && s[i].supports_reasoning
                    == r->Ok_0.supports_reasoning && crate::models::goes_by(
                    s[i].id,
                    s[i].name,
                    query,
                    exact,
                )
            &&& exact ==> r is Ok && (r->Ok_0.id == query || r->Ok_0.name == query)
        }),
{
    lemma_copilot_from(s, query, true, 0);
    lemma_copilot_from(s, query, false, 0);
}

proof fn lemma_copilot_from(s: Seq<GithubCopilotModelV>, query: Seq<char>, exact: bool, i: int)
    requires
        0 <= i,
    ensures
        match crate::models::copilot_from(s, query, exact, i) {
            Some(m) => exists|j: int|
                i <= j < s.len() && #[trigger] s[j] == m && crate::models::goes_by(
                    m.id,
                    m.name,
                    query,
                    exact,
                ),
            None => forall|j: int|
                i <= j < s.len() ==> !crate::models::goes_by(
                    (#[trigger] s[j]).id,
                    s[j].name,
                    query,
                    exact,
                ),
        },
    decreases s.len() - i,
{
    if i < s.len() {
        lemma_copilot_from(s, query, exact, i + 1);
        if crate::models::goes_by(s[i].id, s[i].name, query, exact) {
            assert(crate::models::copilot_from(s, query, exact, i) == Some(s[i]));
        }
    }
}

// ---------------------------------------------------------------- defaults

/// Where a provider is reached and what it speaks where nothing else is said, and where the
/// settings are kept: in a place of their own, below the user's settings, or below the home.
pub proof fn lemma_defaults(own: Seq<char>, xdg: Option<Seq<char>>, home: Seq<char>)
    ensures
        crate::provider::wire_of(ProviderKind::Openai) == WireProtocol::OpenaiResponses,
        crate::provider::wire_of(ProviderKind::CodexOauth) == WireProtocol::OpenaiResponses,
        crate::provider::wire_of(ProviderKind::Anthropic) == WireProtocol::AnthropicMessages,
        crate::provider::wire_of(ProviderKind::ClaudeOauth) == WireProtocol::AnthropicMessages,
        crate::provider::base_url_of(ProviderKind::Openai) == "https://api.openai.com/v1"@,
        crate::provider::base_url_of(ProviderKind::CodexOauth) == "https://api.openai.com/v1"@,
        crate::provider::base_url_of(ProviderKind::Anthropic) == "https://api.anthropic.com/v1"@,
        crate::provider::base_url_of(ProviderKind::ClaudeOauth) == "https://api.anthropic.com/v1"@,
        crate::config::place_of(Some(own), xdg, Some(home)) == Ok::<
            crate::config::PlaceV,
            Seq<char>,
        >(crate::config::PlaceV { base: own, below: Seq::empty() }),
        xdg matches Some(x) ==> crate::config::place_of(None, xdg, Some(home)) == Ok::<
            crate::config::PlaceV,
            Seq<char>,
        >(crate::config::PlaceV { base: x, below: seq!["swcli"@] }),
        crate::config::place_of(None, None, Some(home)) == Ok::<crate::config::PlaceV, Seq<char>>(
            crate::config::PlaceV { base: home, below: seq![".config"@, "swcli"@] },
        ),
        crate::config::place_of(None, None, None) is Err,
{
}

/// The protocol of a key is the one that it is given; else its preset's; else its provider's.
pub proof fn lemma_key_wire(key: ApiKeyV, wire: WireProtocol)
    ensures
        key.wire == Some(wire) ==> key.wire_protocol() == wire,
        key.wire is None && key.preset_alias is None ==> key.wire_protocol()
            == crate::provider::wire_of(key.provider),
        key.wire is None && key.preset_alias == Some("github-copilot"@) ==> key.wire_protocol()
            == WireProtocol::OpenaiCompletions,
        key.secret is Some ==> key.plain_secret() == Ok::<Seq<char>, Seq<char>>(key.secret->0),
        key.secret is None && key.oauth_token is Some ==> key.plain_secret() == Ok::<
            Seq<char>,
            Seq<char>,
        >(key.oauth_token->0),
        key.secret is None && key.oauth_token is None ==> key.plain_secret() is Err,
        key.oauth_token is Some ==> key.plain_oauth_token() == Ok::<Seq<char>, Seq<char>>(
            key.oauth_token->0,
        ),
        key.oauth_token is None ==> key.plain_oauth_token() is Err,
        key.wired().wire == Some(key.wire_protocol()),
        key.wired().secret == key.secret,
        key.wired().base_url == key.base_url,
{
    reveal_with_fuel(crate::provider::preset_from, 2);
}

} // verus!
