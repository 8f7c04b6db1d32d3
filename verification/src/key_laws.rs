//! Laws of managing the stored keys.
use vstd::prelude::*;

use crate::cli::KeysArgsV;
use crate::config::{ApiKeyV, ConfigV, ModelsDevProviderV};
use crate::json::JsonV;
use crate::keys::{ChoiceV, Credential, KeyDraftV, KeysAction, PingResultV, UrlQuestionV};
use crate::provider::{PresetV, ProviderKind, WireProtocol};

verus! {

/// The names of the fields differ.
proof fn lemma_words()
    ensures
        "id"@.len() == 2,
        "id"@[0] == 'i',
        "ok"@.len() == 2,
        "ok"@[0] == 'o',
        "name"@.len() == 4,
        "name"@[0] == 'n',
        "ping"@.len() == 4,
        "ping"@[0] == 'p',
        "wire"@.len() == 4,
        "wire"@[0] == 'w',
        "active"@.len() == 6,
        "baseUrl"@.len() == 7,
        "baseUrl"@[0] == 'b',
        "message"@.len() == 7,
        "message"@[0] == 'm',
        "provider"@.len() == 8,
        "createdAt"@.len() == 9,
        "createdAt"@[0] == 'c',
        "hasSecret"@.len() == 9,
        "hasSecret"@[0] == 'h',
        "presetAlias"@.len() == 11,
        "hasOAuthToken"@.len() == 13,
        "modelsDevProviderName"@.len() == 21,
{
    reveal_strlit("id");
    reveal_strlit("ok");
    reveal_strlit("name");
    reveal_strlit("ping");
    reveal_strlit("wire");
    reveal_strlit("active");
    reveal_strlit("baseUrl");
    reveal_strlit("message");
    reveal_strlit("provider");
    reveal_strlit("createdAt");
    reveal_strlit("hasSecret");
    reveal_strlit("presetAlias");
    reveal_strlit("hasOAuthToken");
    reveal_strlit("modelsDevProviderName");
}

/// The words of the actions differ.
proof fn lemma_actions()
    ensures
        "rm"@.len() == 2,
        "add"@.len() == 3,
        "add"@[0] == 'a',
        "cat"@.len() == 3,
        "cat"@[0] == 'c',
        "edit"@.len() == 4,
        "edit"@[0] == 'e',
        "ping"@.len() == 4,
        "ping"@[0] == 'p',
        "show"@.len() == 4,
        "show"@[0] == 's',
        "remove"@.len() == 6,
        "default"@.len() == 7,
{
    reveal_strlit("rm");
    reveal_strlit("add");
    reveal_strlit("cat");
    reveal_strlit("edit");
    reveal_strlit("ping");
    reveal_strlit("show");
    reveal_strlit("remove");
    reveal_strlit("default");
}

// ---------------------------------------------------------------- finding

/// A key is found by its id, by its name and by the beginning of its id, and by nothing else.
pub proof fn lemma_found_by(key: ApiKeyV, query: Seq<char>)
    ensures
        key.answers(key.id),
        key.answers(key.name),
        query.len() <= key.id.len() && key.id.take(query.len() as int) == query ==> key.answers(
            query,
        ),
        key.answers(query) ==> query == key.name || (query.len() <= key.id.len() && key.id.take(
            query.len() as int,
        ) == query),
{
    assert(key.id.take(key.id.len() as int) =~= key.id);
    if query.len() <= key.id.len() {
        assert(key.id.take(query.len() as int) =~= key.id.subrange(0, query.len() as int));
    }
}

proof fn lemma_found_one(keys: Seq<ApiKeyV>, query: Seq<char>, i: int, n: nat)
    requires
        0 <= i < keys.len(),
        n <= keys.len(),
        keys[i].answers(query),
        forall|j: int| 0 <= j < keys.len() && j != i ==> !(#[trigger] keys[j]).answers(query),
    ensures
        crate::config::found_upto(keys, query, n) == if i < n {
            seq![keys[i]]
        } else {
            Seq::empty()
        },
    decreases n,
{
    if n > 0 {
        lemma_found_one(keys, query, i, (n - 1) as nat);
        assert(Seq::<ApiKeyV>::empty().push(keys[i]) =~= seq![keys[i]]);
    }
}

/// The only key that answers a query is the one that it stands for.
pub proof fn lemma_only_one_found(config: ConfigV, query: Seq<char>, i: int)
    requires
        0 <= i < config.keys.len(),
        config.keys[i].answers(query),
        forall|j: int|
            0 <= j < config.keys.len() && j != i ==> !(#[trigger] config.keys[j]).answers(query),
    ensures
        config.resolve_key(query) == Ok::<_, Seq<char>>(config.keys[i]),
        config.chosen_key(Some(query)) == Ok::<_, Seq<char>>(config.keys[i]),
        config.active_key_id == Some(query) ==> config.chosen_key(None) == Ok::<_, Seq<char>>(
            config.keys[i],
        ),
{
    lemma_found_one(config.keys, query, i, config.keys.len());
}

/// Two keys that answer a query leave it undecided, and none leaves it unanswered.
pub proof fn lemma_no_guess(config: ConfigV, query: Seq<char>)
    ensures
        (exists|i: int, j: int|
            0 <= i < j < config.keys.len() && (#[trigger] config.keys[i]).answers(query) && (
            #[trigger] config.keys[j]).answers(query)) ==> config.resolve_key(query) is Err,
        (forall|i: int|
            0 <= i < config.keys.len() ==> !(#[trigger] config.keys[i]).answers(query))
            ==> config.resolve_key(query) is Err,
{
    if config.resolve_key(query) is Ok {
        crate::config::lemma_resolved(config, query);
    }
}

// ---------------------------------------------------------------- adding, choosing, removing

/// A key that was added stands behind the others, which stay; it is the default where there was
/// none, and only there.
pub proof fn lemma_added(config: ConfigV, key: ApiKeyV)
    ensures
        config.added(key).keys.len() == config.keys.len() + 1,
        config.added(key).keys.last() == key,
        config.added(key).keys.drop_last() == config.keys,
        config.active_key_id is None ==> config.added(key).is_active(key),
        config.active_key_id is Some ==> config.added(key).active_key_id == config.active_key_id,
        (forall|i: int|
            0 <= i < config.keys.len() ==> !(#[trigger] config.keys[i]).answers(key.id))
            ==> config.added(key).resolve_key(key.id) == Ok::<_, Seq<char>>(key),
        (forall|i: int|
            0 <= i < config.keys.len() ==> !(#[trigger] config.keys[i]).answers(key.name))
            ==> config.added(key).resolve_key(key.name) == Ok::<_, Seq<char>>(key),
{
    let a = config.added(key);
    let n = config.keys.len() as int;
    assert(a.keys.drop_last() =~= config.keys);
    lemma_found_by(key, key.id);
    assert forall|j: int| 0 <= j < n implies a.keys[j] == config.keys[j] by {}
    if forall|i: int| 0 <= i < config.keys.len() ==> !(#[trigger] config.keys[i]).answers(key.id) {
        assert forall|j: int| 0 <= j < a.keys.len() && j != n implies !(
        #[trigger] a.keys[j]).answers(key.id) by {
            assert(!config.keys[j].answers(key.id));
        }
        lemma_only_one_found(a, key.id, n);
    }
    if forall|i: int| 0 <= i < config.keys.len() ==> !(#[trigger] config.keys[i]).answers(
        key.name,
    ) {
        assert forall|j: int| 0 <= j < a.keys.len() && j != n implies !(
        #[trigger] a.keys[j]).answers(key.name) by {
            assert(!config.keys[j].answers(key.name));
        }
        lemma_only_one_found(a, key.name, n);
    }
}

proof fn lemma_kept_same(keys: Seq<ApiKeyV>, id: Seq<char>, n: nat)
    requires
        n <= keys.len(),
        forall|i: int| 0 <= i < n ==> (#[trigger] keys[i]).id != id,
    ensures
        crate::keys::kept_upto(keys, id, n) == keys.take(n as int),
    decreases n,
{
    if n > 0 {
        lemma_kept_same(keys, id, (n - 1) as nat);
        assert(keys.take(n as int) =~= keys.take(n - 1).push(keys[n - 1]));
    } else {
        assert(keys.take(0) =~= Seq::empty());
    }
}

proof fn lemma_kept_cat(a: Seq<ApiKeyV>, b: Seq<ApiKeyV>, id: Seq<char>, n: nat)
    requires
        n <= b.len(),
    ensures
        crate::keys::kept_upto(a + b, id, a.len() + n) == crate::keys::kept_upto(a, id, a.len())
            + crate::keys::kept_upto(b, id, n),
    decreases n,
{
    if n == 0 {
        lemma_kept_prefix(a, b, id, a.len());
        assert(crate::keys::kept_upto(a, id, a.len()) + Seq::<ApiKeyV>::empty()
            =~= crate::keys::kept_upto(a, id, a.len()));
    } else {
        lemma_kept_cat(a, b, id, (n - 1) as nat);
        let x = crate::keys::kept_upto(a, id, a.len());
        let y = crate::keys::kept_upto(b, id, (n - 1) as nat);
        assert((a + b)[a.len() + n - 1] == b[n - 1]);
        assert((x + y).push(b[n - 1]) =~= x + y.push(b[n - 1]));
    }
}

proof fn lemma_kept_prefix(a: Seq<ApiKeyV>, b: Seq<ApiKeyV>, id: Seq<char>, n: nat)
    requires
        n <= a.len(),
    ensures
        crate::keys::kept_upto(a + b, id, n) == crate::keys::kept_upto(a, id, n),
    decreases n,
{
    if n > 0 {
        lemma_kept_prefix(a, b, id, (n - 1) as nat);
        assert((a + b)[n - 1] == a[n - 1]);
    }
}

/// Removing takes out the keys of the id and no others: it parts over two lists, keeps a list
/// without the id, and empties one of nothing but the id. The default stays unless it was removed,
/// and then the first key that is left is the default.
pub proof fn lemma_removed(a: Seq<ApiKeyV>, b: Seq<ApiKeyV>, id: Seq<char>, default: Option<Seq<char>>)
    ensures
        ({
            let left = |keys: Seq<ApiKeyV>|
                (ConfigV { keys, active_key_id: default }).removed(id).keys;
            &&& left(a + b) == left(a) + left(b)
            &&& (forall|i: int| 0 <= i < a.len() ==> (#[trigger] a[i]).id != id) ==> left(a) == a
            &&& (forall|i: int| 0 <= i < a.len() ==> (#[trigger] a[i]).id == id) ==> left(a)
                == Seq::<ApiKeyV>::empty()
        }),
        ({
            let after = (ConfigV { keys: a, active_key_id: default }).removed(id);
            &&& default != Some(id) ==> after.active_key_id == default
            &&& default == Some(id) && after.keys.len() > 0 ==> after.is_active(after.keys[0])
            &&& default == Some(id) && after.keys.len() == 0 ==> after.active_key_id is None
        }),
{
    lemma_kept_cat(a, b, id, b.len());
    assert((a + b).len() == a.len() + b.len());
    if forall|i: int| 0 <= i < a.len() ==> (#[trigger] a[i]).id != id {
        lemma_kept_same(a, id, a.len());
        assert(a.take(a.len() as int) =~= a);
    }
    if forall|i: int| 0 <= i < a.len() ==> (#[trigger] a[i]).id == id {
        lemma_kept_none(a, id, a.len());
    }
}

proof fn lemma_kept_none(keys: Seq<ApiKeyV>, id: Seq<char>, n: nat)
    requires
        n <= keys.len(),
        forall|i: int| 0 <= i < keys.len() ==> (#[trigger] keys[i]).id == id,
    ensures
        crate::keys::kept_upto(keys, id, n) == Seq::<ApiKeyV>::empty(),
    decreases n,
{
    if n > 0 {
        lemma_kept_none(keys, id, (n - 1) as nat);
    }
}

/// Removing undoes adding: where no other key has the id and another key is the default.
pub proof fn lemma_removed_undoes_added(config: ConfigV, key: ApiKeyV)
    requires
        config.active_key_id is Some,
        config.active_key_id != Some(key.id),
        forall|i: int| 0 <= i < config.keys.len() ==> (#[trigger] config.keys[i]).id != key.id,
    ensures
        config.added(key).removed(key.id) == config,
{
    lemma_removed(config.keys, seq![key], key.id, config.active_key_id);
    lemma_removed(seq![key], Seq::empty(), key.id, config.active_key_id);
    assert(config.added(key).keys =~= config.keys + seq![key]);
    assert(config.keys + Seq::<ApiKeyV>::empty() =~= config.keys);
    assert(config.added(key).removed(key.id).keys =~= config.keys);
}

/// A key that was made the default is the one that is taken where none is named; the keys stay.
pub proof fn lemma_defaulted(config: ConfigV, key: ApiKeyV, i: int)
    requires
        0 <= i < config.keys.len(),
        config.keys[i] == key,
        forall|j: int|
            0 <= j < config.keys.len() && j != i ==> !(#[trigger] config.keys[j]).answers(key.id),
    ensures
        config.defaulted(key).chosen_key(None) == Ok::<_, Seq<char>>(key),
        config.defaulted(key).is_active(key),
        config.defaulted(key).keys == config.keys,
{
    lemma_found_by(key, key.id);
    lemma_only_one_found(config.defaulted(key), key.id, i);
}

// ---------------------------------------------------------------- changing

/// Whether a key is another with what the arguments name taken over, and all else kept.
pub open spec fn takes_over(after: ApiKeyV, before: ApiKeyV, args: KeysArgsV) -> bool {
    &&& after.name == args.name.unwrap_or(before.name)
    &&& after.base_url == args.base_url.unwrap_or(before.base_url)
    &&& after.provider == args.provider.unwrap_or(before.provider)
    &&& (args.key is Some ==> after.secret == args.key) && (args.key is None ==> after.secret
        == before.secret)
    &&& (args.oauth_token is Some ==> after.oauth_token == args.oauth_token) && (args.oauth_token
        is None ==> after.oauth_token == before.oauth_token)
    &&& (args.wire is Some ==> after.wire == args.wire) && (args.wire is None ==> after.wire
        == before.wire)
    &&& after.id == before.id
    &&& after.created_at == before.created_at
    &&& after.preset_alias == before.preset_alias
    &&& after.models_dev_provider_name == before.models_dev_provider_name
}

proof fn lemma_id_from(keys: Seq<ApiKeyV>, id: Seq<char>, i: int)
    requires
        0 <= i <= keys.len(),
    ensures
        match crate::keys::id_from(keys, id, i) {
            Some(p) => i <= p < keys.len() && keys[p].id == id && forall|j: int|
                i <= j < p ==> (#[trigger] keys[j]).id != id,
            None => forall|j: int| i <= j < keys.len() ==> (#[trigger] keys[j]).id != id,
        },
    decreases keys.len() - i,
{
    if i < keys.len() && keys[i].id != id {
        lemma_id_from(keys, id, i + 1);
    }
}

/// A change takes over what the arguments name and keeps all else. Stored, it stands in place of
/// the key that it changes: the first with the id of the key that the first argument stands for;
/// no other key and not the default change. The endpoint is asked anew exactly where the place
/// changes and no protocol is given, with the secret that the changed key has.
pub proof fn lemma_edit(config: ConfigV, args: KeysArgsV)
    ensures
        args.args.len() == 0 ==> crate::keys::edit_of(config, args) is Err,
        crate::keys::edit_of(config, args) matches Ok((key, probe)) ==> {
            let after = crate::keys::replaced(config, key);
            &&& exists|i: int|
                {
                    &&& 0 <= i < config.keys.len()
                    &&& config.resolve_key(args.args[0]) matches Ok(t) && t.id == key.id
                    &&& takes_over(key, #[trigger] config.keys[i], args)
                    &&& forall|j: int| 0 <= j < i ==> (#[trigger] config.keys[j]).id != key.id
                    &&& after.keys == config.keys.update(i, key)
                }
            &&& after.active_key_id == config.active_key_id
            &&& probe is Some <==> args.wire is None && (args.base_url is Some || args.provider
                is Some)
            &&& probe matches Some(t) ==> key.secret == Some(t) || (key.secret is None
                && key.oauth_token == Some(t))
        },
        args.args.len() > 0 && config.resolve_key(args.args[0]) is Ok && (args.wire is Some
            || args.key is Some) ==> crate::keys::edit_of(config, args) is Ok,
{
    if let Ok((key, probe)) = crate::keys::edit_of(config, args) {
        let target = config.resolve_key(args.args[0])->Ok_0;
        crate::config::lemma_resolved(config, args.args[0]);
        lemma_id_from(config.keys, target.id, 0);
        let i = crate::keys::id_from(config.keys, target.id, 0)->0;
        assert(takes_over(key, config.keys[i], args));
    }
}

// ---------------------------------------------------------------- showing

/// What is shown of a key is the key's own: under each name its value, and of its secrets only
/// whether it has them.
pub proof fn lemma_cat_shows(config: ConfigV, key: ApiKeyV)
    ensures
        ({
            let v = crate::keys::cat_value(config, key);
            &&& v.get_str("id"@) == Some(key.id)
            &&& v.get_str("name"@) == Some(key.name)
            &&& v.get_str("baseUrl"@) == Some(key.base_url)
            &&& v.get_str("provider"@) == Some(key.provider.name())
            &&& v.get_str("wire"@) == Some(key.wire_protocol().name())
            &&& v.get_str("presetAlias"@) == key.preset_alias
            &&& v.get_str("modelsDevProviderName"@) == key.models_dev_provider_name
            &&& v.get_bool("active"@) == Some(config.active_key_id == Some(key.id))
            &&& v.get_bool("hasSecret"@) == Some(key.secret is Some)
            &&& v.get_bool("hasOAuthToken"@) == Some(key.oauth_token is Some)
            &&& v.get_str("createdAt"@) == Some(key.created_at)
        }),
{
    broadcast use crate::json::lemma_with_get;

    lemma_words();
}

/// A row of the list is the key's own, with what its provider answered where it was asked.
pub proof fn lemma_row_shows(config: ConfigV, key: ApiKeyV, ping: Option<PingResultV>)
    ensures
        ({
            let v = crate::keys::row_value(config, key, ping);
            &&& v.get_str("id"@) == Some(key.id)
            &&& v.get_str("name"@) == Some(key.name)
            &&& v.get_str("baseUrl"@) == Some(key.base_url)
            &&& v.get_str("provider"@) == Some(key.provider.name())
            &&& v.get_str("wire"@) == Some(key.wire_protocol().name())
            &&& v.get_str("presetAlias"@) == key.preset_alias
            &&& v.get_str("modelsDevProviderName"@) == key.models_dev_provider_name
            &&& v.get_bool("active"@) == Some(config.active_key_id == Some(key.id))
            &&& ping is None ==> v.get("ping"@) == Some(JsonV::Null)
            &&& ping matches Some(p) ==> v.get2("ping"@, "ok"@) == Some(JsonV::Bool(p.ok))
                && v.get2("ping"@, "message"@) == Some(JsonV::Text(p.message))
        }),
{
    broadcast use crate::json::lemma_with_get;

    lemma_words();
}

/// A ping is told of the key that was asked.
pub proof fn lemma_ping_shows(key: ApiKeyV, ping: PingResultV)
    ensures
        ({
            let v = crate::keys::ping_value(key, ping);
            &&& v.get_str("id"@) == Some(key.id)
            &&& v.get_str("name"@) == Some(key.name)
            &&& v.get_str("wire"@) == Some(key.wire_protocol().name())
            &&& v.get_bool("ok"@) == Some(ping.ok)
            &&& v.get_str("message"@) == Some(ping.message)
        }),
{
    broadcast use crate::json::lemma_with_get;

    lemma_words();
}

/// A ping that failed tells why, and one that did not how many models there are.
pub proof fn lemma_ping(models: Result<usize, Seq<char>>)
    ensures
        crate::keys::ping_of(models).ok <==> models is Ok,
        models matches Err(e) ==> crate::keys::ping_of(models).message == e,
        models matches Ok(n) ==> crate::text::begins(
            crate::keys::ping_of(models).message,
            crate::text::decimal(n as nat),
        ),
{
    if let Ok(n) = models {
        let d = crate::text::decimal(n as nat);
        assert((d + " models"@).subrange(0, d.len() as int) =~= d);
    }
}

/// All keys are asked, or the one that is named.
pub proof fn lemma_asked(config: ConfigV, args: KeysArgsV)
    ensures
        args.all || args.args.len() == 0 ==> crate::keys::asked_of(config, args) == Ok::<
            _,
            Seq<char>,
        >(config.keys),
        !args.all && args.args.len() > 0 ==> match config.resolve_key(args.args[0]) {
            Ok(key) => crate::keys::asked_of(config, args) == Ok::<_, Seq<char>>(seq![key]),
            Err(e) => crate::keys::asked_of(config, args) == Err::<Seq<ApiKeyV>, _>(e),
        },
{
    if !args.all && args.args.len() > 0 {
        if let Ok(key) = config.resolve_key(args.args[0]) {
            assert(Seq::<ApiKeyV>::empty().push(key) =~= seq![key]);
        }
    }
}

// ---------------------------------------------------------------- drafting

/// A key that is added has what the arguments name; what they do not name comes from the preset,
/// and then from the provider. Its secrets are those of the arguments alone.
pub proof fn lemma_drafted(
    args: KeysArgsV,
    preset: Option<PresetV>,
    catalog: Option<ModelsDevProviderV>,
    wire: WireProtocol,
    id: Seq<char>,
    created_at: Seq<char>,
)
    ensures
        crate::keys::draft_of(args, preset, catalog) is Err <==> args.name is None
            && args.args.len() == 0 && preset is None,
        crate::keys::draft_of(args, preset, catalog) matches Ok(d) ==> {
            let key = d.key(wire, id, created_at);
            &&& key.id == id
            &&& key.created_at == created_at
            &&& key.wire == Some(wire)
            &&& key.secret == args.key
            &&& key.oauth_token == args.oauth_token
            &&& args.name matches Some(s) ==> key.name == s
            &&& args.name is None && args.args.len() > 0 ==> key.name == args.args[0]
            &&& args.name is None && args.args.len() == 0 ==> Some(key.name) == match preset {
                Some(p) => Some(p.alias),
                None => None,
            }
            &&& args.base_url matches Some(s) ==> key.base_url == s
            &&& args.base_url is None && preset is Some ==> key.base_url == (preset->0).endpoint
            &&& args.base_url is None && preset is None ==> key.base_url
                == crate::provider::base_url_of(key.provider)
            &&& args.provider matches Some(k) ==> key.provider == k
            &&& args.provider is None && preset is Some ==> key.provider == (preset->0).provider
            &&& args.provider is None && preset is None && catalog is None ==> key.provider
                == ProviderKind::Openai
            &&& preset matches Some(p) ==> key.preset_alias == Some(p.alias)
            &&& preset is None ==> key.preset_alias is None
            &&& catalog matches Some(c) ==> key.models_dev_provider_name == Some(c.name)
            &&& catalog is None ==> key.models_dev_provider_name is None
            &&& args.wire matches Some(w) ==> d.wire == Some(w)
            &&& args.wire is None && preset is Some ==> d.wire == Some((preset->0).wire)
            &&& args.wire is None && preset is None && catalog is None ==> d.wire is None
        },
{
}

/// What stands in the way of adding a key: no credential, unless there is a login to be had. The
/// token that an endpoint is shown is the key's own.
pub proof fn lemma_draft_fault(d: KeyDraftV, terminal: bool)
    ensures
        d.secret is Some && d.preset_alias is None ==> d.fault(terminal) is None,
        d.oauth_token is Some ==> d.fault(terminal) is None,
        d.secret is None && d.oauth_token is None ==> (d.fault(terminal) is None <==> (terminal
            && d.preset_alias == Some("github-copilot"@))),
        d.secret matches Some(s) ==> d.token() == s,
        d.secret is None && d.oauth_token is Some ==> Some(d.token()) == d.oauth_token,
{
}

/// A credential that is typed in goes where its kind belongs, and a blank one is refused; nothing
/// else of the arguments changes.
pub proof fn lemma_credited(args: KeysArgsV, text: Seq<char>)
    ensures
        crate::keys::credential_of(args) == Credential::Login <==> args.preset == Some(
            "github-copilot"@,
        ),
        args.preset != Some("github-copilot"@) ==> (crate::keys::credential_of(args)
            == Credential::OauthToken <==> (args.provider == Some(ProviderKind::CodexOauth)
            || args.provider == Some(ProviderKind::ClaudeOauth))),
        match crate::keys::credited(args, text) {
            Ok(a) => {
                &&& crate::keys::credential_of(args) != Credential::Login ==> text.len() > 0
                &&& a.key == if crate::keys::credential_of(args) == Credential::ApiKey {
                    Some(text)
                } else {
                    args.key
                }
                &&& a.oauth_token == if crate::keys::credential_of(args) == Credential::OauthToken {
                    Some(text)
                } else {
                    args.oauth_token
                }
                &&& a.name == args.name && a.base_url == args.base_url && a.provider
                    == args.provider && a.wire == args.wire && a.preset == args.preset && a.args
                    == args.args
            },
            Err(_) => text.len() == 0,
        },
{
}

/// A choice of a provider is taken over, and a provider that was named before it stays; a place is
/// asked for only where no preset gives one, and the provider's own is offered.
pub proof fn lemma_choice_taken(args: KeysArgsV, preset: PresetV, kind: ProviderKind)
    ensures
        ({
            let a = crate::keys::with_choice(args, ChoiceV::Builtin(preset));
            let b = crate::keys::with_choice(args, ChoiceV::Custom(kind));
            &&& a.preset == Some(preset.alias)
            &&& args.provider is None ==> a.provider == Some(preset.provider)
            &&& args.provider is Some ==> a.provider == args.provider
            &&& b.provider == Some(kind)
            &&& b.preset == args.preset
            &&& a.key == args.key && a.name == args.name && a.base_url == args.base_url && a.wire
                == args.wire && a.oauth_token == args.oauth_token
            &&& b.key == args.key && b.name == args.name && b.base_url == args.base_url && b.wire
                == args.wire && b.oauth_token == args.oauth_token
        }),
        args.preset is Some ==> crate::keys::url_asked(args) == UrlQuestionV::Skip,
        args.preset is None && args.provider == Some(kind) ==> crate::keys::url_asked(args)
            == UrlQuestionV::Ask(Some(crate::provider::base_url_of(kind))),
        args.preset is None && args.provider is None ==> crate::keys::url_asked(args)
            == UrlQuestionV::Ask(None),
        args.preset is Some ==> crate::keys::offered_name(args) == args.preset,
        args.preset is None && args.provider == Some(kind) ==> crate::keys::offered_name(args)
            == Some(kind.name()),
{
}

/// The protocol is found out anew exactly where the place or the provider changes and none is named.
pub proof fn lemma_found_out_anew(args: KeysArgsV)
    ensures
        crate::keys::reprobes(args) <==> args.wire is None && (args.base_url is Some
            || args.provider is Some),
        crate::keys::says_nothing(args) ==> !crate::keys::reprobes(args),
        args.name is Some || args.key is Some || args.oauth_token is Some || args.preset is Some
            || args.wire is Some || args.args.len() > 0 ==> !crate::keys::says_nothing(args),
{
}

/// Each action has its words, `--ping` lists, and no action lists too; other words are refused.
pub proof fn lemma_actions_named(args: KeysArgsV)
    ensures
        args.ping ==> crate::keys::action_of(args) == Ok::<_, Seq<char>>(
            KeysAction::List { with_ping: true },
        ),
        !args.ping ==> match crate::keys::action_of(args) {
            Ok(KeysAction::List { with_ping }) => args.action is None && !with_ping,
            Ok(KeysAction::Add) => args.action == Some("add"@),
            Ok(KeysAction::Default) => args.action == Some("default"@),
            Ok(KeysAction::Remove) => args.action == Some("rm"@) || args.action == Some("remove"@),
            Ok(KeysAction::Cat) => args.action == Some("cat"@) || args.action == Some("show"@),
            Ok(KeysAction::Edit) => args.action == Some("edit"@),
            Ok(KeysAction::Ping) => args.action == Some("ping"@),
            Err(_) => args.action matches Some(a) && a != "add"@ && a != "default"@ && a != "rm"@
                && a != "remove"@ && a != "cat"@ && a != "show"@ && a != "edit"@ && a != "ping"@,
        },
{
    lemma_actions();
}

} // verus!
