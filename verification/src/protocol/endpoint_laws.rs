//! What holds of endpoints: of their names, and of where a provider serves them.
use vstd::prelude::*;

use crate::json::JsonV;
use crate::protocol::ids::{EndpointV, Protocol};
use crate::protocol::provider::{KeyedV, ProtocolsV, ServedV};
use crate::protocol::registry::EndpointRegistration;
use crate::protocol::traits::EndpointHandler;

verus! {

/// The names in use differ.
proof fn lemma_words()
    ensures
        "gemini"@.len() == 6,
        "gemini"@[1] == 'e',
        "google"@.len() == 6,
        "google"@[1] == 'o',
        "openai"@.len() == 6,
        "openai"@[1] == 'p',
        "base_url"@.len() == 8,
        "anthropic"@.len() == 9,
        "anthropic"@[0] == 'a',
        "responses"@.len() == 9,
        "responses"@[0] == 'r',
        "embeddings"@.len() == 10,
        "openai-chat"@.len() == 11,
        "google-genai"@.len() == 12,
        "google-genai"@[0] == 'g',
        "openai-resps"@.len() == 12,
        "openai-resps"@[0] == 'o',
        "openai-compat"@.len() == 13,
        "anthropic-msgs"@.len() == 14,
        "anthropic-msgs"@[0] == 'a',
        "openai/chat/v1"@.len() == 14,
        "openai/chat/v1"@[0] == 'o',
        "google-generate"@.len() == 15,
        "openai-responses"@.len() == 16,
        "openai-responses"@[6] == '-',
        "openai_responses"@.len() == 16,
        "openai_responses"@[6] == '_',
        "openai-compatible"@.len() == 17,
        "openai-compatible"@[7] == 'c',
        "openai-embeddings"@.len() == 17,
        "openai-embeddings"@[7] == 'e',
        "anthropic-messages"@.len() == 18,
        "openai/responses/v1"@.len() == 19,
        "google-generative-ai"@.len() == 20,
        "google-generative-ai"@[0] == 'g',
        "openai/embeddings/v1"@.len() == 20,
        "openai/embeddings/v1"@[0] == 'o',
        "google/generate/v1beta"@.len() == 22,
        "google-generate-content"@.len() == 23,
        "google-generate-content"@[0] == 'g',
        "openai-chat-completions"@.len() == 23,
        "openai-chat-completions"@[0] == 'o',
        "anthropic/messages/2023-06-01"@.len() == 29,
{
    reveal_strlit("gemini");
    reveal_strlit("google");
    reveal_strlit("openai");
    reveal_strlit("base_url");
    reveal_strlit("anthropic");
    reveal_strlit("responses");
    reveal_strlit("embeddings");
    reveal_strlit("openai-chat");
    reveal_strlit("google-genai");
    reveal_strlit("openai-resps");
    reveal_strlit("openai-compat");
    reveal_strlit("anthropic-msgs");
    reveal_strlit("openai/chat/v1");
    reveal_strlit("google-generate");
    reveal_strlit("openai-responses");
    reveal_strlit("openai_responses");
    reveal_strlit("openai-compatible");
    reveal_strlit("openai-embeddings");
    reveal_strlit("anthropic-messages");
    reveal_strlit("openai/responses/v1");
    reveal_strlit("google-generative-ai");
    reveal_strlit("openai/embeddings/v1");
    reveal_strlit("google/generate/v1beta");
    reveal_strlit("google-generate-content");
    reveal_strlit("openai-chat-completions");
    reveal_strlit("anthropic/messages/2023-06-01");
}

/// The common names of the endpoints and of the suites stand for them.
pub proof fn lemma_names(k: Seq<char>)
    ensures
        k == "openai"@ || k == "openai-chat"@ || k == "openai-chat-completions"@
            ==> crate::protocol::registry::alias_of(k) == Some(
            EndpointRegistration::ChatCompletions,
        ),
        k == "embeddings"@ || k == "openai-embeddings"@ ==> crate::protocol::registry::alias_of(k)
            == Some(EndpointRegistration::Embeddings),
        k == "responses"@ || k == "openai-responses"@ || k == "openai_responses"@
            ==> crate::protocol::registry::alias_of(k) == Some(EndpointRegistration::Responses),
        k == "anthropic"@ || k == "anthropic-messages"@ ==> crate::protocol::registry::alias_of(k)
            == Some(EndpointRegistration::Messages),
        k == "gemini"@ || k == "google-generate"@ || k == "google-generate-content"@
            ==> crate::protocol::registry::alias_of(k) == Some(
            EndpointRegistration::GenerateContent,
        ),
        k == "openai"@ || k == "openai-compat"@ || k == "openai-compatible"@
            ==> crate::protocol::registry::suite_of(k) == Some(Protocol::OpenAICompatible),
        k == "openai-responses"@ || k == "openai-resps"@ ==> crate::protocol::registry::suite_of(k)
            == Some(Protocol::OpenAIResponses),
        k == "anthropic"@ || k == "anthropic-messages"@ || k == "anthropic-msgs"@
            ==> crate::protocol::registry::suite_of(k) == Some(Protocol::AnthropicMessages),
        k == "google"@ || k == "gemini"@ || k == "google-genai"@ || k == "google-generative-ai"@
            ==> crate::protocol::registry::suite_of(k) == Some(Protocol::GoogleGenerativeAI),
{
    lemma_words();
    lemma_tool_name(k);
    reveal_strlit("gemini");
    reveal_strlit("google");
    assert("gemini"@[0] == 'g' && "google"@[0] == 'g');
}

proof fn lemma_tool_name(k: Seq<char>)
    ensures
        k == crate::names::claude() ==> k.len() == 6 && k[0] == 'c',
{
    crate::names::lemma_claude();
}

proof fn lemma_place(v: Seq<ServedV>, id: EndpointV, i: int)
    requires
        0 <= i,
    ensures
        match crate::protocol::provider::place_from(v, id, i) {
            Some(j) => i <= j < v.len() && v[j].id == id,
            None => forall|j: int| i <= j < v.len() ==> (#[trigger] v[j]).id != id,
        },
    decreases v.len() - i,
{
    if i < v.len() {
        lemma_place(v, id, i + 1);
    }
}

proof fn lemma_suite(v: Seq<ServedV>, p: Protocol, i: int)
    requires
        0 <= i,
    ensures
        match crate::protocol::provider::suite_from(v, p, i) {
            Some(j) => i <= j < v.len() && v[j].id.protocol == p,
            None => forall|j: int| i <= j < v.len() ==> (#[trigger] v[j]).id.protocol != p,
        },
    decreases v.len() - i,
{
    if i < v.len() {
        lemma_suite(v, p, i + 1);
    }
}

/// Whether an endpoint is served at a place.
pub open spec fn served_at(v: Seq<ServedV>, id: EndpointV, base_url: Seq<char>) -> bool {
    exists|i: int| 0 <= i < v.len() && (#[trigger] v[i]).id == id && v[i].base_url == base_url
}

/// A request goes to the place where the endpoint that it is written for is served.
pub proof fn lemma_egress_place(p: ProtocolsV, ingress: EndpointV)
    requires
        exists|i: int| 0 <= i < p.endpoints.len() && (#[trigger] p.endpoints[i]).id == p.default,
    ensures
        served_at(p.endpoints, p.egress(ingress).protocol, p.egress(ingress).base_url),
        (forall|i: int|
            0 <= i < p.endpoints.len() ==> (#[trigger] p.endpoints[i]).id.protocol
                != ingress.protocol) ==> p.egress(ingress).protocol == p.default,
{
    lemma_place(p.endpoints, ingress, 0);
    lemma_suite(p.endpoints, ingress.protocol, 0);
    lemma_place(p.endpoints, p.default, 0);
}

/// An endpoint that is served stays where it is served, and one that is not is served from then on.
pub proof fn lemma_first_place_wins(
    v: Seq<ServedV>,
    id: EndpointV,
    base_url: Seq<char>,
    other: EndpointV,
    place: Seq<char>,
)
    ensures
        ({
            let w = crate::protocol::provider::served(v, id, base_url);
            &&& served_at(v, other, place) ==> served_at(w, other, place)
            &&& (forall|i: int| 0 <= i < v.len() ==> (#[trigger] v[i]).id != id) ==> served_at(
                w,
                id,
                base_url,
            )
            &&& served_at(w, other, place) ==> served_at(v, other, place) || (other == id && place
                == base_url)
        }),
{
    lemma_place(v, id, 0);
    let w = crate::protocol::provider::served(v, id, base_url);
    if served_at(v, other, place) {
        let i = choose|i: int|
            0 <= i < v.len() && (#[trigger] v[i]).id == other && v[i].base_url == place;
        assert(w[i].id == other && w[i].base_url == place);
    }
    if w.len() > v.len() {
        assert(w[v.len() as int].id == id);
    }
    if served_at(w, other, place) {
        let i = choose|i: int|
            0 <= i < w.len() && (#[trigger] w[i]).id == other && w[i].base_url == place;
        if i < v.len() {
            assert(v[i].id == other && v[i].base_url == place);
        }
    }
}

proof fn lemma_entries(f: Seq<(Seq<char>, JsonV)>, n: nat, e: KeyedV)
    requires
        n <= f.len(),
    ensures
        crate::protocol::provider::entries_upto(f, n).contains(e) <==> exists|i: int|
            0 <= i < n && (#[trigger] f[i]).0 == e.key && f[i].1.get_str("base_url"@) == Some(
                e.base_url,
            ),
    decreases n,
{
    if n > 0 {
        let k = (n - 1) as nat;
        lemma_entries(f, k, e);
        let a = crate::protocol::provider::entries_upto(f, k);
        let b = crate::protocol::provider::entries_upto(f, n);
        if a.contains(e) {
            let j = choose|j: int| 0 <= j < a.len() && a[j] == e;
            assert(b[j] == e);
        }
        if f[n - 1].0 == e.key && f[n - 1].1.get_str("base_url"@) == Some(e.base_url) {
            assert(b.last() == e);
        }
        if b.contains(e) {
            let j = choose|j: int| 0 <= j < b.len() && b[j] == e;
            if j < a.len() {
                assert(a[j] == e);
            }
        }
    }
}

/// A provider's table names just the entries that have a base URL.
pub proof fn lemma_table_read(f: Seq<(Seq<char>, JsonV)>, e: KeyedV)
    ensures
        crate::protocol::provider::entries_of(JsonV::Object(f)).contains(e) <==> exists|i: int|
            0 <= i < f.len() && (#[trigger] f[i]).0 == e.key && f[i].1.get_str("base_url"@)
                == Some(e.base_url),
{
    lemma_entries(f, f.len(), e);
}

/// An entry under the name of one endpoint serves that endpoint at its place, and no other.
pub proof fn lemma_entry(v: Seq<ServedV>, e: KeyedV, h: EndpointRegistration)
    requires
        crate::protocol::registry::suite_of(
            crate::text::lower_of(crate::text::trim_of(e.key)),
        ) is None,
        crate::protocol::registry::resolved(e.key) == Some(h),
        forall|i: int| 0 <= i < v.len() ==> (#[trigger] v[i]).id != h.endpoint(),
    ensures
        crate::protocol::provider::entry_served(v, e) == v.push(
            ServedV { id: h.endpoint(), base_url: e.base_url },
        ),
{
    lemma_place(v, h.endpoint(), 0);
}

/// In a table that is tidied up, an entry keeps its base URL.
pub proof fn lemma_entry_tidied(v: JsonV, url: Seq<char>)
    ensures
        v.get("base_url"@) == Some(JsonV::Text(url))
            ==> crate::protocol::registry::endpoint_entry(v).get_str("base_url"@) == Some(url)
            && crate::protocol::registry::suite_entry(v).get_str("base_url"@) == Some(url),
        crate::protocol::registry::suite_entry(JsonV::Text(url)).get_str("base_url"@) == Some(url),
        v.get("base_url"@) is None ==> crate::protocol::registry::endpoint_entry(v).get_str(
            "base_url"@,
        ) == Some(Seq::<char>::empty()),
{
    broadcast use crate::json::lemma_with_get;

    lemma_words();
}

} // verus!
