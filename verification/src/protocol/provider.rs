//! What a provider serves, and which of its endpoints a request goes to.
use vstd::prelude::*;

use crate::json::{Json, JsonV};
use crate::protocol::ids::{EndpointV, Protocol, ProtocolEndpoint};
use crate::protocol::registry::{EndpointRegistration, ProtocolRegistry};
use crate::protocol::traits::EndpointHandler;
use crate::views::Views;

verus! {

/// Where an endpoint is served.
#[derive(Debug)]
pub struct ProtocolEndpointEntry {
    pub base_url: String,
}

impl View for ProtocolEndpointEntry {
    type V = Seq<char>;

    open spec fn view(&self) -> Seq<char> {
        self.base_url@
    }
}

/// A provider as it is stored.
#[derive(Debug)]
pub struct Provider {
    /// For every suite or endpoint an object with its base URL.
    pub protocol_endpoints: Json,
    pub default_protocol: String,
}

/// A key of the table with its base URL.
#[derive(Debug)]
pub struct KeyedEntry {
    pub key: String,
    pub entry: ProtocolEndpointEntry,
}

pub struct KeyedV {
    pub key: Seq<char>,
    pub base_url: Seq<char>,
}

impl View for KeyedEntry {
    type V = KeyedV;

    open spec fn view(&self) -> KeyedV {
        KeyedV { key: self.key@, base_url: self.entry@ }
    }
}

/// The first `n` entries that have a base URL.
pub open spec fn entries_upto(f: Seq<(Seq<char>, JsonV)>, n: nat) -> Seq<KeyedV>
    decreases n,
{
    if n == 0 {
        Seq::empty()
    } else {
        let before = entries_upto(f, (n - 1) as nat);
        match f[n - 1].1.get_str("base_url"@) {
            Some(base_url) => before.push(KeyedV { key: f[n - 1].0, base_url }),
            None => before,
        }
    }
}

/// The entries of a table, in its order.
pub open spec fn entries_of(table: JsonV) -> Seq<KeyedV> {
    match table {
        JsonV::Object(f) => entries_upto(f, f.len()),
        _ => Seq::empty(),
    }
}

impl Provider {
    /// The entries of the provider's table, in its order.
    pub fn parsed_protocol_endpoints(&self) -> (r: Vec<KeyedEntry>)
        ensures
            r.views() == entries_of(self.protocol_endpoints@),
    {
        broadcast use crate::json::lemma_object_view;

        let mut out: Vec<KeyedEntry> = crate::views::none();
        if let Json::Object(f) = &self.protocol_endpoints {
            let n: usize = f.len();
            let mut i: usize = 0;
            while i < n
                invariant
                    n == f@.len(),
                    i <= n,
                    out.views() == entries_upto(f@, i as nat),
                decreases n - i,
            {
                match f.value_at(i).get_str("base_url") {
                    Some(base_url) => {
                        let entry = ProtocolEndpointEntry { base_url: base_url.to_string() };
                        crate::views::push(
                            &mut out,
                            KeyedEntry { key: f.key_at(i).to_string(), entry },
                        );
                    },
                    None => {},
                }
                i = i + 1;
            }
        }
        out
    }

    /// The endpoint that the provider declares as its default, by its name.
    pub fn effective_default_protocol(&self) -> (r: &str)
        ensures
            r@ == self.default_protocol@,
    {
        self.default_protocol.as_str()
    }
}

/// An endpoint that a provider serves, and where.
#[derive(Debug)]
pub struct ServedEndpoint {
    pub id: ProtocolEndpoint,
    pub entry: ProtocolEndpointEntry,
}

pub struct ServedV {
    pub id: EndpointV,
    pub base_url: Seq<char>,
}

impl View for ServedEndpoint {
    type V = ServedV;

    open spec fn view(&self) -> ServedV {
        ServedV { id: self.id@, base_url: self.entry@ }
    }
}

/// The first place from the `i`-th on of an endpoint.
pub open spec fn place_from(v: Seq<ServedV>, id: EndpointV, i: int) -> Option<int>
    decreases v.len() - i,
{
    if i < 0 || i >= v.len() {
        None
    } else if v[i].id == id {
        Some(i)
    } else {
        place_from(v, id, i + 1)
    }
}

/// The first place from the `i`-th on of an endpoint of a suite.
pub open spec fn suite_from(v: Seq<ServedV>, p: Protocol, i: int) -> Option<int>
    decreases v.len() - i,
{
    if i < 0 || i >= v.len() {
        None
    } else if v[i].id.protocol == p {
        Some(i)
    } else {
        suite_from(v, p, i + 1)
    }
}

/// An endpoint more, unless it is served already.
pub open spec fn served(v: Seq<ServedV>, id: EndpointV, base_url: Seq<char>) -> Seq<ServedV> {
    if place_from(v, id, 0) is Some {
        v
    } else {
        v.push(ServedV { id, base_url })
    }
}

/// The first `n` of some endpoints more.
pub open spec fn all_served(
    v: Seq<ServedV>,
    handlers: Seq<EndpointRegistration>,
    base_url: Seq<char>,
    n: nat,
) -> Seq<ServedV>
    decreases n,
{
    if n == 0 {
        v
    } else {
        served(
            all_served(v, handlers, base_url, (n - 1) as nat),
            handlers[n - 1].endpoint(),
            base_url,
        )
    }
}

/// What an entry adds: all endpoints of a suite where its key names one, and the endpoint itself
/// where it names an endpoint.
pub open spec fn entry_served(v: Seq<ServedV>, e: KeyedV) -> Seq<ServedV> {
    match crate::protocol::registry::suite_of(
        crate::text::lower_of(crate::text::trim_of(e.key)),
    ) {
        Some(p) => {
            let handlers = crate::protocol::registry::of_protocol(
                p,
                crate::protocol::registry::registered().len(),
            );
            all_served(v, handlers, e.base_url, handlers.len())
        },
        None => match crate::protocol::registry::resolved(e.key) {
            Some(h) => served(v, h.endpoint(), e.base_url),
            None => v,
        },
    }
}

/// What the first `n` entries add.
pub open spec fn served_upto(entries: Seq<KeyedV>, n: nat) -> Seq<ServedV>
    decreases n,
{
    if n == 0 {
        Seq::empty()
    } else {
        entry_served(served_upto(entries, (n - 1) as nat), entries[n - 1])
    }
}

/// What a provider serves, with the default for everything else.
#[derive(Debug)]
pub struct ProviderProtocols {
    pub default: ProtocolEndpoint,
    /// In the order in which they are declared.
    pub endpoints: Vec<ServedEndpoint>,
}

pub struct ProtocolsV {
    pub default: EndpointV,
    pub endpoints: Seq<ServedV>,
}

impl View for ProviderProtocols {
    type V = ProtocolsV;

    open spec fn view(&self) -> ProtocolsV {
        ProtocolsV { default: self.default@, endpoints: self.endpoints.views() }
    }
}

/// What a table and a declared default give. The default is the declared one where it is served,
/// else the first that is served, else the declared one, else Chat Completions.
pub open spec fn protocols_of(table: JsonV, declared: Seq<char>) -> ProtocolsV {
    let entries = entries_of(table);
    let endpoints = served_upto(entries, entries.len());
    let wanted = crate::protocol::registry::resolved(declared);
    let default = match wanted {
        Some(h) => if place_from(endpoints, h.endpoint(), 0) is Some || endpoints.len() == 0 {
            h.endpoint()
        } else {
            endpoints[0].id
        },
        None => if endpoints.len() > 0 {
            endpoints[0].id
        } else {
            EndpointV::openai_chat_completions_v1()
        },
    };
    ProtocolsV { default, endpoints }
}

/// Where a request goes.
#[derive(Debug)]
pub struct ResolvedEgress {
    pub protocol: ProtocolEndpoint,
    pub base_url: String,
    /// Whether the request must be written for another endpoint than it was read from.
    pub needs_conversion: bool,
}

pub struct EgressV {
    pub protocol: EndpointV,
    pub base_url: Seq<char>,
    pub needs_conversion: bool,
}

impl View for ResolvedEgress {
    type V = EgressV;

    open spec fn view(&self) -> EgressV {
        EgressV {
            protocol: self.protocol@,
            base_url: self.base_url@,
            needs_conversion: self.needs_conversion,
        }
    }
}

impl ProtocolsV {
    /// Where a request for an endpoint goes: to that endpoint, else to the first one of its suite,
    /// else to the default.
    pub open spec fn egress(self, ingress: EndpointV) -> EgressV {
        match place_from(self.endpoints, ingress, 0) {
            Some(i) => EgressV {
                protocol: ingress,
                base_url: self.endpoints[i].base_url,
                needs_conversion: false,
            },
            None => match suite_from(self.endpoints, ingress.protocol, 0) {
                Some(i) => EgressV {
                    protocol: self.endpoints[i].id,
                    base_url: self.endpoints[i].base_url,
                    needs_conversion: true,
                },
                None => EgressV {
                    protocol: self.default,
                    base_url: match place_from(self.endpoints, self.default, 0) {
                        Some(i) => self.endpoints[i].base_url,
                        None => Seq::empty(),
                    },
                    needs_conversion: true,
                },
            },
        }
    }
}

fn place(v: &Vec<ServedEndpoint>, id: &ProtocolEndpoint) -> (r: Option<usize>)
    ensures
        match r {
            Some(i) => place_from(v.views(), id@, 0) == Some(i as int) && i < v@.len(),
            None => place_from(v.views(), id@, 0) is None,
        },
{
    let n: usize = v.len();
    let mut i: usize = 0;
    while i < n
        invariant
            n == v@.len(),
            i <= n,
            place_from(v.views(), id@, 0) == place_from(v.views(), id@, i as int),
        decreases n - i,
    {
        assert(v.views()[i as int] == v@[i as int]@);
        if v[i].id.same(id) {
            return Some(i);
        }
        i = i + 1;
    }
    None
}

fn serve(v: &mut Vec<ServedEndpoint>, id: ProtocolEndpoint, base_url: &str)
    ensures
        final(v).views() == served(old(v).views(), id@, base_url@),
{
    if place(v, &id).is_none() {
        let entry = ProtocolEndpointEntry { base_url: base_url.to_string() };
        crate::views::push(v, ServedEndpoint { id, entry });
    }
}

fn serve_entry(v: &mut Vec<ServedEndpoint>, e: &KeyedEntry)
    ensures
        final(v).views() == entry_served(old(v).views(), e@),
{
    let reg = ProtocolRegistry::global();
    match reg.suite(e.key.as_str()) {
        Some(p) => {
            let handlers = reg.list_by_protocol(p);
            for i in 0..handlers.len()
                invariant
                    v.views() == all_served(old(v).views(), handlers@, e@.base_url, i as nat),
            {
                serve(v, handlers[i].id(), e.entry.base_url.as_str());
            }
        },
        None => match reg.resolve_alias(e.key.as_str()) {
            Some(id) => {
                serve(v, id, e.entry.base_url.as_str());
            },
            None => {},
        },
    }
}

impl ProviderProtocols {
    /// The endpoint that a text stands for.
    pub fn parse_protocol_key(s: &str) -> (r: Option<ProtocolEndpoint>)
        ensures
            r.views() == match crate::protocol::registry::resolved(s@) {
                Some(e) => Some(e.endpoint()),
                None => None,
            },
    {
        ProtocolRegistry::global().resolve_alias(s)
    }

    /// Reads what a provider serves from its row.
    pub fn from_provider(provider: &Provider) -> (r: Self)
        ensures
            r@ == protocols_of(provider.protocol_endpoints@, provider.default_protocol@),
    {
        let entries = provider.parsed_protocol_endpoints();
        let mut endpoints: Vec<ServedEndpoint> = crate::views::none();
        for i in 0..entries.len()
            invariant
                endpoints.views() == served_upto(entries.views(), i as nat),
        {
            assert(entries.views()[i as int] == entries@[i as int]@);
            serve_entry(&mut endpoints, &entries[i]);
        }
        let declared = Self::parse_protocol_key(provider.effective_default_protocol());
        let default = match declared {
            Some(id) => if endpoints.len() == 0 || place(&endpoints, &id).is_some() {
                id
            } else {
                assert(endpoints.views()[0] == endpoints@[0]@);
                endpoints[0].id
            },
            None => if endpoints.len() > 0 {
                assert(endpoints.views()[0] == endpoints@[0]@);
                endpoints[0].id
            } else {
                crate::protocol::ids::openai_chat_completions_v1()
            },
        };
        ProviderProtocols { default, endpoints }
    }

    /// Whether the provider serves an endpoint.
    pub fn supports(&self, protocol: ProtocolEndpoint) -> (r: bool)
        ensures
            r == place_from(self@.endpoints, protocol@, 0) is Some,
    {
        place(&self.endpoints, &protocol).is_some()
    }

    /// Where the provider serves an endpoint.
    pub fn get(&self, protocol: ProtocolEndpoint) -> (r: Option<&ProtocolEndpointEntry>)
        ensures
            r.views() == match place_from(self@.endpoints, protocol@, 0) {
                Some(i) => Some(self@.endpoints[i].base_url),
                None => None,
            },
    {
        match place(&self.endpoints, &protocol) {
            Some(i) => {
                assert(self.endpoints.views()[i as int] == self.endpoints@[i as int]@);
                Some(&self.endpoints[i].entry)
            },
            None => None,
        }
    }

    fn of_suite(&self, p: Protocol) -> (r: Option<usize>)
        ensures
            match r {
                Some(i) => suite_from(self@.endpoints, p, 0) == Some(i as int) && i
                    < self.endpoints@.len(),
                None => suite_from(self@.endpoints, p, 0) is None,
            },
    {
        let n: usize = self.endpoints.len();
        let mut i: usize = 0;
        while i < n
            invariant
                n == self.endpoints@.len(),
                i <= n,
                suite_from(self.endpoints.views(), p, 0) == suite_from(
                    self.endpoints.views(),
                    p,
                    i as int,
                ),
            decreases n - i,
        {
            assert(self.endpoints.views()[i as int] == self.endpoints@[i as int]@);
            if self.endpoints[i].id.protocol == p {
                return Some(i);
            }
            i = i + 1;
        }
        None
    }

    /// Finds where a request for an endpoint goes.
    pub fn resolve_egress(&self, ingress: ProtocolEndpoint) -> (r: ResolvedEgress)
        ensures
            r@ == self@.egress(ingress@),
    {
        if let Some(entry) = self.get(ingress) {
            return ResolvedEgress {
                protocol: ingress,
                base_url: entry.base_url.clone(),
                needs_conversion: false,
            };
        }
        if let Some(i) = self.of_suite(ingress.protocol) {
            assert(self.endpoints.views()[i as int] == self.endpoints@[i as int]@);
            return ResolvedEgress {
                protocol: self.endpoints[i].id,
                base_url: self.endpoints[i].entry.base_url.clone(),
                needs_conversion: true,
            };
        }
        let base_url = match self.get(self.default) {
            Some(entry) => entry.base_url.clone(),
            None => {
                let empty = String::new();
                assert(empty@ =~= Seq::<char>::empty());
                empty
            },
        };
        ResolvedEgress { protocol: self.default, base_url, needs_conversion: true }
    }
}

// ---------------------------------------------------------------- laws

proof fn lemma_place(v: Seq<ServedV>, id: EndpointV, i: int)
    requires
        0 <= i,
    ensures
        match place_from(v, id, i) {
            Some(k) => i <= k < v.len() && v[k].id == id && forall|j: int|
                i <= j < k ==> (#[trigger] v[j]).id != id,
            None => forall|j: int| i <= j < v.len() ==> (#[trigger] v[j]).id != id,
        },
    decreases v.len() - i,
{
    if i < v.len() {
        lemma_place(v, id, i + 1);
    }
}

proof fn lemma_suite(v: Seq<ServedV>, p: Protocol, i: int)
    requires
        0 <= i,
    ensures
        match suite_from(v, p, i) {
            Some(k) => i <= k < v.len() && v[k].id.protocol == p && forall|j: int|
                i <= j < k ==> (#[trigger] v[j]).id.protocol != p,
            None => forall|j: int| i <= j < v.len() ==> (#[trigger] v[j]).id.protocol != p,
        },
    decreases v.len() - i,
{
    if i < v.len() {
        lemma_suite(v, p, i + 1);
    }
}

/// A request needs no conversion exactly where its endpoint is served, and otherwise it goes to
/// the first endpoint of its suite, where there is one.
pub proof fn lemma_egress_tiers(p: ProtocolsV, ingress: EndpointV)
    ensures
        p.egress(ingress).needs_conversion <==> forall|i: int|
            0 <= i < p.endpoints.len() ==> (#[trigger] p.endpoints[i]).id != ingress,
        !p.egress(ingress).needs_conversion ==> p.egress(ingress).protocol == ingress,
        p.egress(ingress).needs_conversion && (exists|i: int|
            0 <= i < p.endpoints.len() && (#[trigger] p.endpoints[i]).id.protocol
                == ingress.protocol) ==> p.egress(ingress).protocol.protocol == ingress.protocol,
{
    lemma_place(p.endpoints, ingress, 0);
    lemma_suite(p.endpoints, ingress.protocol, 0);
}

/// No endpoint is listed twice.
pub open spec fn listed_once(v: Seq<ServedV>) -> bool {
    forall|i: int, j: int|
        0 <= i < j < v.len() ==> (#[trigger] v[i]).id != (#[trigger] v[j]).id
}

proof fn lemma_served(v: Seq<ServedV>, id: EndpointV, base_url: Seq<char>)
    requires
        listed_once(v),
    ensures
        listed_once(served(v, id, base_url)),
{
    lemma_place(v, id, 0);
}

proof fn lemma_all_served(
    v: Seq<ServedV>,
    handlers: Seq<EndpointRegistration>,
    base_url: Seq<char>,
    n: nat,
)
    requires
        listed_once(v),
    ensures
        listed_once(all_served(v, handlers, base_url, n)),
    decreases n,
{
    if n > 0 {
        lemma_all_served(v, handlers, base_url, (n - 1) as nat);
        lemma_served(
            all_served(v, handlers, base_url, (n - 1) as nat),
            handlers[n - 1].endpoint(),
            base_url,
        );
    }
}

proof fn lemma_served_upto(entries: Seq<KeyedV>, n: nat)
    ensures
        listed_once(served_upto(entries, n)),
    decreases n,
{
    if n > 0 {
        lemma_served_upto(entries, (n - 1) as nat);
        let v = served_upto(entries, (n - 1) as nat);
        let e = entries[n - 1];
        match crate::protocol::registry::suite_of(
            crate::text::lower_of(crate::text::trim_of(e.key)),
        ) {
            Some(p) => {
                let handlers = crate::protocol::registry::of_protocol(
                    p,
                    crate::protocol::registry::registered().len(),
                );
                lemma_all_served(v, handlers, e.base_url, handlers.len());
            },
            None => match crate::protocol::registry::resolved(e.key) {
                Some(h) => lemma_served(v, h.endpoint(), e.base_url),
                None => {},
            },
        }
    }
}

/// However a table names them, every endpoint is listed once.
pub proof fn lemma_listed_once(table: JsonV, declared: Seq<char>)
    ensures
        listed_once(protocols_of(table, declared).endpoints),
{
    let entries = entries_of(table);
    lemma_served_upto(entries, entries.len());
}

} // verus!
