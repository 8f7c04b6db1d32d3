//! Schemas of tool parameters, with the names of their types in lowercase.
//!
//! Google writes the names of types in uppercase, all others in lowercase.
use vstd::prelude::*;

use crate::json::{Fields, Json, JsonV};
use crate::views::Views;

verus! {

/// The name of a type in one case or the other.
pub open spec fn case_of(s: Seq<char>, upper: bool) -> Seq<char> {
    if upper {
        crate::text::unicode_uppercase(s)
    } else {
        crate::text::unicode_lowercase(s)
    }
}

/// A schema with the names of its types in one case, at any depth.
pub open spec fn cased(v: JsonV, upper: bool) -> JsonV
    decreases v, 0nat,
{
    match v {
        JsonV::Object(f) => JsonV::Object(cased_fields(f, upper, f.len())),
        JsonV::Array(a) => JsonV::Array(cased_items(a, upper, a.len())),
        _ => v,
    }
}

pub open spec fn cased_fields(f: Seq<(Seq<char>, JsonV)>, upper: bool, n: nat) -> Seq<
    (Seq<char>, JsonV),
>
    decreases f, n,
{
    if n == 0 || n > f.len() {
        Seq::empty()
    } else {
        cased_fields(f, upper, (n - 1) as nat).push(
            (
                f[n - 1].0,
                match (f[n - 1].0 == "type"@, f[n - 1].1) {
                    (true, JsonV::Text(s)) => JsonV::Text(case_of(s, upper)),
                    _ => cased(f[n - 1].1, upper),
                },
            ),
        )
    }
}

pub open spec fn cased_items(a: Seq<JsonV>, upper: bool, n: nat) -> Seq<JsonV>
    decreases a, n,
{
    if n == 0 || n > a.len() {
        Seq::empty()
    } else {
        cased_items(a, upper, (n - 1) as nat).push(cased(a[n - 1], upper))
    }
}

fn case_text(s: &str, upper: bool) -> (r: String)
    ensures
        r@ == case_of(s@, upper),
{
    if upper {
        s.to_uppercase()
    } else {
        s.to_lowercase()
    }
}

fn case_fields(f: &Fields, upper: bool) -> (r: Fields)
    ensures
        r@ == cased_fields(f@, upper, f@.len()),
    decreases f,
{
    let n: usize = f.entries.len();
    let mut entries: Vec<(String, Json)> = Vec::new();
    let mut i: usize = 0;
    assert((Fields { entries })@ =~= Seq::<(Seq<char>, JsonV)>::empty());
    while i < n
        invariant
            n == f.entries@.len(),
            i <= n,
            (Fields { entries })@ == cased_fields(f@, upper, i as nat),
        decreases n - i,
    {
        assert(decreases_to!(f => f.entries@[i as int].1));
        assert(f@[i as int] == (f.entries@[i as int].0@, f.entries@[i as int].1@));
        let ghost before = (Fields { entries })@;
        let key = f.entries[i].0.clone();
        let is_type = *key.as_str() == *"type";
        let v = match (is_type, &f.entries[i].1) {
            (true, Json::Text(s)) => Json::Text(case_text(s.as_str(), upper)),
            _ => normalize_type_strings(&f.entries[i].1, upper),
        };
        let ghost pair = (key@, v@);
        entries.push((key, v));
        assert((Fields { entries })@ =~= before.push(pair));
        i = i + 1;
    }
    Fields { entries }
}

fn case_items(a: &Vec<Json>, upper: bool) -> (r: Vec<Json>)
    ensures
        r.views() == cased_items(a.views(), upper, a@.len()),
    decreases a,
{
    let n: usize = a.len();
    let mut out: Vec<Json> = crate::views::none();
    let mut i: usize = 0;
    while i < n
        invariant
            n == a@.len(),
            i <= n,
            out.views() == cased_items(a.views(), upper, i as nat),
        decreases n - i,
    {
        assert(decreases_to!(a => a@[i as int]));
        assert(a.views()[i as int] == a@[i as int]@);
        crate::views::push(&mut out, normalize_type_strings(&a[i], upper));
        i = i + 1;
    }
    out
}

/// Writes the names of a schema's types in one case.
pub fn normalize_type_strings(v: &Json, upper: bool) -> (r: Json)
    ensures
        r@ == cased(v@, upper),
    decreases v,
{
    broadcast use {crate::json::lemma_array_view, crate::json::lemma_object_view};

    match v {
        Json::Object(f) => Json::Object(case_fields(f, upper)),
        Json::Array(a) => Json::Array(case_items(a, upper)),
        _ => v.dup(),
    }
}

/// A schema with the names of its types in lowercase.
#[derive(Debug)]
pub struct SchemaObject(pub Json);

impl View for SchemaObject {
    type V = JsonV;

    open spec fn view(&self) -> JsonV {
        self.0@
    }
}

impl SchemaObject {
    /// A schema, brought to lowercase.
    pub fn new(value: Json) -> (r: Self)
        ensures
            r@ == cased(value@, false),
    {
        SchemaObject(normalize_type_strings(&value, false))
    }

    /// Brings the names of all types to lowercase.
    pub fn normalize_to_lowercase(&mut self)
        ensures
            final(self)@ == cased(old(self)@, false),
    {
        self.0 = normalize_type_strings(&self.0, false);
    }

    /// The schema as Google writes it.
    pub fn to_google_wire(&self) -> (r: Json)
        ensures
            r@ == cased(self@, true),
    {
        normalize_type_strings(&self.0, true)
    }

    pub fn as_value(&self) -> (r: &Json)
        ensures
            r@ == self@,
    {
        &self.0
    }

    pub fn into_value(self) -> (r: Json)
        ensures
            r@ == self@,
    {
        self.0
    }
}

/// A schema from a value, brought to lowercase. Two values that hold the same need not be the same
/// in memory, so the result is stated by what it holds.
impl From<Json> for SchemaObject {
    fn from(value: Json) -> (r: Self)
        ensures
            r@ == cased(value@, false),
    {
        SchemaObject::new(value)
    }
}

impl vstd::std_specs::convert::FromSpecImpl<Json> for SchemaObject {
    open spec fn obeys_from_spec() -> bool {
        false
    }

    open spec fn from_spec(value: Json) -> Self {
        SchemaObject(value)
    }
}

} // verus!
