//! Reading records from JSON: an object by its fields, or a list by their order.
use vstd::prelude::*;

use crate::json::{Fields, Json, JsonNumber, JsonV, NumberV};
use crate::views::Views;

verus! {

/// The first `n` values of a list as fields.
pub open spec fn fields_upto(v: Seq<JsonV>, names: Seq<Seq<char>>, n: nat) -> Seq<
    (Seq<char>, JsonV),
>
    decreases n,
{
    if n == 0 {
        Seq::empty()
    } else {
        crate::json::put_field(fields_upto(v, names, (n - 1) as nat), names[n - 1], v[n - 1])
    }
}

/// The fields of a record: those of an object, or the values of a list that is not longer than the
/// record, each under the name at its place.
pub open spec fn fields_of(v: JsonV, names: Seq<Seq<char>>) -> Option<Seq<(Seq<char>, JsonV)>> {
    match v {
        JsonV::Object(f) => Some(f),
        JsonV::Array(items) => if items.len() > names.len() {
            None
        } else {
            Some(fields_upto(items, names, items.len()))
        },
        _ => None,
    }
}

/// Reads the fields of a record.
pub fn read_fields(v: &Json, names: &Vec<&'static str>) -> (r: Option<Fields>)
    ensures
        r.views() == fields_of(v@, names.views()),
{
    broadcast use {crate::json::lemma_array_view, crate::json::lemma_object_view};

    match v {
        Json::Object(f) => Some(f.dup()),
        Json::Array(items) => {
            if items.len() > names.len() {
                return None;
            }
            let mut f = Fields::new();
            for i in 0..items.len()
                invariant
                    items@.len() <= names@.len(),
                    f@ == fields_upto(items.views(), names.views(), i as nat),
            {
                assert(items.views()[i as int] == items@[i as int]@);
                assert(names.views()[i as int] == names@[i as int]@);
                f.insert(names[i], items[i].dup());
            }
            Some(f)
        },
        _ => None,
    }
}

/// A text that may be absent, but not anything else.
pub open spec fn text_or(v: Option<JsonV>, default: Seq<char>) -> Option<Seq<char>> {
    match v {
        None => Some(default),
        Some(JsonV::Text(s)) => Some(s),
        Some(_) => None,
    }
}

pub fn read_text_or(v: Option<&Json>, default: &str) -> (r: Option<String>)
    ensures
        r.views() == text_or(v.views(), default@),
{
    match v {
        None => Some(default.to_string()),
        Some(Json::Text(s)) => Some(s.clone()),
        Some(_) => None,
    }
}

/// A text that may be absent or null, but not anything else. The outer option is whether the value
/// is one of these.
pub open spec fn nullable(v: Option<JsonV>) -> Option<Option<Seq<char>>> {
    match v {
        None | Some(JsonV::Null) => Some(None),
        Some(JsonV::Text(s)) => Some(Some(s)),
        Some(_) => None,
    }
}

pub fn read_nullable(v: Option<&Json>) -> (r: Option<Option<String>>)
    ensures
        match r {
            Some(o) => nullable(v.views()) == Some(o.views()),
            None => nullable(v.views()) is None,
        },
{
    match v {
        None => Some(None),
        Some(Json::Null) => Some(None),
        Some(Json::Text(s)) => Some(Some(s.clone())),
        Some(_) => None,
    }
}

/// The first `n` texts of a list of nothing but texts.
pub open spec fn texts_upto(v: Seq<JsonV>, n: nat) -> Option<Seq<Seq<char>>>
    decreases n,
{
    if n == 0 {
        Some(Seq::empty())
    } else {
        match (texts_upto(v, (n - 1) as nat), v[n - 1]) {
            (Some(rest), JsonV::Text(s)) => Some(rest.push(s)),
            _ => None,
        }
    }
}

/// A list of texts, empty where it is absent.
pub open spec fn text_list(v: Option<JsonV>) -> Option<Seq<Seq<char>>> {
    match v {
        None => Some(Seq::empty()),
        Some(JsonV::Array(items)) => texts_upto(items, items.len()),
        Some(_) => None,
    }
}

proof fn lemma_texts_upto_fails(v: Seq<JsonV>, n: nat, m: nat)
    requires
        n <= m,
        texts_upto(v, n) is None,
    ensures
        texts_upto(v, m) is None,
    decreases m,
{
    if n < m {
        lemma_texts_upto_fails(v, n, (m - 1) as nat);
    }
}

pub fn read_text_list(v: Option<&Json>) -> (r: Option<Vec<String>>)
    ensures
        crate::views::opt_list(r) == text_list(v.views()),
{
    broadcast use {crate::json::lemma_array_view, crate::json::lemma_object_view};

    match v {
        None => Some(crate::views::none()),
        Some(Json::Array(items)) => {
            let mut out: Vec<String> = crate::views::none();
            for i in 0..items.len()
                invariant
                    texts_upto(items.views(), i as nat) == Some(out.views()),
                    v.views() == Some(JsonV::Array(items.views())),
            {
                assert(items.views()[i as int] == items@[i as int]@);
                match &items[i] {
                    Json::Text(s) => {
                        crate::views::push(&mut out, s.clone());
                    },
                    _ => {
                        proof {
                            lemma_texts_upto_fails(
                                items.views(),
                                (i + 1) as nat,
                                items.views().len(),
                            );
                        }
                        return None;
                    },
                }
            }
            Some(out)
        },
        Some(_) => None,
    }
}

/// A truth value that may be absent or null.
pub open spec fn nullable_bool(v: Option<JsonV>) -> Option<Option<bool>> {
    match v {
        None | Some(JsonV::Null) => Some(None),
        Some(JsonV::Bool(b)) => Some(Some(b)),
        Some(_) => None,
    }
}

pub fn read_nullable_bool(v: Option<&Json>) -> (r: Option<Option<bool>>)
    ensures
        r == nullable_bool(v.views()),
{
    match v {
        None => Some(None),
        Some(Json::Null) => Some(None),
        Some(Json::Bool(b)) => Some(Some(*b)),
        Some(_) => None,
    }
}

/// A whole number, not negative, that may be absent or null.
pub open spec fn nullable_u64(v: Option<JsonV>) -> Option<Option<u64>> {
    match v {
        None | Some(JsonV::Null) => Some(None),
        Some(JsonV::Number(NumberV::PosInt(n))) => Some(Some(n)),
        Some(_) => None,
    }
}

pub fn read_nullable_u64(v: Option<&Json>) -> (r: Option<Option<u64>>)
    ensures
        r == nullable_u64(v.views()),
{
    match v {
        None => Some(None),
        Some(Json::Null) => Some(None),
        Some(Json::Number(n)) => match n {
            JsonNumber::PosInt(n) => Some(Some(*n)),
            _ => None,
        },
        Some(_) => None,
    }
}

/// A whole number in the range of a signed one.
pub open spec fn signed(v: JsonV) -> Option<i64> {
    match v {
        JsonV::Number(NumberV::PosInt(n)) => if n <= i64::MAX {
            Some(n as i64)
        } else {
            None
        },
        JsonV::Number(NumberV::NegInt(n)) => Some(n),
        _ => None,
    }
}

pub fn read_signed(v: &Json) -> (r: Option<i64>)
    ensures
        r == signed(v@),
{
    match v {
        Json::Number(n) => match n {
            JsonNumber::PosInt(n) => if *n <= i64::MAX as u64 {
                Some(*n as i64)
            } else {
                None
            },
            JsonNumber::NegInt(n) => Some(*n),
            JsonNumber::Float(_) => None,
        },
        _ => None,
    }
}

/// A whole number in the range of a signed one that may be absent or null.
pub open spec fn nullable_signed(v: Option<JsonV>) -> Option<Option<i64>> {
    match v {
        None | Some(JsonV::Null) => Some(None),
        Some(j) => match signed(j) {
            Some(n) => Some(Some(n)),
            None => None,
        },
    }
}

pub fn read_nullable_signed(v: Option<&Json>) -> (r: Option<Option<i64>>)
    ensures
        r == nullable_signed(v.views()),
{
    match v {
        None => Some(None),
        Some(Json::Null) => Some(None),
        Some(j) => match read_signed(j) {
            Some(n) => Some(Some(n)),
            None => None,
        },
    }
}

/// A list of texts that may be absent or null.
pub open spec fn nullable_list(v: Option<JsonV>) -> Option<Option<Seq<Seq<char>>>> {
    match v {
        None | Some(JsonV::Null) => Some(None),
        Some(j) => match text_list(Some(j)) {
            Some(l) => Some(Some(l)),
            None => None,
        },
    }
}

pub fn read_nullable_list(v: Option<&Json>) -> (r: Option<Option<Vec<String>>>)
    ensures
        match r {
            Some(o) => nullable_list(v.views()) == Some(crate::views::opt_list(o)),
            None => nullable_list(v.views()) is None,
        },
{
    match v {
        None => Some(None),
        Some(Json::Null) => Some(None),
        Some(j) => match read_text_list(Some(j)) {
            Some(l) => Some(Some(l)),
            None => None,
        },
    }
}

} // verus!
