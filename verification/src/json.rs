//! JSON values as plain data, with a mathematical model and the primitives that the protocol
//! codecs read and build them with.
use serde_json::Value;
use vstd::prelude::*;

use crate::views::Views;

verus! {

// ---------------------------------------------------------------- the model

/// What a JSON number is: an integer, or a binary floating point number by the shortest decimal
/// text that reads back to it.
pub enum NumberV {
    PosInt(u64),
    NegInt(i64),
    Float(Seq<char>),
}

/// What a JSON value is. The fields of an object keep the order in which they were put in.
pub enum JsonV {
    Null,
    Bool(bool),
    Number(NumberV),
    Text(Seq<char>),
    Array(Seq<JsonV>),
    Object(Seq<(Seq<char>, JsonV)>),
}

/// The position of the first field named `k` among the first `n`.
pub open spec fn field_pos(f: Seq<(Seq<char>, JsonV)>, k: Seq<char>, n: nat) -> Option<int>
    decreases n,
{
    if n == 0 || n > f.len() {
        None
    } else {
        match field_pos(f, k, (n - 1) as nat) {
            Some(i) => Some(i),
            None => if f[n - 1].0 == k {
                Some(n - 1)
            } else {
                None
            },
        }
    }
}

/// The value of the field named `k`.
pub open spec fn get_field(f: Seq<(Seq<char>, JsonV)>, k: Seq<char>) -> Option<JsonV> {
    match field_pos(f, k, f.len()) {
        Some(i) => Some(f[i].1),
        None => None,
    }
}

/// The fields with `k` set to `v`: in its place where there is such a field, else at the end.
pub open spec fn put_field(f: Seq<(Seq<char>, JsonV)>, k: Seq<char>, v: JsonV) -> Seq<
    (Seq<char>, JsonV),
> {
    match field_pos(f, k, f.len()) {
        Some(i) => f.update(i, (k, v)),
        None => f.push((k, v)),
    }
}

/// The fields with `k` set where there is a value for it.
pub open spec fn put_opt(f: Seq<(Seq<char>, JsonV)>, k: Seq<char>, v: Option<JsonV>) -> Seq<
    (Seq<char>, JsonV),
> {
    match v {
        Some(x) => put_field(f, k, x),
        None => f,
    }
}

/// The fields with `k` set where there is a value for it and no such field yet.
pub open spec fn put_opt_absent(f: Seq<(Seq<char>, JsonV)>, k: Seq<char>, v: Option<JsonV>) -> Seq<
    (Seq<char>, JsonV),
> {
    match v {
        Some(x) => put_absent(f, k, x),
        None => f,
    }
}

/// The fields with `k` set to `v` unless there is such a field.
pub open spec fn put_absent(f: Seq<(Seq<char>, JsonV)>, k: Seq<char>, v: JsonV) -> Seq<
    (Seq<char>, JsonV),
> {
    match get_field(f, k) {
        Some(_) => f,
        None => f.push((k, v)),
    }
}

/// The fields without `k`: the last one takes its place.
pub open spec fn drop_field(f: Seq<(Seq<char>, JsonV)>, k: Seq<char>) -> Seq<(Seq<char>, JsonV)> {
    match field_pos(f, k, f.len()) {
        Some(i) => f.update(i, f.last()).drop_last(),
        None => f,
    }
}

/// `f` with the first `n` fields of `more` added where `f` lacks them.
pub open spec fn put_all_absent(
    f: Seq<(Seq<char>, JsonV)>,
    more: Seq<(Seq<char>, JsonV)>,
    n: nat,
) -> Seq<(Seq<char>, JsonV)>
    decreases n,
{
    if n == 0 {
        f
    } else {
        put_absent(put_all_absent(f, more, (n - 1) as nat), more[n - 1].0, more[n - 1].1)
    }
}

/// No name stands twice among the fields.
pub open spec fn distinct_names(f: Seq<(Seq<char>, JsonV)>) -> bool {
    forall|i: int, j: int| 0 <= i < j < f.len() ==> f[i].0 != f[j].0
}

impl JsonV {
    pub open spec fn obj() -> JsonV {
        JsonV::Object(Seq::empty())
    }

    pub open spec fn num(n: u64) -> JsonV {
        JsonV::Number(NumberV::PosInt(n))
    }

    pub open spec fn float(x: Seq<char>) -> JsonV {
        JsonV::Number(NumberV::Float(x))
    }

    /// A text as a value.
    pub open spec fn opt_text(o: Option<Seq<char>>) -> Option<JsonV> {
        match o {
            Some(s) => Some(JsonV::Text(s)),
            None => None,
        }
    }

    /// A text as a value, null for none.
    pub open spec fn text_or_null(o: Option<Seq<char>>) -> JsonV {
        match o {
            Some(s) => JsonV::Text(s),
            None => JsonV::Null,
        }
    }

    /// A floating point number as a value.
    pub open spec fn opt_float(o: Option<Seq<char>>) -> Option<JsonV> {
        match o {
            Some(s) => Some(JsonV::float(s)),
            None => None,
        }
    }

    /// A count as a value.
    pub open spec fn opt_u32(o: Option<u32>) -> Option<JsonV> {
        match o {
            Some(n) => Some(JsonV::num(n as u64)),
            None => None,
        }
    }

    /// A truth value as a value.
    pub open spec fn opt_bool(o: Option<bool>) -> Option<JsonV> {
        match o {
            Some(b) => Some(JsonV::Bool(b)),
            None => None,
        }
    }

    /// A signed integer as a value.
    pub open spec fn int_num(n: i64) -> JsonV {
        JsonV::Number(
            if n >= 0 {
                NumberV::PosInt(n as u64)
            } else {
                NumberV::NegInt(n)
            },
        )
    }

    /// Texts as a list value.
    pub open spec fn texts(v: Seq<Seq<char>>) -> JsonV {
        JsonV::Array(Seq::new(v.len(), |i: int| JsonV::Text(v[i])))
    }

    /// The object with field `k` set; any other value as it is.
    pub open spec fn with(self, k: Seq<char>, v: JsonV) -> JsonV {
        match self {
            JsonV::Object(f) => JsonV::Object(put_field(f, k, v)),
            _ => self,
        }
    }

    /// The object with field `k` set where there is a value for it.
    pub open spec fn with_opt(self, k: Seq<char>, v: Option<JsonV>) -> JsonV {
        match v {
            Some(x) => self.with(k, x),
            None => self,
        }
    }

    /// The object with the fields of `more` that it lacks.
    pub open spec fn with_absent(self, more: Seq<(Seq<char>, JsonV)>) -> JsonV {
        match self {
            JsonV::Object(f) => JsonV::Object(put_all_absent(f, more, more.len())),
            _ => self,
        }
    }

    pub open spec fn get(self, k: Seq<char>) -> Option<JsonV> {
        match self {
            JsonV::Object(f) => get_field(f, k),
            _ => None,
        }
    }

    pub open spec fn as_str(self) -> Option<Seq<char>> {
        match self {
            JsonV::Text(s) => Some(s),
            _ => None,
        }
    }

    pub open spec fn as_bool(self) -> Option<bool> {
        match self {
            JsonV::Bool(b) => Some(b),
            _ => None,
        }
    }

    pub open spec fn as_u64(self) -> Option<u64> {
        match self {
            JsonV::Number(NumberV::PosInt(n)) => Some(n),
            _ => None,
        }
    }

    pub open spec fn as_array(self) -> Option<Seq<JsonV>> {
        match self {
            JsonV::Array(a) => Some(a),
            _ => None,
        }
    }

    pub open spec fn as_object(self) -> Option<Seq<(Seq<char>, JsonV)>> {
        match self {
            JsonV::Object(f) => Some(f),
            _ => None,
        }
    }

    pub open spec fn get_str(self, k: Seq<char>) -> Option<Seq<char>> {
        match self.get(k) {
            Some(v) => v.as_str(),
            None => None,
        }
    }

    pub open spec fn get_bool(self, k: Seq<char>) -> Option<bool> {
        match self.get(k) {
            Some(v) => v.as_bool(),
            None => None,
        }
    }

    pub open spec fn get_u64(self, k: Seq<char>) -> Option<u64> {
        match self.get(k) {
            Some(v) => v.as_u64(),
            None => None,
        }
    }

    pub open spec fn get_array(self, k: Seq<char>) -> Option<Seq<JsonV>> {
        match self.get(k) {
            Some(v) => v.as_array(),
            None => None,
        }
    }

    pub open spec fn get_object(self, k: Seq<char>) -> Option<Seq<(Seq<char>, JsonV)>> {
        match self.get(k) {
            Some(v) => v.as_object(),
            None => None,
        }
    }

    /// The value at `k` inside the value at `outer`.
    pub open spec fn get2(self, outer: Seq<char>, k: Seq<char>) -> Option<JsonV> {
        match self.get(outer) {
            Some(v) => v.get(k),
            None => None,
        }
    }

    /// The text of field `k`, or nothing where it has none.
    pub open spec fn str_or_empty(self, k: Seq<char>) -> Seq<char> {
        match self.get_str(k) {
            Some(s) => s,
            None => Seq::empty(),
        }
    }

    /// The count at `k`, cut to 32 bits, or nothing.
    pub open spec fn opt_count(self, k: Seq<char>) -> Option<u32> {
        match self.get_u64(k) {
            Some(n) => Some(n as u32),
            None => None,
        }
    }

    /// The count at `k`, cut to 32 bits, or zero.
    pub open spec fn count(self, k: Seq<char>) -> u32 {
        match self.opt_count(k) {
            Some(n) => n,
            None => 0,
        }
    }

    /// The text at `k` where it is not empty.
    pub open spec fn filled(self, k: Seq<char>) -> Option<Seq<char>> {
        match self.get_str(k) {
            Some(s) => if s.len() > 0 {
                Some(s)
            } else {
                None
            },
            None => None,
        }
    }

    /// The value that a text holds as JSON, or the empty object.
    pub open spec fn read_or_object(s: Seq<char>) -> JsonV {
        match json_read(s) {
            Some(v) => v,
            None => JsonV::obj(),
        }
    }

    /// The field `k`, or null where there is none.
    pub open spec fn get_or_null(self, k: Seq<char>) -> JsonV {
        match self.get(k) {
            Some(v) => v,
            None => JsonV::Null,
        }
    }
}

/// A field that was put is read back; every other field reads as before.
pub proof fn lemma_put_get(f: Seq<(Seq<char>, JsonV)>, k: Seq<char>, v: JsonV, other: Seq<char>)
    ensures
        get_field(put_field(f, k, v), k) == Some(v),
        other != k ==> get_field(put_field(f, k, v), other) == get_field(f, other),
{
    let g = put_field(f, k, v);
    lemma_field_pos(f, k, f.len());
    lemma_field_pos(f, other, f.len());
    lemma_field_pos(g, k, g.len());
    lemma_field_pos(g, other, g.len());
    match field_pos(f, k, f.len()) {
        Some(i) => {
            match field_pos(g, k, g.len()) {
                Some(j) => {
                    if j < i {
                        assert(f[j].0 == k);
                    }
                    if i < j {
                        assert(g[i].0 == k);
                    }
                },
                None => {
                    assert(g[i].0 == k);
                },
            }
            if other != k {
                assert forall|j: int| 0 <= j < f.len() implies (g[j].0 == other) == (f[j].0
                    == other) by {}
            }
        },
        None => {
            assert(g[f.len() as int].0 == k);
            match field_pos(g, k, g.len()) {
                Some(j) => {
                    if j < f.len() {
                        assert(f[j].0 == k);
                    }
                },
                None => {},
            }
        },
    }
    if other != k {
        match field_pos(f, other, f.len()) {
            Some(a) => {
                assert(g[a].0 == other);
                let b = field_pos(g, other, g.len())->0;
                if b < a {
                    assert(f[b].0 == other);
                }
            },
            None => {
                match field_pos(g, other, g.len()) {
                    Some(b) => {
                        if b < f.len() {
                            assert(f[b].0 == other);
                        }
                    },
                    None => {},
                }
            },
        }
    }
}

/// `field_pos` is the least position of a field with the name.
pub proof fn lemma_field_pos(f: Seq<(Seq<char>, JsonV)>, k: Seq<char>, n: nat)
    requires
        n <= f.len(),
    ensures
        match field_pos(f, k, n) {
            Some(i) => 0 <= i < n && f[i].0 == k && forall|j: int| 0 <= j < i ==> f[j].0 != k,
            None => forall|j: int| 0 <= j < n ==> f[j].0 != k,
        },
    decreases n,
{
    if n > 0 {
        lemma_field_pos(f, k, (n - 1) as nat);
    }
}

/// Putting a field keeps the names distinct.
pub proof fn lemma_put_distinct(f: Seq<(Seq<char>, JsonV)>, k: Seq<char>, v: JsonV)
    requires
        distinct_names(f),
    ensures
        distinct_names(put_field(f, k, v)),
{
    lemma_field_pos(f, k, f.len());
}

/// A field that was set is read back, and every other field reads as before.
pub broadcast proof fn lemma_with_get(j: JsonV, k: Seq<char>, v: JsonV, other: Seq<char>)
    requires
        j is Object,
    ensures
        #[trigger] j.with(k, v).get(other) == if other == k {
            Some(v)
        } else {
            j.get(other)
        },
{
    lemma_put_get(j->Object_0, k, v, other);
}

/// A field that was put is read back, and every other field reads as before.
pub broadcast proof fn lemma_fields_put(
    f: Seq<(Seq<char>, JsonV)>,
    k: Seq<char>,
    v: JsonV,
    other: Seq<char>,
)
    ensures
        #[trigger] get_field(put_field(f, k, v), other) == if other == k {
            Some(v)
        } else {
            get_field(f, other)
        },
{
    lemma_put_get(f, k, v, other);
}

/// A field that was put where there was a value is read back, and every other field reads as
/// before.
pub broadcast proof fn lemma_fields_put_opt(
    f: Seq<(Seq<char>, JsonV)>,
    k: Seq<char>,
    v: Option<JsonV>,
    other: Seq<char>,
)
    ensures
        #[trigger] get_field(put_opt(f, k, v), other) == if other == k && v is Some {
            v
        } else {
            get_field(f, other)
        },
{
    if v is Some {
        lemma_put_get(f, k, v->0, other);
    }
}

/// A field that is put only where it is missing is read back where it was missing; every field that
/// was there reads as before.
pub broadcast proof fn lemma_fields_put_absent(
    f: Seq<(Seq<char>, JsonV)>,
    k: Seq<char>,
    v: JsonV,
    other: Seq<char>,
)
    ensures
        #[trigger] get_field(put_absent(f, k, v), other) == if other == k && get_field(f, k) is None {
            Some(v)
        } else {
            get_field(f, other)
        },
{
    lemma_put_get(f, k, v, other);
}

/// The same where there may be no value to put.
pub broadcast proof fn lemma_fields_put_opt_absent(
    f: Seq<(Seq<char>, JsonV)>,
    k: Seq<char>,
    v: Option<JsonV>,
    other: Seq<char>,
)
    ensures
        #[trigger] get_field(put_opt_absent(f, k, v), other) == if other == k && get_field(f, k)
            is None {
            v
        } else {
            get_field(f, other)
        },
{
    if v is Some {
        lemma_put_get(f, k, v->0, other);
    }
}

/// Fields that are put only where they are missing: a field that was there reads as before, any
/// other as in what was put, the first of its name.
pub proof fn lemma_put_all_absent_get(
    f: Seq<(Seq<char>, JsonV)>,
    more: Seq<(Seq<char>, JsonV)>,
    n: nat,
    k: Seq<char>,
)
    requires
        n <= more.len(),
    ensures
        get_field(put_all_absent(f, more, n), k) == match get_field(f, k) {
            Some(v) => Some(v),
            None => match field_pos(more, k, n) {
                Some(i) => Some(more[i].1),
                None => None,
            },
        },
    decreases n,
{
    if n > 0 {
        let m = (n - 1) as nat;
        lemma_put_all_absent_get(f, more, m, k);
        lemma_fields_put_absent(
            put_all_absent(f, more, m),
            more[n - 1].0,
            more[n - 1].1,
            k,
        );
        lemma_field_pos(more, k, m);
        lemma_field_pos(more, k, n);
    }
}

/// Putting a field where it is missing keeps the names distinct.
pub proof fn lemma_put_opt_absent_distinct(
    f: Seq<(Seq<char>, JsonV)>,
    k: Seq<char>,
    v: Option<JsonV>,
)
    requires
        distinct_names(f),
    ensures
        distinct_names(put_opt_absent(f, k, v)),
        distinct_names(put_opt(f, k, v)),
{
    lemma_field_pos(f, k, f.len());
}

// ---------------------------------------------------------------- the values

/// A JSON number.
#[derive(Debug, PartialEq, Eq)]
pub enum JsonNumber {
    PosInt(u64),
    NegInt(i64),
    /// A finite binary floating point number, by its shortest decimal text.
    Float(String),
}

impl View for JsonNumber {
    type V = NumberV;

    open spec fn view(&self) -> NumberV {
        match self {
            JsonNumber::PosInt(n) => NumberV::PosInt(*n),
            JsonNumber::NegInt(n) => NumberV::NegInt(*n),
            JsonNumber::Float(s) => NumberV::Float(s@),
        }
    }
}

impl Clone for JsonNumber {
    fn clone(&self) -> (r: Self)
        ensures
            r@ == self@,
    {
        match self {
            JsonNumber::PosInt(n) => JsonNumber::PosInt(*n),
            JsonNumber::NegInt(n) => JsonNumber::NegInt(*n),
            JsonNumber::Float(s) => JsonNumber::Float(s.clone()),
        }
    }
}

/// A JSON value.
#[derive(Debug, PartialEq, Eq)]
pub enum Json {
    Null,
    Bool(bool),
    Number(JsonNumber),
    Text(String),
    Array(Vec<Json>),
    Object(Fields),
}

/// The fields of a JSON object, in the order in which they were put in.
#[derive(Debug, PartialEq, Eq)]
pub struct Fields {
    pub entries: Vec<(String, Json)>,
}

impl View for Json {
    type V = JsonV;

    open spec fn view(&self) -> JsonV
        decreases self,
    {
        match self {
            Json::Null => JsonV::Null,
            Json::Bool(b) => JsonV::Bool(*b),
            Json::Number(n) => JsonV::Number(n@),
            Json::Text(s) => JsonV::Text(s@),
            Json::Array(items) => JsonV::Array(
                Seq::new(
                    items@.len(),
                    |i: int|
                        if 0 <= i < items@.len() {
                            items@[i].view()
                        } else {
                            JsonV::Null
                        },
                ),
            ),
            Json::Object(fields) => JsonV::Object(
                Seq::new(
                    fields.entries@.len(),
                    |i: int|
                        if 0 <= i < fields.entries@.len() {
                            (fields.entries@[i].0@, fields.entries@[i].1.view())
                        } else {
                            (Seq::empty(), JsonV::Null)
                        },
                ),
            ),
        }
    }
}

impl View for Fields {
    type V = Seq<(Seq<char>, JsonV)>;

    open spec fn view(&self) -> Seq<(Seq<char>, JsonV)> {
        Seq::new(self.entries@.len(), |i: int| (self.entries@[i].0@, self.entries@[i].1@))
    }
}

pub broadcast proof fn lemma_array_view(v: Vec<Json>)
    ensures
        #[trigger] Json::Array(v)@ == JsonV::Array(v.views()),
{
    let w = Json::Array(v)@->Array_0;
    assert forall|i: int| 0 <= i < v@.len() implies w[i] == v@[i]@ by {
        reveal_with_fuel(<Json as View>::view, 2);
    }
    assert(w =~= v.views());
}

pub broadcast proof fn lemma_object_view(f: Fields)
    ensures
        #[trigger] Json::Object(f)@ == JsonV::Object(f@),
{
    let w = Json::Object(f)@->Object_0;
    assert forall|i: int| 0 <= i < f.entries@.len() implies w[i] == f@[i] by {
        reveal_with_fuel(<Json as View>::view, 2);
    }
    assert(w =~= f@);
}

impl Fields {
    /// No fields.
    pub fn new() -> (r: Self)
        ensures
            r@ == Seq::<(Seq<char>, JsonV)>::empty(),
    {
        let r = Fields { entries: Vec::new() };
        assert(r@ =~= Seq::<(Seq<char>, JsonV)>::empty());
        r
    }

    /// The number of fields.
    pub fn len(&self) -> (r: usize)
        ensures
            r == self@.len(),
    {
        self.entries.len()
    }

    /// Whether there are no fields.
    pub fn is_empty(&self) -> (r: bool)
        ensures
            r == (self@.len() == 0),
    {
        self.entries.len() == 0
    }

    fn position(&self, key: &str) -> (r: Option<usize>)
        ensures
            match r {
                Some(i) => field_pos(self@, key@, self@.len()) == Some(i as int) && i < self@.len(),
                None => field_pos(self@, key@, self@.len()) is None,
            },
    {
        let n: usize = self.entries.len();
        let mut i: usize = 0;
        while i < n
            invariant
                n == self.entries@.len(),
                i <= n,
                field_pos(self@, key@, i as nat) is None,
            decreases n - i,
        {
            if crate::text::same(self.entries[i].0.as_str(), key) {
                proof {
                    lemma_field_pos(self@, key@, (i + 1) as nat);
                    lemma_field_pos(self@, key@, n as nat);
                    assert(self@[i as int].0 == key@);
                    lemma_field_pos(self@, key@, i as nat);
                }
                return Some(i);
            }
            i = i + 1;
        }
        None
    }

    /// The value of a field.
    pub fn get(&self, key: &str) -> (r: Option<&Json>)
        ensures
            r.views() == get_field(self@, key@),
    {
        match self.position(key) {
            Some(i) => Some(&self.entries[i].1),
            None => None,
        }
    }

    /// Whether there is a field of that name.
    pub fn contains_key(&self, key: &str) -> (r: bool)
        ensures
            r == get_field(self@, key@) is Some,
    {
        self.position(key).is_some()
    }

    /// Sets a field.
    pub fn insert(&mut self, key: &str, value: Json)
        ensures
            final(self)@ == put_field(old(self)@, key@, value@),
    {
        match self.position(key) {
            Some(i) => {
                self.entries.set(i, (key.to_string(), value));
                assert(self@ =~= put_field(old(self)@, key@, value@));
            },
            None => {
                self.entries.push((key.to_string(), value));
                assert(self@ =~= put_field(old(self)@, key@, value@));
            },
        }
    }

    /// Sets a field where there is a value for it.
    pub fn insert_opt(&mut self, key: &str, value: Option<Json>)
        ensures
            final(self)@ == put_opt(old(self)@, key@, value.views()),
    {
        if let Some(v) = value {
            self.insert(key, v);
        }
    }

    /// Sets a field where there is a value for it and no such field yet.
    pub fn insert_opt_absent(&mut self, key: &str, value: Option<Json>)
        ensures
            final(self)@ == put_opt_absent(old(self)@, key@, value.views()),
    {
        if let Some(v) = value {
            self.insert_absent(key, v);
        }
    }

    /// Sets a field unless there is one of that name.
    pub fn insert_absent(&mut self, key: &str, value: Json)
        ensures
            final(self)@ == put_absent(old(self)@, key@, value@),
    {
        if !self.contains_key(key) {
            self.entries.push((key.to_string(), value));
            assert(self@ =~= put_absent(old(self)@, key@, value@));
        }
    }

    /// Adds copies of the fields of `more` that are lacking.
    pub fn insert_all_absent(&mut self, more: &Fields)
        ensures
            final(self)@ == put_all_absent(old(self)@, more@, more@.len()),
    {
        let n: usize = more.entries.len();
        let mut i: usize = 0;
        while i < n
            invariant
                n == more.entries@.len(),
                i <= n,
                self@ == put_all_absent(old(self)@, more@, i as nat),
            decreases n - i,
        {
            self.insert_absent(more.entries[i].0.as_str(), more.entries[i].1.dup());
            i = i + 1;
        }
    }

    /// Takes a field out.
    pub fn remove(&mut self, key: &str) -> (r: Option<Json>)
        ensures
            r.views() == get_field(old(self)@, key@),
            final(self)@ == drop_field(old(self)@, key@),
    {
        match self.position(key) {
            Some(i) => {
                let (_, value) = self.entries.swap_remove(i);
                assert(self@ =~= drop_field(old(self)@, key@));
                Some(value)
            },
            None => None,
        }
    }

    /// The name of the field at a position.
    pub fn key_at(&self, i: usize) -> (r: &str)
        requires
            i < self@.len(),
        ensures
            r@ == self@[i as int].0,
    {
        self.entries[i].0.as_str()
    }

    /// The value of the field at a position.
    pub fn value_at(&self, i: usize) -> (r: &Json)
        requires
            i < self@.len(),
        ensures
            r@ == self@[i as int].1,
    {
        &self.entries[i].1
    }

    /// A copy of the fields.
    pub fn dup(&self) -> (r: Fields)
        ensures
            r@ == self@,
        decreases self,
    {
        let n: usize = self.entries.len();
        let mut out: Vec<(String, Json)> = Vec::new();
        let mut i: usize = 0;
        while i < n
            invariant
                n == self.entries@.len(),
                i <= n,
                out@.len() == i,
                forall|j: int|
                    0 <= j < i ==> (#[trigger] out@[j]).0@ == self.entries@[j].0@ && out@[j].1@
                        == self.entries@[j].1@,
            decreases n - i,
        {
            assert(decreases_to!(self => self.entries@[i as int].1));
            let v = self.entries[i].1.dup();
            out.push((self.entries[i].0.clone(), v));
            i = i + 1;
        }
        let r = Fields { entries: out };
        assert(r@ =~= self@);
        r
    }
}

impl Clone for Fields {
    fn clone(&self) -> (r: Self)
        ensures
            r@ == self@,
    {
        self.dup()
    }
}

impl Clone for Json {
    fn clone(&self) -> (r: Self)
        ensures
            r@ == self@,
    {
        self.dup()
    }
}

/// A copy of a list of values.
pub fn dup_items(v: &Vec<Json>) -> (r: Vec<Json>)
    ensures
        r.views() == v.views(),
    decreases v,
{
    let n: usize = v.len();
    let mut out: Vec<Json> = Vec::new();
    let mut i: usize = 0;
    while i < n
        invariant
            n == v@.len(),
            i <= n,
            out@.len() == i,
            forall|j: int| 0 <= j < i ==> (#[trigger] out@[j])@ == v@[j]@,
        decreases n - i,
    {
        assert(decreases_to!(v => v@[i as int]));
        out.push(v[i].dup());
        i = i + 1;
    }
    assert(out.views() =~= v.views());
    out
}

/// A copy of an optional value.
pub fn dup_opt(o: &Option<Json>) -> (r: Option<Json>)
    ensures
        r.views() == o.views(),
{
    match o {
        Some(v) => Some(v.dup()),
        None => None,
    }
}

impl Json {
    /// A copy of the value.
    pub fn dup(&self) -> (r: Json)
        ensures
            r@ == self@,
        decreases self,
    {
        broadcast use lemma_array_view, lemma_object_view;

        match self {
            Json::Null => Json::Null,
            Json::Bool(b) => Json::Bool(*b),
            Json::Number(n) => Json::Number(n.clone()),
            Json::Text(s) => Json::Text(s.clone()),
            Json::Array(v) => Json::Array(dup_items(v)),
            Json::Object(f) => Json::Object(f.dup()),
        }
    }

    /// The empty object.
    pub fn object() -> (r: Json)
        ensures
            r@ == JsonV::obj(),
    {
        broadcast use lemma_object_view;

        Json::Object(Fields::new())
    }

    /// A text value.
    pub fn text(s: &str) -> (r: Json)
        ensures
            r@ == JsonV::Text(s@),
    {
        Json::Text(s.to_string())
    }

    /// A number value.
    pub fn num(n: u64) -> (r: Json)
        ensures
            r@ == JsonV::num(n),
    {
        Json::Number(JsonNumber::PosInt(n))
    }

    /// A floating point number, by its decimal text.
    pub fn float(text: &str) -> (r: Json)
        ensures
            r@ == JsonV::float(text@),
    {
        Json::Number(JsonNumber::Float(text.to_owned()))
    }

    /// A text as a value.
    pub fn text_opt(o: &Option<String>) -> (r: Option<Json>)
        ensures
            r.views() == JsonV::opt_text(o.views()),
    {
        match o {
            Some(s) => Some(Json::text(s.as_str())),
            None => None,
        }
    }

    /// A text as a value, null for none.
    pub fn text_or_null(o: &Option<String>) -> (r: Json)
        ensures
            r@ == JsonV::text_or_null(o.views()),
    {
        match o {
            Some(s) => Json::text(s.as_str()),
            None => Json::Null,
        }
    }

    /// A floating point number as a value.
    pub fn float_opt(o: &Option<String>) -> (r: Option<Json>)
        ensures
            r.views() == JsonV::opt_float(o.views()),
    {
        match o {
            Some(s) => Some(Json::float(s.as_str())),
            None => None,
        }
    }

    /// A count as a value.
    pub fn u32_opt(o: Option<u32>) -> (r: Option<Json>)
        ensures
            r.views() == JsonV::opt_u32(o),
    {
        match o {
            Some(n) => Some(Json::num(n as u64)),
            None => None,
        }
    }

    /// A truth value as a value.
    pub fn bool_opt(o: Option<bool>) -> (r: Option<Json>)
        ensures
            r.views() == JsonV::opt_bool(o),
    {
        match o {
            Some(b) => Some(Json::Bool(b)),
            None => None,
        }
    }

    /// A signed integer as a value.
    pub fn int_num(n: i64) -> (r: Json)
        ensures
            r@ == JsonV::int_num(n),
    {
        if n >= 0 {
            Json::Number(JsonNumber::PosInt(n as u64))
        } else {
            Json::Number(JsonNumber::NegInt(n))
        }
    }

    /// Texts as a list value.
    pub fn texts(v: &Vec<String>) -> (r: Json)
        ensures
            r@ == JsonV::texts(v.views()),
    {
        let mut out: Vec<Json> = crate::views::none();
        for i in 0..v.len()
            invariant
                out.views().len() == i,
                forall|j: int|
                    0 <= j < i ==> #[trigger] out.views()[j] == JsonV::Text(v.views()[j]),
        {
            assert(v.views()[i as int] == v@[i as int]@);
            crate::views::push(&mut out, Json::text(v[i].as_str()));
        }
        assert(out.views() =~= Seq::new(v.views().len(), |i: int| JsonV::Text(v.views()[i])));
        Json::array(out)
    }

    /// A list value.
    pub fn array(v: Vec<Json>) -> (r: Json)
        ensures
            r@ == JsonV::Array(v.views()),
    {
        broadcast use lemma_array_view;

        Json::Array(v)
    }

    /// An object with the given fields.
    pub fn of_fields(f: Fields) -> (r: Json)
        ensures
            r@ == JsonV::Object(f@),
    {
        broadcast use lemma_object_view;

        Json::Object(f)
    }

    /// The object with a field set; any other value as it is.
    pub fn with(self, key: &str, value: Json) -> (r: Json)
        ensures
            r@ == self@.with(key@, value@),
    {
        broadcast use lemma_object_view;

        match self {
            Json::Object(f) => {
                let mut g = f;
                g.insert(key, value);
                Json::Object(g)
            },
            other => other,
        }
    }

    /// The object with a field set where there is a value for it.
    pub fn with_opt(self, key: &str, value: Option<Json>) -> (r: Json)
        ensures
            r@ == self@.with_opt(key@, value.views()),
    {
        match value {
            Some(v) => self.with(key, v),
            None => self,
        }
    }

    /// Sets a field of an object; leaves any other value alone.
    pub fn set(&mut self, key: &str, value: Json)
        ensures
            final(self)@ == old(self)@.with(key@, value@),
    {
        broadcast use lemma_object_view;

        let mut taken = Json::Null;
        std::mem::swap(self, &mut taken);
        *self = taken.with(key, value);
    }

    /// The object with copies of the fields of `more` that it lacks.
    pub fn with_absent(self, more: &Fields) -> (r: Json)
        ensures
            r@ == self@.with_absent(more@),
    {
        broadcast use lemma_object_view;

        match self {
            Json::Object(f) => {
                let mut g = f;
                g.insert_all_absent(more);
                Json::Object(g)
            },
            other => other,
        }
    }

    /// The value of a field of an object.
    pub fn get(&self, key: &str) -> (r: Option<&Json>)
        ensures
            r.views() == self@.get(key@),
    {
        broadcast use lemma_object_view;

        match self {
            Json::Object(f) => f.get(key),
            _ => None,
        }
    }

    /// The value of a field inside the field `outer`.
    pub fn get2(&self, outer: &str, key: &str) -> (r: Option<&Json>)
        ensures
            r.views() == self@.get2(outer@, key@),
    {
        match self.get(outer) {
            Some(v) => v.get(key),
            None => None,
        }
    }

    /// The text, where the value is one.
    pub fn as_str(&self) -> (r: Option<&str>)
        ensures
            r.views() == self@.as_str(),
    {
        match self {
            Json::Text(s) => Some(s.as_str()),
            _ => None,
        }
    }

    /// The truth value, where the value is one.
    pub fn as_bool(&self) -> (r: Option<bool>)
        ensures
            r == self@.as_bool(),
    {
        match self {
            Json::Bool(b) => Some(*b),
            _ => None,
        }
    }

    /// The number, where the value is a non-negative integer.
    pub fn as_u64(&self) -> (r: Option<u64>)
        ensures
            r == self@.as_u64(),
    {
        match self {
            Json::Number(JsonNumber::PosInt(n)) => Some(*n),
            _ => None,
        }
    }

    /// The items, where the value is a list.
    pub fn as_array(&self) -> (r: Option<&Vec<Json>>)
        ensures
            match r {
                Some(v) => self@.as_array() == Some(v.views()) && *self == Json::Array(*v),
                None => self@.as_array() is None,
            },
    {
        broadcast use lemma_array_view;

        match self {
            Json::Array(v) => Some(v),
            _ => None,
        }
    }

    /// The fields, where the value is an object.
    pub fn as_object(&self) -> (r: Option<&Fields>)
        ensures
            match r {
                Some(f) => self@.as_object() == Some(f@) && *self == Json::Object(*f),
                None => self@.as_object() is None,
            },
    {
        broadcast use lemma_object_view;

        match self {
            Json::Object(f) => Some(f),
            _ => None,
        }
    }

    /// Whether the value is null.
    pub fn is_null(&self) -> (r: bool)
        ensures
            r == (self@ is Null),
    {
        match self {
            Json::Null => true,
            _ => false,
        }
    }

    /// The text of a field.
    pub fn get_str(&self, key: &str) -> (r: Option<&str>)
        ensures
            r.views() == self@.get_str(key@),
    {
        match self.get(key) {
            Some(v) => v.as_str(),
            None => None,
        }
    }

    /// The truth value of a field.
    pub fn get_bool(&self, key: &str) -> (r: Option<bool>)
        ensures
            r == self@.get_bool(key@),
    {
        match self.get(key) {
            Some(v) => v.as_bool(),
            None => None,
        }
    }

    /// The non-negative integer of a field.
    pub fn get_u64(&self, key: &str) -> (r: Option<u64>)
        ensures
            r == self@.get_u64(key@),
    {
        match self.get(key) {
            Some(v) => v.as_u64(),
            None => None,
        }
    }

    /// The items of a field.
    pub fn get_array(&self, key: &str) -> (r: Option<&Vec<Json>>)
        ensures
            match r {
                Some(v) => self@.get_array(key@) == Some(v.views()),
                None => self@.get_array(key@) is None,
            },
    {
        match self.get(key) {
            Some(v) => v.as_array(),
            None => None,
        }
    }

    /// The fields of a field.
    pub fn get_object(&self, key: &str) -> (r: Option<&Fields>)
        ensures
            match r {
                Some(f) => self@.get_object(key@) == Some(f@),
                None => self@.get_object(key@) is None,
            },
    {
        match self.get(key) {
            Some(v) => v.as_object(),
            None => None,
        }
    }

    /// A copy of the text of a field, or the empty text.
    pub fn str_or_empty(&self, key: &str) -> (r: String)
        ensures
            r@ == self@.str_or_empty(key@),
    {
        match self.get_str(key) {
            Some(s) => s.to_string(),
            None => {
                let r = String::new();
                assert(r@ =~= Seq::<char>::empty());
                r
            },
        }
    }

    /// A count, cut to 32 bits.
    pub fn opt_count(&self, key: &str) -> (r: Option<u32>)
        ensures
            r == self@.opt_count(key@),
    {
        match self.get_u64(key) {
            Some(n) => Some(
                #[verifier::truncate]
                (n as u32),
            ),
            None => None,
        }
    }

    /// A count, cut to 32 bits, or zero.
    pub fn count(&self, key: &str) -> (r: u32)
        ensures
            r == self@.count(key@),
    {
        match self.opt_count(key) {
            Some(n) => n,
            None => 0,
        }
    }

    /// The text of a field where it is not empty.
    pub fn filled(&self, key: &str) -> (r: Option<&str>)
        ensures
            r.views() == self@.filled(key@),
    {
        match self.get_str(key) {
            Some(s) => if s.is_empty() {
                None
            } else {
                Some(s)
            },
            None => None,
        }
    }

    /// Whether the text of a field is `s`.
    pub fn field_is(&self, key: &str, s: &str) -> (r: bool)
        ensures
            r == (self@.get_str(key@) == Some(s@)),
    {
        match self.get_str(key) {
            Some(t) => *t == *s,
            None => false,
        }
    }

    /// A copy of a field, or null.
    pub fn get_or_null(&self, key: &str) -> (r: Json)
        ensures
            r@ == self@.get_or_null(key@),
    {
        match self.get(key) {
            Some(v) => v.dup(),
            None => Json::Null,
        }
    }

    /// A copy of a field.
    pub fn get_dup(&self, key: &str) -> (r: Option<Json>)
        ensures
            r.views() == self@.get(key@),
    {
        match self.get(key) {
            Some(v) => Some(v.dup()),
            None => None,
        }
    }
}

// ---------------------------------------------------------------- reading and writing text

/// A value tree of serde_json.
#[verifier::external_type_specification]
#[verifier::external_body]
pub struct ExValue(serde_json::Value);

/// What a value tree of serde_json holds.
pub uninterp spec fn value_content(v: serde_json::Value) -> JsonV;

/// The value that serde_json reads from a text, where it accepts the text.
pub uninterp spec fn json_read(s: Seq<char>) -> Option<JsonV>;

/// What the value tree that is built from a value holds.
pub uninterp spec fn as_value(j: JsonV) -> JsonV;

/// The compact text that serde_json writes for a value tree.
pub uninterp spec fn json_write(j: JsonV) -> Seq<char>;

/// The compact text of a value.
pub open spec fn text_of(j: JsonV) -> Seq<char> {
    json_write(as_value(j))
}

/// Whether a value is of at most so many levels, names no field twice and holds no floating point
/// number.
pub open spec fn plain_to(v: JsonV, levels: nat) -> bool
    decreases levels,
{
    match v {
        JsonV::Number(NumberV::NegInt(n)) => n < 0,
        JsonV::Number(NumberV::Float(_)) => false,
        JsonV::Array(a) => levels > 0 && forall|i: int|
            0 <= i < a.len() ==> plain_to(#[trigger] a[i], (levels - 1) as nat),
        JsonV::Object(f) => levels > 0 && distinct_names(f) && forall|i: int|
            0 <= i < f.len() ==> plain_to((#[trigger] f[i]).1, (levels - 1) as nat),
        _ => true,
    }
}

/// Whether a value is one that its text surely stands for: serde_json reads 127 levels.
pub open spec fn is_plain(v: JsonV) -> bool {
    plain_to(v, 127)
}

/// Whether the text of a value is read as that value.
pub open spec fn reads_back(v: JsonV) -> bool {
    json_read(text_of(v)) == Some(v)
}

/// `serde_json::from_str` into a value tree: a value where the text is JSON, else nothing.
#[verifier::external_body]
fn read_value(s: &str) -> (r: Option<serde_json::Value>)
    ensures
        match r {
            Some(v) => json_read(s@) == Some(value_content(v)),
            None => json_read(s@) is None,
        },
{
    serde_json::from_str(s).ok()
}

/// Turns a `serde_json::Value` into plain data, variant by variant.
#[verifier::external_body]
pub(crate) fn json_of(value: &serde_json::Value) -> (r: Json)
    ensures
        r@ == value_content(*value),
{
    match value {
        Value::Null => Json::Null,
        Value::Bool(b) => Json::Bool(*b),
        Value::Number(n) => Json::Number(match (n.as_u64(), n.as_i64()) {
            (Some(u), _) => JsonNumber::PosInt(u),
            (None, Some(i)) => JsonNumber::NegInt(i),
            (None, None) => JsonNumber::Float(n.to_string())
        }),
        Value::String(s) => Json::Text(s.clone()),
        Value::Array(v) => Json::Array(v.iter().map(json_of).collect()),
        Value::Object(m) => Json::Object(Fields {
            entries: m.iter().map(|(k, v)| (k.clone(), json_of(v))).collect()
        })
    }
}

/// Turns plain data into a `serde_json::Value`, variant by variant. Where no field is named twice
/// and every number is one that serde_json holds as it is, the tree holds just that data.
#[verifier::external_body]
fn value_of(j: &Json) -> (r: serde_json::Value)
    ensures
        value_content(r) == as_value(j@),
        is_plain(j@) ==> value_content(r) == j@,
{
    match j {
        Json::Null => Value::Null,
        Json::Bool(b) => Value::Bool(*b),
        Json::Number(n) => match n {
            JsonNumber::PosInt(n) => Value::from(*n),
            JsonNumber::NegInt(n) => Value::from(*n),
            JsonNumber::Float(s) => serde_json::from_str(s).unwrap_or_default(),
        },
        Json::Text(s) => Value::String(s.clone()),
        Json::Array(v) => Value::Array(v.iter().map(value_of).collect()),
        Json::Object(f) => Value::Object(
            f.entries.iter().map(|(k, v)| (k.clone(), value_of(v))).collect()
        )
    }
}

/// `to_string` of a `serde_json::Value`: its compact text, a function of what it holds, which
/// `from_str` reads back. Of floating point numbers, which may come back one digit off, and of
/// values deeper than it reads, nothing more is said.
#[verifier::external_body]
fn write_value(v: &serde_json::Value) -> (r: String)
    ensures
        r@ == json_write(value_content(*v)),
        is_plain(value_content(*v)) ==> json_read(r@) == Some(value_content(*v)),
{
    v.to_string()
}

/// The whole part of a floating point number by its text, cut to the range of 32 bits.
pub uninterp spec fn float_to_u32(s: Seq<char>) -> u32;

/// `as_f64` of a `serde_json::Number` read from its text, cut to 32 bits: a function of the text
/// alone. What is no number counts as zero.
#[verifier::external_body]
pub(crate) fn whole_u32(s: &str) -> (r: u32)
    ensures
        r == float_to_u32(s@),
{
    s.parse::<serde_json::Number>().ok().and_then(|n| n.as_f64()).map_or(0, |x| x as u32)
}

/// The whole part of a floating point number by its text, cut to the range of 64 bits.
pub uninterp spec fn float_to_u64(s: Seq<char>) -> u64;

/// `as_f64` of a `serde_json::Number` read from its text, cut to 64 bits: a function of the text
/// alone. What is no number counts as zero.
#[verifier::external_body]
pub(crate) fn whole_u64(s: &str) -> (r: u64)
    ensures
        r == float_to_u64(s@),
{
    s.parse::<serde_json::Number>().ok().and_then(|n| n.as_f64()).map_or(0, |x| x as u64)
}

/// The text of the floating point number nearest to a whole one.
pub uninterp spec fn u64_as_float(n: u64) -> Seq<char>;

/// The text of the floating point number nearest to a negative one.
pub uninterp spec fn i64_as_float(n: i64) -> Seq<char>;

/// `as_f64` of a `serde_json::Number` made of a whole number, by its text: a function of the
/// number alone.
#[verifier::external_body]
fn float_of_u64(n: u64) -> (r: String)
    ensures
        r@ == u64_as_float(n),
{
    serde_json::Value::from(serde_json::Number::from(n).as_f64()).to_string()
}

/// `as_f64` of a `serde_json::Number` made of a signed number, by its text: a function of the
/// number alone.
#[verifier::external_body]
fn float_of_i64(n: i64) -> (r: String)
    ensures
        r@ == i64_as_float(n),
{
    serde_json::Value::from(serde_json::Number::from(n).as_f64()).to_string()
}

impl JsonV {
    /// A number as a floating point one.
    pub open spec fn get_float(self, k: Seq<char>) -> Option<Seq<char>> {
        match self.get(k) {
            Some(JsonV::Number(NumberV::PosInt(n))) => Some(u64_as_float(n)),
            Some(JsonV::Number(NumberV::NegInt(n))) => Some(i64_as_float(n)),
            Some(JsonV::Number(NumberV::Float(s))) => Some(s),
            _ => None,
        }
    }
}

impl Json {
    /// A number as a floating point one, by its text.
    pub fn get_float(&self, key: &str) -> (r: Option<String>)
        ensures
            r.views() == self@.get_float(key@),
    {
        match self.get(key) {
            Some(Json::Number(n)) => match n {
                JsonNumber::PosInt(n) => Some(float_of_u64(*n)),
                JsonNumber::NegInt(n) => Some(float_of_i64(*n)),
                JsonNumber::Float(s) => Some(s.clone()),
            },
            _ => None,
        }
    }

    /// Reads a value from its text.
    pub fn parse(s: &str) -> (r: Option<Json>)
        ensures
            r.views() == json_read(s@),
    {
        match read_value(s) {
            Some(v) => Some(json_of(&v)),
            None => None,
        }
    }

    /// Reads a value from its text; the empty object where it is not JSON.
    pub fn parse_or_object(s: &str) -> (r: Json)
        ensures
            r@ == JsonV::read_or_object(s@),
    {
        match Json::parse(s) {
            Some(v) => v,
            None => Json::object(),
        }
    }

    /// The compact text of the value. The text of a plain value is read as that value.
    pub fn to_text(&self) -> (r: String)
        ensures
            r@ == text_of(self@),
            is_plain(self@) ==> reads_back(self@),
    {
        write_value(&value_of(self))
    }
}

} // verus!
