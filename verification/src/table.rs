//! Tables from texts to values, kept in the order in which the texts first came.
use vstd::prelude::*;

use crate::order::Keyed;
use crate::views::Views;

verus! {

/// A text with its value.
#[derive(Debug)]
pub struct Entry<T> {
    pub key: String,
    pub value: T,
}

impl<T: View> View for Entry<T> {
    type V = (Seq<char>, T::V);

    open spec fn view(&self) -> (Seq<char>, T::V) {
        (self.key@, self.value@)
    }
}

impl<T: View> Keyed for Entry<T> {
    open spec fn key_of(v: (Seq<char>, T::V)) -> Seq<char> {
        v.0
    }

    fn key(&self) -> &str {
        self.key.as_str()
    }
}

/// The first place from the `i`-th on that has the text.
pub open spec fn place<V>(s: Seq<(Seq<char>, V)>, k: Seq<char>, i: int) -> Option<int>
    decreases s.len() - i,
{
    if i < 0 || i >= s.len() {
        None
    } else if s[i].0 == k {
        Some(i)
    } else {
        place(s, k, i + 1)
    }
}

/// The value of a text.
pub open spec fn lookup<V>(s: Seq<(Seq<char>, V)>, k: Seq<char>) -> Option<V> {
    match place(s, k, 0) {
        Some(i) => Some(s[i].1),
        None => None,
    }
}

/// The table with a value put in: in place of the one of the same text, or at the end.
pub open spec fn put<V>(s: Seq<(Seq<char>, V)>, k: Seq<char>, v: V) -> Seq<(Seq<char>, V)> {
    match place(s, k, 0) {
        Some(i) => s.update(i, (k, v)),
        None => s.push((k, v)),
    }
}

/// The table without the text.
pub open spec fn dropped<V>(s: Seq<(Seq<char>, V)>, k: Seq<char>) -> Seq<(Seq<char>, V)> {
    match place(s, k, 0) {
        Some(i) => s.remove(i),
        None => s,
    }
}

/// No text stands twice.
pub open spec fn once_each<V>(s: Seq<(Seq<char>, V)>) -> bool {
    forall|i: int, j: int| 0 <= i < j < s.len() ==> (#[trigger] s[i]).0 != (#[trigger] s[j]).0
}

/// The place that was found is the first one.
pub proof fn lemma_place<V>(s: Seq<(Seq<char>, V)>, k: Seq<char>, i: int)
    requires
        0 <= i <= s.len(),
    ensures
        match place(s, k, i) {
            Some(p) => i <= p < s.len() && s[p].0 == k && (forall|j: int|
                i <= j < p ==> (#[trigger] s[j]).0 != k),
            None => forall|j: int| i <= j < s.len() ==> (#[trigger] s[j]).0 != k,
        },
    decreases s.len() - i,
{
    if i < s.len() && s[i].0 != k {
        lemma_place(s, k, i + 1);
    }
}

proof fn lemma_place_is<V>(s: Seq<(Seq<char>, V)>, k: Seq<char>, i: int, p: int)
    requires
        0 <= i <= p < s.len(),
        s[p].0 == k,
        forall|j: int| i <= j < p ==> (#[trigger] s[j]).0 != k,
    ensures
        place(s, k, i) == Some(p),
    decreases p - i,
{
    if i < p {
        lemma_place_is(s, k, i + 1, p);
    }
}

/// What was put in is what is found; all else stays; no text comes to stand twice.
pub proof fn lemma_put<V>(s: Seq<(Seq<char>, V)>, k: Seq<char>, v: V, other: Seq<char>)
    ensures
        lookup(put(s, k, v), k) == Some(v),
        other != k ==> lookup(put(s, k, v), other) == lookup(s, other),
        once_each(s) ==> once_each(put(s, k, v)),
{
    lemma_place(s, k, 0);
    lemma_place(s, other, 0);
    let t = put(s, k, v);
    match place(s, k, 0) {
        Some(p) => {
            assert forall|j: int| 0 <= j < s.len() implies (#[trigger] t[j]).0 == s[j].0 by {}
            lemma_place_is(t, k, 0, p);
        },
        None => {
            lemma_place_is(t, k, 0, s.len() as int);
        },
    }
    if other != k {
        match place(s, other, 0) {
            Some(p) => {
                lemma_place_is(t, other, 0, p);
            },
            None => {
                lemma_place(t, other, 0);
            },
        }
    }
}

/// A text that was taken out is found no more, and all else stays.
pub proof fn lemma_dropped<V>(s: Seq<(Seq<char>, V)>, k: Seq<char>, other: Seq<char>)
    requires
        once_each(s),
    ensures
        lookup(dropped(s, k), k) is None,
        other != k ==> lookup(dropped(s, k), other) == lookup(s, other),
        once_each(dropped(s, k)),
{
    lemma_place(s, k, 0);
    lemma_place(s, other, 0);
    let t = dropped(s, k);
    lemma_place(t, k, 0);
    lemma_place(t, other, 0);
    if let Some(p) = place(s, k, 0) {
        assert forall|j: int| 0 <= j < t.len() implies (#[trigger] t[j]) == s[if j < p {
            j
        } else {
            j + 1
        }] by {}
        if other != k {
            if let Some(q) = place(s, other, 0) {
                let r = if q < p {
                    q
                } else {
                    q - 1
                };
                assert(t[r] == s[q]);
                lemma_place_is(t, other, 0, r);
            }
        }
    }
}

/// A table from texts to values.
#[derive(Debug)]
pub struct Table<T> {
    pub entries: Vec<Entry<T>>,
}

impl<T: View> View for Table<T> {
    type V = Seq<(Seq<char>, T::V)>;

    open spec fn view(&self) -> Seq<(Seq<char>, T::V)> {
        self.entries.views()
    }
}

impl<T: View> Table<T> {
    pub fn new() -> (r: Self)
        ensures
            r@ == Seq::<(Seq<char>, T::V)>::empty(),
    {
        Table { entries: crate::views::none() }
    }

    pub fn len(&self) -> (r: usize)
        ensures
            r == self@.len(),
    {
        self.entries.len()
    }

    fn find(&self, k: &str) -> (r: Option<usize>)
        ensures
            match r {
                Some(i) => place(self@, k@, 0) == Some(i as int) && i < self@.len(),
                None => place(self@, k@, 0) is None,
            },
    {
        let n: usize = self.entries.len();
        let mut i: usize = 0;
        while i < n
            invariant
                n == self.entries@.len(),
                i <= n,
                place(self@, k@, 0) == place(self@, k@, i as int),
            decreases n - i,
        {
            assert(self@[i as int] == self.entries@[i as int]@);
            if *self.entries[i].key.as_str() == *k {
                return Some(i);
            }
            i = i + 1;
        }
        None
    }

    /// The value of a text.
    pub fn get(&self, k: &str) -> (r: Option<&T>)
        ensures
            r.views() == lookup(self@, k@),
    {
        match self.find(k) {
            Some(i) => {
                assert(self@[i as int] == self.entries@[i as int]@);
                Some(&self.entries[i].value)
            },
            None => None,
        }
    }

    /// Puts a value in.
    pub fn insert(&mut self, k: &str, v: T)
        ensures
            final(self)@ == put(old(self)@, k@, v@),
    {
        let entry = Entry { key: k.to_string(), value: v };
        match self.find(k) {
            Some(i) => {
                self.entries.set(i, entry);
                assert(self@ =~= old(self)@.update(i as int, entry@));
            },
            None => {
                crate::views::push(&mut self.entries, entry);
            },
        }
    }

    /// Takes a text out and returns its value.
    pub fn remove(&mut self, k: &str) -> (r: Option<T>)
        ensures
            final(self)@ == dropped(old(self)@, k@),
            r.views() == lookup(old(self)@, k@),
    {
        match self.find(k) {
            Some(i) => {
                assert(self@[i as int] == self.entries@[i as int]@);
                let e = self.entries.remove(i);
                assert(self@ =~= old(self)@.remove(i as int));
                Some(e.value)
            },
            None => None,
        }
    }
}

} // verus!
