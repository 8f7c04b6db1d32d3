//! Texts in their order, and lists sorted by a text.
use vstd::prelude::*;

use crate::views::Views;

verus! {

/// Whether a text comes before another: by the first character in which they differ, and a
/// beginning before the whole.
pub open spec fn before(a: Seq<char>, b: Seq<char>) -> bool
    decreases a.len(),
{
    if b.len() == 0 {
        false
    } else if a.len() == 0 {
        true
    } else if a[0] != b[0] {
        a[0] < b[0]
    } else {
        before(a.subrange(1, a.len() as int), b.subrange(1, b.len() as int))
    }
}

/// Whether a text comes before another.
pub fn less(a: &str, b: &str) -> (r: bool)
    ensures
        r == before(a@, b@),
{
    let v = crate::text::chars_of(a);
    let w = crate::text::chars_of(b);
    let n: usize = v.len();
    let m: usize = w.len();
    let mut i: usize = 0;
    assert(a@.subrange(0, a@.len() as int) =~= a@);
    assert(b@.subrange(0, b@.len() as int) =~= b@);
    while i < n && i < m
        invariant
            v@ == a@,
            w@ == b@,
            n == v@.len(),
            m == w@.len(),
            i <= n,
            i <= m,
            before(a@, b@) == before(
                a@.subrange(i as int, n as int),
                b@.subrange(i as int, m as int),
            ),
        decreases n - i,
    {
        let ghost x = a@.subrange(i as int, n as int);
        let ghost y = b@.subrange(i as int, m as int);
        assert(x.subrange(1, x.len() as int) =~= a@.subrange(i + 1, n as int));
        assert(y.subrange(1, y.len() as int) =~= b@.subrange(i + 1, m as int));
        if v[i] != w[i] {
            return v[i] < w[i];
        }
        i = i + 1;
    }
    i < m
}

/// A text never comes before itself, and of two different ones exactly one comes first.
pub proof fn lemma_before(a: Seq<char>, b: Seq<char>)
    ensures
        !before(a, a),
        a != b ==> (before(a, b) <==> !before(b, a)),
    decreases a.len(),
{
    if a.len() > 0 && b.len() > 0 {
        let x = a.subrange(1, a.len() as int);
        let y = b.subrange(1, b.len() as int);
        lemma_before(x, y);
        if a != b && a[0] == b[0] {
            if x == y {
                assert(a =~= seq![a[0]] + x);
                assert(b =~= seq![b[0]] + y);
            }
        }
    } else if a.len() > 0 {
        lemma_before(a.subrange(1, a.len() as int), a.subrange(1, a.len() as int));
    } else if b.len() == 0 {
        assert(a =~= b);
    }
}

/// The order goes on: what comes before a text comes before all that follow it.
pub proof fn lemma_before_transitive(a: Seq<char>, b: Seq<char>, c: Seq<char>)
    requires
        before(a, b),
        before(b, c),
    ensures
        before(a, c),
    decreases a.len(),
{
    if a.len() > 0 && a[0] == b[0] && b[0] == c[0] {
        lemma_before_transitive(
            a.subrange(1, a.len() as int),
            b.subrange(1, b.len() as int),
            c.subrange(1, c.len() as int),
        );
    }
}

/// What has a text to be sorted by.
pub trait Keyed: View + Sized {
    spec fn key_of(v: <Self as View>::V) -> Seq<char>;

    fn key(&self) -> (r: &str)
        ensures
            r@ == Self::key_of(self@),
    ;
}

impl Keyed for String {
    open spec fn key_of(v: Seq<char>) -> Seq<char> {
        v
    }

    fn key(&self) -> &str {
        self.as_str()
    }
}

/// The first place from the `i`-th on whose text does not come before `k`.
pub open spec fn spot<T: Keyed>(s: Seq<T::V>, k: Seq<char>, i: int) -> int
    decreases s.len() - i,
{
    if i < 0 || i >= s.len() || !before(T::key_of(s[i]), k) {
        i
    } else {
        spot::<T>(s, k, i + 1)
    }
}

/// A list sorted by its texts; what has the same text stays in its order.
pub open spec fn sorted<T: Keyed>(s: Seq<T::V>) -> Seq<T::V>
    decreases s.len(),
{
    if s.len() == 0 {
        s
    } else {
        let rest = sorted::<T>(s.subrange(1, s.len() as int));
        rest.insert(spot::<T>(rest, T::key_of(s[0]), 0), s[0])
    }
}

proof fn lemma_spot<T: Keyed>(s: Seq<T::V>, k: Seq<char>, i: int)
    requires
        0 <= i <= s.len(),
    ensures
        i <= spot::<T>(s, k, i) <= s.len(),
        forall|j: int| i <= j < spot::<T>(s, k, i) ==> before(T::key_of(#[trigger] s[j]), k),
        spot::<T>(s, k, i) < s.len() ==> !before(T::key_of(s[spot::<T>(s, k, i)]), k),
    decreases s.len() - i,
{
    if i < s.len() && before(T::key_of(s[i]), k) {
        lemma_spot::<T>(s, k, i + 1);
    }
}

/// Sorts a list by its texts.
pub fn sort<T: Keyed>(v: Vec<T>) -> (r: Vec<T>)
    ensures
        r.views() == sorted::<T>(v.views()),
{
    let ghost whole = v.views();
    let mut v = v;
    let mut out: Vec<T> = crate::views::none();
    assert(whole.subrange(whole.len() as int, whole.len() as int) =~= Seq::empty());
    loop
        invariant
            v.views() == whole.take(v@.len() as int),
            v@.len() <= whole.len(),
            out.views() == sorted::<T>(whole.subrange(v@.len() as int, whole.len() as int)),
        ensures
            v@.len() == 0,
        decreases v@.len(),
    {
        let ghost n = v@.len() as int;
        let ghost rest = out.views();
        match v.pop() {
            Some(x) => {
                let ghost tail = whole.subrange(n - 1, whole.len() as int);
                assert(v.views() =~= whole.take(n - 1));
                assert(whole.take(n)[n - 1] == x@);
                assert(tail[0] == x@);
                assert(tail.subrange(1, tail.len() as int) =~= whole.subrange(
                    n,
                    whole.len() as int,
                ));
                let len: usize = out.len();
                let mut i: usize = 0;
                let ghost k = T::key_of(x@);
                proof {
                    lemma_spot::<T>(rest, k, 0);
                }
                while i < len && less(out[i].key(), x.key())
                    invariant
                        len == out@.len(),
                        i <= len,
                        rest == out.views(),
                        k == T::key_of(x@),
                        spot::<T>(rest, k, 0) == spot::<T>(rest, k, i as int),
                    ensures
                        i <= len,
                        spot::<T>(rest, k, 0) == i,
                    decreases len - i,
                {
                    assert(rest[i as int] == out@[i as int]@);
                    i = i + 1;
                }
                out.insert(i, x);
                assert(out.views() =~= rest.insert(i as int, x@));
            },
            None => {
                break;
            },
        }
    }
    assert(whole.subrange(0, whole.len() as int) =~= whole);
    out
}

/// In order: no text comes before an earlier one.
pub open spec fn in_order<T: Keyed>(s: Seq<T::V>) -> bool {
    forall|i: int, j: int|
        0 <= i < j < s.len() ==> !before(T::key_of(#[trigger] s[j]), T::key_of(#[trigger] s[i]))
}

/// A sorted list is in order and holds what the list held.
pub proof fn lemma_sorted<T: Keyed>(s: Seq<T::V>)
    ensures
        in_order::<T>(sorted::<T>(s)),
        sorted::<T>(s).to_multiset() == s.to_multiset(),
        sorted::<T>(s).len() == s.len(),
    decreases s.len(),
{
    if s.len() > 0 {
        let tail = s.subrange(1, s.len() as int);
        lemma_sorted::<T>(tail);
        let rest = sorted::<T>(tail);
        let x = s[0];
        let k = T::key_of(x);
        let p = spot::<T>(rest, k, 0);
        lemma_spot::<T>(rest, k, 0);
        let r = rest.insert(p, x);
        assert forall|i: int, j: int| 0 <= i < j < r.len() implies !before(
            T::key_of(#[trigger] r[j]),
            T::key_of(#[trigger] r[i]),
        ) by {
            let a = if i < p {
                i
            } else {
                i - 1
            };
            let b = if j < p {
                j
            } else {
                j - 1
            };
            if i != p && j != p {
                assert(r[i] == rest[a] && r[j] == rest[b]);
                assert(!before(T::key_of(rest[b]), T::key_of(rest[a])));
            } else if j == p {
                assert(r[i] == rest[i]);
                lemma_before(T::key_of(rest[i]), k);
                lemma_before(k, k);
            } else {
                assert(r[j] == rest[j - 1]);
                if before(T::key_of(rest[j - 1]), k) {
                    if p < j - 1 {
                        assert(!before(T::key_of(rest[j - 1]), T::key_of(rest[p])));
                        lemma_before(T::key_of(rest[j - 1]), T::key_of(rest[p]));
                        lemma_before(T::key_of(rest[p]), k);
                        if T::key_of(rest[p]) != T::key_of(rest[j - 1]) {
                            lemma_before_transitive(
                                T::key_of(rest[p]),
                                T::key_of(rest[j - 1]),
                                k,
                            );
                        }
                    }
                }
            }
        }
        broadcast use vstd::seq_lib::group_to_multiset_ensures;

        assert(s =~= seq![x] + tail);
        vstd::seq_lib::lemma_multiset_commutative(seq![x], tail);
        assert(s =~= tail.insert(0, x));
    }
}

} // verus!
