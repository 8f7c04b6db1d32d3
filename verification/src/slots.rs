//! A small map from indices to values, kept in the order in which the indices came.
use vstd::prelude::*;

use crate::views::Views;

verus! {

/// The position of the first entry at `k` among the first `n`.
pub open spec fn slot_pos<T>(s: Seq<(usize, T)>, k: usize, n: nat) -> Option<int>
    decreases n,
{
    if n == 0 || n > s.len() {
        None
    } else {
        match slot_pos(s, k, (n - 1) as nat) {
            Some(i) => Some(i),
            None => if s[n - 1].0 == k {
                Some(n - 1)
            } else {
                None
            },
        }
    }
}

/// The value at `k`.
pub open spec fn slot_get<T>(s: Seq<(usize, T)>, k: usize) -> Option<T> {
    match slot_pos(s, k, s.len()) {
        Some(i) => Some(s[i].1),
        None => None,
    }
}

/// The entries with `k` set to `v`.
pub open spec fn slot_put<T>(s: Seq<(usize, T)>, k: usize, v: T) -> Seq<(usize, T)> {
    match slot_pos(s, k, s.len()) {
        Some(i) => s.update(i, (k, v)),
        None => s.push((k, v)),
    }
}

/// Values by index.
#[derive(Debug)]
pub struct Slots<T> {
    entries: Vec<(usize, T)>,
}

impl<T: View> View for Slots<T> {
    type V = Seq<(usize, T::V)>;

    closed spec fn view(&self) -> Seq<(usize, T::V)> {
        Seq::new(self.entries@.len(), |i: int| (self.entries@[i].0, self.entries@[i].1@))
    }
}

proof fn lemma_slot_pos<T>(s: Seq<(usize, T)>, k: usize, n: nat)
    requires
        n <= s.len(),
    ensures
        match slot_pos(s, k, n) {
            Some(i) => 0 <= i < n && s[i].0 == k && forall|j: int| 0 <= j < i ==> s[j].0 != k,
            None => forall|j: int| 0 <= j < n ==> s[j].0 != k,
        },
    decreases n,
{
    if n > 0 {
        lemma_slot_pos(s, k, (n - 1) as nat);
    }
}

/// A value that was put is read back; every other one reads as before.
pub proof fn lemma_slot_put_get<T>(s: Seq<(usize, T)>, k: usize, v: T, other: usize)
    ensures
        slot_get(slot_put(s, k, v), k) == Some(v),
        other != k ==> slot_get(slot_put(s, k, v), other) == slot_get(s, other),
{
    let t = slot_put(s, k, v);
    lemma_slot_pos(s, k, s.len());
    lemma_slot_pos(s, other, s.len());
    lemma_slot_pos(t, k, t.len());
    lemma_slot_pos(t, other, t.len());
    match slot_pos(s, k, s.len()) {
        Some(i) => {
            assert(t[i].0 == k);
            let j = slot_pos(t, k, t.len())->0;
            if j < i {
                assert(s[j].0 == k);
            }
        },
        None => {
            assert(t[s.len() as int].0 == k);
            let j = slot_pos(t, k, t.len())->0;
            if j < s.len() {
                assert(s[j].0 == k);
            }
        },
    }
    if other != k {
        match slot_pos(s, other, s.len()) {
            Some(a) => {
                assert(t[a].0 == other);
                let b = slot_pos(t, other, t.len())->0;
                if b < a {
                    assert(s[b].0 == other);
                }
            },
            None => {
                match slot_pos(t, other, t.len()) {
                    Some(b) => {
                        if b < s.len() {
                            assert(s[b].0 == other);
                        }
                    },
                    None => {},
                }
            },
        }
    }
}

impl<T: View> Slots<T> {
    /// No values.
    pub fn new() -> (r: Self)
        ensures
            r@ == Seq::<(usize, T::V)>::empty(),
    {
        let r = Slots { entries: Vec::new() };
        assert(r@ =~= Seq::<(usize, T::V)>::empty());
        r
    }

    fn position(&self, k: usize) -> (r: Option<usize>)
        ensures
            match r {
                Some(i) => slot_pos(self@, k, self@.len()) == Some(i as int) && i < self@.len(),
                None => slot_pos(self@, k, self@.len()) is None,
            },
    {
        let n: usize = self.entries.len();
        let mut i: usize = 0;
        while i < n
            invariant
                n == self.entries@.len(),
                i <= n,
                slot_pos(self@, k, i as nat) is None,
            decreases n - i,
        {
            if self.entries[i].0 == k {
                proof {
                    assert(self@[i as int].0 == k);
                    lemma_slot_pos(self@, k, i as nat);
                    lemma_slot_pos(self@, k, n as nat);
                }
                return Some(i);
            }
            i = i + 1;
        }
        None
    }

    /// The value at an index.
    pub fn get(&self, k: usize) -> (r: Option<&T>)
        ensures
            r.views() == slot_get(self@, k),
    {
        match self.position(k) {
            Some(i) => Some(&self.entries[i].1),
            None => None,
        }
    }

    /// Sets the value at an index.
    pub fn insert(&mut self, k: usize, v: T)
        ensures
            final(self)@ == slot_put(old(self)@, k, v@),
    {
        match self.position(k) {
            Some(i) => {
                self.entries.set(i, (k, v));
                assert(self@ =~= slot_put(old(self)@, k, v@));
            },
            None => {
                self.entries.push((k, v));
                assert(self@ =~= slot_put(old(self)@, k, v@));
            },
        }
    }

    /// The number of values.
    pub fn len(&self) -> (r: usize)
        ensures
            r == self@.len(),
    {
        self.entries.len()
    }

    /// The value at a position.
    pub fn value_at(&self, i: usize) -> (r: &T)
        requires
            i < self@.len(),
        ensures
            r@ == self@[i as int].1,
    {
        &self.entries[i].1
    }
}

} // verus!
