//! Which call a tool's answer belongs to.
//!
//! Calls wait in the order in which they were made. An answer goes to the call that it names, to
//! the one that its result names, to one of the function that its result names, or to the one that
//! has waited longest.
use vstd::prelude::*;

use crate::views::Views;

verus! {

/// A call that waits for its answer.
pub struct WaitingV {
    pub id: Seq<char>,
    pub name: Seq<char>,
}

struct Waiting {
    id: String,
    name: String,
}

impl View for Waiting {
    type V = WaitingV;

    closed spec fn view(&self) -> WaitingV {
        WaitingV { id: self.id@, name: self.name@ }
    }
}

/// The first of the calls from the `i`-th on with a name.
pub open spec fn by_id(v: Seq<WaitingV>, id: Seq<char>, i: int) -> Option<int>
    decreases v.len() - i,
{
    if i < 0 || i >= v.len() {
        None
    } else if v[i].id == id {
        Some(i)
    } else {
        by_id(v, id, i + 1)
    }
}

/// The first of the calls from the `i`-th on of a function, by its name in any case.
pub open spec fn by_name(v: Seq<WaitingV>, name: Seq<char>, i: int) -> Option<int>
    decreases v.len() - i,
{
    if i < 0 || i >= v.len() {
        None
    } else if crate::text::lower_of(v[i].name) == crate::text::lower_of(name) {
        Some(i)
    } else {
        by_name(v, name, i + 1)
    }
}

/// The calls that wait, and how many names have been made up.
pub struct CallsV {
    pub waiting: Seq<WaitingV>,
    pub seq: usize,
}

impl CallsV {
    pub open spec fn start() -> CallsV {
        CallsV { waiting: Seq::empty(), seq: 0 }
    }

    /// A call is made; it gets a name where it has none.
    pub open spec fn made(self, id: Seq<char>, name: Seq<char>) -> (Seq<char>, CallsV) {
        let seq = if crate::text::trim_of(id).len() == 0 {
            crate::protocol::succ(self.seq)
        } else {
            self.seq
        };
        let id = if crate::text::trim_of(id).len() == 0 {
            "call_nyro_"@ + crate::text::decimal(seq as nat)
        } else {
            id
        };
        (id, CallsV { waiting: self.waiting.push(WaitingV { id, name }), seq })
    }

    /// The call that an answer belongs to, by the name that it gives and the one that its result
    /// gives.
    pub open spec fn sought(self, given: Option<Seq<char>>, hint: Option<Seq<char>>) -> Option<int> {
        let exact = match given {
            Some(id) => by_id(self.waiting, id, 0),
            None => None,
        };
        let hinted = match hint {
            Some(h) => match by_id(self.waiting, h, 0) {
                Some(i) => Some(i),
                None => by_name(self.waiting, h, 0),
            },
            None => None,
        };
        match (exact, hinted) {
            (Some(i), _) => Some(i),
            (None, Some(i)) => Some(i),
            (None, None) => if self.waiting.len() > 0 {
                Some(0int)
            } else {
                None
            },
        }
    }

    /// The call that an answer names from now on, and whether it was one that waited.
    pub open spec fn answered(self, given: Option<Seq<char>>, hint: Option<Seq<char>>) -> (
        Seq<char>,
        bool,
        CallsV,
    ) {
        match self.sought(given, hint) {
            Some(i) => (
                self.waiting[i].id,
                true,
                CallsV { waiting: self.waiting.remove(i), ..self },
            ),
            None => match given {
                Some(id) => (id, false, self),
                None => {
                    let seq = crate::protocol::succ(self.seq);
                    (
                        "call_nyro_synth_"@ + crate::text::decimal(seq as nat),
                        false,
                        CallsV { seq, ..self },
                    )
                },
            },
        }
    }
}

/// A call that is found is one that waits.
pub proof fn lemma_sought(v: Seq<WaitingV>, id: Seq<char>, i: int)
    requires
        0 <= i,
    ensures
        by_id(v, id, i) matches Some(k) ==> i <= k < v.len() && v[k].id == id,
        by_name(v, id, i) matches Some(k) ==> i <= k < v.len(),
    decreases v.len() - i,
{
    if i < v.len() {
        lemma_sought(v, id, i + 1);
    }
}

/// The calls that wait.
pub struct Calls {
    waiting: Vec<Waiting>,
    seq: usize,
}

impl View for Calls {
    type V = CallsV;

    closed spec fn view(&self) -> CallsV {
        CallsV { waiting: self.waiting.views(), seq: self.seq }
    }
}

impl Calls {
    /// No call waits.
    pub fn new() -> (r: Self)
        ensures
            r@ == CallsV::start(),
    {
        Calls { waiting: crate::views::none(), seq: 0 }
    }

    /// Takes note of a call, and gives its name.
    pub fn made(&mut self, id: &str, name: &str) -> (r: String)
        ensures
            (r@, final(self)@) == old(self)@.made(id@, name@),
    {
        let id = if crate::text::is_blank(id) {
            self.seq = crate::protocol::next_index(self.seq);
            crate::text::cat("call_nyro_", crate::text::decimal_text(self.seq as u64).as_str())
        } else {
            id.to_string()
        };
        crate::views::push(&mut self.waiting, Waiting { id: id.clone(), name: name.to_string() });
        id
    }

    fn by_id(&self, id: &str) -> (r: Option<usize>)
        ensures
            match r {
                Some(i) => by_id(self@.waiting, id@, 0) == Some(i as int),
                None => by_id(self@.waiting, id@, 0) is None,
            },
    {
        let n: usize = self.waiting.len();
        let mut i: usize = 0;
        while i < n
            invariant
                n == self.waiting@.len(),
                i <= n,
                by_id(self.waiting.views(), id@, 0) == by_id(self.waiting.views(), id@, i as int),
            decreases n - i,
        {
            assert(self.waiting.views()[i as int] == self.waiting@[i as int]@);
            if crate::text::same(self.waiting[i].id.as_str(), id) {
                return Some(i);
            }
            i = i + 1;
        }
        None
    }

    fn by_name(&self, name: &str) -> (r: Option<usize>)
        ensures
            match r {
                Some(i) => by_name(self@.waiting, name@, 0) == Some(i as int),
                None => by_name(self@.waiting, name@, 0) is None,
            },
    {
        let n: usize = self.waiting.len();
        let mut i: usize = 0;
        while i < n
            invariant
                n == self.waiting@.len(),
                i <= n,
                by_name(self.waiting.views(), name@, 0) == by_name(
                    self.waiting.views(),
                    name@,
                    i as int,
                ),
            decreases n - i,
        {
            assert(self.waiting.views()[i as int] == self.waiting@[i as int]@);
            if crate::text::eq_ignore_ascii_case(self.waiting[i].name.as_str(), name) {
                return Some(i);
            }
            i = i + 1;
        }
        None
    }

    fn sought(&self, given: &Option<String>, hint: &Option<String>) -> (r: Option<usize>)
        ensures
            match r {
                Some(i) => self@.sought(given.views(), hint.views()) == Some(i as int) && i
                    < self.waiting@.len(),
                None => self@.sought(given.views(), hint.views()) is None,
            },
    {
        let exact = match given {
            Some(id) => {
                proof {
                    lemma_sought(self@.waiting, id@, 0);
                }
                self.by_id(id.as_str())
            },
            None => None,
        };
        if exact.is_some() {
            return exact;
        }
        let hinted = match hint {
            Some(h) => {
                proof {
                    lemma_sought(self@.waiting, h@, 0);
                }
                match self.by_id(h.as_str()) {
                    Some(i) => Some(i),
                    None => self.by_name(h.as_str()),
                }
            },
            None => None,
        };
        if hinted.is_some() {
            return hinted;
        }
        if self.waiting.len() > 0 {
            Some(0)
        } else {
            None
        }
    }

    /// Finds the call that an answer belongs to, and whether it waited.
    pub fn answered(&mut self, given: &Option<String>, hint: &Option<String>) -> (r: (String, bool))
        ensures
            (r.0@, r.1, final(self)@) == old(self)@.answered(given.views(), hint.views()),
    {
        match self.sought(given, hint) {
            Some(i) => {
                let ghost before = self.waiting.views();
                assert(before[i as int] == self.waiting@[i as int]@);
                let w = self.waiting.remove(i);
                assert(self.waiting.views() =~= before.remove(i as int));
                (w.id, true)
            },
            None => match given {
                Some(id) => (id.clone(), false),
                None => {
                    self.seq = crate::protocol::next_index(self.seq);
                    let number = crate::text::decimal_text(self.seq as u64);
                    (crate::text::cat("call_nyro_synth_", number.as_str()), false)
                },
            },
        }
    }
}

} // verus!
