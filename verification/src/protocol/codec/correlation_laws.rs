//! What holds of which call an answer belongs to.
use vstd::prelude::*;

use crate::protocol::codec::correlation::{CallsV, WaitingV};

verus! {

proof fn lemma_by_id(v: Seq<WaitingV>, id: Seq<char>, i: int)
    requires
        0 <= i,
    ensures
        match crate::protocol::codec::correlation::by_id(v, id, i) {
            Some(j) => i <= j < v.len() && v[j].id == id && forall|k: int|
                i <= k < j ==> (#[trigger] v[k]).id != id,
            None => forall|k: int| i <= k < v.len() ==> (#[trigger] v[k]).id != id,
        },
    decreases v.len() - i,
{
    if i < v.len() {
        lemma_by_id(v, id, i + 1);
    }
}

proof fn lemma_by_name(v: Seq<WaitingV>, name: Seq<char>, i: int)
    requires
        0 <= i,
    ensures
        match crate::protocol::codec::correlation::by_name(v, name, i) {
            Some(j) => i <= j < v.len() && crate::text::lower_of(v[j].name)
                == crate::text::lower_of(name) && forall|k: int|
                i <= k < j ==> crate::text::lower_of((#[trigger] v[k]).name)
                    != crate::text::lower_of(name),
            None => forall|k: int|
                i <= k < v.len() ==> crate::text::lower_of((#[trigger] v[k]).name)
                    != crate::text::lower_of(name),
        },
    decreases v.len() - i,
{
    if i < v.len() {
        lemma_by_name(v, name, i + 1);
    }
}

/// A call waits under the identifier that it has, behind all that wait already; only one without an
/// identifier is given one.
pub proof fn lemma_call_waits(c: CallsV, id: Seq<char>, name: Seq<char>)
    ensures
        ({
            let (given, after) = c.made(id, name);
            &&& crate::text::trim_of(id).len() > 0 ==> given == id && after.seq == c.seq
            &&& after.waiting == c.waiting.push(WaitingV { id: given, name })
        }),
{
}

/// An answer goes to the call that it names, and that call waits no more while all others do.
pub proof fn lemma_answer_by_id(c: CallsV, id: Seq<char>, hint: Option<Seq<char>>, i: int)
    requires
        0 <= i < c.waiting.len(),
        c.waiting[i].id == id,
        forall|k: int| 0 <= k < i ==> (#[trigger] c.waiting[k]).id != id,
    ensures
        ({
            let (given, waited, after) = c.answered(Some(id), hint);
            &&& given == id
            &&& waited
            &&& after.waiting == c.waiting.remove(i)
        }),
{
    lemma_by_id(c.waiting, id, 0);
    let j = crate::protocol::codec::correlation::by_id(c.waiting, id, 0);
    assert(j == Some(i)) by {
        if j is None {
            assert(c.waiting[i].id != id);
        } else if j->0 < i {
            assert(c.waiting[j->0].id != id);
        } else if j->0 > i {
            assert(c.waiting[i].id != id);
        }
    }
}

/// An answer that names no call goes to the first one of the tool that it names, in whatever case,
/// and without such a name to the one that has waited longest.
pub proof fn lemma_answer_by_name(c: CallsV, hint: Seq<char>)
    requires
        c.waiting.len() > 0,
        forall|k: int| 0 <= k < c.waiting.len() ==> (#[trigger] c.waiting[k]).id != hint,
    ensures
        ({
            let (given, waited, after) = c.answered(None, Some(hint));
            &&& waited
            &&& exists|i: int|
                0 <= i < c.waiting.len() && given == (#[trigger] c.waiting[i]).id && after.waiting
                    == c.waiting.remove(i) && ((crate::text::lower_of(c.waiting[i].name)
                    == crate::text::lower_of(hint) && forall|k: int|
                    0 <= k < i ==> crate::text::lower_of((#[trigger] c.waiting[k]).name)
                        != crate::text::lower_of(hint)) || (i == 0 && forall|k: int|
                    0 <= k < c.waiting.len() ==> crate::text::lower_of(
                        (#[trigger] c.waiting[k]).name,
                    ) != crate::text::lower_of(hint)))
        }),
        c.answered(None, None).0 == c.waiting[0].id,
        c.answered(None, None).2.waiting == c.waiting.remove(0),
{
    lemma_by_id(c.waiting, hint, 0);
    lemma_by_name(c.waiting, hint, 0);
    let i = match crate::protocol::codec::correlation::by_name(c.waiting, hint, 0) {
        Some(j) => j,
        None => 0,
    };
    assert(c.answered(None, Some(hint)).0 == c.waiting[i].id);
}

/// An answer to which no call waits keeps the identifier that it names.
pub proof fn lemma_answer_to_none(c: CallsV, id: Seq<char>)
    requires
        c.waiting.len() == 0,
    ensures
        c.answered(Some(id), None).0 == id,
        !c.answered(Some(id), None).1,
        !c.answered(None, None).1,
{
    lemma_by_id(c.waiting, id, 0);
}

} // verus!
