//! Views of lists and options, element by element.
use vstd::prelude::*;

verus! {

/// The view of a container whose elements are taken by their views too.
pub trait Views {
    type W;

    spec fn views(&self) -> Self::W;
}

impl<T: View> Views for Vec<T> {
    type W = Seq<T::V>;

    open spec fn views(&self) -> Seq<T::V> {
        Seq::new(self@.len(), |i: int| self@[i]@)
    }
}

impl<T: View> Views for Option<T> {
    type W = Option<T::V>;

    open spec fn views(&self) -> Option<T::V> {
        match self {
            Some(x) => Some(x@),
            None => None,
        }
    }
}

impl<T: View, E: View> Views for Result<T, E> {
    type W = Result<T::V, E::V>;

    open spec fn views(&self) -> Result<T::V, E::V> {
        match self {
            Ok(x) => Ok(x@),
            Err(e) => Err(e@),
        }
    }
}

/// The elements of an optional list by their views.
pub open spec fn opt_list<T: View>(o: Option<Vec<T>>) -> Option<Seq<T::V>> {
    match o {
        Some(v) => Some(v.views()),
        None => None,
    }
}

/// A list, or nothing where it is empty.
pub open spec fn some_list<T>(v: Seq<T>) -> Option<Seq<T>> {
    if v.len() == 0 {
        None
    } else {
        Some(v)
    }
}

/// A list, or nothing where it is empty.
pub fn non_empty<T: View>(v: Vec<T>) -> (r: Option<Vec<T>>)
    ensures
        opt_list(r) == some_list(v.views()),
{
    if v.len() == 0 {
        None
    } else {
        Some(v)
    }
}

/// An empty list.
pub fn none<T: View>() -> (r: Vec<T>)
    ensures
        r.views() == Seq::<T::V>::empty(),
{
    let r: Vec<T> = Vec::new();
    assert(r.views() =~= Seq::<T::V>::empty());
    r
}

/// Appends an element.
pub fn push<T: View>(v: &mut Vec<T>, x: T)
    ensures
        final(v).views() == old(v).views().push(x@),
        final(v)@ == old(v)@.push(x),
{
    v.push(x);
    assert(v.views() =~= old(v).views().push(x@));
}

/// Moves the elements of `more` to the end of `v`.
pub fn extend<T: View>(v: &mut Vec<T>, more: Vec<T>)
    ensures
        final(v).views() == old(v).views() + more.views(),
{
    let mut rest = more;
    v.append(&mut rest);
    assert(v.views() =~= old(v).views() + more.views());
}

} // verus!
