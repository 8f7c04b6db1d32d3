//! Fresh identifiers.
use vstd::prelude::*;

use crate::views::Views;

verus! {

/// A lowercase hexadecimal digit.
pub open spec fn is_hex(c: char) -> bool {
    ('0' <= c <= '9') || ('a' <= c <= 'f')
}

/// The text of a version 4 UUID without hyphens.
pub open spec fn is_uuid_text(s: Seq<char>) -> bool {
    &&& s.len() == 32
    &&& forall|i: int| 0 <= i < 32 ==> is_hex(s[i])
    &&& s[12] == '4'
}

/// `Uuid::new_v4` written by `simple`: 32 lowercase hexadecimal digits with the version digit 4.
/// Which digits they are is left to chance.
#[verifier::external_body]
pub(crate) fn uuid_text() -> (r: String)
    ensures
        is_uuid_text(r@),
{
    uuid::Uuid::new_v4().simple().to_string()
}

/// The text of a version 4 UUID with its four hyphens.
pub open spec fn is_hyphenated(s: Seq<char>) -> bool {
    &&& s.len() == 36
    &&& forall|i: int|
        0 <= i < 36 ==> if i == 8 || i == 13 || i == 18 || i == 23 {
            s[i] == '-'
        } else {
            is_hex(s[i])
        }
    &&& s[14] == '4'
}

/// `Uuid::new_v4` written by `to_string`: the hyphenated form in lowercase hexadecimal digits
/// with the version digit 4. Which digits they are is left to chance.
#[verifier::external_body]
pub(crate) fn uuid_hyphenated() -> (r: String)
    ensures
        is_hyphenated(r@),
{
    uuid::Uuid::new_v4().to_string()
}

/// All texts are those of UUIDs.
pub open spec fn all_uuid_texts(ids: Seq<Seq<char>>) -> bool {
    forall|i: int| 0 <= i < ids.len() ==> is_uuid_text(#[trigger] ids[i])
}

/// A list of fresh UUID texts.
pub(crate) fn uuid_texts(n: usize) -> (r: Vec<String>)
    ensures
        r.views().len() == n,
        all_uuid_texts(r.views()),
{
    let mut out: Vec<String> = Vec::new();
    for i in 0..n
        invariant
            out@.len() == i,
            forall|j: int| 0 <= j < i ==> is_uuid_text((#[trigger] out@[j])@),
    {
        out.push(uuid_text());
    }
    out
}

} // verus!
