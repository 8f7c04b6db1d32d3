//! Names that are kept in snake case, and how they are written: with hyphens in files and on the
//! command line, with capitals and blanks in messages.
use vstd::prelude::*;

verus! {

/// A name with hyphens.
pub open spec fn kebab(s: Seq<char>) -> Seq<char> {
    s.map_values(
        |c: char|
            if c == '_' {
                '-'
            } else {
                c
            },
    )
}

/// The first word of a name.
pub open spec fn head(s: Seq<char>) -> Seq<char> {
    match crate::text::cut(s, "_"@) {
        Some((a, _)) => a,
        None => s,
    }
}

/// A lowercase letter as a capital.
pub open spec fn capital(c: char) -> char {
    if 'a' <= c <= 'z' {
        ((c as u8) - 32) as u8 as char
    } else {
        c
    }
}

/// A name with blanks, each of its words with a capital.
pub open spec fn title(s: Seq<char>) -> Seq<char> {
    Seq::new(
        s.len(),
        |i: int|
            if s[i] == '_' {
                ' '
            } else if i == 0 || s[i - 1] == '_' {
                capital(s[i])
            } else {
                s[i]
            },
    )
}

/// Writes a name with hyphens.
pub fn kebab_text(s: &str) -> (r: String)
    ensures
        r@ == kebab(s@),
{
    let v = crate::text::chars_of(s);
    let mut out = String::new();
    assert(out@ =~= Seq::<char>::empty());
    for i in 0..v.len()
        invariant
            v@ == s@,
            out@ =~= kebab(s@.take(i as int)),
    {
        out.push(
            if v[i] == '_' {
                '-'
            } else {
                v[i]
            },
        );
    }
    assert(s@.take(s@.len() as int) =~= s@);
    out
}

/// The first word of a name.
pub fn head_text<'a>(s: &'a str) -> (r: &'a str)
    ensures
        r@ == head(s@),
{
    match crate::text::split_once(s, "_") {
        Some((a, _)) => a,
        None => s,
    }
}

/// Writes a name for a message.
pub fn title_text(s: &str) -> (r: String)
    ensures
        r@ == title(s@),
{
    let v = crate::text::chars_of(s);
    let mut out = String::new();
    assert(out@ =~= Seq::<char>::empty());
    for i in 0..v.len()
        invariant
            v@ == s@,
            out@ =~= title(s@).take(i as int),
    {
        let c = v[i];
        out.push(
            if c == '_' {
                ' '
            } else if (i == 0 || v[i - 1] == '_') && 'a' <= c && c <= 'z' {
                ((c as u8) - 32) as char
            } else {
                c
            },
        );
    }
    assert(title(s@).take(s@.len() as int) =~= title(s@));
    out
}

/// The first word of a name is what stands before its first underscore.
pub proof fn lemma_head(a: Seq<char>, b: Seq<char>)
    requires
        !a.contains('_'),
    ensures
        head(a + seq!['_'] + b) == a,
{
    reveal_strlit("_");
    assert("_"@ =~= seq!['_']);
    crate::protocol::registry::lemma_cut_head(a, '_', b);
}

// ---------------------------------------------------------------- the tool of the Messages protocol

/// The tool that speaks the Messages protocol.
pub open spec fn claude_code() -> Seq<char> {
    "claude_code"@
}

/// Its command, which is also a name of its protocol.
pub open spec fn claude() -> Seq<char> {
    head(claude_code())
}

pub fn claude_code_ident() -> (r: &'static str)
    ensures
        r@ == claude_code(),
{
    "claude_code"
}

pub fn claude_text() -> (r: &'static str)
    ensures
        r@ == claude(),
{
    head_text("claude_code")
}

/// What the command looks like.
pub proof fn lemma_claude()
    ensures
        claude() == claude_code().take(6),
        claude().len() == 6,
        claude()[0] == 'c',
{
    reveal_strlit("claude_code");
    let a = claude_code().take(6);
    let b = claude_code().skip(7);
    assert(claude_code() =~= a + seq!['_'] + b);
    lemma_head(a, b);
}

} // verus!
