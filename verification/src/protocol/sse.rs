//! Framing of server-sent events: blocks that end with an empty line, and their fields.
use vstd::prelude::*;

use crate::views::Views;

verus! {

/// What ends a block: two line feeds.
pub open spec fn block_end() -> Seq<char> {
    seq!['\n', '\n']
}

/// The complete blocks of a buffer.
pub open spec fn blocks_of(buf: Seq<char>) -> Seq<Seq<char>>
    decreases buf.len(),
{
    match crate::text::find_of(buf, block_end()) {
        Some(i) => if 0 <= i && i + 2 <= buf.len() {
            seq![buf.subrange(0, i)] + blocks_of(buf.subrange(i + 2, buf.len() as int))
        } else {
            Seq::empty()
        },
        None => Seq::empty(),
    }
}

/// What is left of a buffer behind its complete blocks.
pub open spec fn rest_of(buf: Seq<char>) -> Seq<char>
    decreases buf.len(),
{
    match crate::text::find_of(buf, block_end()) {
        Some(i) => if 0 <= i && i + 2 <= buf.len() {
            rest_of(buf.subrange(i + 2, buf.len() as int))
        } else {
            buf
        },
        None => buf,
    }
}

/// Appends `raw` to a buffer and takes the complete blocks out of it.
pub fn take_blocks(buffer: &mut String, raw: &str) -> (r: Vec<String>)
    ensures
        r.views() == blocks_of(old(buffer)@ + raw@),
        final(buffer)@ == rest_of(old(buffer)@ + raw@),
{
    let ghost whole = buffer@ + raw@;
    buffer.append(raw);
    let mut out: Vec<String> = crate::views::none();
    assert(out.views() + blocks_of(whole) =~= blocks_of(whole));
    proof {
        reveal_strlit("\n\n");
        assert("\n\n"@ =~= block_end());
    }
    loop
        invariant
            "\n\n"@ == block_end(),
            whole == old(buffer)@ + raw@,
            out.views() + blocks_of(buffer@) == blocks_of(whole),
            rest_of(buffer@) == rest_of(whole),
        decreases buffer@.len(),
    {
        match crate::text::find(buffer.as_str(), "\n\n") {
            Some(i) => {
                let n: usize = buffer.as_str().unicode_len();
                let block: String = buffer.as_str().substring_char(0, i).to_string();
                let rest: String = buffer.as_str().substring_char(i + 2, n).to_string();
                let ghost before = out.views();
                crate::views::push(&mut out, block);
                assert(before + (seq![block@] + blocks_of(rest@)) =~= out.views() + blocks_of(
                    rest@,
                ));
                *buffer = rest;
            },
            None => {
                assert(out.views() + blocks_of(buffer@) =~= out.views());
                return out;
            },
        }
    }
}

proof fn lemma_find_prefix(a: Seq<char>, b: Seq<char>, p: Seq<char>, i: int)
    requires
        0 <= i,
        crate::text::find_from(a, p, i) is Some,
    ensures
        crate::text::find_from(a + b, p, i) == crate::text::find_from(a, p, i),
    decreases a.len() + 1 - i,
{
    assert(a.subrange(i, i + p.len()) =~= (a + b).subrange(i, i + p.len()));
    if !crate::text::occurs_at(a, p, i) {
        lemma_find_prefix(a, b, p, i + 1);
    }
}

/// How a stream is cut into chunks does not matter: the blocks of the whole are those of the
/// first part, then those of its rest together with the second part, and the same is left.
pub proof fn lemma_chunking(a: Seq<char>, b: Seq<char>)
    ensures
        blocks_of(a + b) == blocks_of(a) + blocks_of(rest_of(a) + b),
        rest_of(a + b) == rest_of(rest_of(a) + b),
    decreases a.len(),
{
    crate::text::lemma_find_least(a, block_end());
    match crate::text::find_of(a, block_end()) {
        Some(i) => {
            lemma_find_prefix(a, b, block_end(), 0);
            let tail = a.subrange(i + 2, a.len() as int);
            lemma_chunking(tail, b);
            assert((a + b).subrange(i + 2, (a + b).len() as int) =~= tail + b);
            assert((a + b).subrange(0, i) =~= a.subrange(0, i));
            assert(blocks_of(a + b) =~= blocks_of(a) + blocks_of(rest_of(a) + b));
        },
        None => {
            assert(blocks_of(a) + blocks_of(a + b) =~= blocks_of(a + b));
        },
    }
}

/// What is left of a buffer holds no complete block.
pub proof fn lemma_rest_has_no_block(buf: Seq<char>)
    ensures
        blocks_of(rest_of(buf)) == Seq::<Seq<char>>::empty(),
        rest_of(rest_of(buf)) == rest_of(buf),
    decreases buf.len(),
{
    match crate::text::find_of(buf, block_end()) {
        Some(i) => {
            if 0 <= i && i + 2 <= buf.len() {
                lemma_rest_has_no_block(buf.subrange(i + 2, buf.len() as int));
            } else {
                crate::text::lemma_find_least(buf, block_end());
            }
        },
        None => {},
    }
}

/// The trimmed text behind `p` on the last of the first `n` lines that begins with it.
pub open spec fn last_field(lines: Seq<Seq<char>>, p: Seq<char>, n: nat) -> Option<Seq<char>>
    decreases n,
{
    if n == 0 {
        None
    } else {
        match crate::text::after_prefix(lines[n - 1], p) {
            Some(rest) => Some(crate::text::trim_of(rest)),
            None => last_field(lines, p, (n - 1) as nat),
        }
    }
}

/// The value of a field of a block: that of the last line that carries it.
pub open spec fn field_of(block: Seq<char>, p: Seq<char>) -> Option<Seq<char>> {
    last_field(crate::text::lines_of(block), p, crate::text::lines_of(block).len())
}

/// Reads a field of a block.
pub fn field(block: &str, p: &str) -> (r: Option<String>)
    ensures
        r.views() == field_of(block@, p@),
{
    let lines = crate::text::lines(block);
    let mut found: Option<String> = None;
    for i in 0..lines.len()
        invariant
            found.views() == last_field(lines.views(), p@, i as nat),
    {
        assert(lines.views()[i as int] == lines@[i as int]@);
        match crate::text::strip_prefix(lines[i].as_str(), p) {
            Some(rest) => {
                found = Some(crate::text::trim(rest).to_string());
            },
            None => {},
        }
    }
    found
}

} // verus!
