//! What holds of texts: of trimming, of numbers, of lists and of lines.
use vstd::prelude::*;

verus! {

proof fn lemma_trim_start_kept(s: Seq<char>)
    ensures
        crate::text::trim_start(s).len() <= s.len(),
        crate::text::trim_start(s) == s.skip(s.len() - crate::text::trim_start(s).len()),
        forall|i: int|
            0 <= i < s.len() - crate::text::trim_start(s).len() ==> crate::text::is_white(
                #[trigger] s[i],
            ),
        crate::text::trim_start(s).len() > 0 ==> !crate::text::is_white(
            crate::text::trim_start(s)[0],
        ),
    decreases s.len(),
{
    if s.len() > 0 && crate::text::is_white(s[0]) {
        let r = s.drop_first();
        lemma_trim_start_kept(r);
        let t = crate::text::trim_start(r);
        assert(s.skip(s.len() - t.len()) =~= r.skip(r.len() - t.len()));
        assert forall|i: int| 0 <= i < s.len() - t.len() implies crate::text::is_white(
            #[trigger] s[i],
        ) by {
            if i > 0 {
                assert(r[i - 1] == s[i]);
            }
        }
    } else {
        assert(s.skip(0) =~= s);
    }
}

proof fn lemma_trim_end_kept(s: Seq<char>)
    ensures
        crate::text::trim_end(s).len() <= s.len(),
        crate::text::trim_end(s) == s.take(crate::text::trim_end(s).len() as int),
        forall|i: int|
            crate::text::trim_end(s).len() <= i < s.len() ==> crate::text::is_white(
                #[trigger] s[i],
            ),
        crate::text::trim_end(s).len() > 0 ==> !crate::text::is_white(
            crate::text::trim_end(s).last(),
        ),
    decreases s.len(),
{
    if s.len() > 0 && crate::text::is_white(s.last()) {
        let r = s.drop_last();
        lemma_trim_end_kept(r);
        let t = crate::text::trim_end(r);
        assert(s.take(t.len() as int) =~= r.take(t.len() as int));
        assert forall|i: int| t.len() <= i < s.len() implies crate::text::is_white(
            #[trigger] s[i],
        ) by {
            if i < r.len() {
                assert(r[i] == s[i]);
            }
        }
    } else {
        assert(s.take(s.len() as int) =~= s);
    }
}

/// A trimmed text is the text between white space: only white space is left off, at both ends, and
/// neither end is white space.
pub proof fn lemma_trimmed(s: Seq<char>)
    ensures
        ({
            let t = crate::text::trim_of(s);
            &&& t.len() > 0 ==> !crate::text::is_white(t[0]) && !crate::text::is_white(t.last())
            &&& exists|a: int, b: int|
                0 <= a <= b <= s.len() && t == #[trigger] s.subrange(a, b) && (forall|i: int|
                    0 <= i < a ==> crate::text::is_white(#[trigger] s[i])) && (forall|i: int|
                    b <= i < s.len() ==> crate::text::is_white(#[trigger] s[i]))
        }),
{
    lemma_trim_start_kept(s);
    let u = crate::text::trim_start(s);
    lemma_trim_end_kept(u);
    let t = crate::text::trim_of(s);
    let a = s.len() - u.len();
    let b = a + t.len();
    assert(t =~= s.subrange(a, b));
    assert forall|i: int| b <= i < s.len() implies crate::text::is_white(#[trigger] s[i]) by {
        assert(u[i - a] == s[i]);
    }
    if t.len() > 0 {
        assert(t[0] == u[0]);
    }
}

/// Blanks, tabs and ends of lines are white space; letters, digits and visible marks are not.
pub proof fn lemma_white(c: char)
    ensures
        c == ' ' || c == '\t' || c == '\n' || c == '\r' ==> crate::text::is_white(c),
        '!' <= c <= '~' ==> !crate::text::is_white(c),
{
}

/// A number that is written is read again.
pub proof fn lemma_number_kept(n: u64)
    ensures
        crate::text::parsed(crate::text::decimal(n as nat)) == Some(n),
{
    lemma_decimal(n as nat);
    let d = crate::text::decimal(n as nat);
    assert(d[0] != '+') by {
        assert('0' <= d[0] && d[0] <= '9');
    }
}

proof fn lemma_decimal(n: nat)
    ensures
        crate::text::decimal(n).len() > 0,
        crate::text::all_digits(crate::text::decimal(n)),
        crate::text::number_of(crate::text::decimal(n)) == n,
    decreases n,
{
    reveal_with_fuel(crate::text::number_of, 2);
    let k = n % 10;
    let c = crate::text::digit(k);
    assert(c as u32 == 48 + k);
    let d = crate::text::decimal(n);
    if n >= 10 {
        lemma_decimal(n / 10);
        let e = crate::text::decimal(n / 10);
        assert(d.drop_last() =~= e);
        assert(d.last() == c);
        assert forall|i: int| 0 <= i < d.len() implies '0' <= #[trigger] d[i] && d[i] <= '9' by {
            if i < e.len() {
                assert(d[i] == e[i]);
            }
        }
    } else {
        assert(d =~= seq![c]);
        assert(d.drop_last() =~= Seq::empty());
    }
}

/// The digits of a number are worth ten times those before them.
pub proof fn lemma_number_grows_by_tens(s: Seq<char>, c: char)
    requires
        '0' <= c <= '9',
    ensures
        crate::text::number_of(s.push(c)) == crate::text::number_of(s) * 10 + (c as u32 - 48),
        crate::text::number_of(Seq::empty()) == 0,
{
    assert(s.push(c).drop_last() =~= s);
}

/// Joined texts stand in order, with the separator between neighbours and nowhere else.
pub proof fn lemma_joined(parts: Seq<Seq<char>>, sep: Seq<char>, last: Seq<char>)
    ensures
        crate::text::join_of(Seq::empty(), sep) == Seq::<char>::empty(),
        crate::text::join_of(seq![last], sep) == last,
        parts.len() > 0 ==> crate::text::join_of(parts.push(last), sep) == crate::text::join_of(
            parts,
            sep,
        ) + sep + last,
{
    let all = parts.push(last);
    lemma_join_prefix(all, parts, sep, parts.len());
}

proof fn lemma_join_prefix(a: Seq<Seq<char>>, b: Seq<Seq<char>>, sep: Seq<char>, n: nat)
    requires
        n <= a.len(),
        n <= b.len(),
        forall|i: int| 0 <= i < n ==> a[i] == b[i],
    ensures
        crate::text::join_upto(a, sep, n) == crate::text::join_upto(b, sep, n),
    decreases n,
{
    if n > 1 {
        lemma_join_prefix(a, b, sep, (n - 1) as nat);
    }
}

proof fn lemma_no_feed(s: Seq<char>, i: int, k: int)
    requires
        0 <= i <= k <= s.len(),
        forall|j: int| i <= j < k ==> #[trigger] s[j] != '\n',
        k < s.len() ==> s[k] == '\n',
    ensures
        crate::text::char_from(s, '\n', i) == if k < s.len() {
            Some(k)
        } else {
            None
        },
    decreases k - i,
{
    if i < k {
        lemma_no_feed(s, i + 1, k);
    }
}

/// A line is the text up to the end of the line, without that end; the lines behind it are those of
/// the text behind that end.
pub proof fn lemma_lines(line: Seq<char>, rest: Seq<char>)
    requires
        forall|i: int| 0 <= i < line.len() ==> #[trigger] line[i] != '\n',
        line.len() > 0 ==> line.last() != '\r',
    ensures
        crate::text::lines_of(line + "\n"@ + rest) == seq![line] + crate::text::lines_of(rest),
        crate::text::lines_of(line + "\r\n"@ + rest) == seq![line] + crate::text::lines_of(rest),
        line.len() > 0 ==> crate::text::lines_of(line) == seq![line],
{
    reveal_strlit("\n");
    reveal_strlit("\r\n");
    let s = line + "\n"@ + rest;
    let n = line.len() as int;
    lemma_no_feed(s, 0, n);
    assert(s.subrange(0, n) =~= line);
    lemma_lines_behind(s, rest, n + 1, 0);
    let t = line + "\r\n"@ + rest;
    assert(t[n] == '\r' && t[n + 1] == '\n');
    assert forall|j: int| 0 <= j < n + 1 implies #[trigger] t[j] != '\n' by {
        if j < n {
            assert(t[j] == line[j]);
        }
    }
    lemma_no_feed(t, 0, n + 1);
    assert(t.subrange(0, n + 1).drop_last() =~= line);
    lemma_lines_behind(t, rest, n + 2, 0);
    if line.len() > 0 {
        lemma_no_feed(line, 0, n);
        assert(line.subrange(0, n) =~= line);
    }
}

proof fn lemma_lines_behind(s: Seq<char>, rest: Seq<char>, at: int, i: int)
    requires
        0 <= i <= rest.len(),
        0 <= at,
        s.len() == at + rest.len(),
        forall|j: int| 0 <= j < rest.len() ==> s[at + j] == #[trigger] rest[j],
    ensures
        crate::text::lines_from(s, at + i) == crate::text::lines_from(rest, i),
    decreases rest.len() - i,
{
    if i < rest.len() {
        lemma_feed_behind(s, rest, at, i);
        match crate::text::char_from(rest, '\n', i) {
            Some(k) => {
                assert(s.subrange(at + i, at + k) =~= rest.subrange(i, k));
                lemma_lines_behind(s, rest, at, k + 1);
            },
            None => {
                assert(s.subrange(at + i, s.len() as int) =~= rest.subrange(
                    i,
                    rest.len() as int,
                ));
            },
        }
    }
}

proof fn lemma_feed_behind(s: Seq<char>, rest: Seq<char>, at: int, i: int)
    requires
        0 <= i <= rest.len(),
        0 <= at,
        s.len() == at + rest.len(),
        forall|j: int| 0 <= j < rest.len() ==> s[at + j] == #[trigger] rest[j],
    ensures
        crate::text::char_from(s, '\n', at + i) == match crate::text::char_from(rest, '\n', i) {
            Some(k) => Some(at + k),
            None => None,
        },
        crate::text::char_from(rest, '\n', i) matches Some(k) ==> i <= k < rest.len(),
    decreases rest.len() - i,
{
    if i < rest.len() {
        assert(s[at + i] == rest[i]);
        lemma_feed_behind(s, rest, at, i + 1);
    }
}

/// A text with one character in place of which another text stands is as it was elsewhere.
pub proof fn lemma_replaced(a: Seq<char>, b: Seq<char>, from: char, to: Seq<char>)
    ensures
        crate::text::replaced(a + b, from, to) == crate::text::replaced(a, from, to)
            + crate::text::replaced(b, from, to),
        crate::text::replaced(seq![from], from, to) == to,
        forall|c: char| c != from ==> #[trigger] crate::text::replaced(seq![c], from, to) == seq![c],
    decreases b.len(),
{
    reveal_with_fuel(crate::text::replaced, 2);
    assert(seq![from].drop_last() =~= Seq::empty());
    assert(Seq::<char>::empty() + to =~= to);
    assert forall|c: char| c != from implies #[trigger] crate::text::replaced(seq![c], from, to)
        == seq![c] by {
        assert(seq![c].drop_last() =~= Seq::empty());
        assert(Seq::<char>::empty() + seq![c] =~= seq![c]);
    }
    if b.len() == 0 {
        assert(a + b =~= a);
        assert(crate::text::replaced(a, from, to) + crate::text::replaced(b, from, to)
            =~= crate::text::replaced(a, from, to));
    } else {
        lemma_replaced(a, b.drop_last(), from, to);
        assert((a + b).drop_last() =~= a + b.drop_last());
        let x = crate::text::replaced(a, from, to);
        let y = crate::text::replaced(b.drop_last(), from, to);
        let z = if b.last() == from {
            to
        } else {
            seq![b.last()]
        };
        assert((x + y) + z =~= x + (y + z));
    }
}

/// A byte has two digits, from which it can be told: a letter stands for its place behind nine.
pub proof fn lemma_hex(b: u8)
    ensures
        crate::text::hex_of(b).len() == 2,
        hex_value(crate::text::hex_of(b)[0]) * 16 + hex_value(crate::text::hex_of(b)[1]) == b,
{
    let h = crate::text::hex_of(b);
    assert(b / 16 < 16 && b % 16 < 16);
    assert(hex_value(crate::text::hex_digit(b / 16)) == b / 16);
    assert(hex_value(crate::text::hex_digit(b % 16)) == b % 16);
}

/// What a hexadecimal digit stands for.
pub open spec fn hex_value(c: char) -> int {
    if '0' <= c <= '9' {
        c as u32 - 48
    } else {
        c as u32 - 97 + 10
    }
}

/// The digits of bytes stand in their order.
pub proof fn lemma_hex_text(b: Seq<u8>, x: u8)
    ensures
        crate::text::hex_text(b.push(x)) == crate::text::hex_text(b) + crate::text::hex_of(x),
        crate::text::hex_text(Seq::empty()) == Seq::<char>::empty(),
{
    assert(b.push(x).drop_last() =~= b);
}

/// Lowercase letters stand for capitals, and nothing else changes.
pub proof fn lemma_lowered(s: Seq<char>, i: int)
    requires
        0 <= i < s.len(),
    ensures
        crate::text::lower_of(s).len() == s.len(),
        'A' <= s[i] <= 'Z' ==> crate::text::lower_of(s)[i] as u32 == s[i] as u32 + 32,
        !('A' <= s[i] <= 'Z') ==> crate::text::lower_of(s)[i] == s[i],
{
}

/// A text that begins with another goes on behind it.
pub proof fn lemma_behind(p: Seq<char>, rest: Seq<char>)
    ensures
        crate::text::after_prefix(p + rest, p) == Some(rest),
        crate::text::begins(p + rest, p),
        crate::text::ends(rest + p, p),
{
    assert((p + rest).subrange(0, p.len() as int) =~= p);
    assert((p + rest).subrange(p.len() as int, (p + rest).len() as int) =~= rest);
    assert((rest + p).subrange(rest.len() as int, (rest + p).len() as int) =~= p);
}

} // verus!
