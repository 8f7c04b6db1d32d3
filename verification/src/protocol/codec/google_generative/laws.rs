//! Laws of the Google Generative AI codec: what it does not understand passes through it, and how
//! a stream is cut into pieces does not matter.
use vstd::prelude::*;

use crate::json::JsonV;
use crate::protocol::codec::google_generative::stream::{
    written, FormatterV, ParserV, ReadV, WrittenV,
};
use crate::protocol::ir::response::ItemV;
use crate::protocol::ir::stream::DeltaV;

verus! {

proof fn lemma_chunks_prefix(a: Seq<Seq<char>>, b: Seq<Seq<char>>, n: nat)
    requires
        n <= a.len(),
    ensures
        crate::protocol::codec::google_generative::stream::chunks_upto(a + b, n)
            == crate::protocol::codec::google_generative::stream::chunks_upto(a, n),
    decreases n,
{
    if n > 0 {
        lemma_chunks_prefix(a, b, (n - 1) as nat);
        assert((a + b)[n - 1] == a[n - 1]);
    }
}

proof fn lemma_chunks_cat(a: Seq<Seq<char>>, b: Seq<Seq<char>>, n: nat)
    requires
        n <= b.len(),
    ensures
        crate::protocol::codec::google_generative::stream::chunks_upto(a + b, (a.len() + n) as nat)
            == crate::protocol::codec::google_generative::stream::chunks_of(a)
            + crate::protocol::codec::google_generative::stream::chunks_upto(b, n),
    decreases n,
{
    let x = crate::protocol::codec::google_generative::stream::chunks_of(a);
    if n == 0 {
        lemma_chunks_prefix(a, b, a.len());
        assert(x + crate::protocol::codec::google_generative::stream::chunks_upto(b, 0) =~= x);
    } else {
        lemma_chunks_cat(a, b, (n - 1) as nat);
        assert((a + b)[a.len() + n - 1] == b[n - 1]);
        let y = crate::protocol::codec::google_generative::stream::chunks_upto(
            b,
            (n - 1) as nat,
        );
        let z = crate::protocol::codec::google_generative::stream::block_chunks(b[n - 1]);
        assert(x + y + z =~= x + (y + z));
    }
}

/// A stream in two pieces gives the chunks, and leaves the state, of the stream in one.
pub proof fn lemma_stream_chunking(p: ParserV, a: Seq<char>, b: Seq<char>)
    ensures
        p.completed(a + b) == p.completed(a) + p.behind(a).completed(b),
        p.behind(a + b) == p.behind(a).behind(b),
{
    assert(p.buffer + (a + b) =~= (p.buffer + a) + b);
    crate::protocol::sse::lemma_chunking(p.buffer + a, b);
    let x = crate::protocol::sse::blocks_of(p.buffer + a);
    let y = crate::protocol::sse::blocks_of(crate::protocol::sse::rest_of(p.buffer + a) + b);
    lemma_chunks_cat(x, y, y.len());
}

// ---------------------------------------------------------------- parts

proof fn lemma_plain_text_part(p: JsonV)
    requires
        crate::protocol::codec::google_generative::stream::plain_text(p),
    ensures
        p.get_str("text"@) is Some,
        p == JsonV::obj().with("text"@, JsonV::Text(p.get_str("text"@)->0)),
{
    let f = p->Object_0;
    crate::json::lemma_field_pos(f, "text"@, f.len());
    let t = p.get_str("text"@)->0;
    assert(f =~= seq![("text"@, JsonV::Text(t))]);
    let e = Seq::<(Seq<char>, JsonV)>::empty();
    crate::json::lemma_field_pos(e, "text"@, 0);
    assert(crate::json::put_field(e, "text"@, JsonV::Text(t)) =~= f);
}

/// Whether a part is one that the response holds as it came: anything but a bare call, which is
/// held by its name and arguments, and a bare empty text, which says nothing.
pub open spec fn kept_part(p: JsonV) -> bool {
    if p.get_str("text"@) is Some {
        !crate::protocol::codec::google_generative::stream::plain_text(p) || p.get_str(
            "text"@,
        )->0.len() > 0
    } else {
        !crate::protocol::codec::google_generative::stream::plain_call(p)
    }
}

proof fn lemma_items_kept(parts: Seq<JsonV>, fresh: Seq<Seq<char>>, n: nat)
    requires
        n <= parts.len(),
        forall|i: int| 0 <= i < parts.len() ==> kept_part(#[trigger] parts[i]),
    ensures
        ReadV::of(parts, fresh, n).items.len() == n,
        crate::protocol::codec::google_generative::stream::item_parts(
            ReadV::of(parts, fresh, n).items,
            n,
        ) == parts.take(n as int),
    decreases n,
{
    if n == 0 {
        assert(parts.take(0) =~= Seq::<JsonV>::empty());
    } else {
        lemma_items_kept(parts, fresh, (n - 1) as nat);
        let before = ReadV::of(parts, fresh, (n - 1) as nat).items;
        let after = ReadV::of(parts, fresh, n).items;
        let p = parts[n - 1];
        assert(kept_part(p));
        if crate::protocol::codec::google_generative::stream::plain_text(p) {
            lemma_plain_text_part(p);
        }
        assert(crate::protocol::codec::google_generative::stream::item_part(after[n - 1]) == Some(
            p,
        ));
        lemma_item_parts_prefix(before, after, (n - 1) as nat);
        assert(parts.take(n as int) =~= parts.take(n - 1).push(p));
    }
}

proof fn lemma_item_parts_prefix(a: Seq<ItemV>, b: Seq<ItemV>, n: nat)
    requires
        n <= a.len(),
        n <= b.len(),
        forall|i: int| 0 <= i < n ==> a[i] == b[i],
    ensures
        crate::protocol::codec::google_generative::stream::item_parts(a, n)
            == crate::protocol::codec::google_generative::stream::item_parts(b, n),
    decreases n,
{
    if n > 0 {
        lemma_item_parts_prefix(a, b, (n - 1) as nat);
    }
}

/// Parts come out of a response as they came in, in their order.
pub proof fn lemma_parts_preserved(resp: JsonV, fresh: Seq<Seq<char>>, own: Seq<char>)
    requires
        forall|i: int|
            0 <= i < crate::protocol::codec::google_generative::stream::parts_of(resp).len()
                ==> kept_part(
                #[trigger] crate::protocol::codec::google_generative::stream::parts_of(resp)[i],
            ),
        crate::protocol::codec::google_generative::stream::parts_of(resp).len() > 0,
    ensures
        crate::protocol::codec::google_generative::stream::response_parts(
            crate::protocol::codec::google_generative::stream::response_of(resp, fresh, own),
        ) == crate::protocol::codec::google_generative::stream::parts_of(resp),
{
    let parts = crate::protocol::codec::google_generative::stream::parts_of(resp);
    lemma_items_kept(parts, fresh, parts.len());
    assert(parts.take(parts.len() as int) =~= parts);
}

/// A part of a stream that is not understood is written again as it came.
pub proof fn lemma_unknown_part_survives(s: FormatterV, part: JsonV, fresh: Seq<char>)
    requires
        part.get_str("text"@) is None,
        part.get("functionCall"@) is None,
        part.get_object("__google_response_metadata"@) is None,
    ensures
        crate::json::reads_back(part) ==> written(s, Seq::empty()).steps(
            crate::protocol::codec::google_generative::stream::part_deltas(part, fresh),
            1,
        ) == written(s, Seq::empty()).emit_part(part),
{
    reveal_with_fuel(WrittenV::steps, 2);
    let d = crate::protocol::codec::google_generative::stream::part_deltas(part, fresh);
    assert(d[0] == DeltaV::Unknown { raw: crate::json::text_of(part) });
}

// ---------------------------------------------------------------- metadata

proof fn lemma_fields_but_get(
    f: Seq<(Seq<char>, JsonV)>,
    a: Seq<char>,
    b: Seq<char>,
    n: nat,
    k: Seq<char>,
)
    requires
        n <= f.len(),
        crate::json::distinct_names(f),
        k != a,
        k != b,
    ensures
        crate::json::get_field(
            crate::protocol::codec::google_generative::stream::fields_but(f, a, b, n),
            k,
        ) == crate::json::get_field(f.take(n as int), k),
    decreases n,
{
    let g = f.take(n as int);
    if n == 0 {
    } else {
        lemma_fields_but_get(f, a, b, (n - 1) as nat, k);
        let h = f.take(n - 1);
        assert(g =~= h.push(f[n - 1]));
        crate::json::lemma_field_pos(h, k, h.len());
        crate::json::lemma_field_pos(g, k, g.len());
        if f[n - 1].0 == k {
            match crate::json::field_pos(h, k, h.len()) {
                Some(i) => {
                    assert(f[i].0 == f[n - 1].0);
                },
                None => {},
            }
            assert(g[n - 1].0 == k);
        } else {
            match crate::json::field_pos(h, k, h.len()) {
                Some(i) => {
                    assert(g[i].0 == k);
                    let j = crate::json::field_pos(g, k, g.len())->0;
                    if j < i {
                        assert(h[j].0 == k);
                    }
                    if j > i && j < n - 1 {
                        assert(h[j].0 == k);
                    }
                },
                None => {
                    match crate::json::field_pos(g, k, g.len()) {
                        Some(j) => {
                            if j < n - 1 {
                                assert(h[j].0 == k);
                            }
                        },
                        None => {},
                    }
                },
            }
        }
        if f[n - 1].0 != a && f[n - 1].0 != b {
            crate::json::lemma_put_get(
                crate::protocol::codec::google_generative::stream::fields_but(
                    f,
                    a,
                    b,
                    (n - 1) as nat,
                ),
                f[n - 1].0,
                f[n - 1].1,
                k,
            );
        }
    }
}

proof fn lemma_with_metadata_get(
    out: JsonV,
    meta: Seq<(Seq<char>, JsonV)>,
    u: crate::protocol::ir::usage::Usage,
    n: nat,
    k: Seq<char>,
)
    requires
        n <= meta.len(),
        out is Object,
        !crate::text::begins(k, "__"@),
        k != "usageMetadata"@,
        forall|i: int, j: int|
            0 <= i < j < meta.len() ==> (#[trigger] meta[i]).0 != (#[trigger] meta[j]).0,
    ensures
        crate::protocol::codec::google_generative::stream::with_metadata(out, meta, u, n) is Object,
        crate::protocol::codec::google_generative::stream::with_metadata(out, meta, u, n).get(k)
            == match crate::json::get_field(meta.take(n as int), k) {
            Some(v) => Some(v),
            None => out.get(k),
        },
    decreases n,
{
    if n > 0 {
        lemma_with_metadata_get(out, meta, u, (n - 1) as nat, k);
        let before = crate::protocol::codec::google_generative::stream::with_metadata(
            out,
            meta,
            u,
            (n - 1) as nat,
        );
        let h = meta.take(n - 1);
        let g = meta.take(n as int);
        assert(g =~= h.push(meta[n - 1]));
        let (key, v) = meta[n - 1];
        crate::json::lemma_put_get(before->Object_0, key, v, k);
        crate::json::lemma_put_get(
            before->Object_0,
            "usageMetadata"@,
            crate::protocol::codec::google_generative::stream::counts_merged(v, u),
            k,
        );
        crate::json::lemma_field_pos(h, k, h.len());
        crate::json::lemma_field_pos(g, k, g.len());
        if key == k {
            match crate::json::field_pos(h, k, h.len()) {
                Some(i) => {
                    assert(meta[i].0 == meta[n - 1].0);
                },
                None => {},
            }
            assert(g[n - 1].0 == k);
        } else {
            match crate::json::field_pos(h, k, h.len()) {
                Some(i) => {
                    assert(g[i].0 == k);
                    let j = crate::json::field_pos(g, k, g.len())->0;
                    if j < i {
                        assert(h[j].0 == k);
                    }
                    if j > i && j < n - 1 {
                        assert(h[j].0 == k);
                    }
                },
                None => {
                    match crate::json::field_pos(g, k, g.len()) {
                        Some(j) => {
                            if j < n - 1 {
                                assert(h[j].0 == k);
                            }
                        },
                        None => {},
                    }
                },
            }
        }
    } else {
        crate::json::lemma_field_pos(meta.take(0), k, 0);
    }
}

proof fn lemma_fields_but_distinct(
    f: Seq<(Seq<char>, JsonV)>,
    a: Seq<char>,
    b: Seq<char>,
    n: nat,
)
    requires
        n <= f.len(),
    ensures
        crate::json::distinct_names(
            crate::protocol::codec::google_generative::stream::fields_but(f, a, b, n),
        ),
    decreases n,
{
    if n > 0 {
        lemma_fields_but_distinct(f, a, b, (n - 1) as nat);
        crate::json::lemma_put_distinct(
            crate::protocol::codec::google_generative::stream::fields_but(f, a, b, (n - 1) as nat),
            f[n - 1].0,
            f[n - 1].1,
        );
    }
}

/// A field of a response that nothing here knows is in the response that is written from it.
pub proof fn lemma_unknown_field_preserved(
    f: Seq<(Seq<char>, JsonV)>,
    k: Seq<char>,
    fresh: Seq<Seq<char>>,
    own: Seq<char>,
)
    requires
        crate::json::distinct_names(f),
        crate::json::get_field(f, k) is Some,
        !crate::text::begins(k, "__"@),
        k != "candidates"@,
        k != "usageMetadata"@,
    ensures
        crate::protocol::codec::google_generative::stream::response_json(
            crate::protocol::codec::google_generative::stream::response_of(
                JsonV::Object(f),
                fresh,
                own,
            ),
        ).get(k) == crate::json::get_field(f, k),
{
    let raw = JsonV::Object(f);
    let resp = crate::protocol::codec::google_generative::stream::response_of(raw, fresh, own);
    let top = crate::protocol::codec::google_generative::stream::fields_but(
        f,
        "candidates"@,
        "candidates"@,
        f.len(),
    );
    let meta = crate::protocol::codec::google_generative::stream::metadata_of(raw);
    assert(f.take(f.len() as int) =~= f);
    lemma_fields_but_get(f, "candidates"@, "candidates"@, f.len(), k);
    lemma_fields_but_distinct(f, "candidates"@, "candidates"@, f.len());
    lemma_underscored("__candidate_extra"@, "__content_extra"@);
    assert(k != "__candidate_extra"@);
    assert(k != "__content_extra"@);
    // Adding the inner leftovers changes no other field and keeps the names distinct.
    let c = crate::protocol::codec::google_generative::stream::candidate_of(raw);
    match c {
        Some(JsonV::Object(cf)) => {
            let extra = crate::protocol::codec::google_generative::stream::fields_but(
                cf,
                "content"@,
                "finishReason"@,
                cf.len(),
            );
            let w = if extra.len() > 0 {
                crate::json::put_field(top, "__candidate_extra"@, JsonV::Object(extra))
            } else {
                top
            };
            crate::json::lemma_put_get(top, "__candidate_extra"@, JsonV::Object(extra), k);
            crate::json::lemma_put_distinct(top, "__candidate_extra"@, JsonV::Object(extra));
            match crate::json::get_field(cf, "content"@) {
                Some(JsonV::Object(content)) => {
                    let more = crate::protocol::codec::google_generative::stream::fields_but(
                        content,
                        "role"@,
                        "parts"@,
                        content.len(),
                    );
                    crate::json::lemma_put_get(w, "__content_extra"@, JsonV::Object(more), k);
                    crate::json::lemma_put_distinct(w, "__content_extra"@, JsonV::Object(more));
                },
                _ => {},
            }
        },
        _ => {},
    }
    assert(crate::json::get_field(meta, k) == crate::json::get_field(f, k));
    assert(crate::json::distinct_names(meta));
    crate::json::lemma_field_pos(meta, k, meta.len());
    assert(meta.len() > 0);
    let e = Seq::<(Seq<char>, JsonV)>::empty();
    crate::json::lemma_put_get(e, "__google_response_metadata"@, JsonV::Object(meta), k);
    assert(crate::protocol::codec::google_generative::stream::carried_metadata(resp) == Some(
        JsonV::Object(meta),
    ));
    let out = crate::protocol::codec::google_generative::stream::bare_json(resp);
    lemma_with_metadata_get(out, meta, resp.usage, meta.len(), k);
    assert(meta.take(meta.len() as int) =~= meta);
    let o1 = crate::protocol::codec::google_generative::stream::with_metadata(
        out,
        meta,
        resp.usage,
        meta.len(),
    );
    assert(o1.get(k) == crate::json::get_field(f, k));
    let o2 = match crate::json::get_field(meta, "__candidate_extra"@) {
        Some(
            JsonV::Object(extra),
        ) => crate::protocol::codec::google_generative::stream::with_candidate_extra(o1, extra),
        _ => o1,
    };
    lemma_candidates_aside(o1, k);
    assert(o2.get(k) == o1.get(k));
    assert(o2 is Object);
    lemma_candidates_aside(o2, k);
}

proof fn lemma_underscored(a: Seq<char>, b: Seq<char>)
    requires
        a == "__candidate_extra"@,
        b == "__content_extra"@,
    ensures
        crate::text::begins(a, "__"@),
        crate::text::begins(b, "__"@),
{
    reveal_strlit("__");
    reveal_strlit("__candidate_extra");
    reveal_strlit("__content_extra");
    assert(a.subrange(0, 2) =~= "__"@);
    assert(b.subrange(0, 2) =~= "__"@);
}

proof fn lemma_candidates_aside(out: JsonV, k: Seq<char>)
    requires
        out is Object,
        k != "candidates"@,
    ensures
        forall|v: JsonV| #[trigger]
            out.with("candidates"@, v).get(k) == out.get(k) && out.with(
                "candidates"@,
                v,
            ) is Object,
{
    assert forall|v: JsonV| #[trigger]
        out.with("candidates"@, v).get(k) == out.get(k) && out.with("candidates"@, v) is Object by {
        crate::json::lemma_put_get(out->Object_0, "candidates"@, v, k);
    }
}

// ---------------------------------------------------------------- the whole response

proof fn lemma_push_get(
    f: Seq<(Seq<char>, JsonV)>,
    key: Seq<char>,
    v: JsonV,
    k: Seq<char>,
)
    ensures
        crate::json::get_field(f.push((key, v)), k) == match crate::json::get_field(f, k) {
            Some(x) => Some(x),
            None => if key == k {
                Some(v)
            } else {
                None
            },
        },
{
    let g = f.push((key, v));
    crate::json::lemma_field_pos(f, k, f.len());
    crate::json::lemma_field_pos(g, k, g.len());
    match crate::json::field_pos(f, k, f.len()) {
        Some(i) => {
            assert(g[i].0 == k);
            let j = crate::json::field_pos(g, k, g.len())->0;
            if j < i {
                assert(f[j].0 == k);
            }
        },
        None => {
            if key == k {
                assert(g[f.len() as int].0 == k);
            }
            if let Some(j) = crate::json::field_pos(g, k, g.len()) {
                if j < f.len() {
                    assert(f[j].0 == k);
                }
            }
        },
    }
}

proof fn lemma_absent_get(
    f: Seq<(Seq<char>, JsonV)>,
    more: Seq<(Seq<char>, JsonV)>,
    n: nat,
    k: Seq<char>,
)
    requires
        n <= more.len(),
    ensures
        crate::json::get_field(crate::json::put_all_absent(f, more, n), k)
            == match crate::json::get_field(f, k) {
            Some(x) => Some(x),
            None => crate::json::get_field(more.take(n as int), k),
        },
    decreases n,
{
    if n == 0 {
        crate::json::lemma_field_pos(more.take(0), k, 0);
    } else {
        lemma_absent_get(f, more, (n - 1) as nat, k);
        let (key, v) = more[n - 1];
        let before = crate::json::put_all_absent(f, more, (n - 1) as nat);
        assert(more.take(n as int) =~= more.take(n - 1).push((key, v)));
        lemma_push_get(before, key, v, k);
        lemma_push_get(more.take(n - 1), key, v, k);
    }
}

proof fn lemma_dropped_field(
    f: Seq<(Seq<char>, JsonV)>,
    a: Seq<char>,
    b: Seq<char>,
    n: nat,
)
    requires
        n <= f.len(),
    ensures
        crate::json::get_field(crate::protocol::codec::google_generative::stream::fields_but(f, a, b, n), a) is None,
        crate::json::get_field(crate::protocol::codec::google_generative::stream::fields_but(f, a, b, n), b) is None,
    decreases n,
{
    if n > 0 {
        lemma_dropped_field(f, a, b, (n - 1) as nat);
        let before = crate::protocol::codec::google_generative::stream::fields_but(f, a, b, (n - 1) as nat);
        crate::json::lemma_put_get(before, f[n - 1].0, f[n - 1].1, a);
        crate::json::lemma_put_get(before, f[n - 1].0, f[n - 1].1, b);
    }
}

proof fn lemma_with_metadata_usage(
    out: JsonV,
    meta: Seq<(Seq<char>, JsonV)>,
    u: crate::protocol::ir::usage::Usage,
    n: nat,
)
    requires
        n <= meta.len(),
        out is Object,
        crate::json::distinct_names(meta),
    ensures
        crate::protocol::codec::google_generative::stream::with_metadata(out, meta, u, n) is Object,
        crate::protocol::codec::google_generative::stream::with_metadata(out, meta, u, n).get("usageMetadata"@) == match crate::json::get_field(
            meta.take(n as int),
            "usageMetadata"@,
        ) {
            Some(v) => Some(crate::protocol::codec::google_generative::stream::counts_merged(v, u)),
            None => out.get("usageMetadata"@),
        },
    decreases n,
{
    let k = "usageMetadata"@;
    if n == 0 {
        crate::json::lemma_field_pos(meta.take(0), k, 0);
    } else {
        lemma_with_metadata_usage(out, meta, u, (n - 1) as nat);
        let before = crate::protocol::codec::google_generative::stream::with_metadata(out, meta, u, (n - 1) as nat);
        let (key, v) = meta[n - 1];
        let h = meta.take(n - 1);
        assert(meta.take(n as int) =~= h.push((key, v)));
        lemma_push_get(h, key, v, k);
        crate::json::lemma_put_get(before->Object_0, key, v, k);
        crate::json::lemma_put_get(before->Object_0, k, crate::protocol::codec::google_generative::stream::counts_merged(v, u), k);
        reveal_strlit("__");
        reveal_strlit("usageMetadata");
        if key == k {
            assert(k.subrange(0, 2)[0] == 'u');
            crate::json::lemma_field_pos(h, k, h.len());
            if let Some(i) = crate::json::field_pos(h, k, h.len()) {
                assert(meta[i].0 == meta[n - 1].0);
            }
        }
    }
}

proof fn lemma_counts_kept(
    uf: Seq<(Seq<char>, JsonV)>,
    u: crate::protocol::ir::usage::Usage,
    k: Seq<char>,
)
    ensures
        crate::protocol::codec::google_generative::stream::counts_merged(JsonV::Object(uf), u) is Object,
        crate::protocol::codec::google_generative::stream::counts_merged(JsonV::Object(uf), u).get(k) == crate::json::get_field(uf, k) || (
        crate::json::get_field(uf, k) is None && (k == "promptTokenCount"@ || k
            == "candidatesTokenCount"@ || k == "totalTokenCount"@)),
{
    let a = JsonV::num(u.prompt_tokens as u64);
    let b = JsonV::num(u.completion_tokens as u64);
    let c = JsonV::num(u.sum());
    lemma_push_get(uf, "promptTokenCount"@, a, k);
    let f = crate::json::put_absent(uf, "promptTokenCount"@, a);
    lemma_push_get(f, "candidatesTokenCount"@, b, k);
    let g = crate::json::put_absent(f, "candidatesTokenCount"@, b);
    lemma_push_get(g, "totalTokenCount"@, c, k);
}

/// What of a response is not understood, by its names: the fields of the response itself but its
/// candidates, those of the candidate and those of its content.
proof fn lemma_metadata(
    f: Seq<(Seq<char>, JsonV)>,
    c: Seq<(Seq<char>, JsonV)>,
    content: Seq<(Seq<char>, JsonV)>,
)
    requires
        crate::json::distinct_names(f),
        crate::protocol::codec::google_generative::stream::candidate_of(JsonV::Object(f)) == Some(JsonV::Object(c)),
        crate::json::get_field(c, "content"@) == Some(JsonV::Object(content)),
    ensures
        ({
            let meta = crate::protocol::codec::google_generative::stream::metadata_of(JsonV::Object(f));
            let extra = crate::protocol::codec::google_generative::stream::fields_but(c, "content"@, "finishReason"@, c.len());
            let more = crate::protocol::codec::google_generative::stream::fields_but(content, "role"@, "parts"@, content.len());
            &&& crate::json::distinct_names(meta)
            &&& crate::json::get_field(meta, "candidates"@) is None
            &&& crate::json::get_field(meta, "usageMetadata"@) == crate::json::get_field(
                f,
                "usageMetadata"@,
            )
            &&& extra.len() > 0 ==> crate::json::get_field(meta, "__candidate_extra"@) == Some(
                JsonV::Object(extra),
            )
            &&& more.len() > 0 ==> crate::json::get_field(meta, "__content_extra"@) == Some(
                JsonV::Object(more),
            )
        }),
{
    let cs = "candidates"@;
    let us = "usageMetadata"@;
    let ce = "__candidate_extra"@;
    let co = "__content_extra"@;
    reveal_strlit("candidates");
    reveal_strlit("usageMetadata");
    reveal_strlit("__candidate_extra");
    reveal_strlit("__content_extra");
    assert(cs[0] == 'c' && us[0] == 'u' && ce[0] == '_' && co[0] == '_');
    assert(ce.len() != co.len());
    let top = crate::protocol::codec::google_generative::stream::fields_but(f, cs, cs, f.len());
    lemma_dropped_field(f, cs, cs, f.len());
    lemma_fields_but_distinct(f, cs, cs, f.len());
    assert(f.take(f.len() as int) =~= f);
    lemma_fields_but_get(f, cs, cs, f.len(), us);
    let extra = crate::protocol::codec::google_generative::stream::fields_but(c, "content"@, "finishReason"@, c.len());
    let w = if extra.len() > 0 {
        crate::json::put_field(top, ce, JsonV::Object(extra))
    } else {
        top
    };
    crate::json::lemma_put_get(top, ce, JsonV::Object(extra), cs);
    crate::json::lemma_put_get(top, ce, JsonV::Object(extra), us);
    crate::json::lemma_put_distinct(top, ce, JsonV::Object(extra));
    let more = crate::protocol::codec::google_generative::stream::fields_but(content, "role"@, "parts"@, content.len());
    crate::json::lemma_put_get(w, co, JsonV::Object(more), cs);
    crate::json::lemma_put_get(w, co, JsonV::Object(more), us);
    crate::json::lemma_put_get(w, co, JsonV::Object(more), ce);
    crate::json::lemma_put_distinct(w, co, JsonV::Object(more));
}

/// What the inside of a written response holds: the parts, and what was not understood of the
/// candidate and its content.
proof fn lemma_inside(
    o1: JsonV,
    meta: Seq<(Seq<char>, JsonV)>,
    parts: Seq<JsonV>,
    finish: JsonV,
    extra: Seq<(Seq<char>, JsonV)>,
    more: Seq<(Seq<char>, JsonV)>,
)
    requires
        o1 is Object,
        o1.get("candidates"@) == Some(
            JsonV::Array(seq![crate::protocol::codec::google_generative::stream::candidate_json(parts).with("finishReason"@, finish)]),
        ),
        extra.len() > 0 ==> crate::json::get_field(meta, "__candidate_extra"@) == Some(
            JsonV::Object(extra),
        ),
        more.len() > 0 ==> crate::json::get_field(meta, "__content_extra"@) == Some(
            JsonV::Object(more),
        ),
    ensures
        ({
            let o2 = match crate::json::get_field(meta, "__candidate_extra"@) {
                Some(JsonV::Object(x)) => crate::protocol::codec::google_generative::stream::with_candidate_extra(o1, x),
                _ => o1,
            };
            let o3 = match crate::json::get_field(meta, "__content_extra"@) {
                Some(JsonV::Object(x)) => crate::protocol::codec::google_generative::stream::with_content_extra(o2, x),
                _ => o2,
            };
            &&& crate::protocol::codec::google_generative::stream::candidate_of(o3) is Some
            &&& (crate::protocol::codec::google_generative::stream::candidate_of(o3)->0).get("content"@) is Some
            &&& crate::protocol::codec::google_generative::stream::parts_of(o3) == parts
            &&& forall|k: Seq<char>|
                k != "content"@ && k != "finishReason"@ && #[trigger] crate::json::get_field(
                    extra,
                    k,
                ) is Some ==> (crate::protocol::codec::google_generative::stream::candidate_of(o3)->0).get(k) == crate::json::get_field(extra, k)
            &&& forall|k: Seq<char>|
                k != "role"@ && k != "parts"@ && #[trigger] crate::json::get_field(more, k) is Some
                    ==> ((crate::protocol::codec::google_generative::stream::candidate_of(o3)->0).get("content"@)->0).get(k)
                    == crate::json::get_field(more, k)
        }),
{
    let ct = "content"@;
    let fr = "finishReason"@;
    let ro = "role"@;
    let pa = "parts"@;
    reveal_strlit("content");
    reveal_strlit("finishReason");
    reveal_strlit("role");
    reveal_strlit("parts");
    assert(ct.len() != fr.len() && ro.len() != pa.len());
    let e = Seq::<(Seq<char>, JsonV)>::empty();
    let inner = crate::protocol::codec::google_generative::stream::candidate_json(parts).get(ct)->0;
    crate::json::lemma_put_get(e, ct, inner, ct);
    let role = crate::json::put_field(e, ro, JsonV::Text("model"@));
    let body = crate::json::put_field(role, pa, JsonV::Array(parts));
    crate::json::lemma_put_get(e, ct, JsonV::Object(body), ct);
    crate::json::lemma_put_get(role, pa, JsonV::Array(parts), pa);
    let bare = crate::json::put_field(e, ct, JsonV::Object(body));
    let cand = crate::json::put_field(bare, fr, finish);
    crate::json::lemma_put_get(bare, fr, finish, ct);
    assert(crate::protocol::codec::google_generative::stream::candidate_json(parts).with(fr, finish) == JsonV::Object(cand));
    let a = seq![JsonV::Object(cand)];
    let x2 = crate::json::get_field(meta, "__candidate_extra"@);
    let o2 = match x2 {
        Some(JsonV::Object(x)) => crate::protocol::codec::google_generative::stream::with_candidate_extra(o1, x),
        _ => o1,
    };
    let cand2 = match x2 {
        Some(JsonV::Object(x)) => crate::json::put_all_absent(cand, x, x.len()),
        _ => cand,
    };
    match x2 {
        Some(JsonV::Object(x)) => {
            let b = a.update(0, JsonV::Object(cand2));
            crate::json::lemma_put_get(
                o1->Object_0,
                "candidates"@,
                JsonV::Array(b),
                "candidates"@,
            );
            lemma_absent_get(cand, x, x.len(), ct);
            assert(b[0] == JsonV::Object(cand2));
        },
        _ => {},
    }
    assert(o2 is Object);
    assert(o2.get_array("candidates"@) is Some);
    let a2 = o2.get_array("candidates"@)->0;
    assert(a2.len() == 1 && a2[0] == JsonV::Object(cand2));
    assert(crate::json::get_field(cand2, ct) == Some(JsonV::Object(body)));
    assert forall|k: Seq<char>|
        k != ct && k != fr && #[trigger] crate::json::get_field(extra, k) is Some implies
        crate::json::get_field(cand2, k) == crate::json::get_field(extra, k) by {
        crate::json::lemma_field_pos(extra, k, extra.len());
        crate::json::lemma_put_get(e, ct, JsonV::Object(body), k);
        crate::json::lemma_put_get(bare, fr, finish, k);
        crate::json::lemma_field_pos(e, k, 0);
        lemma_absent_get(cand, extra, extra.len(), k);
        assert(extra.take(extra.len() as int) =~= extra);
    }
    let x3 = crate::json::get_field(meta, "__content_extra"@);
    let o3 = match x3 {
        Some(JsonV::Object(x)) => crate::protocol::codec::google_generative::stream::with_content_extra(o2, x),
        _ => o2,
    };
    let body3 = match x3 {
        Some(JsonV::Object(x)) => crate::json::put_all_absent(body, x, x.len()),
        _ => body,
    };
    match x3 {
        Some(JsonV::Object(x)) => {
            let cand3 = crate::json::put_field(cand2, ct, JsonV::Object(body3));
            let b = a2.update(0, JsonV::Object(cand3));
            crate::json::lemma_put_get(
                o2->Object_0,
                "candidates"@,
                JsonV::Array(b),
                "candidates"@,
            );
            assert(b[0] == JsonV::Object(cand3));
            crate::json::lemma_put_get(cand2, ct, JsonV::Object(body3), ct);
            assert forall|k: Seq<char>| k != ct implies #[trigger] crate::json::get_field(cand3, k)
                == crate::json::get_field(cand2, k) by {
                crate::json::lemma_put_get(cand2, ct, JsonV::Object(body3), k);
            }
            lemma_absent_get(body, x, x.len(), pa);
        },
        _ => {},
    }
    assert(crate::protocol::codec::google_generative::stream::candidate_of(o3) is Some);
    let last = crate::protocol::codec::google_generative::stream::candidate_of(o3)->0;
    assert(last.get(ct) == Some(JsonV::Object(body3)));
    assert(crate::json::get_field(body3, pa) == Some(JsonV::Array(parts)));
    assert forall|k: Seq<char>|
        k != ro && k != pa && #[trigger] crate::json::get_field(more, k) is Some implies (last.get(
        ct,
    )->0).get(k) == crate::json::get_field(more, k) by {
        crate::json::lemma_field_pos(more, k, more.len());
        crate::json::lemma_put_get(e, ro, JsonV::Text("model"@), k);
        crate::json::lemma_put_get(role, pa, JsonV::Array(parts), k);
        crate::json::lemma_field_pos(e, k, 0);
        lemma_absent_get(body, more, more.len(), k);
        assert(more.take(more.len() as int) =~= more);
    }
    assert forall|k: Seq<char>|
        k != ct && k != fr && #[trigger] crate::json::get_field(extra, k) is Some implies last.get(
        k,
    ) == crate::json::get_field(extra, k) by {
        assert(crate::json::get_field(cand2, k) == crate::json::get_field(extra, k));
    }
}

/// A response that is read and written again keeps what is not understood of it: its parts, the
/// further fields of the candidate, of its content and of the response, and all token counts, to
/// which only counts that are missing are added.
pub proof fn lemma_response_preserved(
    f: Seq<(Seq<char>, JsonV)>,
    c: Seq<(Seq<char>, JsonV)>,
    content: Seq<(Seq<char>, JsonV)>,
    uf: Seq<(Seq<char>, JsonV)>,
    fresh: Seq<Seq<char>>,
    own: Seq<char>,
)
    requires
        crate::json::distinct_names(f),
        crate::json::distinct_names(c),
        crate::json::distinct_names(content),
        crate::protocol::codec::google_generative::stream::candidate_of(JsonV::Object(f)) == Some(JsonV::Object(c)),
        crate::json::get_field(c, "content"@) == Some(JsonV::Object(content)),
        crate::protocol::codec::google_generative::stream::parts_of(JsonV::Object(f)).len() > 0,
        forall|i: int|
            0 <= i < crate::protocol::codec::google_generative::stream::parts_of(JsonV::Object(f)).len() ==> kept_part(
                #[trigger] crate::protocol::codec::google_generative::stream::parts_of(JsonV::Object(f))[i],
            ),
        crate::json::get_field(f, "usageMetadata"@) == Some(JsonV::Object(uf)),
    ensures
        ({
            let out = crate::protocol::codec::google_generative::stream::response_json(crate::protocol::codec::google_generative::stream::response_of(JsonV::Object(f), fresh, own));
            &&& crate::protocol::codec::google_generative::stream::candidate_of(out) is Some
            &&& crate::protocol::codec::google_generative::stream::parts_of(out) == crate::protocol::codec::google_generative::stream::parts_of(JsonV::Object(f))
            &&& forall|k: Seq<char>|
                k != "content"@ && k != "finishReason"@ && #[trigger] crate::json::get_field(
                    c,
                    k,
                ) is Some ==> (crate::protocol::codec::google_generative::stream::candidate_of(out)->0).get(k) == crate::json::get_field(c, k)
            &&& (crate::protocol::codec::google_generative::stream::candidate_of(out)->0).get("content"@) is Some
            &&& forall|k: Seq<char>|
                k != "role"@ && k != "parts"@ && #[trigger] crate::json::get_field(content, k)
                    is Some ==> ((crate::protocol::codec::google_generative::stream::candidate_of(out)->0).get("content"@)->0).get(k)
                    == crate::json::get_field(content, k)
            &&& forall|k: Seq<char>|
                !crate::text::begins(k, "__"@) && k != "candidates"@ && k != "usageMetadata"@
                    && #[trigger] crate::json::get_field(f, k) is Some ==> out.get(k)
                    == crate::json::get_field(f, k)
            &&& out.get("usageMetadata"@) matches Some(JsonV::Object(of)) && forall|k: Seq<char>|
                #[trigger] crate::json::get_field(of, k) == crate::json::get_field(uf, k) || (
                crate::json::get_field(uf, k) is None && (k == "promptTokenCount"@ || k
                    == "candidatesTokenCount"@ || k == "totalTokenCount"@))
        }),
{
    let raw = JsonV::Object(f);
    let resp = crate::protocol::codec::google_generative::stream::response_of(raw, fresh, own);
    let out = crate::protocol::codec::google_generative::stream::response_json(resp);
    let parts = crate::protocol::codec::google_generative::stream::parts_of(raw);
    let meta = crate::protocol::codec::google_generative::stream::metadata_of(raw);
    let extra = crate::protocol::codec::google_generative::stream::fields_but(c, "content"@, "finishReason"@, c.len());
    let more = crate::protocol::codec::google_generative::stream::fields_but(content, "role"@, "parts"@, content.len());
    let us = "usageMetadata"@;
    let cs = "candidates"@;
    reveal_strlit("usageMetadata");
    reveal_strlit("candidates");
    reveal_strlit("__");
    assert(us.len() != cs.len());
    lemma_parts_preserved(raw, fresh, own);
    lemma_metadata(f, c, content);
    crate::json::lemma_field_pos(meta, us, meta.len());
    assert(meta.len() > 0);
    let e = Seq::<(Seq<char>, JsonV)>::empty();
    crate::json::lemma_put_get(e, "__google_response_metadata"@, JsonV::Object(meta), us);
    assert(crate::protocol::codec::google_generative::stream::carried_metadata(resp) == Some(JsonV::Object(meta)));
    let bare = crate::protocol::codec::google_generative::stream::bare_json(resp);
    let finish = match resp.stop_reason {
        Some(r) => JsonV::Text(crate::protocol::codec::google_generative::stream::stop_out(r)),
        None => JsonV::Null,
    };
    let first = JsonV::Array(seq![crate::protocol::codec::google_generative::stream::candidate_json(parts).with("finishReason"@, finish)]);
    crate::json::lemma_put_get(e, cs, first, cs);
    crate::json::lemma_put_get(
        crate::json::put_field(e, cs, first),
        us,
        crate::protocol::codec::google_generative::stream::usage_json(resp),
        cs,
    );
    assert(bare.get(cs) == Some(first));
    assert(!crate::text::begins(cs, "__"@)) by {
        assert(cs.subrange(0, 2)[0] == 'c');
    }
    lemma_with_metadata_get(bare, meta, resp.usage, meta.len(), cs);
    assert(meta.take(meta.len() as int) =~= meta);
    lemma_with_metadata_usage(bare, meta, resp.usage, meta.len());
    let o1 = crate::protocol::codec::google_generative::stream::with_metadata(bare, meta, resp.usage, meta.len());
    lemma_inside(o1, meta, parts, finish, extra, more);
    assert(c.take(c.len() as int) =~= c);
    assert(content.take(content.len() as int) =~= content);
    assert forall|k: Seq<char>|
        k != "content"@ && k != "finishReason"@ && #[trigger] crate::json::get_field(c, k)
            is Some implies (crate::protocol::codec::google_generative::stream::candidate_of(out)->0).get(k) == crate::json::get_field(c, k) by {
        lemma_fields_but_get(c, "content"@, "finishReason"@, c.len(), k);
        assert(crate::json::get_field(extra, k) is Some);
    }
    assert forall|k: Seq<char>|
        k != "role"@ && k != "parts"@ && #[trigger] crate::json::get_field(content, k)
            is Some implies ((crate::protocol::codec::google_generative::stream::candidate_of(out)->0).get("content"@)->0).get(k)
        == crate::json::get_field(content, k) by {
        lemma_fields_but_get(content, "role"@, "parts"@, content.len(), k);
        assert(crate::json::get_field(more, k) is Some);
    }
    assert forall|k: Seq<char>|
        !crate::text::begins(k, "__"@) && k != cs && k != us && #[trigger] crate::json::get_field(
            f,
            k,
        ) is Some implies out.get(k) == crate::json::get_field(f, k) by {
        lemma_unknown_field_preserved(f, k, fresh, own);
    }
    let o2 = match crate::json::get_field(meta, "__candidate_extra"@) {
        Some(JsonV::Object(x)) => crate::protocol::codec::google_generative::stream::with_candidate_extra(o1, x),
        _ => o1,
    };
    lemma_candidates_aside(o1, us);
    assert(o2.get(us) == o1.get(us));
    assert(o2 is Object);
    lemma_candidates_aside(o2, us);
    assert(out.get(us) == o1.get(us));
    let of = crate::protocol::codec::google_generative::stream::counts_merged(JsonV::Object(uf), resp.usage);
    assert forall|k: Seq<char>|
        #[trigger] crate::json::get_field(of->Object_0, k) == crate::json::get_field(uf, k) || (
        crate::json::get_field(uf, k) is None && (k == "promptTokenCount"@ || k
            == "candidatesTokenCount"@ || k == "totalTokenCount"@)) by {
        lemma_counts_kept(uf, resp.usage, k);
    }
    lemma_counts_kept(uf, resp.usage, us);
}

} // verus!
