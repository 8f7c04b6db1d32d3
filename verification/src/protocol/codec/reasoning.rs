//! Thinking between `<think>` tags in the text of a whole response.
use vstd::prelude::*;

use crate::protocol::types::{InternalResponse, InternalResponseV};
use crate::views::Views;

verus! {

/// The thoughts and the texts of a content.
pub struct SplitV {
    pub thoughts: Seq<Seq<char>>,
    pub texts: Seq<char>,
}

/// What stands behind a tag is shorter than the whole.
pub proof fn lemma_rest_shrinks(s: Seq<char>, a: Seq<char>, b: Seq<char>)
    requires
        a.len() > 0,
        b.len() > 0,
    ensures
        match crate::text::cut(s, a) {
            Some((_, after)) => after.len() < s.len() && match crate::text::cut(after, b) {
                Some((_, rest)) => rest.len() < s.len(),
                None => true,
            },
            None => true,
        },
{
    crate::text::lemma_find_least(s, a);
    match crate::text::cut(s, a) {
        Some((_, after)) => crate::text::lemma_find_least(after, b),
        None => {},
    }
}

impl SplitV {
    /// A content behind what has been split: thoughts stand between tags and are trimmed, and
    /// dropped where nothing is left; a tag that is never closed is text.
    pub open spec fn more(self, s: Seq<char>) -> SplitV
        decreases s.len(),
    {
        proof {
            reveal_strlit("<think>");
            reveal_strlit("</think>");
            lemma_rest_shrinks(s, "<think>"@, "</think>"@);
        }
        match crate::text::cut(s, "<think>"@) {
            Some((before, after)) => match crate::text::cut(after, "</think>"@) {
                Some((thought, rest)) => {
                    let t = crate::text::trim_of(thought);
                    SplitV {
                        thoughts: if t.len() > 0 {
                            self.thoughts.push(t)
                        } else {
                            self.thoughts
                        },
                        texts: self.texts + before,
                    }.more(rest)
                },
                None => SplitV { texts: self.texts + s, ..self },
            },
            None => SplitV { texts: self.texts + s, ..self },
        }
    }
}

/// A content split from the start.
pub open spec fn split_of(s: Seq<char>) -> SplitV {
    SplitV { thoughts: Seq::empty(), texts: Seq::empty() }.more(s)
}

/// The thinking in a content, line by line.
pub open spec fn thinking_of(s: Seq<char>) -> Option<Seq<char>> {
    if split_of(s).thoughts.len() == 0 {
        None
    } else {
        Some(crate::text::join_of(split_of(s).thoughts, "\n"@))
    }
}

/// The text of a content without its thinking.
pub open spec fn text_of(s: Seq<char>) -> Seq<char> {
    crate::text::trim_of(split_of(s).texts)
}

/// Splits a content into its thinking and its text.
pub fn split_think_tags(content: &str) -> (r: (Option<String>, String))
    ensures
        r.0.views() == thinking_of(content@),
        r.1@ == text_of(content@),
{
    let mut thoughts: Vec<String> = crate::views::none();
    let mut texts = String::new();
    assert(texts@ =~= Seq::<char>::empty());
    let mut remaining: String = content.to_string();
    loop
        invariant_except_break
            (SplitV { thoughts: thoughts.views(), texts: texts@ }).more(remaining@) == split_of(
                content@,
            ),
        ensures
            (SplitV { thoughts: thoughts.views(), texts: texts@ }) == split_of(content@),
        decreases remaining@.len(),
    {
        proof {
            reveal_strlit("<think>");
            reveal_strlit("</think>");
            lemma_rest_shrinks(remaining@, "<think>"@, "</think>"@);
        }
        let rest = match crate::text::split_once(remaining.as_str(), "<think>") {
            Some((before, after)) => match crate::text::split_once(after, "</think>") {
                Some((thought, rest)) => {
                    texts.append(before);
                    let t = crate::text::trim(thought);
                    if !t.is_empty() {
                        crate::views::push(&mut thoughts, t.to_string());
                    }
                    Some(rest.to_string())
                },
                None => None,
            },
            None => None,
        };
        match rest {
            Some(rest) => {
                remaining = rest;
            },
            None => {
                texts.append(remaining.as_str());
                break;
            },
        }
    }
    let thinking = if thoughts.len() == 0 {
        None
    } else {
        Some(crate::text::join(&thoughts, "\n"))
    };
    (thinking, crate::text::trim(texts.as_str()).to_string())
}

/// A response with its thinking in its own field: that between tags, where the field is empty.
pub open spec fn normalized(resp: InternalResponseV) -> InternalResponseV {
    if resp.reasoning_content is Some {
        resp
    } else {
        match thinking_of(resp.content) {
            Some(t) => InternalResponseV {
                reasoning_content: Some(t),
                content: text_of(resp.content),
                ..resp
            },
            None => resp,
        }
    }
}

/// Puts the thinking of a response into its own field.
pub fn normalize_response_reasoning(resp: &mut InternalResponse)
    ensures
        final(resp)@ == normalized(old(resp)@),
{
    if resp.reasoning_content.is_some() {
        return;
    }
    let (thinking, text) = split_think_tags(resp.content.as_str());
    if thinking.is_some() {
        resp.reasoning_content = thinking;
        resp.content = text;
    }
}

/// A response that has its thinking in its own field stays as it is, and so does one that was
/// normalized.
pub proof fn lemma_normalized_once(resp: InternalResponseV)
    ensures
        resp.reasoning_content is Some ==> normalized(resp) == resp,
        normalized(normalized(resp)) == normalized(resp),
{
}

/// A content without an opening tag is text, up to its white space.
pub proof fn lemma_untagged(s: Seq<char>)
    requires
        crate::text::find_of(s, "<think>"@) is None,
    ensures
        thinking_of(s) is None,
        text_of(s) == crate::text::trim_of(s),
{
    assert(Seq::<char>::empty() + s =~= s);
}

/// Thinking that is never closed is text.
pub proof fn lemma_unclosed(s: Seq<char>)
    requires
        crate::text::find_of(s, "<think>"@) is Some,
        crate::text::find_of((crate::text::cut(s, "<think>"@)->0).1, "</think>"@) is None,
    ensures
        thinking_of(s) is None,
        text_of(s) == crate::text::trim_of(s),
{
    assert(Seq::<char>::empty() + s =~= s);
}

} // verus!
