//! The request as it came in, kept for verbatim forwarding and for the record.
use vstd::prelude::*;

use crate::json::{Json, JsonV};
use crate::views::Views;

verus! {

/// A snapshot of an inbound request.
#[derive(Debug)]
pub struct RawEnvelope {
    pub body: Option<Json>,
    /// The headers under lowercase names.
    pub headers: Vec<(String, String)>,
    pub method: String,
    pub path: String,
}

pub struct EnvelopeV {
    pub body: Option<JsonV>,
    pub headers: Seq<(Seq<char>, Seq<char>)>,
    pub method: Seq<char>,
    pub path: Seq<char>,
}

/// Name and value pairs by their texts.
pub open spec fn pairs(v: Seq<(String, String)>) -> Seq<(Seq<char>, Seq<char>)> {
    Seq::new(v.len(), |i: int| (v[i].0@, v[i].1@))
}

impl View for RawEnvelope {
    type V = EnvelopeV;

    open spec fn view(&self) -> EnvelopeV {
        EnvelopeV {
            body: self.body.views(),
            headers: pairs(self.headers@),
            method: self.method@,
            path: self.path@,
        }
    }
}

impl Default for RawEnvelope {
    fn default() -> (r: Self)
        ensures
            r.body is None,
            r.headers@.len() == 0,
            r.method@.len() == 0,
            r.path@.len() == 0,
    {
        RawEnvelope {
            body: None,
            headers: Vec::new(),
            method: String::new(),
            path: String::new(),
        }
    }
}

impl RawEnvelope {
    /// A snapshot of its parts.
    pub fn new(
        body: Option<Json>,
        headers: Vec<(String, String)>,
        method: &str,
        path: &str,
    ) -> (r: Self)
        ensures
            r@ == (EnvelopeV {
                body: body.views(),
                headers: pairs(headers@),
                method: method@,
                path: path@,
            }),
    {
        RawEnvelope { body, headers, method: method.to_string(), path: path.to_string() }
    }
}

} // verus!
