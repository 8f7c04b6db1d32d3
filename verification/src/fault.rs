//! The error of what a command cannot do: a message for the user.
use vstd::prelude::*;

verus! {

/// An error with its message.
#[derive(Debug)]
pub struct Fault {
    pub message: String,
}

impl View for Fault {
    type V = Seq<char>;

    open spec fn view(&self) -> Seq<char> {
        self.message@
    }
}

impl Fault {
    /// An error of a message.
    pub fn new(message: &str) -> (r: Self)
        ensures
            r@ == message@,
    {
        Fault { message: message.to_string() }
    }

    /// An error of a message with a text in the middle.
    pub fn about(before: &str, text: &str, after: &str) -> (r: Self)
        ensures
            r@ == before@ + text@ + after@,
    {
        Fault { message: crate::text::cat3(before, text, after) }
    }

    /// The message.
    pub fn to_string(&self) -> (r: String)
        ensures
            r@ == self@,
    {
        self.message.clone()
    }
}

} // verus!
