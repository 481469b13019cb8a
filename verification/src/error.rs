use vstd::prelude::*;

verus! {

/// An expression evaluation failure, carrying a human-readable message.
#[derive(Debug)]
pub struct ParseError {
    message: String,
}

impl View for ParseError {
    type V = Seq<char>;

    closed spec fn view(&self) -> Seq<char> {
        self.message@
    }
}

impl ParseError {
    /// Builds a failure from its message text.
    pub fn new(msg: &str) -> (r: ParseError)
        ensures
            r@ == msg@,
    {
        ParseError { message: String::from_str(msg) }
    }

    /// The failure's message text.
    pub fn message(&self) -> (m: &str)
        ensures
            m@ == self@,
    {
        self.message.as_str()
    }
}

} // verus!
