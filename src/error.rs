use vstd::prelude::*;

verus! {

/// The error of every fallible operation: a message, nothing more.
#[derive(Debug, Clone, PartialEq, Eq)]
pub struct V8Error {
    message: String,
}

impl View for V8Error {
    type V = Seq<char>;

    closed spec fn view(&self) -> Seq<char> {
        self.message@
    }
}

impl V8Error {
    pub fn new(message: &str) -> (r: V8Error)
        ensures
            r@ == message@,
    {
        V8Error { message: message.to_owned() }
    }

    pub fn message(&self) -> (r: &str)
        ensures
            r@ == self@,
    {
        self.message.as_str()
    }
}

} // verus!
