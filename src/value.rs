use vstd::prelude::*;

verus! {

/// The serialized text of a scripted value, owned independently of any
/// native buffer.
#[derive(Debug, Clone, PartialEq, Eq)]
pub struct JsValue {
    raw: String,
}

impl View for JsValue {
    type V = Seq<char>;

    closed spec fn view(&self) -> Seq<char> {
        self.raw@
    }
}

impl JsValue {
    pub fn new(raw: String) -> (r: JsValue)
        ensures
            r@ == raw@,
    {
        JsValue { raw }
    }

    pub fn as_str(&self) -> (r: &str)
        ensures
            r@ == self@,
    {
        self.raw.as_str()
    }

    pub fn into_string(self) -> (r: String)
        ensures
            r@ == self@,
    {
        self.raw
    }
}

} // verus!
