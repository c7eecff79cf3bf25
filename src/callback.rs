use vstd::prelude::*;

use crate::error::V8Error;
use crate::marshal::{
    buffer_view, decoded_text, holds_terminator, native_text, text_from_native, to_native_text,
};
use crate::value::JsValue;

verus! {

/// Message reported when a callback's result holds a terminator.
pub const RESULT_NULL_BYTE_MESSAGE: &'static str = "string contained interior null byte";

/// Message reported when a callback's own error message holds a terminator.
pub const HOST_FAILED_MESSAGE: &'static str = "host function failed";

/// What the invocation entry point hands back to the native side: a status
/// flag and the terminated buffers for its result and error slots (absence
/// stands for a null slot).
#[derive(Debug)]
pub struct HostReply {
    pub status: i32,
    pub result: Option<Vec<u8>>,
    pub error: Option<Vec<u8>>,
}

/// The text of one argument buffer; a null one counts as empty text.
pub open spec fn argument_text(buffer: Option<Seq<u8>>) -> Seq<char> {
    match buffer {
        Some(b) => decoded_text(b),
        None => Seq::empty(),
    }
}

/// The result of a callback, as text.
pub open spec fn outcome_view(outcome: Result<Option<JsValue>, V8Error>) -> Result<
    Option<Seq<char>>,
    Seq<char>,
> {
    match outcome {
        Ok(Some(v)) => Ok(Some(v@)),
        Ok(None) => Ok(None),
        Err(e) => Err(e@),
    }
}

/// The reply owed for a callback's result: a value goes to the result slot,
/// no value leaves both slots empty, an error goes to the error slot. Text
/// that cannot cross the boundary is replaced by a fixed error message.
pub open spec fn reply_spec(outcome: Result<Option<Seq<char>>, Seq<char>>) -> (
    i32,
    Option<Seq<u8>>,
    Option<Seq<u8>>,
) {
    match outcome {
        Ok(Some(v)) => if !holds_terminator(v) {
            (1, Some(native_text(v)), None)
        } else {
            (0, None, Some(native_text(RESULT_NULL_BYTE_MESSAGE@)))
        },
        Ok(None) => (1, None, None),
        Err(m) => if !holds_terminator(m) {
            (0, None, Some(native_text(m)))
        } else {
            (0, None, Some(native_text(HOST_FAILED_MESSAGE@)))
        },
    }
}

/// The values passed to a callback, one for each argument buffer.
pub fn arguments_to_values(args: &[Option<Vec<u8>>]) -> (r: Vec<JsValue>)
    ensures
        r@.len() == args@.len(),
        forall|i: int| 0 <= i < args@.len() ==> #[trigger] r@[i]@ == argument_text(
            buffer_view(args@[i]),
        ),
{
    let mut values: Vec<JsValue> = Vec::new();
    let mut i: usize = 0;
    while i < args.len()
        invariant
            0 <= i <= args@.len(),
            values@.len() == i,
            forall|j: int| 0 <= j < i ==> #[trigger] values@[j]@ == argument_text(
                buffer_view(args@[j]),
            ),
        decreases args@.len() - i,
    {
        let text = match &args[i] {
            Some(b) => text_from_native(b.as_slice()),
            None => String::new(),
        };
        values.push(JsValue::new(text));
        i = i + 1;
    }
    values
}

/// The terminated buffer of a text known to hold no terminator.
fn terminated(text: &str) -> (r: Vec<u8>)
    requires
        !holds_terminator(text@),
    ensures
        r@ == native_text(text@),
{
    match to_native_text(text) {
        Ok(b) => b,
        Err(_) => Vec::new(),
    }
}

/// Turns the result of a callback into the reply for the native side.
pub fn reply_for(outcome: Result<Option<JsValue>, V8Error>) -> (r: HostReply)
    ensures
        (r.status, buffer_view(r.result), buffer_view(r.error)) == reply_spec(
            outcome_view(outcome),
        ),
{
    proof {
        reveal_strlit("string contained interior null byte");
        reveal_strlit("host function failed");
    }
    match outcome {
        Ok(Some(value)) => match to_native_text(value.as_str()) {
            Ok(b) => HostReply { status: 1, result: Some(b), error: None },
            Err(_) => {
                assert(!holds_terminator(RESULT_NULL_BYTE_MESSAGE@));
                HostReply {
                    status: 0,
                    result: None,
                    error: Some(terminated(RESULT_NULL_BYTE_MESSAGE)),
                }
            },
        },
        Ok(None) => HostReply { status: 1, result: None, error: None },
        Err(e) => match to_native_text(e.message()) {
            Ok(b) => HostReply { status: 0, result: None, error: Some(b) },
            Err(_) => {
                assert(!holds_terminator(HOST_FAILED_MESSAGE@));
                HostReply { status: 0, result: None, error: Some(terminated(HOST_FAILED_MESSAGE)) }
            },
        },
    }
}

} // verus!
