use vstd::prelude::*;
use vstd::string::*;
use vstd::utf8::*;

use crate::error::V8Error;
use crate::value::JsValue;

verus! {

/// Message of the usage error for text that holds a terminator byte.
pub const NULL_BYTE_MESSAGE: &'static str = "input contained an interior null byte";

/// True when the text holds the terminator character, whose encoding is the
/// terminator byte.
pub open spec fn holds_terminator(text: Seq<char>) -> bool {
    text.contains('\0')
}

/// The buffer handed to the native side for a text: its UTF-8 encoding and a
/// terminator byte.
pub open spec fn native_text(text: Seq<char>) -> Seq<u8> {
    encode_utf8(text).push(0u8)
}

/// The text that `String::from_utf8_lossy` makes of bytes that are not valid
/// UTF-8.
pub uninterp spec fn lossy_text(bytes: Seq<u8>) -> Seq<char>;

/// The text read back from the bytes of a native buffer: valid UTF-8 decodes
/// as it stands, anything else goes through lossy replacement.
pub open spec fn decoded_text(bytes: Seq<u8>) -> Seq<char> {
    if valid_utf8(bytes) {
        decode_utf8(bytes)
    } else {
        lossy_text(bytes)
    }
}

/// The terminator byte occurs in the encoding of a text exactly where the
/// terminator character occurs in the text.
pub proof fn lemma_terminator_byte(text: Seq<char>)
    ensures
        encode_utf8(text).contains(0u8) <==> holds_terminator(text),
    decreases text.len(),
{
    broadcast use char_is_scalar;

    if text.len() > 0 {
        let rest = text.drop_first();
        lemma_terminator_byte(rest);
        let c = text[0] as u32;
        let head = encode_scalar(c);
        assert(head.contains(0u8) <==> c == 0) by {
            if has_width_1_encoding(c) {
                assert(c <= 0x7F ==> (((c & 0x7F) as u8 == 0) <==> c == 0)) by (bit_vector);
                assert(head[0] == leading_byte_width_1(c));
            } else {
                assert(forall|x: u8| #[trigger] (0x80u8 | x) != 0) by (bit_vector);
                assert(forall|x: u8| #[trigger] (0xC0u8 | x) != 0) by (bit_vector);
                assert(forall|x: u8| #[trigger] (0xE0u8 | x) != 0) by (bit_vector);
                assert(forall|x: u8| #[trigger] (0xF0u8 | x) != 0) by (bit_vector);
                assert(forall|i: int| 0 <= i < head.len() ==> head[i] != 0);
            }
        }
        assert(encode_utf8(text) == head + encode_utf8(rest));
        assert(encode_utf8(text).contains(0u8) <==> (head.contains(0u8) || encode_utf8(
            rest,
        ).contains(0u8))) by {
            let all = head + encode_utf8(rest);
            if head.contains(0u8) {
                let i = choose|i: int| 0 <= i < head.len() && head[i] == 0u8;
                assert(all[i] == 0u8);
            }
            if encode_utf8(rest).contains(0u8) {
                let i = choose|i: int| 0 <= i < encode_utf8(rest).len() && encode_utf8(rest)[i] == 0u8;
                assert(all[head.len() + i] == 0u8);
            }
        }
        assert(holds_terminator(text) <==> (text[0] == '\0' || holds_terminator(rest))) by {
            if holds_terminator(rest) {
                let i = choose|i: int| 0 <= i < rest.len() && rest[i] == '\0';
                assert(text[i + 1] == '\0');
            }
            if holds_terminator(text) && text[0] != '\0' {
                let i = choose|i: int| 0 <= i < text.len() && text[i] == '\0';
                assert(rest[i - 1] == '\0');
            }
        }
        assert(text[0] == '\0' <==> c == 0) by {
            assert(('\0' as u32) == 0u32);
            char_u32_cast('\0', 0u32);
            char_u32_cast(text[0], c);
        }
    }
}

/// Prepares a text for the native side: its terminated UTF-8 buffer, or a
/// usage error when the text holds a terminator.
pub fn to_native_text(text: &str) -> (r: Result<Vec<u8>, V8Error>)
    ensures
        match r {
            Ok(buf) => !holds_terminator(text@) && buf@ == native_text(text@),
            Err(e) => holds_terminator(text@) && e@ == NULL_BYTE_MESSAGE@,
        },
{
    let bytes = text.as_bytes();
    let mut buf: Vec<u8> = Vec::new();
    let mut i: usize = 0;
    while i < bytes.len()
        invariant
            bytes@ == encode_utf8(text@),
            0 <= i <= bytes@.len(),
            buf@ == bytes@.subrange(0, i as int),
            forall|j: int| 0 <= j < i ==> bytes@[j] != 0u8,
        decreases bytes@.len() - i,
    {
        if bytes[i] == 0 {
            assert(bytes@[i as int] == 0u8);
            proof {
                lemma_terminator_byte(text@);
            }
            return Err(V8Error::new(NULL_BYTE_MESSAGE));
        }
        buf.push(bytes[i]);
        i = i + 1;
    }
    assert(buf@ == encode_utf8(text@));
    proof {
        lemma_terminator_byte(text@);
    }
    buf.push(0u8);
    Ok(buf)
}

/// Relies on `String::from_utf8_lossy`: valid UTF-8 comes back as the text it
/// encodes; other bytes get replacement characters (named by `lossy_text`).
#[verifier::external_body]
fn decode_lossy(bytes: &[u8]) -> (r: String)
    ensures
        valid_utf8(bytes@) ==> r@ == decode_utf8(bytes@),
        !valid_utf8(bytes@) ==> r@ == lossy_text(bytes@),
{
    String::from_utf8_lossy(bytes).into_owned()
}

/// The text held by a native buffer, given the bytes before its terminator.
pub fn text_from_native(bytes: &[u8]) -> (r: String)
    ensures
        r@ == decoded_text(bytes@),
{
    decode_lossy(bytes)
}

/// What a native call left behind: its status flag and the bytes of the
/// result and error buffers it filled, read up to their terminators. The
/// buffers themselves have already been released by the time this value
/// exists; absence stands for a null buffer.
#[derive(Debug)]
pub struct NativeOutcome {
    pub status: i32,
    pub result: Option<Vec<u8>>,
    pub error: Option<Vec<u8>>,
}

/// The bytes of a buffer that may be absent.
pub open spec fn buffer_view(buffer: Option<Vec<u8>>) -> Option<Seq<u8>> {
    match buffer {
        Some(b) => Some(b@),
        None => None,
    }
}

/// The text of a native buffer, absent when the buffer was.
pub open spec fn buffer_text(buffer: Option<Seq<u8>>) -> Option<Seq<char>> {
    match buffer {
        Some(b) => Some(decoded_text(b)),
        None => None,
    }
}

/// The message of a failed native call: the text of its error buffer, or the
/// fallback when it supplied none.
pub open spec fn error_message(error: Option<Seq<u8>>, fallback: Seq<char>) -> Seq<char> {
    match error {
        Some(b) => decoded_text(b),
        None => fallback,
    }
}

/// The result of a native call that yields a value: the result text on
/// success (empty when there was no result buffer), the error message
/// otherwise.
pub open spec fn value_result(
    status: i32,
    result: Option<Seq<u8>>,
    error: Option<Seq<u8>>,
    fallback: Seq<char>,
) -> Result<Seq<char>, Seq<char>> {
    if status == 0 {
        Err(error_message(error, fallback))
    } else {
        match result {
            Some(b) => Ok(decoded_text(b)),
            None => Ok(Seq::empty()),
        }
    }
}

/// A value result, as text.
pub open spec fn value_view(r: Result<JsValue, V8Error>) -> Result<Seq<char>, Seq<char>> {
    match r {
        Ok(v) => Ok(v@),
        Err(e) => Err(e@),
    }
}

/// Copies the text of a native buffer, if there was one.
pub fn take_string(buffer: Option<Vec<u8>>) -> (r: Option<String>)
    ensures
        match r {
            Some(t) => buffer_text(buffer_view(buffer)) == Some(t@),
            None => buffer is None,
        },
{
    match buffer {
        Some(b) => Some(text_from_native(b.as_slice())),
        None => None,
    }
}

/// The error of a failed native call, from its error buffer or, when it
/// supplied none, from the fallback message.
pub fn take_error(error: Option<Vec<u8>>, fallback: &str) -> (r: V8Error)
    ensures
        r@ == error_message(buffer_view(error), fallback@),
{
    match take_string(error) {
        Some(message) => V8Error::new(message.as_str()),
        None => V8Error::new(fallback),
    }
}

/// Interprets the outcome of a native call that yields a value.
pub fn value_outcome(outcome: NativeOutcome, fallback: &str) -> (r: Result<JsValue, V8Error>)
    ensures
        value_view(r) == value_result(
            outcome.status,
            buffer_view(outcome.result),
            buffer_view(outcome.error),
            fallback@,
        ),
{
    if outcome.status == 0 {
        return Err(take_error(outcome.error, fallback));
    }
    match take_string(outcome.result) {
        Some(text) => Ok(JsValue::new(text)),
        None => Ok(JsValue::new(String::new())),
    }
}

/// Interprets the outcome of a native call that yields no value.
pub fn status_outcome(status: i32, error: Option<Vec<u8>>, fallback: &str) -> (r: Result<
    (),
    V8Error,
>)
    ensures
        r is Ok <==> status != 0,
        match r {
            Ok(_) => true,
            Err(e) => e@ == error_message(buffer_view(error), fallback@),
        },
{
    if status == 0 {
        Err(take_error(error, fallback))
    } else {
        Ok(())
    }
}

/// Text without a terminator survives the trip across the boundary: the
/// buffer handed to the native side ends in its only terminator, and the
/// bytes before it read back as the same text.
pub proof fn lemma_text_round_trip(text: Seq<char>)
    requires
        !holds_terminator(text),
    ensures
        native_text(text).last() == 0u8,
        !native_text(text).drop_last().contains(0u8),
        decoded_text(native_text(text).drop_last()) == text,
{
    broadcast use encode_utf8_valid_utf8, encode_utf8_decode_utf8;

    lemma_terminator_byte(text);
    assert(native_text(text).drop_last() == encode_utf8(text));
}

} // verus!
