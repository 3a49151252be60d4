//! The messages that the child sends to the parent before the program
//! starts: a text, closed by a zero byte.

use crate::error::{CatBoxError, ErrorModel};
use vstd::prelude::*;
use vstd::string::StrSliceExecFns;
use vstd::utf8::{
    decode_utf8, encode_scalar, encode_utf8, encode_utf8_decode_utf8, encode_utf8_valid_utf8,
    valid_utf8,
};

verus! {

/// The size of the buffer that the parent reads into.
pub const BUFFER_SIZE: usize = 128;

/// The bytes before the first zero byte.
pub open spec fn until_nul(bytes: Seq<u8>) -> Seq<u8>
    decreases bytes.len(),
{
    if bytes.len() == 0 || bytes[0] == 0 {
        Seq::<u8>::empty()
    } else {
        seq![bytes[0]] + until_nul(bytes.skip(1))
    }
}

/// The text that a buffer holds: what stands before the first zero byte,
/// decoded; nothing if that is not UTF-8.
pub open spec fn message_text(bytes: Seq<u8>) -> Seq<char> {
    let payload = until_nul(bytes);
    if valid_utf8(payload) {
        decode_utf8(payload)
    } else {
        Seq::<char>::empty()
    }
}

/// The bytes that carry a text: its encoding, closed by a zero byte.
pub open spec fn framed(text: Seq<char>) -> Seq<u8> {
    encode_utf8(text).push(0u8)
}

/// Decodes bytes as UTF-8.
///
/// Trusted: `String::from_utf8` of the standard library, which returns the
/// text that the bytes encode, and an error exactly when they are not valid
/// UTF-8.
#[verifier::external_body]
fn text_from_utf8(bytes: Vec<u8>) -> (text: Option<String>)
    ensures
        text is Some <==> valid_utf8(bytes@),
        text is Some ==> text->0@ == decode_utf8(bytes@),
{
    match String::from_utf8(bytes) {
        Ok(text) => Some(text),
        Err(_) => None,
    }
}

/// The text that the buffer of a read holds.
pub fn decode_message(buf: &Vec<u8>) -> (text: String)
    ensures
        text@ == message_text(buf@),
{
    let mut payload: Vec<u8> = Vec::new();
    let mut i: usize = 0;
    assert(buf@.skip(0) == buf@);
    while i < buf.len() && buf[i] != 0
        invariant
            i <= buf.len(),
            until_nul(buf@) == payload@ + until_nul(buf@.skip(i as int)),
        decreases buf.len() - i,
    {
        assert(buf@.skip(i as int).skip(1) == buf@.skip(i as int + 1));
        assert(buf@.skip(i as int)[0] == buf@[i as int]);
        let ghost before = payload@;
        payload.push(buf[i]);
        assert(payload@ + until_nul(buf@.skip(i as int + 1)) =~= before + (seq![buf@[i as int]]
            + until_nul(buf@.skip(i as int + 1))));
        i += 1;
    }
    assert(until_nul(buf@.skip(i as int)) =~= Seq::<u8>::empty()) by {
        if i < buf.len() {
            assert(buf@.skip(i as int)[0] == buf@[i as int]);
        }
    }
    assert(payload@ =~= until_nul(buf@));
    match text_from_utf8(payload) {
        Some(text) => text,
        None => String::new(),
    }
}

/// The bytes to write for a message.
pub fn encode_message(text: &str) -> (bytes: Vec<u8>)
    ensures
        bytes@ == framed(text@),
{
    let mut bytes = text.as_bytes_vec();
    bytes.push(0);
    bytes
}

/// What a message from the child means to the parent: any text at all says
/// that the program was never started.
pub fn exec_failure(message: &str) -> (failure: Option<CatBoxError>)
    ensures
        failure is None <==> message@.len() == 0,
        failure is Some ==> failure->0@ == ErrorModel::Exec(message@),
{
    if message.unicode_len() > 0 {
        Some(CatBoxError::exec(message))
    } else {
        None
    }
}

/// No byte of the encoding of a character other than NUL is zero.
proof fn lemma_scalar_has_no_zero_byte(c: char)
    requires
        c != '\0',
    ensures
        forall|i: int|
            0 <= i < encode_scalar(c as u32).len() ==> #[trigger] encode_scalar(c as u32)[i] != 0,
{
    let v = c as u32;
    assert(v != 0);
    assert(v <= 0x7F && v != 0 ==> (v & 0x7F) as u8 != 0u8) by (bit_vector);
    assert((0xC0u8 | ((v >> 6) & 0x1F) as u8) != 0u8) by (bit_vector);
    assert((0xE0u8 | ((v >> 12) & 0x0F) as u8) != 0u8) by (bit_vector);
    assert((0xF0u8 | ((v >> 18) & 0x7) as u8) != 0u8) by (bit_vector);
    assert((0x80u8 | (v & 0x3F) as u8) != 0u8) by (bit_vector);
    assert((0x80u8 | ((v >> 6) & 0x3F) as u8) != 0u8) by (bit_vector);
    assert((0x80u8 | ((v >> 12) & 0x3F) as u8) != 0u8) by (bit_vector);
}

/// No byte of the encoding of a text without NUL characters is zero.
proof fn lemma_text_has_no_zero_byte(text: Seq<char>)
    requires
        forall|i: int| 0 <= i < text.len() ==> #[trigger] text[i] != '\0',
    ensures
        forall|j: int| 0 <= j < encode_utf8(text).len() ==> #[trigger] encode_utf8(text)[j] != 0,
    decreases text.len(),
{
    if text.len() > 0 {
        lemma_scalar_has_no_zero_byte(text[0]);
        assert forall|i: int| 0 <= i < text.drop_first().len() implies #[trigger] text.drop_first()[i]
            != '\0' by {
            assert(text.drop_first()[i] == text[i + 1]);
        }
        lemma_text_has_no_zero_byte(text.drop_first());
        let first = encode_scalar(text[0] as u32);
        let rest = encode_utf8(text.drop_first());
        assert(encode_utf8(text) == first + rest);
        assert forall|j: int| 0 <= j < encode_utf8(text).len() implies #[trigger] encode_utf8(
            text,
        )[j] != 0 by {
            if j < first.len() {
                assert(encode_utf8(text)[j] == first[j]);
            } else {
                assert(encode_utf8(text)[j] == rest[j - first.len()]);
            }
        }
    }
}

/// Bytes without a zero, followed by a zero, are all that stands before the
/// first zero, whatever follows.
proof fn lemma_until_nul_of_closed(payload: Seq<u8>, rest: Seq<u8>)
    requires
        forall|j: int| 0 <= j < payload.len() ==> #[trigger] payload[j] != 0,
    ensures
        until_nul(payload.push(0u8) + rest) == payload,
    decreases payload.len(),
{
    let all = payload.push(0u8) + rest;
    if payload.len() == 0 {
        assert(all[0] == 0);
        assert(until_nul(all) =~= payload);
    } else {
        assert(all[0] == payload[0]);
        assert forall|j: int| 0 <= j < payload.skip(1).len() implies #[trigger] payload.skip(
            1,
        )[j] != 0 by {
            assert(payload.skip(1)[j] == payload[j + 1]);
        }
        lemma_until_nul_of_closed(payload.skip(1), rest);
        assert(all.skip(1) =~= payload.skip(1).push(0u8) + rest);
        assert(seq![payload[0]] + payload.skip(1) =~= payload);
    }
}

/// A text without NUL characters survives the pipe: what the parent decodes
/// from the bytes that the child wrote, with whatever fills the rest of the
/// buffer, is the text.
pub proof fn lemma_message_survives(text: Seq<char>, padding: Seq<u8>)
    requires
        forall|i: int| 0 <= i < text.len() ==> #[trigger] text[i] != '\0',
    ensures
        message_text(framed(text) + padding) == text,
{
    lemma_text_has_no_zero_byte(text);
    lemma_until_nul_of_closed(encode_utf8(text), padding);
    encode_utf8_valid_utf8(text);
    encode_utf8_decode_utf8(text);
}

} // verus!
