//! The inline text buffer behind every message: `heapless::String<256>`,
//! reached only through the trusted functions of this module.

use vstd::prelude::*;
use vstd::string::StringSliceAdditionalSpecFns;
use vstd::utf8::encode_utf8;
use crate::config::MAX_LINE_LEN;

verus! {

/// `heapless::String`, a string held inline in `N` bytes, declared so that
/// it can stand in signatures and fields. Nothing inside it is visible to
/// the verifier.
#[verifier::external_type_specification]
#[verifier::external_body]
pub struct ExInlineString<const N: usize>(heapless::String<N>);

/// The bytes that a buffer holds, in order.
pub uninterp spec fn text_bytes(s: heapless::String<256>) -> Seq<u8>;

/// Whether `piece` can be appended to a buffer that holds `held`.
pub open spec fn fits(held: Seq<u8>, piece: Seq<u8>) -> bool {
    held.len() + piece.len() <= MAX_LINE_LEN
}

/// What a buffer holds after an attempt to append `piece`: all of the piece
/// or none of it.
pub open spec fn put(held: Seq<u8>, piece: Seq<u8>) -> Seq<u8> {
    if fits(held, piece) {
        held + piece
    } else {
        held
    }
}

/// `heapless::String::new`: the new buffer holds no bytes.
#[verifier::external_body]
pub(crate) fn buffer_new() -> (s: heapless::String<256>)
    ensures
        text_bytes(s) == Seq::<u8>::empty(),
{
    heapless::String::new()
}

/// `heapless::String::push_str`: appends the UTF-8 bytes of `piece` when
/// they all fit in what is left of the 256 bytes and reports success;
/// otherwise leaves the buffer as it was and reports failure.
#[verifier::external_body]
pub(crate) fn buffer_push_str(s: &mut heapless::String<256>, piece: &str) -> (ok: bool)
    ensures
        ok == fits(text_bytes(*old(s)), piece.spec_bytes()),
        text_bytes(*final(s)) == put(text_bytes(*old(s)), piece.spec_bytes()),
{
    s.push_str(piece).is_ok()
}

/// `heapless::String::push`: appends the UTF-8 encoding of `c` when it fits
/// in what is left of the 256 bytes and reports success; otherwise leaves
/// the buffer as it was and reports failure.
#[verifier::external_body]
pub(crate) fn buffer_push(s: &mut heapless::String<256>, c: char) -> (ok: bool)
    ensures
        ok == fits(text_bytes(*old(s)), encode_utf8(seq![c])),
        text_bytes(*final(s)) == put(text_bytes(*old(s)), encode_utf8(seq![c])),
{
    s.push(c).is_ok()
}

/// `heapless::String::as_str`: the held bytes as a string slice.
#[verifier::external_body]
pub(crate) fn buffer_as_str(s: &heapless::String<256>) -> (r: &str)
    ensures
        r.spec_bytes() == text_bytes(*s),
{
    s.as_str()
}

/// An ASCII character is encoded as the one byte of its code.
pub proof fn lemma_ascii_char_bytes(b: u8)
    requires
        b < 128,
    ensures
        encode_utf8(seq![b as char]) == seq![b],
{
    let chars = seq![b as char];
    assert(vstd::utf8::is_ascii_chars(chars));
    vstd::utf8::is_ascii_chars_encode_utf8(chars);
    assert(encode_utf8(chars)[0] == chars[0] as u8);
    assert(encode_utf8(chars) =~= seq![b]);
}

} // verus!
