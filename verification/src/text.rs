//! Text on its way into and out of the toolkit.
//!
//! The toolkit reads text as null-terminated byte strings, so text that holds
//! a zero byte cannot be handed over. On the way back the toolkit gives bytes
//! that need not be valid UTF-8.

use vstd::prelude::*;
use vstd::string::StringSliceAdditionalSpecFns;
use vstd::utf8::{decode_utf8, encode_scalar, encode_utf8, is_scalar, valid_utf8};
use crate::error::Error;

verus! {

/// Whether a zero byte occurs anywhere in `bytes`.
pub open spec fn has_nul(bytes: Seq<u8>) -> bool {
    exists|i: int| 0 <= i < bytes.len() && bytes[i] == 0u8
}

/// `bytes` followed by the terminating zero byte.
pub open spec fn nul_terminated(bytes: Seq<u8>) -> Seq<u8> {
    bytes.push(0u8)
}

/// What [`encode_or_empty`] yields for `bytes`: the terminated string, or the
/// terminated empty string where `bytes` cannot be encoded.
pub open spec fn nul_terminated_or_empty(bytes: Seq<u8>) -> Seq<u8> {
    if has_nul(bytes) {
        nul_terminated(Seq::empty())
    } else {
        nul_terminated(bytes)
    }
}

/// Encodes `text` as a null-terminated byte string.
///
/// Fails with [`Error::InvalidString`] exactly when `text` holds a zero byte;
/// otherwise the result is the UTF-8 bytes of `text` and one zero byte.
pub fn encode(text: &str) -> (r: Result<Vec<u8>, Error>)
    ensures
        has_nul(text.spec_bytes()) ==> r == Err::<Vec<u8>, Error>(Error::InvalidString),
        !has_nul(text.spec_bytes()) ==> r is Ok && r->Ok_0@ == nul_terminated(text.spec_bytes()),
{
    let bytes = text.as_bytes();
    let mut out: Vec<u8> = Vec::new();
    let mut i: usize = 0;
    while i < bytes.len()
        invariant
            bytes@ == text.spec_bytes(),
            0 <= i <= bytes@.len(),
            out@ == bytes@.subrange(0, i as int),
            forall|j: int| 0 <= j < i ==> bytes@[j] != 0u8,
        decreases bytes@.len() - i,
    {
        let b = bytes[i];
        if b == 0 {
            return Err(Error::InvalidString);
        }
        out.push(b);
        assert(out@ == bytes@.subrange(0, i + 1));
        i += 1;
    }
    assert(bytes@.subrange(0, i as int) == bytes@);
    out.push(0);
    Ok(out)
}

/// Encodes `text` as [`encode`] does, and falls back to the empty string where
/// `text` holds a zero byte.
pub fn encode_or_empty(text: &str) -> (r: Vec<u8>)
    ensures
        r@ == nul_terminated_or_empty(text.spec_bytes()),
{
    match encode(text) {
        Ok(bytes) => bytes,
        Err(_) => {
            let mut empty: Vec<u8> = Vec::new();
            empty.push(0);
            empty
        },
    }
}

/// Measures the width in pixels that `text` takes in the active font.
/// `measure`, the toolkit's measurement, is handed the text null-terminated,
/// with -1 for its length, and its answer is returned as it is. Text that
/// holds a zero byte is measured as the empty text.
pub fn measure_string_width(text: &str, measure: impl FnOnce(&[u8], isize) -> i32) -> (width: i32)
    requires
        forall|encoded: &[u8]|
            encoded@ == nul_terminated_or_empty(text.spec_bytes()) ==> call_requires(
                measure,
                (encoded, -1isize),
            ),
    ensures
        exists|encoded: &[u8]|
            {
                &&& encoded@ == nul_terminated_or_empty(text.spec_bytes())
                &&& #[trigger] call_ensures(measure, (encoded, -1isize), width)
            },
{
    let text = encode_or_empty(text);
    measure(text.as_slice(), -1)
}

/// The text that `String::from_utf8_lossy` makes of `bytes`.
pub uninterp spec fn utf8_lossy(bytes: Seq<u8>) -> Seq<char>;

/// `String::from_utf8_lossy`: the text that `bytes` encode, with the
/// replacement character in place of whatever is not UTF-8. Bytes that are
/// valid UTF-8 come out as the text they encode.
#[verifier::external_body]
pub(crate) fn lossy_text(bytes: &[u8]) -> (text: String)
    ensures
        text@ == utf8_lossy(bytes@),
        valid_utf8(bytes@) ==> text@ == decode_utf8(bytes@),
{
    String::from_utf8_lossy(bytes).into_owned()
}

/// The toolkit reads an encoded text back as it was written: where `bytes`
/// hold no zero byte, the first zero byte of the encoded text is its last
/// byte, and the bytes before it are `bytes`.
pub proof fn terminator_ends_the_text(bytes: Seq<u8>)
    requires
        !has_nul(bytes),
    ensures
        nul_terminated(bytes).len() == bytes.len() + 1,
        nul_terminated(bytes)[bytes.len() as int] == 0u8,
        forall|i: int| 0 <= i < bytes.len() ==> nul_terminated(bytes)[i] != 0u8,
        nul_terminated(bytes).subrange(0, bytes.len() as int) == bytes,
{
    assert(nul_terminated(bytes).subrange(0, bytes.len() as int) =~= bytes);
}

/// Text that cannot be encoded never reaches the toolkit as it is: whatever
/// `bytes` hold, what [`encode_or_empty`] yields ends in its only zero byte.
pub proof fn fallback_is_well_terminated(bytes: Seq<u8>)
    ensures
        nul_terminated_or_empty(bytes).len() >= 1,
        nul_terminated_or_empty(bytes).last() == 0u8,
        !has_nul(nul_terminated_or_empty(bytes).drop_last()),
        has_nul(bytes) ==> nul_terminated_or_empty(bytes) == seq![0u8],
{
    if has_nul(bytes) {
        assert(nul_terminated_or_empty(bytes) =~= seq![0u8]);
        assert(nul_terminated_or_empty(bytes).drop_last() =~= Seq::<u8>::empty());
    } else {
        assert(nul_terminated_or_empty(bytes).drop_last() =~= bytes);
    }
}

/// Whether the null character occurs anywhere in `chars`.
pub open spec fn has_nul_char(chars: Seq<char>) -> bool {
    exists|i: int| 0 <= i < chars.len() && chars[i] as u32 == 0u32
}

proof fn low_bits_of_a_small_scalar(c: u32)
    by (bit_vector)
    requires
        c <= 0x7F,
    ensures
        ((c & 0x7F) as u8 == 0u8) <==> c == 0,
{
}

proof fn marked_bytes_are_not_zero(c: u32)
    by (bit_vector)
    ensures
        0xC0u8 | ((c >> 6) & 0x1F) as u8 != 0u8,
        0xE0u8 | ((c >> 12) & 0x0F) as u8 != 0u8,
        0xF0u8 | ((c >> 18) & 0x7) as u8 != 0u8,
        0x80u8 | (c & 0x3F) as u8 != 0u8,
        0x80u8 | ((c >> 6) & 0x3F) as u8 != 0u8,
        0x80u8 | ((c >> 12) & 0x3F) as u8 != 0u8,
{
}

proof fn scalar_encodes_to_zero_only_if_null(c: u32)
    requires
        is_scalar(c),
    ensures
        has_nul(encode_scalar(c)) <==> c == 0,
{
    let bytes = encode_scalar(c);
    marked_bytes_are_not_zero(c);
    if c <= 0x7F {
        low_bits_of_a_small_scalar(c);
        if c == 0 {
            assert(bytes[0] == 0u8);
        }
    }
}

/// A zero byte in the encoding of a text is a null character of the text, and
/// nothing else: no other character has a zero byte in its UTF-8 encoding.
/// So [`encode`] refuses exactly the texts that hold a null character.
pub proof fn zero_byte_is_null_character(chars: Seq<char>)
    ensures
        has_nul(encode_utf8(chars)) <==> has_nul_char(chars),
    decreases chars.len(),
{
    if chars.len() > 0 {
        let head = encode_scalar(chars[0] as u32);
        let rest = chars.drop_first();
        let tail = encode_utf8(rest);
        let bytes = encode_utf8(chars);
        assert(bytes == head + tail);
        vstd::utf8::char_is_scalar(chars[0]);
        scalar_encodes_to_zero_only_if_null(chars[0] as u32);
        zero_byte_is_null_character(rest);
        if has_nul(bytes) {
            let i = choose|i: int| 0 <= i < bytes.len() && bytes[i] == 0u8;
            if i < head.len() {
                assert(head[i] == 0u8);
                assert(chars[0] as u32 == 0u32);
            } else {
                assert(tail[i - head.len()] == 0u8);
                let j = choose|j: int| 0 <= j < rest.len() && rest[j] as u32 == 0u32;
                assert(chars[j + 1] as u32 == 0u32);
            }
        }
        if has_nul_char(chars) {
            let j = choose|j: int| 0 <= j < chars.len() && chars[j] as u32 == 0u32;
            if j == 0 {
                let i = choose|i: int| 0 <= i < head.len() && head[i] == 0u8;
                assert(bytes[i] == 0u8);
            } else {
                assert(rest[j - 1] as u32 == 0u32);
                let i = choose|i: int| 0 <= i < tail.len() && tail[i] == 0u8;
                assert(bytes[i + head.len()] == 0u8);
            }
        }
    }
}

} // verus!
