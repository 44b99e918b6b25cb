//! The bridge for the toolkit's generic messages.
//!
//! Besides its fixed callbacks an element has one slot for messages of any
//! code. The toolkit sends a code, an auxiliary integer and an untyped
//! payload, and takes an integer back. The bridge hands code and payload to
//! the handler registered for the element and marshals the handler's reply
//! into the buffer that a query for an item's text brings along.

use vstd::prelude::*;
use vstd::string::StringSliceAdditionalSpecFns;
use vstd::utf8::{decode_utf8, valid_utf8};
use crate::element::ElementWrapper;

verus! {

/// The code of the table's query for the text of one cell.
pub const UI_MSG_TABLE_GET_ITEM: i32 = 51;

/// The code that reports the left mouse button going down.
pub const UI_MSG_LEFT_DOWN: i32 = 11;

/// What answers an element's generic messages: given the element, the
/// message's code and its payload as text, it replies with text.
pub trait EventHandler {
    fn handle(&self, element: &mut ElementWrapper, message: i32, data: &str) -> String;
}

/// The message code as the bridge reads it, where the toolkit declares it
/// unsigned: the same 32 bits, read as a signed number.
pub fn message_code(native: u32) -> (code: i32)
    ensures
        native <= i32::MAX ==> code == native,
        native > i32::MAX ==> code == native - 0x1_0000_0000,
{
    if native <= 0x7fff_ffff {
        native as i32
    } else {
        i32::MIN + ((native - 0x8000_0000) as i32)
    }
}

/// The text of a payload: the empty text where the toolkit sent no payload or
/// one that is not UTF-8.
pub open spec fn payload_text(payload: Option<&[u8]>) -> Seq<char> {
    match payload {
        Some(bytes) => if valid_utf8(bytes@) {
            decode_utf8(bytes@)
        } else {
            Seq::empty()
        },
        None => Seq::empty(),
    }
}

/// `core::str::from_utf8`: the text that `bytes` encode. It yields a text
/// exactly when `bytes` are valid UTF-8, and that text has `bytes` as its
/// encoding.
#[verifier::external_body]
fn utf8_text(bytes: &[u8]) -> (r: Option<&str>)
    ensures
        r is Some <==> valid_utf8(bytes@),
        r is Some ==> r->Some_0.spec_bytes() == bytes@,
{
    core::str::from_utf8(bytes).ok()
}

/// Reads a message's payload as text. `payload` holds the bytes before the
/// payload's terminating zero byte, or nothing where the toolkit sent the null
/// address.
pub fn decode_payload<'a>(payload: Option<&'a [u8]>) -> (text: &'a str)
    ensures
        text@ == payload_text(payload),
{
    proof {
        reveal_strlit("");
    }
    match payload {
        Some(bytes) => match utf8_text(bytes) {
            Some(text) => {
                proof {
                    vstd::utf8::encode_utf8_decode_utf8(text@);
                }
                text
            },
            None => "",
        },
        None => "",
    }
}

/// Whether a reply to `message` is marshalled back to the toolkit: only a
/// reply that is not empty, and only to the query for an item's text.
pub open spec fn is_marshalled(message: i32, reply: Seq<u8>) -> bool {
    message == UI_MSG_TABLE_GET_ITEM && reply.len() > 0
}

/// How many bytes of `reply` reach a buffer of `capacity` bytes.
pub open spec fn bytes_copied(message: i32, reply: Seq<u8>, capacity: int) -> int {
    if !is_marshalled(message, reply) {
        0
    } else if reply.len() <= capacity {
        reply.len() as int
    } else {
        capacity
    }
}

/// The buffer `dest` after `reply` has been marshalled into it: the bytes that
/// fit stand at its start, and what lies behind them is as it was.
pub open spec fn buffer_after(message: i32, reply: Seq<u8>, dest: Seq<u8>) -> Seq<u8> {
    let n = bytes_copied(message, reply, dest.len() as int);
    reply.subrange(0, n) + dest.subrange(n, dest.len() as int)
}

/// A count as the toolkit holds it, in 32 bits with a sign: the count itself
/// where it fits, and its low 32 bits where it does not.
pub open spec fn native_count(n: int) -> i32 {
    n as i32
}

/// Marshals the handler's `reply` to `message` into `dest`, the buffer that
/// the query brought along, and returns the toolkit's result: the number of
/// bytes copied. A reply longer than the buffer is cut off at the buffer's
/// end. An empty reply, or one to any other message, leaves the buffer as it
/// is and returns 0.
pub fn marshal_reply(message: i32, reply: &str, dest: &mut [u8]) -> (copied: i32)
    ensures
        final(dest)@ == buffer_after(message, reply.spec_bytes(), old(dest)@),
        copied == native_count(bytes_copied(message, reply.spec_bytes(), old(dest)@.len() as int)),
{
    let bytes = reply.as_bytes();
    if message != UI_MSG_TABLE_GET_ITEM || bytes.len() == 0 {
        assert(dest@ =~= buffer_after(message, reply.spec_bytes(), dest@));
        return 0;
    }
    let n: usize = if bytes.len() <= dest.len() {
        bytes.len()
    } else {
        dest.len()
    };
    let mut i: usize = 0;
    while i < n
        invariant
            0 <= i <= n,
            n <= bytes@.len(),
            n <= dest@.len(),
            dest@.len() == old(dest)@.len(),
            dest@ =~= bytes@.subrange(0, i as int) + old(dest)@.subrange(i as int, dest@.len() as int),
        decreases n - i,
    {
        dest[i] = bytes[i];
        i += 1;
    }
    #[verifier::truncate]
    (n as i32)
}

/// Marshalling never writes past the buffer: the number of bytes copied is at
/// most the buffer's capacity and at most the reply's length, and the buffer
/// keeps its length.
pub proof fn marshalling_stays_within_the_buffer(message: i32, reply: Seq<u8>, dest: Seq<u8>)
    ensures
        0 <= bytes_copied(message, reply, dest.len() as int) <= dest.len(),
        bytes_copied(message, reply, dest.len() as int) <= reply.len(),
        buffer_after(message, reply, dest).len() == dest.len(),
        dest.len() <= i32::MAX ==> native_count(bytes_copied(message, reply, dest.len() as int))
            == bytes_copied(message, reply, dest.len() as int),
{
}

/// A reply to the query for an item's text that is longer than the buffer is
/// cut off: exactly as many bytes as the buffer holds are copied, and they
/// are the reply's first bytes.
pub proof fn long_reply_is_cut_off(reply: Seq<u8>, dest: Seq<u8>)
    requires
        reply.len() > dest.len(),
    ensures
        bytes_copied(UI_MSG_TABLE_GET_ITEM, reply, dest.len() as int) == dest.len(),
        buffer_after(UI_MSG_TABLE_GET_ITEM, reply, dest) == reply.subrange(0, dest.len() as int),
{
    assert(buffer_after(UI_MSG_TABLE_GET_ITEM, reply, dest) =~= reply.subrange(
        0,
        dest.len() as int,
    ));
}

/// A reply to the query for an item's text that fits the buffer is copied
/// whole, and the buffer's bytes behind it stay as they were.
pub proof fn short_reply_is_copied_whole(reply: Seq<u8>, dest: Seq<u8>)
    requires
        0 < reply.len() <= dest.len(),
    ensures
        bytes_copied(UI_MSG_TABLE_GET_ITEM, reply, dest.len() as int) == reply.len(),
        buffer_after(UI_MSG_TABLE_GET_ITEM, reply, dest) == reply + dest.subrange(
            reply.len() as int,
            dest.len() as int,
        ),
{
    assert(reply.subrange(0, reply.len() as int) =~= reply);
}

/// An empty reply leaves the buffer untouched and returns 0, whatever the
/// message.
pub proof fn empty_reply_leaves_the_buffer(message: i32, dest: Seq<u8>)
    ensures
        bytes_copied(message, Seq::empty(), dest.len() as int) == 0,
        buffer_after(message, Seq::empty(), dest) == dest,
        native_count(bytes_copied(message, Seq::empty(), dest.len() as int)) == 0,
{
    assert(buffer_after(message, Seq::empty(), dest) =~= dest);
}

/// A reply to any message but the query for an item's text is dropped: the
/// buffer stays untouched and the result is 0.
pub proof fn other_replies_are_dropped(message: i32, reply: Seq<u8>, dest: Seq<u8>)
    requires
        message != UI_MSG_TABLE_GET_ITEM,
    ensures
        bytes_copied(message, reply, dest.len() as int) == 0,
        buffer_after(message, reply, dest) == dest,
{
    assert(buffer_after(message, reply, dest) =~= dest);
}

} // verus!
