//! The buffer that an information log is read into, and the text made of it.

use vstd::prelude::*;
use vstd::utf8::{
    decode_utf8, encode_utf8, encode_utf8_decode_utf8, encode_utf8_valid_utf8, is_ascii_chars,
    is_ascii_chars_encode_utf8, valid_utf8,
};

verus! {

/// The byte of a space.
pub const SPACE: u8 = 0x20;

/// `len` spaces.
pub open spec fn blank(len: nat) -> Seq<u8> {
    Seq::new(len, |i: int| SPACE)
}

/// The text that a lossy UTF-8 decoder makes of `bytes`.
pub uninterp spec fn lossy_utf8(bytes: Seq<u8>) -> Seq<char>;

/// `String::from_utf8_lossy`: the text of `bytes`, with the replacement
/// character in place of each sequence that is not UTF-8. Where `bytes` is
/// UTF-8 throughout, the text is the one it encodes.
#[verifier::external_body]
fn decode_lossy(bytes: &[u8]) -> (text: String)
    ensures
        text@ == lossy_utf8(bytes@),
        valid_utf8(bytes@) ==> text@ == decode_utf8(bytes@),
{
    String::from_utf8_lossy(bytes).into_owned()
}

/// The text of an information log: the text that its bytes encode where
/// they are UTF-8 throughout, else what the lossy decoder makes of them.
pub open spec fn log_text(bytes: Seq<u8>) -> Seq<char> {
    if valid_utf8(bytes) {
        decode_utf8(bytes)
    } else {
        lossy_utf8(bytes)
    }
}

/// The characters that ASCII bytes stand for, one for one.
pub open spec fn ascii_text(bytes: Seq<u8>) -> Seq<char> {
    Seq::new(bytes.len(), |i: int| bytes[i] as char)
}

/// A log of no bytes reads as the empty text.
pub proof fn empty_log_reads_as_nothing()
    ensures
        log_text(Seq::empty()) == Seq::<char>::empty(),
{
    assert(valid_utf8(Seq::<u8>::empty()));
}

/// A log in ASCII reads as the same characters, its zero bytes included.
pub proof fn ascii_log_reads_as_itself(bytes: Seq<u8>)
    requires
        forall|i: int| 0 <= i < bytes.len() ==> bytes[i] < 0x80,
    ensures
        valid_utf8(bytes),
        log_text(bytes) == ascii_text(bytes),
{
    let chars = ascii_text(bytes);
    assert(is_ascii_chars(chars));
    is_ascii_chars_encode_utf8(chars);
    assert(encode_utf8(chars) =~= bytes);
    encode_utf8_valid_utf8(chars);
    encode_utf8_decode_utf8(chars);
}

/// The text of an information log as OpenGL left it in `buffer`.
pub fn info_log_text(buffer: &Vec<u8>) -> (text: String)
    ensures
        text@ == log_text(buffer@),
{
    decode_lossy(buffer.as_slice())
}

/// A buffer of `len` spaces, to be overwritten with an information log of
/// that length.
pub fn blank_buffer(len: usize) -> (buffer: Vec<u8>)
    ensures
        buffer@ == blank(len as nat),
{
    let mut buffer: Vec<u8> = Vec::new();
    let mut filled: usize = 0;
    while filled < len
        invariant
            filled <= len,
            buffer@ == blank(filled as nat),
        decreases len - filled,
    {
        buffer.push(SPACE);
        filled = filled + 1;
    }
    buffer
}

} // verus!
