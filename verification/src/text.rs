//! Lossy decoding of captured bytes as UTF-8 text.
//!
//! Decoding cannot fail: bytes that are well-formed UTF-8 give the characters
//! that they encode, and anything else gives text in which the replacement
//! character marks what could not be read.

use vstd::prelude::*;
use vstd::utf8::{decode_utf8, decode_utf8_encode_utf8, encode_utf8, valid_utf8};

verus! {

/// The character that stands in for bytes that are not well-formed UTF-8.
pub const REPLACEMENT: char = '\u{FFFD}';

/// The text that `String::from_utf8_lossy` makes of `bytes`.
pub uninterp spec fn lossy_text(bytes: Seq<u8>) -> Seq<char>;

/// `text` is the lossy decoding of `bytes`, with all that is known of it:
/// well-formed bytes give exactly the characters that they encode, and bytes
/// that are not well-formed give text that holds the replacement character.
pub open spec fn is_lossy_decoding(bytes: Seq<u8>, text: Seq<char>) -> bool {
    &&& text == lossy_text(bytes)
    &&& valid_utf8(bytes) ==> text == decode_utf8(bytes)
    &&& !valid_utf8(bytes) ==> text.contains(REPLACEMENT)
}

/// Calls `String::from_utf8_lossy` and takes the text as an owned `String`.
///
/// Trusted, as the standard library documents it: the text depends on the
/// bytes alone; a slice that is valid UTF-8 comes back as the string that it
/// encodes; in any other slice the invalid sequences are replaced by U+FFFD,
/// so that the text holds that character at least once.
#[verifier::external_body]
pub(crate) fn from_utf8_lossy(bytes: &[u8]) -> (text: String)
    ensures
        text@ == lossy_text(bytes@),
        valid_utf8(bytes@) ==> text@ == decode_utf8(bytes@),
        !valid_utf8(bytes@) ==> text@.contains(REPLACEMENT),
{
    String::from_utf8_lossy(bytes).into_owned()
}

/// A stream to which nothing was written decodes to the empty text.
pub proof fn lemma_empty_stream_is_empty_text(text: Seq<char>)
    requires
        is_lossy_decoding(Seq::<u8>::empty(), text),
    ensures
        text == Seq::<char>::empty(),
{
    assert(valid_utf8(Seq::<u8>::empty()));
    assert(decode_utf8(Seq::<u8>::empty()) =~= Seq::<char>::empty());
}

/// Decoding loses nothing of a well-formed stream: the text encodes to exactly
/// the bytes that were written.
pub proof fn lemma_well_formed_stream_is_kept(bytes: Seq<u8>, text: Seq<char>)
    requires
        valid_utf8(bytes),
        is_lossy_decoding(bytes, text),
    ensures
        encode_utf8(text) == bytes,
{
    decode_utf8_encode_utf8(bytes);
}

/// Text without the replacement character comes from a well-formed stream
/// only, and then holds all of it.
pub proof fn lemma_unmarked_text_is_whole(bytes: Seq<u8>, text: Seq<char>)
    requires
        is_lossy_decoding(bytes, text),
        !text.contains(REPLACEMENT),
    ensures
        valid_utf8(bytes),
        encode_utf8(text) == bytes,
{
    lemma_well_formed_stream_is_kept(bytes, text);
}

} // verus!
