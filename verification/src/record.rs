//! Decoding of a record's payload into the text of an outbound message.
use vstd::prelude::*;
use vstd::utf8::{decode_utf8, valid_utf8};

verus! {

/// The Unicode replacement character, which stands in for bytes that are not UTF-8.
pub const REPLACEMENT: char = '\u{FFFD}';

/// The text that lossy UTF-8 decoding gives for `bytes`.
pub uninterp spec fn lossy_text(bytes: Seq<u8>) -> Seq<char>;

/// Whether `text` is what lossy decoding makes of `bytes`: well-formed UTF-8
/// decoded as it is, anything else with at least one U+FFFD in it.
pub open spec fn is_lossy_text_of(text: Seq<char>, bytes: Seq<u8>) -> bool {
    &&& text == lossy_text(bytes)
    &&& valid_utf8(bytes) ==> text == decode_utf8(bytes)
    &&& !valid_utf8(bytes) ==> text.contains(REPLACEMENT)
}

/// Calls `String::from_utf8_lossy` and takes ownership of what it returns.
///
/// Trusted: the result is the lossy decoding of `bytes`. For well-formed UTF-8 that
/// is the encoded text itself; otherwise every malformed sequence has been replaced
/// by U+FFFD, so the text holds at least one.
#[verifier::external_body]
fn utf8_lossy(bytes: &[u8]) -> (text: String)
    ensures
        text@ == lossy_text(bytes@),
        valid_utf8(bytes@) ==> text@ == decode_utf8(bytes@),
        !valid_utf8(bytes@) ==> text@.contains(REPLACEMENT),
{
    String::from_utf8_lossy(bytes).into_owned()
}

/// Decodes the payload of a record into the text of the message that carries it.
///
/// Decoding never fails: bytes that are not UTF-8 come out as U+FFFD.
pub fn decode_record(payload: &[u8]) -> (text: String)
    ensures
        is_lossy_text_of(text@, payload@),
{
    utf8_lossy(payload)
}

} // verus!
