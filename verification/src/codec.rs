use base64::engine::general_purpose::STANDARD;
use base64::Engine;
use vstd::prelude::*;
use vstd::utf8::*;

verus! {

/// The text that the standard base64 alphabet, with padding, gives for `bytes`.
pub uninterp spec fn base64_encoded(bytes: Seq<u8>) -> Seq<char>;

/// The bytes that `text` stands for in standard padded base64, or `None`
/// where `text` is not canonical base64.
pub uninterp spec fn base64_decoded(text: Seq<char>) -> Option<Seq<u8>>;

/// Number of characters in the padded base64 encoding of `n` bytes.
pub open spec fn encoded_len(n: nat) -> nat {
    (n + 2) / 3 * 4
}

/// Calls `base64::Engine::encode` on the `STANDARD` engine.
///
/// Trusted: the result is the padded base64 text of `bytes`, it has four
/// characters for every started group of three bytes, and the same engine
/// decodes it back to `bytes`. The engine panics when the encoded length
/// cannot be allocated, so such inputs are excluded.
#[verifier::external_body]
pub(crate) fn encode_base64(bytes: &[u8]) -> (text: String)
    requires
        encoded_len(bytes@.len()) <= isize::MAX,
    ensures
        text@ == base64_encoded(bytes@),
        text@.len() == encoded_len(bytes@.len()),
        base64_decoded(text@) == Some(bytes@),
{
    STANDARD.encode(bytes)
}

/// Calls `base64::Engine::decode` on the `STANDARD` engine.
///
/// Trusted: the result is the decoding of `text`, and it is `None` exactly
/// when the engine reports a decode error.
#[verifier::external_body]
pub(crate) fn decode_base64(text: &str) -> (bytes: Option<Vec<u8>>)
    ensures
        bytes matches Some(b) ==> base64_decoded(text@) == Some(b@),
        bytes is None ==> base64_decoded(text@) is None,
{
    STANDARD.decode(text).ok()
}

/// Calls `String::from_utf8`.
///
/// Trusted: valid UTF-8 input is returned as the text with exactly those
/// bytes, and any other input gives `None`.
#[verifier::external_body]
pub(crate) fn text_from_utf8(bytes: Vec<u8>) -> (text: Option<String>)
    ensures
        text matches Some(s) ==> valid_utf8(bytes@) && encode_utf8(s@) == bytes@,
        text is None ==> !valid_utf8(bytes@),
{
    String::from_utf8(bytes).ok()
}

} // verus!
