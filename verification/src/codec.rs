use base64::Engine;
use vstd::prelude::*;

verus! {

// The textual transport of authentication tags: base64 over the URL-safe
// alphabet, without padding. The codec is kept apart from the cryptographic
// core so that it can be stated and tested on its own.

/// The unpadded URL-safe base64 text of a byte sequence.
pub uninterp spec fn b64url_of(bytes: Seq<u8>) -> Seq<char>;

/// What decoding a piece of text yields: the source bytes for a canonical
/// encoding, nothing for text that the decoder refuses.
pub uninterp spec fn b64url_decoded(text: Seq<char>) -> Option<Seq<u8>>;

/// Relies on base64's URL_SAFE_NO_PAD engine: encode emits the unpadded
/// URL-safe base64 text of the bytes — four characters for every three bytes,
/// and two or three more for a trailing one or two bytes — and the same
/// engine's decode inverts it.
#[verifier::external_body]
fn encode_raw(bytes: &[u8]) -> (r: String)
    ensures
        r@ == b64url_of(bytes@),
        r@.len() == (4 * bytes@.len() + 2) / 3,
        b64url_decoded(r@) == Some(bytes@),
{
    base64::engine::general_purpose::URL_SAFE_NO_PAD.encode(bytes)
}

/// Relies on base64's URL_SAFE_NO_PAD engine: the outcome of decode is
/// determined by the text alone; it refuses padding, characters outside the
/// URL-safe alphabet, and non-zero trailing bits.
#[verifier::external_body]
fn decode_raw(text: &str) -> (r: Option<Vec<u8>>)
    ensures
        r matches Some(v) ==> b64url_decoded(text@) == Some(v@),
        r is None ==> b64url_decoded(text@) is None,
{
    base64::engine::general_purpose::URL_SAFE_NO_PAD.decode(text).ok()
}

/// Encodes bytes for textual transport.
pub fn b64url_encode(bytes: &[u8]) -> (r: String)
    ensures
        r@ == b64url_of(bytes@),
        r@.len() == (4 * bytes@.len() + 2) / 3,
        b64url_decoded(r@) == Some(bytes@),
{
    encode_raw(bytes)
}

/// Decodes textual transport back to bytes; text the decoder refuses yields
/// `None` rather than a panic.
pub fn b64url_decode(text: &str) -> (r: Option<Vec<u8>>)
    ensures
        r matches Some(v) ==> b64url_decoded(text@) == Some(v@),
        r is None ==> b64url_decoded(text@) is None,
{
    decode_raw(text)
}

} // verus!
