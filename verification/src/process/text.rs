use vstd::prelude::*;

use crate::cli::text::TextSignFormat;
use crate::codec::{b64url_decode, b64url_decoded, b64url_encode, b64url_of};
use crate::crypto::{
    blake3_keyed_digest, ct_eq, ed25519_accepts, ed25519_public_of, ed25519_public_key,
    ed25519_sign, ed25519_signature, ed25519_verify, fresh_key_bytes, keyed_hash,
};

verus! {

// The text-signing core: producing an authentication tag over a byte stream,
// and checking a previously produced tag against a byte stream and a key.
// Reading messages and key files, and writing generated keys to disk, happen
// outside; these operations see plain bytes only.

/// The key length signing demands: a 32-byte secret for the keyed hash, a
/// 32-byte private key for the elliptic-curve signature.
pub open spec fn sig_key_len(format: TextSignFormat) -> nat {
    match format {
        TextSignFormat::Blake3 => 32,
        TextSignFormat::Ed25519 => 32,
    }
}

/// The key length verification demands: the keyed hash reuses the 32-byte
/// secret, the elliptic-curve signature takes the 32-byte public key.
pub open spec fn verify_key_len(format: TextSignFormat) -> nat {
    match format {
        TextSignFormat::Blake3 => 32,
        TextSignFormat::Ed25519 => 32,
    }
}

/// The length of a raw authentication tag.
pub open spec fn tag_len(format: TextSignFormat) -> nat {
    match format {
        TextSignFormat::Blake3 => 32,
        TextSignFormat::Ed25519 => 64,
    }
}

/// The raw tag signing computes from a message and a signing key.
pub open spec fn raw_tag(format: TextSignFormat, key: Seq<u8>, msg: Seq<u8>) -> Seq<u8> {
    match format {
        TextSignFormat::Blake3 => blake3_keyed_digest(key, msg),
        TextSignFormat::Ed25519 => ed25519_signature(key, msg),
    }
}

/// The key under which a tag made with `key` is later checked: the same
/// secret for the keyed hash, the derived public key for the elliptic-curve
/// signature.
pub open spec fn verify_key_for(format: TextSignFormat, key: Seq<u8>) -> Seq<u8> {
    match format {
        TextSignFormat::Blake3 => key,
        TextSignFormat::Ed25519 => ed25519_public_of(key),
    }
}

/// Whether verification accepts a decoded tag: the keyed hash demands
/// byte-for-byte equality with the recomputed digest, the elliptic-curve
/// scheme asks its verification equation.
pub open spec fn tag_accepted(
    format: TextSignFormat,
    key: Seq<u8>,
    msg: Seq<u8>,
    tag: Seq<u8>,
) -> bool {
    match format {
        TextSignFormat::Blake3 => tag == blake3_keyed_digest(key, msg),
        TextSignFormat::Ed25519 => ed25519_accepts(key, msg, tag),
    }
}

/// The outcome of verification on the textual signature: text the decoder
/// refuses and tags of the wrong length are rejected outright, anything else
/// is judged by [`tag_accepted`].
pub open spec fn verify_outcome(
    format: TextSignFormat,
    key: Seq<u8>,
    msg: Seq<u8>,
    sig: Seq<char>,
) -> bool {
    match b64url_decoded(sig) {
        Some(tag) => tag.len() == tag_len(format) && tag_accepted(format, key, msg, tag),
        None => false,
    }
}

/// Why an operation could not run. A failed verification is not an error: it
/// is the ordinary `false` outcome.
#[derive(Debug, Clone, Copy, PartialEq, Eq, Structural)]
pub enum TextError {
    InvalidKeyLength,
}

impl TextError {
    /// A human-readable description of the error.
    pub fn message(&self) -> (r: &'static str)
        ensures
            r@ == "key of the wrong length for the chosen algorithm"@,
    {
        match self {
            TextError::InvalidKeyLength => "key of the wrong length for the chosen algorithm",
        }
    }
}

/// Key material freshly produced for one algorithm.
pub enum KeyMaterial {
    /// The 32-byte shared secret of the keyed hash.
    Symmetric(Vec<u8>),
    /// The 32-byte private signing key and its derived public key.
    Asymmetric(Vec<u8>, Vec<u8>),
}

/// Signs a message: computes the raw tag for the chosen algorithm and encodes
/// it for textual transport. A key of the wrong length is refused before any
/// cryptographic work.
///
/// The second `ensures` clause carries the round trip: the tag this function
/// hands out is exactly what [`process_text_verify`] accepts under the
/// matching verification key.
pub fn process_text_sign(msg: &[u8], key: &[u8], format: TextSignFormat) -> (r: Result<
    String,
    TextError,
>)
    ensures
        r is Ok <==> key@.len() == sig_key_len(format),
        r matches Ok(sig) ==> sig@ == b64url_of(raw_tag(format, key@, msg@))
            && verify_outcome(format, verify_key_for(format, key@), msg@, sig@),
        r matches Ok(sig) ==> sig@.len() == (4 * tag_len(format) + 2) / 3,
        r matches Err(e) ==> e == TextError::InvalidKeyLength,
{
    match format {
        TextSignFormat::Blake3 => {
            if key.len() != 32 {
                return Err(TextError::InvalidKeyLength);
            }
            let tag = keyed_hash(key, msg);
            Ok(b64url_encode(tag.as_slice()))
        },
        TextSignFormat::Ed25519 => {
            if key.len() != 32 {
                return Err(TextError::InvalidKeyLength);
            }
            let tag = ed25519_sign(key, msg);
            Ok(b64url_encode(tag.as_slice()))
        },
    }
}

/// Verifies a textual signature against a message and a key. Text the decoder
/// refuses, or a tag of the wrong length, is the ordinary `false` outcome —
/// the same observable result as a cryptographic mismatch, never a panic. A
/// key of the wrong length is refused before any cryptographic work.
pub fn process_text_verify(msg: &[u8], key: &[u8], format: TextSignFormat, sig: &str) -> (r:
    Result<bool, TextError>)
    ensures
        r is Ok <==> key@.len() == verify_key_len(format),
        r matches Ok(accepted) ==> accepted == verify_outcome(format, key@, msg@, sig@),
        r matches Err(e) ==> e == TextError::InvalidKeyLength,
{
    if key.len() != 32 {
        return Err(TextError::InvalidKeyLength);
    }
    let decoded = b64url_decode(sig);
    match decoded {
        None => Ok(false),
        Some(tag) => {
            match format {
                TextSignFormat::Blake3 => {
                    if tag.len() != 32 {
                        return Ok(false);
                    }
                    let expected = keyed_hash(key, msg);
                    Ok(ct_eq(expected.as_slice(), tag.as_slice()))
                },
                TextSignFormat::Ed25519 => {
                    if tag.len() != 64 {
                        return Ok(false);
                    }
                    Ok(ed25519_verify(key, msg, tag.as_slice()))
                },
            }
        },
    }
}

/// Produces fresh key material for the chosen algorithm: a single shared
/// secret for the keyed hash, a private/public pair — generated together, the
/// public key derived from the private one — for the elliptic-curve scheme.
/// Writing the bytes to their output locations happens outside.
pub fn process_text_key_generate(format: TextSignFormat) -> (r: KeyMaterial)
    ensures
        format == TextSignFormat::Blake3 ==> (r matches KeyMaterial::Symmetric(k) && k@.len()
            == 32),
        format == TextSignFormat::Ed25519 ==> (r matches KeyMaterial::Asymmetric(sk, pk)
            && sk@.len() == 32 && pk@.len() == 32 && pk@ == ed25519_public_of(sk@)),
{
    match format {
        TextSignFormat::Blake3 => KeyMaterial::Symmetric(fresh_key_bytes()),
        TextSignFormat::Ed25519 => {
            let sk = fresh_key_bytes();
            let pk = ed25519_public_key(sk.as_slice());
            KeyMaterial::Asymmetric(sk, pk)
        },
    }
}

/// A keyed-hash tag is accepted exactly when it equals the recomputed digest:
/// altering any byte of a decoded tag makes it a rejected one.
pub proof fn lemma_keyed_hash_tag_uniqueness(key: Seq<u8>, msg: Seq<u8>, tag: Seq<u8>)
    ensures
        tag_accepted(TextSignFormat::Blake3, key, msg, tag) <==> tag == blake3_keyed_digest(
            key,
            msg,
        ),
{
}

/// For the keyed hash, an accepted signature text must decode to exactly the
/// recomputed digest: text that decodes to any other tag, a mutated byte
/// included, is rejected.
pub proof fn lemma_keyed_hash_accepted_text_decodes_to_digest(
    key: Seq<u8>,
    msg: Seq<u8>,
    sig: Seq<char>,
)
    ensures
        verify_outcome(TextSignFormat::Blake3, key, msg, sig) ==> b64url_decoded(sig) == Some(
            blake3_keyed_digest(key, msg),
        ),
{
}

/// Text that the base64 decoder refuses never verifies, for either algorithm
/// and whatever the key and message.
pub proof fn lemma_undecodable_signature_rejected(
    format: TextSignFormat,
    key: Seq<u8>,
    msg: Seq<u8>,
    sig: Seq<char>,
)
    ensures
        b64url_decoded(sig) is None ==> !verify_outcome(format, key, msg, sig),
{
}

} // verus!
