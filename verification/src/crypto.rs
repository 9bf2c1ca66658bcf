use ed25519_dalek::Signer;
use ed25519_dalek::Verifier;
use rand::RngCore;
use vstd::prelude::*;

verus! {

// The two cryptographic primitives behind the text-signing core, each behind a
// contract that names its result, and a verified constant-time comparison.

/// The 32-byte keyed blake3 digest of a message.
pub uninterp spec fn blake3_keyed_digest(key: Seq<u8>, msg: Seq<u8>) -> Seq<u8>;

/// The 64-byte deterministic ed25519 signature made with a secret key.
pub uninterp spec fn ed25519_signature(sk: Seq<u8>, msg: Seq<u8>) -> Seq<u8>;

/// The 32-byte ed25519 public key derived from a secret key.
pub uninterp spec fn ed25519_public_of(sk: Seq<u8>) -> Seq<u8>;

/// Whether ed25519 verification accepts a signature on a message under the
/// given public-key bytes.
pub uninterp spec fn ed25519_accepts(pk: Seq<u8>, msg: Seq<u8>, sig: Seq<u8>) -> bool;

/// Relies on blake3::keyed_hash: a 32-byte digest determined by the key and
/// the message alone.
#[verifier::external_body]
pub(crate) fn keyed_hash(key: &[u8], msg: &[u8]) -> (r: Vec<u8>)
    requires
        key@.len() == 32,
    ensures
        r@ == blake3_keyed_digest(key@, msg@),
        r@.len() == 32,
{
    let k: [u8; 32] = key.try_into().unwrap();
    blake3::keyed_hash(&k, msg).as_bytes().to_vec()
}

/// Relies on ed25519_dalek::SigningKey::sign, the deterministic RFC 8032
/// signing operation: the 64-byte signature is determined by the secret key
/// and the message alone, and verifies under the derived public key.
#[verifier::external_body]
pub(crate) fn ed25519_sign(sk: &[u8], msg: &[u8]) -> (r: Vec<u8>)
    requires
        sk@.len() == 32,
    ensures
        r@ == ed25519_signature(sk@, msg@),
        r@.len() == 64,
        ed25519_accepts(ed25519_public_of(sk@), msg@, r@),
{
    let key = ed25519_dalek::SigningKey::from_bytes(sk.try_into().unwrap());
    key.sign(msg).to_bytes().to_vec()
}

/// Relies on ed25519_dalek::VerifyingKey::from_bytes and
/// ed25519_dalek::VerifyingKey::verify: acceptance is determined by the
/// public-key bytes, the message and the signature alone; bytes that decode to
/// no valid public key accept nothing.
#[verifier::external_body]
pub(crate) fn ed25519_verify(pk: &[u8], msg: &[u8], sig: &[u8]) -> (r: bool)
    requires
        pk@.len() == 32,
        sig@.len() == 64,
    ensures
        r == ed25519_accepts(pk@, msg@, sig@),
{
    match ed25519_dalek::VerifyingKey::from_bytes(pk.try_into().unwrap()) {
        Ok(vk) => {
            let s = ed25519_dalek::Signature::from_bytes(sig.try_into().unwrap());
            vk.verify(msg, &s).is_ok()
        }
        Err(_) => false,
    }
}

/// Relies on ed25519_dalek::SigningKey::verifying_key: the public key derived
/// from the 32-byte secret key.
#[verifier::external_body]
pub(crate) fn ed25519_public_key(sk: &[u8]) -> (r: Vec<u8>)
    requires
        sk@.len() == 32,
    ensures
        r@ == ed25519_public_of(sk@),
        r@.len() == 32,
{
    let key = ed25519_dalek::SigningKey::from_bytes(sk.try_into().unwrap());
    key.verifying_key().to_bytes().to_vec()
}

/// Relies on rand::rngs::OsRng::fill_bytes: 32 fresh bytes from the operating
/// system's secure random source. Nothing is promised of their values.
#[verifier::external_body]
pub(crate) fn fresh_key_bytes() -> (r: Vec<u8>)
    ensures
        r@.len() == 32,
{
    let mut buf = [0u8; 32];
    rand::rngs::OsRng.fill_bytes(&mut buf);
    buf.to_vec()
}

/// Byte-for-byte equality whose running time does not depend on the position
/// of the first mismatch: differences are folded into an accumulator and
/// tested only once, after the whole buffers have been walked.
pub fn ct_eq(a: &[u8], b: &[u8]) -> (r: bool)
    ensures
        r == (a@ == b@),
{
    if a.len() != b.len() {
        return false;
    }
    let n = a.len();
    let mut diff: u8 = 0;
    let mut i: usize = 0;
    while i < n
        invariant
            n == a@.len(),
            n == b@.len(),
            i <= n,
            (diff == 0) <==> (forall|j: int| 0 <= j < i ==> a@[j] == b@[j]),
        decreases n - i,
    {
        let ai = a[i];
        let bi = b[i];
        let x = ai ^ bi;
        assert((ai ^ bi) == 0 <==> ai == bi) by (bit_vector);
        let prev = diff;
        diff = prev | x;
        assert((prev | x) == 0 <==> (prev == 0 && x == 0)) by (bit_vector);
        i = i + 1;
    }
    if diff == 0 {
        assert(a@ =~= b@);
        true
    } else {
        false
    }
}

} // verus!
