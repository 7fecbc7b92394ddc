//! The two cryptographic primitives the protocol consumes: Ed25519 signature
//! verification and SHA-256.
use vstd::prelude::*;

verus! {

/// Whether `signature` is a valid Ed25519 signature of `message` under the
/// public key `key`.
pub uninterp spec fn ed25519_accepts(message: Seq<u8>, signature: Seq<u8>, key: Seq<u8>) -> bool;

/// The SHA-256 digest of `data`.
pub uninterp spec fn sha256_of(data: Seq<u8>) -> Seq<u8>;

/// Relies on `ed25519_dalek::PublicKey::from_bytes`,
/// `ed25519_dalek::Signature::from_bytes` and `Verifier::verify`: the answer
/// depends on the three byte strings alone, and a signature that is not
/// 64 bytes long is never accepted.
#[verifier::external_body]
pub(crate) fn verify_ed25519(message: &[u8], signature: &[u8], key: &[u8]) -> (r: bool)
    ensures
        r == ed25519_accepts(message@, signature@, key@),
        signature@.len() != 64 ==> !r,
{
    let public = match ed25519_dalek::PublicKey::from_bytes(key) {
        Ok(k) => k,
        Err(_) => return false,
    };
    let sig = match ed25519_dalek::Signature::from_bytes(signature) {
        Ok(s) => s,
        Err(_) => return false,
    };
    ed25519_dalek::Verifier::verify(&public, message, &sig).is_ok()
}

/// Relies on `sha2::Sha256::digest`: a 32-byte digest that depends on the
/// input bytes alone.
#[verifier::external_body]
pub(crate) fn sha256(data: &[u8]) -> (r: [u8; 32])
    ensures
        r@ == sha256_of(data@),
{
    <sha2::Sha256 as sha2::Digest>::digest(data).into()
}

} // verus!
