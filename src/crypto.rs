//! Signature verification, done by the Ed25519 implementation of
//! `ed25519_dalek`.

use vstd::prelude::*;

verus! {

/// Whether `signature` is a valid Ed25519 signature by the public key
/// `public_key` over `message`, as strict verification decides it.
pub uninterp spec fn ed25519_verifies(public_key: Seq<u8>, message: Seq<u8>, signature: Seq<u8>) -> bool;

/// Relies on `ed25519_dalek::PublicKey::from_bytes`,
/// `ed25519_dalek::Signature::from_bytes` and
/// `ed25519_dalek::PublicKey::verify_strict`: the outcome depends on the key,
/// the message and the signature bytes alone. Bytes that do not decode to a
/// key or a signature never verify.
#[verifier::external_body]
pub(crate) fn verify_ed25519(public_key: &[u8; 32], message: &Vec<u8>, signature: &[u8; 64]) -> (r: bool)
    ensures
        r == ed25519_verifies(public_key@, message@, signature@),
{
    let key = ed25519_dalek::PublicKey::from_bytes(&public_key[..]);
    let sig = ed25519_dalek::Signature::from_bytes(&signature[..]);
    match (key, sig) {
        (Ok(key), Ok(sig)) => key.verify_strict(message.as_slice(), &sig).is_ok(),
        _ => false,
    }
}

} // verus!
