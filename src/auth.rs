//! Authorization of one privileged call: a signature over the canonical
//! payload, bound to the signer's current nonce, which the call consumes.

use vstd::prelude::*;

use crate::crypto::{ed25519_verifies, verify_ed25519};
use crate::identity::{Identifier, Signature};
use crate::payload::{payload_bytes, PayloadArg, SignaturePayload};
use crate::store::Env;

verus! {

/// Why a call was refused.
#[derive(Clone, Copy, Debug, PartialEq, Eq, Structural)]
pub enum AuthError {
    /// The owner is already set and cannot be set again.
    AlreadySet,
    /// The call is reserved to the owner.
    NotOwner,
    /// The signature does not verify over the call's payload.
    InvalidSignature,
    /// The nonce is not the signer's current nonce.
    NonceMismatch,
    /// The signer's nonce counter has reached its largest value.
    NonceExhausted,
}

/// Whether `sig` is a valid signature over `message` by the key it carries.
pub open spec fn signature_valid(sig: Signature, message: Seq<u8>) -> bool {
    match sig {
        Signature::Ed25519(s) => ed25519_verifies(s.public_key@, message, s.signature@),
    }
}

/// What authorizing a call does, given the state before it: the signature
/// is checked first, then the nonce.
pub open spec fn auth_outcome(
    pre: Env,
    sig: Signature,
    nonce: u64,
    function: Seq<u8>,
    args: Seq<PayloadArg>,
) -> Result<(), AuthError> {
    let message = payload_bytes(function, pre.contract_id(), pre.network(), args);
    if !signature_valid(sig, message) {
        Err(AuthError::InvalidSignature)
    } else if nonce != pre.nonce_of(sig.signer()) {
        Err(AuthError::NonceMismatch)
    } else if nonce == u64::MAX {
        Err(AuthError::NonceExhausted)
    } else {
        Ok(())
    }
}

/// `post` is `pre` with the nonce of `id` one higher, and nothing else
/// changed but possibly the admins.
pub open spec fn nonce_advanced(post: Env, pre: Env, id: Seq<u8>) -> bool {
    &&& post.wf()
    &&& post.nonce_of(id) == pre.nonce_of(id) + 1
    &&& post.has_nonce(id)
    &&& forall|k: Seq<u8>|
        k != id ==> post.nonce_of(k) == pre.nonce_of(k) && post.has_nonce(k) == pre.has_nonce(k)
    &&& post.owner() == pre.owner()
    &&& post.same_scope(&pre)
}

/// The nonce counter of `id`, zero if none is stored.
pub fn read_nonce(e: &Env, id: &Identifier) -> (r: u64)
    requires
        e.wf(),
    ensures
        r == e.nonce_of(id@),
{
    e.read_nonce(id)
}

/// A signature whose signer's nonce is consumed by a successful check.
pub struct NonceSignature(pub Signature);

impl NonceSignature {
    /// The nonce counter of `id`, zero if none is stored.
    pub fn read_nonce(e: &Env, id: &Identifier) -> (r: u64)
        requires
            e.wf(),
        ensures
            r == e.nonce_of(id@),
    {
        read_nonce(e, id)
    }

    /// Returns the nonce of `id` and stores it one higher.
    pub fn read_and_increment_nonce(&self, e: &mut Env, id: Identifier) -> (r: u64)
        requires
            old(e).wf(),
            old(e).nonce_of(id@) < u64::MAX,
        ensures
            r == old(e).nonce_of(id@),
            nonce_advanced(*final(e), *old(e), id@),
            final(e).admins() == old(e).admins(),
    {
        let nonce = Self::read_nonce(e, &id);
        e.write_nonce(id, nonce + 1);
        nonce
    }

    /// The signature.
    pub fn signature(&self) -> (r: &Signature)
        ensures
            *r == self.0,
    {
        &self.0
    }
}

/// Checks that the signature of `auth` verifies over the payload of a call
/// of `function` with `args` in this store's scope, and that `nonce` is the
/// signer's current nonce; on success the signer's nonce advances by one.
/// A refused call leaves the store as it was.
pub fn check_auth(
    e: &mut Env,
    auth: &NonceSignature,
    nonce: u64,
    function: Vec<u8>,
    args: Vec<PayloadArg>,
) -> (r: Result<(), AuthError>)
    requires
        old(e).wf(),
    ensures
        r == auth_outcome(*old(e), auth.0, nonce, function@, args@),
        r is Ok ==> nonce_advanced(*final(e), *old(e), auth.0.signer()),
        r is Ok ==> final(e).admins() == old(e).admins(),
        r is Err ==> *final(e) == *old(e),
{
    let payload = SignaturePayload {
        function,
        contract: e.contract(),
        network: e.network_passphrase(),
        args,
    };
    let message = payload.to_bytes();
    let sig = auth.signature();
    let valid = match sig {
        Signature::Ed25519(s) => verify_ed25519(&s.public_key, &message, &s.signature),
    };
    if !valid {
        return Err(AuthError::InvalidSignature);
    }
    let id = sig.get_identifier();
    let current = NonceSignature::read_nonce(e, &id);
    if nonce != current {
        return Err(AuthError::NonceMismatch);
    }
    if current == u64::MAX {
        return Err(AuthError::NonceExhausted);
    }
    auth.read_and_increment_nonce(e, id);
    Ok(())
}

} // verus!
