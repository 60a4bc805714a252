//! The access controller: a set-once owner who alone may add admins, each
//! addition authorized by the owner's signature and nonce.

use vstd::prelude::*;

use crate::auth::{auth_outcome, check_auth, nonce_advanced, read_nonce, AuthError, NonceSignature};
use crate::identity::{Identifier, Signature};
use crate::payload::PayloadArg;
use crate::store::{DataStoreKey, Env};

verus! {

/// The name of the operation that adds an admin, as signed: the ASCII
/// bytes of `add_admin`.
pub open spec fn add_admin_name() -> Seq<u8> {
    seq![97u8, 100u8, 100u8, 95u8, 97u8, 100u8, 109u8, 105u8, 110u8]
}

/// The arguments that a signature for adding `admin` covers.
pub open spec fn add_admin_args(admin: Identifier, sig: Signature, nonce: u64) -> Seq<PayloadArg> {
    seq![
        PayloadArg::Identifier(admin),
        PayloadArg::Identifier(sig.spec_identifier()),
        PayloadArg::U64(nonce),
    ]
}

/// What adding `admin` with `sig` and `nonce` does, given the state before:
/// only the owner may add admins, and the owner's signature and nonce must
/// then authorize the call.
pub open spec fn add_admin_outcome(pre: Env, admin: Identifier, sig: Signature, nonce: u64) -> Result<
    (),
    AuthError,
> {
    match pre.owner() {
        None => Err(AuthError::NotOwner),
        Some(owner) => if sig.signer() != owner {
            Err(AuthError::NotOwner)
        } else {
            auth_outcome(pre, sig, nonce, add_admin_name(), add_admin_args(admin, sig, nonce))
        },
    }
}

/// What a call of `set_owner` with `owner` leaves behind: on a store with
/// no owner it succeeds and sets the owner, touching nothing else; otherwise
/// it fails with `AlreadySet` and changes nothing.
pub open spec fn set_owner_post(pre: Env, owner: Seq<u8>, r: Result<(), AuthError>, post: Env) -> bool {
    &&& post.wf()
    &&& (r is Ok <==> pre.owner() is None)
    &&& r is Ok ==> post.owner() == Some(owner) && post.admins() == pre.admins()
        && post.same_nonces(&pre) && post.same_scope(&pre)
    &&& r is Err ==> r == Err::<(), AuthError>(AuthError::AlreadySet) && post == pre
}

/// What a call of `add_admin` leaves behind: the result that
/// `add_admin_outcome` gives; on success the signer's nonce advances by one
/// and `admin` joins the admins; on failure nothing changes.
pub open spec fn add_admin_post(
    pre: Env,
    admin: Identifier,
    sig: Signature,
    nonce: u64,
    r: Result<(), AuthError>,
    post: Env,
) -> bool {
    &&& post.wf()
    &&& r == add_admin_outcome(pre, admin, sig, nonce)
    &&& r is Ok ==> nonce_advanced(post, pre, sig.signer()) && post.admins() == pre.admins().insert(
        admin@,
    )
    &&& r is Err ==> post == pre
}

fn add_admin_symbol() -> (r: Vec<u8>)
    ensures
        r@ == add_admin_name(),
{
    let r = vec![97u8, 100u8, 100u8, 95u8, 97u8, 100u8, 109u8, 105u8, 110u8];
    assert(r@ =~= add_admin_name());
    r
}

/// The operations of the contract, each on an explicit store.
pub struct AuthTokenContract;

impl AuthTokenContract {
    /// Sets the owner; succeeds only while no owner is set.
    pub fn set_owner(e: &mut Env, owner: Identifier) -> (r: Result<(), AuthError>)
        requires
            old(e).wf(),
        ensures
            set_owner_post(*old(e), owner@, r, *final(e)),
    {
        if e.has(&DataStoreKey::Owner) {
            return Err(AuthError::AlreadySet);
        }
        e.write_owner(owner);
        Ok(())
    }

    /// Adds `admin_id` to the admins, on the owner's signature `sig` over the
    /// call and the owner's current `nonce`, which the call consumes.
    pub fn add_admin(e: &mut Env, admin_id: Identifier, sig: Signature, nonce: u64) -> (r: Result<
        (),
        AuthError,
    >)
        requires
            old(e).wf(),
        ensures
            add_admin_post(*old(e), admin_id, sig, nonce, r, *final(e)),
    {
        let auth_id = sig.get_identifier();
        match e.read_owner() {
            None => {
                return Err(AuthError::NotOwner);
            },
            Some(owner) => {
                if !auth_id.same_as(&owner) {
                    return Err(AuthError::NotOwner);
                }
            },
        }
        let mut args: Vec<PayloadArg> = Vec::new();
        args.push(PayloadArg::Identifier(admin_id));
        args.push(PayloadArg::Identifier(auth_id));
        args.push(PayloadArg::U64(nonce));
        assert(args@ =~= add_admin_args(admin_id, sig, nonce));
        let checked = check_auth(e, &NonceSignature(sig), nonce, add_admin_symbol(), args);
        if checked.is_err() {
            return checked;
        }
        e.insert_admin(admin_id);
        Ok(())
    }

    /// The admins, each once.
    pub fn get_admins(e: &Env) -> (r: Vec<Identifier>)
        requires
            e.wf(),
        ensures
            forall|i: int, j: int| 0 <= i < j < r@.len() ==> r@[i]@ != r@[j]@,
            forall|k: Seq<u8>|
                e.admins().contains(k) <==> exists|i: int| 0 <= i < r@.len() && r@[i]@ == k,
    {
        e.admin_list()
    }

    /// The current nonce of `id`: zero until a call signed by `id` succeeds.
    pub fn nonce(e: &Env, id: Identifier) -> (r: u64)
        requires
            e.wf(),
        ensures
            r == e.nonce_of(id@),
    {
        read_nonce(e, &id)
    }
}

} // verus!
