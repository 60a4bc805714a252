//! Properties of the contract that hold across calls, stated over the
//! post-state predicates that the operations guarantee.

use vstd::prelude::*;

use crate::auth::{signature_valid, AuthError};
use crate::contract::{add_admin_args, add_admin_name, add_admin_post, set_owner_post};
use crate::identity::{Identifier, Signature};
use crate::payload::{
    args_bytes, lemma_u64_be_injective, payload_bytes, prefixed, u64_be, PayloadArg,
};
use crate::store::Env;

verus! {

/// Every identity's nonce is zero in a fresh store, and stays zero through
/// any sequence of calls in which none of its own authorized calls succeeded:
/// here, through any call of `set_owner`.
pub proof fn fresh_nonces_are_zero(pre: Env, owner: Seq<u8>, r: Result<(), AuthError>, post: Env, id: Seq<u8>)
    requires
        pre.wf(),
        forall|k: Seq<u8>| pre.nonce_of(k) == 0,
        set_owner_post(pre, owner, r, post),
    ensures
        post.nonce_of(id) == 0,
{
}

/// A call of `add_admin` that fails leaves every nonce as it was, so the
/// nonces of a fresh store stay zero until an authorized call succeeds.
pub proof fn failed_calls_keep_nonces_zero(
    pre: Env,
    admin: Identifier,
    sig: Signature,
    nonce: u64,
    r: Result<(), AuthError>,
    post: Env,
    id: Seq<u8>,
)
    requires
        pre.wf(),
        forall|k: Seq<u8>| pre.nonce_of(k) == 0,
        add_admin_post(pre, admin, sig, nonce, r, post),
        r is Err,
    ensures
        post.nonce_of(id) == 0,
{
}

/// The owner can be set once: the first call on a store without an owner
/// succeeds, and a second call, with any identity, fails with `AlreadySet`
/// and leaves the owner as the first call set it.
pub proof fn owner_is_set_once(
    e0: Env,
    first: Seq<u8>,
    r1: Result<(), AuthError>,
    e1: Env,
    second: Seq<u8>,
    r2: Result<(), AuthError>,
    e2: Env,
)
    requires
        e0.wf(),
        e0.owner() is None,
        set_owner_post(e0, first, r1, e1),
        set_owner_post(e1, second, r2, e2),
    ensures
        r1 is Ok,
        e1.owner() == Some(first),
        r2 == Err::<(), AuthError>(AuthError::AlreadySet),
        e2 == e1,
        e2.owner() == Some(first),
{
}

/// Once an owner is set, no call of `set_owner` succeeds or changes it.
pub proof fn owner_is_never_replaced(pre: Env, other: Seq<u8>, r: Result<(), AuthError>, post: Env)
    requires
        pre.wf(),
        pre.owner() is Some,
        set_owner_post(pre, other, r, post),
    ensures
        r == Err::<(), AuthError>(AuthError::AlreadySet),
        post.owner() == pre.owner(),
{
}

/// Adding an admin succeeds exactly when an owner is set, the signature
/// claims the owner's identity and verifies over the canonical payload of the
/// call, and the nonce is the owner's current one; on success the owner's
/// nonce has advanced by one and the admin is among the admins. (A counter at
/// its largest value cannot advance, so such a counter is left out.)
pub proof fn add_admin_succeeds_exactly_when_authorized(
    pre: Env,
    admin: Identifier,
    sig: Signature,
    nonce: u64,
    r: Result<(), AuthError>,
    post: Env,
)
    requires
        pre.wf(),
        pre.owner() is Some ==> pre.nonce_of(pre.owner()->0) < u64::MAX,
        add_admin_post(pre, admin, sig, nonce, r, post),
    ensures
        r is Ok <==> {
            &&& pre.owner() == Some(sig.signer())
            &&& signature_valid(
                sig,
                payload_bytes(
                    add_admin_name(),
                    pre.contract_id(),
                    pre.network(),
                    add_admin_args(admin, sig, nonce),
                ),
            )
            &&& nonce == pre.nonce_of(sig.signer())
        },
        r is Ok ==> post.nonce_of(sig.signer()) == pre.nonce_of(sig.signer()) + 1,
        r is Ok ==> post.admins().contains(admin@),
{
}

/// Replaying a call that succeeded, with the same signature and nonce, fails
/// with `NonceMismatch`.
pub proof fn replayed_add_admin_fails(
    e0: Env,
    admin: Identifier,
    sig: Signature,
    nonce: u64,
    r1: Result<(), AuthError>,
    e1: Env,
    r2: Result<(), AuthError>,
    e2: Env,
)
    requires
        e0.wf(),
        add_admin_post(e0, admin, sig, nonce, r1, e1),
        r1 is Ok,
        add_admin_post(e1, admin, sig, nonce, r2, e2),
    ensures
        r2 == Err::<(), AuthError>(AuthError::NonceMismatch),
        e2 == e1,
{
}

/// A request signed by anyone but the owner fails with `NotOwner` and
/// changes nothing: neither the signer's nonce nor the owner's advances.
pub proof fn non_owner_is_refused(
    pre: Env,
    admin: Identifier,
    sig: Signature,
    nonce: u64,
    r: Result<(), AuthError>,
    post: Env,
)
    requires
        pre.wf(),
        pre.owner() != Some(sig.signer()),
        add_admin_post(pre, admin, sig, nonce, r, post),
    ensures
        r == Err::<(), AuthError>(AuthError::NotOwner),
        post == pre,
        post.nonce_of(sig.signer()) == pre.nonce_of(sig.signer()),
        pre.owner() is Some ==> post.nonce_of(pre.owner()->0) == pre.nonce_of(pre.owner()->0),
{
}

/// A signature that does not verify over the call's payload never advances
/// the owner's nonce, nor changes anything else.
pub proof fn invalid_signature_has_no_effect(
    pre: Env,
    admin: Identifier,
    sig: Signature,
    nonce: u64,
    r: Result<(), AuthError>,
    post: Env,
)
    requires
        pre.wf(),
        !signature_valid(
            sig,
            payload_bytes(
                add_admin_name(),
                pre.contract_id(),
                pre.network(),
                add_admin_args(admin, sig, nonce),
            ),
        ),
        add_admin_post(pre, admin, sig, nonce, r, post),
    ensures
        r is Err,
        post == pre,
        pre.owner() is Some ==> post.nonce_of(pre.owner()->0) == pre.nonce_of(pre.owner()->0),
{
}

/// The signed payload of an `add_admin` call pins down the admin, the
/// claimed owner and the nonce: in one store, two calls that differ in any
/// of them have different payloads, so a signature over one is no signature
/// over the other.
pub proof fn add_admin_payload_binds_call(
    e: Env,
    admin1: Identifier,
    sig1: Signature,
    nonce1: u64,
    admin2: Identifier,
    sig2: Signature,
    nonce2: u64,
)
    requires
        payload_bytes(add_admin_name(), e.contract_id(), e.network(), add_admin_args(admin1, sig1, nonce1))
            == payload_bytes(
            add_admin_name(),
            e.contract_id(),
            e.network(),
            add_admin_args(admin2, sig2, nonce2),
        ),
    ensures
        admin1@ == admin2@,
        sig1.signer() == sig2.signer(),
        nonce1 == nonce2,
{
    let head = seq![0u8] + prefixed(add_admin_name()) + e.contract_id() + prefixed(e.network())
        + u64_be(3);
    let args1 = add_admin_args(admin1, sig1, nonce1);
    let args2 = add_admin_args(admin2, sig2, nonce2);
    let b1 = args_bytes(args1);
    let b2 = args_bytes(args2);
    assert(payload_bytes(add_admin_name(), e.contract_id(), e.network(), args1) =~= head + b1);
    assert(payload_bytes(add_admin_name(), e.contract_id(), e.network(), args2) =~= head + b2);
    assert(b1 =~= (head + b1).subrange(head.len() as int, (head + b1).len() as int));
    assert(b2 =~= (head + b2).subrange(head.len() as int, (head + b2).len() as int));
    assert(b1 == b2);
    reveal_with_fuel(args_bytes, 4);
    assert(args1.drop_last() =~= seq![args1[0], args1[1]]);
    assert(args1.drop_last().drop_last() =~= seq![args1[0]]);
    assert(args1.drop_last().drop_last().drop_last() =~= Seq::<PayloadArg>::empty());
    assert(args2.drop_last() =~= seq![args2[0], args2[1]]);
    assert(args2.drop_last().drop_last() =~= seq![args2[0]]);
    assert(args2.drop_last().drop_last().drop_last() =~= Seq::<PayloadArg>::empty());
    assert(admin1@ =~= b1.subrange(2, 34));
    assert(admin2@ =~= b2.subrange(2, 34));
    assert(sig1.signer() =~= b1.subrange(36, 68));
    assert(sig2.signer() =~= b2.subrange(36, 68));
    assert(u64_be(nonce1) =~= b1.subrange(69, 77));
    assert(u64_be(nonce2) =~= b2.subrange(69, 77));
    lemma_u64_be_injective(nonce1, nonce2);
}

} // verus!
