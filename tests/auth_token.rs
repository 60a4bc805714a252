use auth_token::auth::AuthError;
use auth_token::contract::AuthTokenContract;
use auth_token::identity::{Ed25519Signature, Identifier, Signature};
use auth_token::payload::{PayloadArg, SignaturePayload};
use auth_token::store::{DataStoreKey, Env};
use ed25519_dalek::{Keypair, Signer};
use rand::thread_rng;

const NETWORK: &str = "Test SDF Network ; September 2015";

fn new_env() -> Env {
    Env::new([0; 32], NETWORK.as_bytes().to_vec())
}

fn generate_keypair() -> Keypair {
    Keypair::generate(&mut thread_rng())
}

fn make_identifier(kp: &Keypair) -> Identifier {
    Identifier::Ed25519(kp.public.to_bytes())
}

fn make_signature(e: &Env, kp: &Keypair, function: &str, args: Vec<PayloadArg>) -> Signature {
    let msg = SignaturePayload {
        function: function.as_bytes().to_vec(),
        contract: [0; 32],
        network: e.network_passphrase(),
        args,
    };
    Signature::Ed25519(Ed25519Signature {
        public_key: kp.public.to_bytes(),
        signature: kp.sign(&msg.to_bytes()).to_bytes(),
    })
}

fn add_admin_args(admin: &Identifier, owner: &Identifier, nonce: u64) -> Vec<PayloadArg> {
    vec![
        PayloadArg::Identifier(*admin),
        PayloadArg::Identifier(*owner),
        PayloadArg::U64(nonce),
    ]
}

fn contains(list: &[Identifier], id: &Identifier) -> bool {
    list.iter().any(|x| x.same_as(id))
}

#[test]
fn test_set_owner() {
    let mut env = new_env();
    let owner_kp = generate_keypair();
    let owner_id = make_identifier(&owner_kp);
    AuthTokenContract::set_owner(&mut env, owner_id).unwrap();
    assert!(env.has(&DataStoreKey::Owner));
}

#[test]
#[should_panic(expected = "owner already set. can't be overriden.")]
fn test_cannot_set_owner_twice() {
    let mut env = new_env();
    let owner_kp = generate_keypair();
    let owner_id = make_identifier(&owner_kp);
    AuthTokenContract::set_owner(&mut env, owner_id).unwrap();

    let malicious_kp = generate_keypair();
    let malicious_id = make_identifier(&malicious_kp);
    AuthTokenContract::set_owner(&mut env, malicious_id)
        .expect("owner already set. can't be overriden.");
}

#[test]
fn test_add_admin() {
    let mut env = new_env();
    let owner_kp = generate_keypair();
    let owner_id = make_identifier(&owner_kp);
    AuthTokenContract::set_owner(&mut env, owner_id).unwrap();

    let admin_kp = generate_keypair();
    let admin_id = make_identifier(&admin_kp);

    let owner_nonce = AuthTokenContract::nonce(&env, owner_id);
    let owner_sig = make_signature(
        &env,
        &owner_kp,
        "add_admin",
        add_admin_args(&admin_id, &owner_id, owner_nonce),
    );

    AuthTokenContract::add_admin(&mut env, admin_id, owner_sig, owner_nonce).unwrap();

    let admins = AuthTokenContract::get_admins(&env);
    assert!(contains(&admins, &admin_id));
}

#[test]
fn second_set_owner_fails_and_keeps_owner() {
    let mut env = new_env();
    let owner_kp = generate_keypair();
    let owner_id = make_identifier(&owner_kp);
    let other_id = make_identifier(&generate_keypair());
    assert_eq!(AuthTokenContract::set_owner(&mut env, owner_id), Ok(()));
    assert_eq!(
        AuthTokenContract::set_owner(&mut env, other_id),
        Err(AuthError::AlreadySet)
    );
    assert_eq!(
        AuthTokenContract::set_owner(&mut env, owner_id),
        Err(AuthError::AlreadySet)
    );
    assert!(env.read_owner().unwrap().same_as(&owner_id));
}

#[test]
fn nonce_of_unseen_identity_is_zero() {
    let mut env = new_env();
    let id = make_identifier(&generate_keypair());
    assert_eq!(AuthTokenContract::nonce(&env, id), 0);
    assert!(!env.has(&DataStoreKey::Nonce(id)));
    AuthTokenContract::set_owner(&mut env, id).unwrap();
    assert_eq!(AuthTokenContract::nonce(&env, id), 0);
    assert!(AuthTokenContract::get_admins(&env).is_empty());
    assert!(!env.has(&DataStoreKey::Admins));
}

#[test]
fn owner_scenario_then_replay() {
    let mut env = new_env();
    let owner_kp = generate_keypair();
    let owner_id = make_identifier(&owner_kp);
    let admin_id = make_identifier(&generate_keypair());
    AuthTokenContract::set_owner(&mut env, owner_id).unwrap();

    let sig = make_signature(&env, &owner_kp, "add_admin", add_admin_args(&admin_id, &owner_id, 0));
    assert_eq!(AuthTokenContract::add_admin(&mut env, admin_id, sig, 0), Ok(()));
    let admins = AuthTokenContract::get_admins(&env);
    assert_eq!(admins.len(), 1);
    assert!(admins[0].same_as(&admin_id));
    assert_eq!(AuthTokenContract::nonce(&env, owner_id), 1);
    assert!(env.has(&DataStoreKey::Admins));
    assert!(env.has(&DataStoreKey::Nonce(owner_id)));

    assert_eq!(
        AuthTokenContract::add_admin(&mut env, admin_id, sig, 0),
        Err(AuthError::NonceMismatch)
    );
    assert_eq!(AuthTokenContract::nonce(&env, owner_id), 1);
    assert_eq!(AuthTokenContract::get_admins(&env).len(), 1);
}

#[test]
fn add_admin_without_owner_is_refused() {
    let mut env = new_env();
    let kp = generate_keypair();
    let id = make_identifier(&kp);
    let admin_id = make_identifier(&generate_keypair());
    let sig = make_signature(&env, &kp, "add_admin", add_admin_args(&admin_id, &id, 0));
    assert_eq!(
        AuthTokenContract::add_admin(&mut env, admin_id, sig, 0),
        Err(AuthError::NotOwner)
    );
    assert_eq!(AuthTokenContract::nonce(&env, id), 0);
}

#[test]
fn non_owner_signature_is_refused() {
    let mut env = new_env();
    let owner_kp = generate_keypair();
    let owner_id = make_identifier(&owner_kp);
    AuthTokenContract::set_owner(&mut env, owner_id).unwrap();

    let intruder_kp = generate_keypair();
    let intruder_id = make_identifier(&intruder_kp);
    let sig = make_signature(
        &env,
        &intruder_kp,
        "add_admin",
        add_admin_args(&intruder_id, &intruder_id, 0),
    );
    assert_eq!(
        AuthTokenContract::add_admin(&mut env, intruder_id, sig, 0),
        Err(AuthError::NotOwner)
    );
    assert_eq!(AuthTokenContract::nonce(&env, intruder_id), 0);
    assert_eq!(AuthTokenContract::nonce(&env, owner_id), 0);
    assert!(AuthTokenContract::get_admins(&env).is_empty());
}

#[test]
fn corrupted_signature_keeps_nonce() {
    let mut env = new_env();
    let owner_kp = generate_keypair();
    let owner_id = make_identifier(&owner_kp);
    let admin_id = make_identifier(&generate_keypair());
    AuthTokenContract::set_owner(&mut env, owner_id).unwrap();

    let sig = make_signature(&env, &owner_kp, "add_admin", add_admin_args(&admin_id, &owner_id, 0));
    let Signature::Ed25519(mut inner) = sig;
    inner.signature[0] ^= 1;
    assert_eq!(
        AuthTokenContract::add_admin(&mut env, admin_id, Signature::Ed25519(inner), 0),
        Err(AuthError::InvalidSignature)
    );
    assert_eq!(AuthTokenContract::nonce(&env, owner_id), 0);
    assert!(AuthTokenContract::get_admins(&env).is_empty());
}

#[test]
fn signature_for_another_admin_is_invalid() {
    let mut env = new_env();
    let owner_kp = generate_keypair();
    let owner_id = make_identifier(&owner_kp);
    let admin_id = make_identifier(&generate_keypair());
    let other_id = make_identifier(&generate_keypair());
    AuthTokenContract::set_owner(&mut env, owner_id).unwrap();

    let sig = make_signature(&env, &owner_kp, "add_admin", add_admin_args(&admin_id, &owner_id, 0));
    assert_eq!(
        AuthTokenContract::add_admin(&mut env, other_id, sig, 0),
        Err(AuthError::InvalidSignature)
    );
    assert_eq!(AuthTokenContract::nonce(&env, owner_id), 0);
}

#[test]
fn signature_for_another_network_is_invalid() {
    let mut env = new_env();
    let other_env = Env::new([0; 32], b"another network".to_vec());
    let owner_kp = generate_keypair();
    let owner_id = make_identifier(&owner_kp);
    let admin_id = make_identifier(&generate_keypair());
    AuthTokenContract::set_owner(&mut env, owner_id).unwrap();

    let sig = make_signature(
        &other_env,
        &owner_kp,
        "add_admin",
        add_admin_args(&admin_id, &owner_id, 0),
    );
    assert_eq!(
        AuthTokenContract::add_admin(&mut env, admin_id, sig, 0),
        Err(AuthError::InvalidSignature)
    );
}

#[test]
fn future_nonce_is_refused() {
    let mut env = new_env();
    let owner_kp = generate_keypair();
    let owner_id = make_identifier(&owner_kp);
    let admin_id = make_identifier(&generate_keypair());
    AuthTokenContract::set_owner(&mut env, owner_id).unwrap();

    let sig = make_signature(&env, &owner_kp, "add_admin", add_admin_args(&admin_id, &owner_id, 1));
    assert_eq!(
        AuthTokenContract::add_admin(&mut env, admin_id, sig, 1),
        Err(AuthError::NonceMismatch)
    );
    assert_eq!(AuthTokenContract::nonce(&env, owner_id), 0);
}

#[test]
fn exhausted_nonce_is_refused() {
    let mut env = new_env();
    let owner_kp = generate_keypair();
    let owner_id = make_identifier(&owner_kp);
    let admin_id = make_identifier(&generate_keypair());
    AuthTokenContract::set_owner(&mut env, owner_id).unwrap();
    env.write_nonce(owner_id, u64::MAX);

    let sig = make_signature(
        &env,
        &owner_kp,
        "add_admin",
        add_admin_args(&admin_id, &owner_id, u64::MAX),
    );
    assert_eq!(
        AuthTokenContract::add_admin(&mut env, admin_id, sig, u64::MAX),
        Err(AuthError::NonceExhausted)
    );
    assert_eq!(AuthTokenContract::nonce(&env, owner_id), u64::MAX);
}

#[test]
fn adding_an_admin_twice_keeps_one_entry() {
    let mut env = new_env();
    let owner_kp = generate_keypair();
    let owner_id = make_identifier(&owner_kp);
    let admin_id = make_identifier(&generate_keypair());
    let second_id = make_identifier(&generate_keypair());
    AuthTokenContract::set_owner(&mut env, owner_id).unwrap();

    for nonce in 0..2u64 {
        let sig = make_signature(
            &env,
            &owner_kp,
            "add_admin",
            add_admin_args(&admin_id, &owner_id, nonce),
        );
        AuthTokenContract::add_admin(&mut env, admin_id, sig, nonce).unwrap();
    }
    let sig = make_signature(&env, &owner_kp, "add_admin", add_admin_args(&second_id, &owner_id, 2));
    AuthTokenContract::add_admin(&mut env, second_id, sig, 2).unwrap();

    let admins = AuthTokenContract::get_admins(&env);
    assert_eq!(admins.len(), 2);
    assert!(contains(&admins, &admin_id));
    assert!(contains(&admins, &second_id));
    assert_eq!(AuthTokenContract::nonce(&env, owner_id), 3);
}

#[test]
fn payload_encoding_is_exact() {
    let payload = SignaturePayload {
        function: b"f".to_vec(),
        contract: [7; 32],
        network: b"ab".to_vec(),
        args: vec![
            PayloadArg::Identifier(Identifier::Ed25519([9; 32])),
            PayloadArg::U64(0x0102030405060708),
        ],
    };
    let mut expected: Vec<u8> = vec![0];
    expected.extend_from_slice(&[0, 0, 0, 0, 0, 0, 0, 1]);
    expected.push(b'f');
    expected.extend_from_slice(&[7; 32]);
    expected.extend_from_slice(&[0, 0, 0, 0, 0, 0, 0, 2]);
    expected.extend_from_slice(b"ab");
    expected.extend_from_slice(&[0, 0, 0, 0, 0, 0, 0, 2]);
    expected.extend_from_slice(&[0, 0]);
    expected.extend_from_slice(&[9; 32]);
    expected.push(1);
    expected.extend_from_slice(&[1, 2, 3, 4, 5, 6, 7, 8]);
    assert_eq!(payload.to_bytes(), expected);
}

#[test]
fn identity_comparison_and_signer() {
    let a = Identifier::Ed25519([1; 32]);
    let mut key = [1; 32];
    key[31] = 2;
    let b = Identifier::Ed25519(key);
    assert!(a.same_as(&a));
    assert!(!a.same_as(&b));
    let sig = Signature::Ed25519(Ed25519Signature { public_key: key, signature: [0; 64] });
    assert!(sig.get_identifier().same_as(&b));
}
