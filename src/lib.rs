//! On-ledger access control: a set-once owner, an owner-managed set of
//! admins, and signature-plus-nonce authorization of every privileged change.

pub mod auth;
pub mod contract;
pub mod crypto;
pub mod identity;
pub mod laws;
pub mod payload;
pub mod store;

pub use auth::{AuthError, NonceSignature};
pub use contract::AuthTokenContract;
pub use identity::{Ed25519Signature, Identifier, Signature};
pub use store::{DataStoreKey, Env};
