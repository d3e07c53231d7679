//! lockkey: a local encrypted secret vault.
//!
//! Users authenticate with a master password (Argon2id, PHC-string storage);
//! a per-login master key is derived from the password and a stored salt;
//! each secret is sealed in a self-describing envelope
//! (salt ‖ nonce ‖ AES-256-GCM ciphertext) under a per-secret cipher key;
//! envelopes live in a SQLite store with per-user label uniqueness and
//! strict owner isolation; a session state machine gates every secret
//! operation and zeroizes key material on each teardown path.
use vstd::prelude::*;

pub mod auth;
pub mod data;
pub mod encryption;
pub mod errors;
pub mod session;

pub use data::DbConn;
pub use data::Kind;
pub use data::RetrieveLabelsQueryResult;
pub use errors::VaultError;
pub use session::Secret;
pub use session::Session;
pub use session::create_new_account;
