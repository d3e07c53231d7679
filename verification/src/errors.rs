//! The error taxonomy of the vault: authentication, cryptography, storage and
//! session failures, each surfaced to the caller with its specific kind.
use vstd::prelude::*;

verus! {

/// Every failure the vault can report.
///
/// Authentication: `InvalidCredentials` (login or password re-check failed;
/// deliberately the same for a missing user and a wrong password),
/// `UsernameTaken`, `MalformedHash` (a stored password hash that does not
/// parse), `HashingFailed` (the password hasher itself failed).
///
/// Cryptography: `KeyDerivationFailed`, `EncryptionFailed`,
/// `DecryptionFailed` (authentication tag mismatch: tamper or wrong key),
/// `InvalidEnvelope` (too short to hold salt, nonce and ciphertext),
/// `InvalidUtf8` (decrypted bytes are not text; indicates a logic bug, not an
/// attack).
///
/// Storage: `ConnectionFailed` (the store could not be opened or is closed),
/// `Storage` (an underlying database failure, surfaced as-is),
/// `NotFound`, `Validation` (a label or username outside its documented
/// bounds, rejected before any row is written), `DuplicateLabel`,
/// `InvalidKind` (a secret kind string that is neither `password` nor `text`).
///
/// Session: `NotAuthenticated` (a secret operation attempted without a live
/// authenticated session).
#[derive(Clone, Copy, Debug, PartialEq, Eq, Structural)]
pub enum VaultError {
    InvalidCredentials,
    UsernameTaken,
    MalformedHash,
    HashingFailed,
    KeyDerivationFailed,
    EncryptionFailed,
    DecryptionFailed,
    InvalidEnvelope,
    InvalidUtf8,
    ConnectionFailed,
    Storage,
    NotFound,
    Validation,
    DuplicateLabel,
    InvalidKind,
    NotAuthenticated,
}

impl VaultError {
    /// A short human-readable description, in place of a `Display` impl.
    pub fn message(&self) -> &'static str {
        match self {
            VaultError::InvalidCredentials => "invalid username or password",
            VaultError::UsernameTaken => "the username is already taken",
            VaultError::MalformedHash => "the stored password hash does not parse",
            VaultError::HashingFailed => "password hashing failed",
            VaultError::KeyDerivationFailed => "key derivation failed",
            VaultError::EncryptionFailed => "encryption failed",
            VaultError::DecryptionFailed => "decryption failed",
            VaultError::InvalidEnvelope => "invalid ciphertext envelope",
            VaultError::InvalidUtf8 => "decrypted data is not valid text",
            VaultError::ConnectionFailed => "no connection to the database",
            VaultError::Storage => "a database operation failed",
            VaultError::NotFound => "no such record",
            VaultError::Validation => "input rejected by a storage invariant",
            VaultError::DuplicateLabel => "a secret with the same label already exists",
            VaultError::InvalidKind => "invalid secret kind",
            VaultError::NotAuthenticated => "no authenticated session",
        }
    }
}

} // verus!
