//! Key derivation and the per-secret encryption envelope.
//!
//! Two independent Argon2id applications compose into the envelope: a master
//! key derived once per login from the password and the user's stored salt,
//! and a per-secret cipher key derived from the master key and a fresh random
//! salt chosen for every encryption call, so that two secrets never share a
//! cipher key. A sealed secret is the self-contained byte sequence
//! `salt[16] ‖ nonce[12] ‖ AES-256-GCM ciphertext (tag appended)`, sufficient
//! on its own — given the master key — to decrypt.
//!
//! Per-secret salt or nonce reuse across very high secret counts is treated
//! as out of scope: the birthday bound on 16 random bytes plus 12 random
//! bytes is astronomically large.
use vstd::prelude::*;

use crate::errors::VaultError;

verus! {

use vstd::string::StringSliceAdditionalSpecFns;
use vstd::utf8::decode_utf8;
use vstd::utf8::encode_utf8;
use vstd::utf8::valid_utf8;

use aes_gcm::AeadCore;
use aes_gcm::Aes256Gcm;
use aes_gcm::KeyInit;
use aes_gcm::aead::Aead;
use rand::Rng;

broadcast use vstd::utf8::group_utf8_lib;

/// Declares the outside error type of the AEAD API (an opaque unit:
/// deliberately free of any detail about where decryption failed).
#[verifier::external_type_specification]
#[verifier::external_body]
pub struct ExAeadError(aes_gcm::aead::Error);

/// Declares the outside error type of the raw Argon2 key-derivation API.
#[verifier::external_type_specification]
#[verifier::external_body]
pub struct ExArgon2Error(argon2::Error);

/// The 32 bytes that Argon2id with its default parameters derives from
/// `input` and `salt`: a deterministic, memory-hard function of the two
/// arguments alone.
pub uninterp spec fn argon2_key(input: Seq<u8>, salt: Seq<u8>) -> Seq<u8>;

/// The byte sequence AES-256-GCM encryption produces from a 32-byte key, a
/// 12-byte nonce and a plaintext: the ciphertext with its 16-byte
/// authentication tag appended. A deterministic function of the three
/// arguments alone.
pub uninterp spec fn aead_enc(key: Seq<u8>, nonce: Seq<u8>, pt: Seq<u8>) -> Seq<u8>;

/// The per-secret salt stored in the first 16 bytes of an envelope.
pub open spec fn envelope_salt(env: Seq<u8>) -> Seq<u8> {
    env.subrange(0, 16)
}

/// The AEAD nonce stored in bytes 16..28 of an envelope.
pub open spec fn envelope_nonce(env: Seq<u8>) -> Seq<u8> {
    env.subrange(16, 28)
}

/// The AEAD ciphertext (tag included) stored from byte 28 on.
pub open spec fn envelope_body(env: Seq<u8>) -> Seq<u8> {
    env.subrange(28, env.len() as int)
}

/// What it means for `env` to be a valid sealed form of the plaintext `pt`
/// under the master key `master_key`: long enough to hold salt, nonce and a
/// tagged ciphertext, and its body is exactly the AES-256-GCM encryption of
/// `pt` under the cipher key that Argon2id derives from the master key and
/// the envelope's own salt.
pub open spec fn envelope_encrypts(master_key: Seq<u8>, env: Seq<u8>, pt: Seq<u8>) -> bool {
    &&& env.len() > 28
    &&& env.len() == pt.len() + 44
    &&& envelope_body(env) == aead_enc(
        argon2_key(master_key, envelope_salt(env)),
        envelope_nonce(env),
        pt,
    )
}

/// Generates a random 16-byte salt.
///
/// Relies on `rand::thread_rng` and `Rng::gen`: a cryptographically secure
/// random value, about which nothing further can be promised.
#[verifier::external_body]
pub fn generate_salt() -> [u8; 16] {
    rand::thread_rng().gen::<[u8; 16]>()
}

/// Relies on `Aes256Gcm::generate_nonce` over the operating system's RNG:
/// a random 96-bit nonce, about which nothing further can be promised.
#[verifier::external_body]
fn generate_nonce() -> [u8; 12] {
    Aes256Gcm::generate_nonce(&mut rand::rngs::OsRng).into()
}

/// Relies on `Argon2::hash_password_into` with the default Argon2id
/// parameters: a deterministic function of the input and salt alone, filling
/// the 32-byte output. Its source fails only on an out-of-range output,
/// salt or input length, so it succeeds whenever the salt is 8..=2^32-1
/// bytes long and the input at most 2^32-1 bytes.
#[verifier::external_body]
fn kdf32(input: &[u8], salt: &[u8]) -> (r: Result<[u8; 32], argon2::Error>)
    ensures
        r matches Ok(k) ==> k@ == argon2_key(input@, salt@),
        8 <= salt@.len() <= 0xFFFF_FFFFint && input@.len() <= 0xFFFF_FFFFint ==> r is Ok,
{
    let mut key = [0u8; 32];
    argon2::Argon2::default().hash_password_into(input, salt, &mut key)?;
    Ok(key)
}

/// Relies on `Aes256Gcm::encrypt` (AES-256-GCM): a deterministic function of
/// key, nonce and plaintext, returning the ciphertext with the 16-byte
/// authentication tag appended; its source fails only when the plaintext
/// exceeds the AES-GCM length bound of 2^36 bytes.
#[verifier::external_body]
fn aead_encrypt(key: &[u8; 32], nonce: &[u8; 12], pt: &[u8]) -> (r: Result<
    Vec<u8>,
    aes_gcm::aead::Error,
>)
    ensures
        r matches Ok(c) ==> c@ == aead_enc(key@, nonce@, pt@) && c@.len() == pt@.len() + 16,
        pt@.len() <= 0x10_0000_0000int ==> r is Ok,
{
    let cipher = Aes256Gcm::new(aes_gcm::Key::<Aes256Gcm>::from_slice(key));
    cipher.encrypt(aes_gcm::Nonce::from_slice(nonce), pt)
}

/// Relies on `Aes256Gcm::decrypt`: it succeeds exactly on the byte sequences
/// that AES-256-GCM encryption under the same key and nonce produces (the
/// recomputed authentication tag must match, checked in constant time), and
/// then returns the unique plaintext that encrypts to its input.
#[verifier::external_body]
fn aead_decrypt(key: &[u8; 32], nonce: &[u8; 12], ct: &[u8]) -> (r: Result<
    Vec<u8>,
    aes_gcm::aead::Error,
>)
    ensures
        r matches Ok(p) ==> ct@ == aead_enc(key@, nonce@, p@) && ct@.len() == p@.len() + 16,
        forall|p: Seq<u8>|
            p.len() <= 0x10_0000_0000int && ct@ == aead_enc(key@, nonce@, p) ==> r is Ok
                && r->Ok_0@ == p,
{
    let cipher = Aes256Gcm::new(aes_gcm::Key::<Aes256Gcm>::from_slice(key));
    cipher.decrypt(aes_gcm::Nonce::from_slice(nonce), ct)
}

/// Relies on `String::from_utf8`: it succeeds exactly on valid UTF-8 and
/// preserves the bytes.
#[verifier::external_body]
fn bytes_to_string(bytes: Vec<u8>) -> (r: Option<String>)
    ensures
        r matches Some(s) ==> valid_utf8(bytes@) && s@ == decode_utf8(bytes@),
        valid_utf8(bytes@) ==> r is Some,
{
    String::from_utf8(bytes).ok()
}

/// Derives the 32-byte master encryption key from a password and a stored
/// salt: deterministic, so the same password and salt always reproduce the
/// same key at every login.
pub fn derive_encryption_key(passwd: &str, salt: &[u8]) -> (r: Result<[u8; 32], VaultError>)
    ensures
        r matches Ok(k) ==> k@ == argon2_key(passwd.spec_bytes(), salt@),
        8 <= salt@.len() <= 0xFFFF_FFFFint && passwd.spec_bytes().len() <= 0xFFFF_FFFFint
            ==> r is Ok,
        r is Err ==> r == Err::<[u8; 32], VaultError>(VaultError::KeyDerivationFailed),
{
    match kdf32(passwd.as_bytes(), salt) {
        Ok(k) => Ok(k),
        Err(_) => Err(VaultError::KeyDerivationFailed),
    }
}

/// Derives a fresh 32-byte cipher key from the master key and a per-secret
/// salt: the second, independent key-derivation stage of the envelope.
fn derive_cipherkey(encryption_key: &[u8], salt: &[u8]) -> (r: Result<[u8; 32], VaultError>)
    ensures
        r matches Ok(k) ==> k@ == argon2_key(encryption_key@, salt@),
        8 <= salt@.len() <= 0xFFFF_FFFFint && encryption_key@.len() <= 0xFFFF_FFFFint
            ==> r is Ok,
        r is Err ==> r == Err::<[u8; 32], VaultError>(VaultError::KeyDerivationFailed),
{
    match kdf32(encryption_key, salt) {
        Ok(k) => Ok(k),
        Err(_) => Err(VaultError::KeyDerivationFailed),
    }
}

/// Encrypts `secret` under `encryption_key` into a self-describing envelope:
/// a fresh random salt and nonce, a cipher key derived from the master key
/// and that salt, and the AEAD ciphertext, concatenated. Non-deterministic:
/// repeated calls on identical inputs draw fresh salts and nonces.
pub fn encrypt_using_key(encryption_key: &[u8], secret: &str) -> (r: Result<Vec<u8>, VaultError>)
    ensures
        r matches Ok(env) ==> envelope_encrypts(encryption_key@, env@, secret.spec_bytes()),
        encryption_key@.len() <= 0xFFFF_FFFFint && secret.spec_bytes().len()
            <= 0x10_0000_0000int ==> r is Ok,
        r is Err ==> r == Err::<Vec<u8>, VaultError>(VaultError::KeyDerivationFailed) || r
            == Err::<Vec<u8>, VaultError>(VaultError::EncryptionFailed),
{
    let salt = generate_salt();
    let cipher_key = match derive_cipherkey(encryption_key, salt.as_slice()) {
        Ok(k) => k,
        Err(e) => {
            return Err(e);
        },
    };
    let nonce = generate_nonce();
    let body = match aead_encrypt(&cipher_key, &nonce, secret.as_bytes()) {
        Ok(c) => c,
        Err(_) => {
            return Err(VaultError::EncryptionFailed);
        },
    };

    let mut env: Vec<u8> = Vec::new();
    let mut i: usize = 0;
    while i < 16
        invariant
            i <= 16,
            env@ =~= salt@.subrange(0, i as int),
        decreases 16 - i,
    {
        env.push(salt[i]);
        i = i + 1;
    }
    let mut j: usize = 0;
    while j < 12
        invariant
            j <= 12,
            env@ =~= salt@ + nonce@.subrange(0, j as int),
        decreases 12 - j,
    {
        env.push(nonce[j]);
        j = j + 1;
    }
    let mut k: usize = 0;
    while k < body.len()
        invariant
            k <= body@.len(),
            env@ =~= salt@ + nonce@ + body@.subrange(0, k as int),
        decreases body@.len() - k,
    {
        env.push(body[k]);
        k = k + 1;
    }
    proof {
        assert(env@ =~= salt@ + nonce@ + body@);
        assert(envelope_salt(env@) =~= salt@);
        assert(envelope_nonce(env@) =~= nonce@);
        assert(envelope_body(env@) =~= body@);
    }
    Ok(env)
}

/// Decrypts a self-describing envelope under `encryption_key`.
///
/// Fails with `InvalidEnvelope` exactly when the input is too short to hold
/// a salt, a nonce and any ciphertext; with `DecryptionFailed` when the
/// authentication tag does not verify (tamper or wrong key), never returning
/// altered plaintext; and with `InvalidUtf8` when an authentic plaintext is
/// not text. On success the result's bytes are exactly the plaintext the
/// envelope seals — so decryption inverts `encrypt_using_key`.
pub fn decrypt_using_key(encryption_key: &[u8], ciphertext: Vec<u8>) -> (r: Result<
    String,
    VaultError,
>)
    ensures
        r is Err ==> r == Err::<String, VaultError>(VaultError::InvalidEnvelope) || r == Err::<
            String,
            VaultError,
        >(VaultError::KeyDerivationFailed) || r == Err::<String, VaultError>(
            VaultError::DecryptionFailed,
        ) || r == Err::<String, VaultError>(VaultError::InvalidUtf8),
        ciphertext@.len() <= 28 <==> r == Err::<String, VaultError>(VaultError::InvalidEnvelope),
        r matches Ok(s) ==> envelope_encrypts(encryption_key@, ciphertext@, encode_utf8(s@)),
        forall|pt: Seq<u8>|
            #![trigger envelope_encrypts(encryption_key@, ciphertext@, pt)]
            envelope_encrypts(encryption_key@, ciphertext@, pt) && valid_utf8(pt)
                && encryption_key@.len() <= 0xFFFF_FFFFint && pt.len() <= 0x10_0000_0000int
                ==> r is Ok && encode_utf8(r->Ok_0@) == pt,
        r == Err::<String, VaultError>(VaultError::DecryptionFailed) ==> !(exists|pt: Seq<u8>|
            pt.len() <= 0x10_0000_0000int && envelope_encrypts(
                encryption_key@,
                ciphertext@,
                pt,
            )),
        r == Err::<String, VaultError>(VaultError::InvalidUtf8) ==> (exists|pt: Seq<u8>|
            envelope_encrypts(encryption_key@, ciphertext@, pt) && !valid_utf8(pt)),
{
    if ciphertext.len() <= 28 {
        return Err(VaultError::InvalidEnvelope);
    }
    let n = ciphertext.len();

    let mut salt = [0u8; 16];
    let mut i: usize = 0;
    while i < 16
        invariant
            i <= 16,
            ciphertext@.len() > 28,
            forall|x: int| 0 <= x < i ==> salt@[x] == ciphertext@[x],
        decreases 16 - i,
    {
        salt[i] = ciphertext[i];
        i = i + 1;
    }
    let mut nonce = [0u8; 12];
    let mut j: usize = 0;
    while j < 12
        invariant
            j <= 12,
            ciphertext@.len() > 28,
            forall|x: int| 0 <= x < 16 ==> salt@[x] == ciphertext@[x],
            forall|x: int| 0 <= x < j ==> nonce@[x] == ciphertext@[16 + x],
        decreases 12 - j,
    {
        nonce[j] = ciphertext[16 + j];
        j = j + 1;
    }
    let mut body: Vec<u8> = Vec::new();
    let mut k: usize = 28;
    while k < n
        invariant
            28 <= k <= n,
            n == ciphertext@.len(),
            body@ =~= ciphertext@.subrange(28, k as int),
        decreases n - k,
    {
        body.push(ciphertext[k]);
        k = k + 1;
    }
    proof {
        assert(salt@ =~= envelope_salt(ciphertext@));
        assert(nonce@ =~= envelope_nonce(ciphertext@));
        assert(body@ =~= envelope_body(ciphertext@));
    }

    let cipher_key = match derive_cipherkey(encryption_key, salt.as_slice()) {
        Ok(ck) => ck,
        Err(e) => {
            return Err(e);
        },
    };
    let plain = match aead_decrypt(&cipher_key, &nonce, body.as_slice()) {
        Ok(p) => p,
        Err(_) => {
            return Err(VaultError::DecryptionFailed);
        },
    };
    match bytes_to_string(plain) {
        Some(s) => Ok(s),
        None => Err(VaultError::InvalidUtf8),
    }
}

} // verus!
