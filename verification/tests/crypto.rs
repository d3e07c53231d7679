//! Password hashing and envelope encryption behavior, exercised end to end
//! against the real Argon2 and AES-GCM implementations.
use lockkey::VaultError;
use lockkey::auth::hash_password;
use lockkey::auth::verify_passwd;
use lockkey::encryption::decrypt_using_key;
use lockkey::encryption::derive_encryption_key;
use lockkey::encryption::encrypt_using_key;
use lockkey::encryption::generate_salt;

#[test]
fn can_hash_and_verify_passwd() {
    let passwd = "test_pass".to_string();
    let hash = hash_password(&passwd).unwrap();
    assert!(verify_passwd(&passwd, &hash).unwrap());
}

#[test]
fn verify_passwd_rejects_wrong_password() {
    let hash = hash_password("test_pass").unwrap();
    assert!(!verify_passwd("test_pass2", &hash).unwrap());
    assert!(!verify_passwd("", &hash).unwrap());
}

#[test]
fn verify_passwd_rejects_malformed_hash() {
    let r = verify_passwd("whatever", "not a phc string");
    assert_eq!(r, Err(VaultError::MalformedHash));
}

#[test]
fn hash_is_not_the_password() {
    let hash = hash_password("test_pass").unwrap();
    assert_ne!(hash, "test_pass");
    // the PHC string is self-describing: hashing twice salts differently
    let hash2 = hash_password("test_pass").unwrap();
    assert_ne!(hash, hash2);
}

#[test]
fn can_encrypt_and_decrypt_using_key() {
    let passwd = "test_password".to_string();
    let secret = "Hello world".to_string();

    let salt = generate_salt();
    let enc_key = derive_encryption_key(&passwd, &salt).unwrap();

    let ciphertext = encrypt_using_key(&enc_key, &secret).unwrap();
    let decrypted = decrypt_using_key(&enc_key, ciphertext).unwrap();

    assert_eq!(secret, decrypted);
}

#[test]
fn key_derivation_is_deterministic() {
    let salt = generate_salt();
    let k1 = derive_encryption_key("test_password", &salt).unwrap();
    let k2 = derive_encryption_key("test_password", &salt).unwrap();
    assert_eq!(k1, k2);
    let k3 = derive_encryption_key("other_password", &salt).unwrap();
    assert_ne!(k1, k3);
}

#[test]
fn encryption_is_nondeterministic() {
    let salt = generate_salt();
    let key = derive_encryption_key("test_password", &salt).unwrap();
    let env1 = encrypt_using_key(&key, "same message").unwrap();
    let env2 = encrypt_using_key(&key, "same message").unwrap();
    // fresh salt and nonce every call: the envelopes differ in their first
    // 28 bytes with overwhelming probability
    assert_ne!(env1, env2);
    assert_ne!(env1[0..28], env2[0..28]);
}

#[test]
fn tamper_detection() {
    let salt = generate_salt();
    let key = derive_encryption_key("test_password", &salt).unwrap();
    let env = encrypt_using_key(&key, "attack at dawn").unwrap();

    // a flipped bit in the ciphertext region
    let mut t1 = env.clone();
    t1[28] ^= 0x01;
    assert_eq!(decrypt_using_key(&key, t1), Err(VaultError::DecryptionFailed));

    // a flipped bit in the middle of the body
    let mut t2 = env.clone();
    let mid = 28 + (env.len() - 28) / 2;
    t2[mid] ^= 0x80;
    assert_eq!(decrypt_using_key(&key, t2), Err(VaultError::DecryptionFailed));

    // a flipped bit in the authentication tag (the last 16 bytes)
    let mut t3 = env.clone();
    let last = env.len() - 1;
    t3[last] ^= 0x10;
    assert_eq!(decrypt_using_key(&key, t3), Err(VaultError::DecryptionFailed));

    // the untampered envelope still decrypts
    assert_eq!(decrypt_using_key(&key, env).unwrap(), "attack at dawn");
}

#[test]
fn wrong_key_fails_decryption() {
    let salt = generate_salt();
    let key = derive_encryption_key("test_password", &salt).unwrap();
    let other = derive_encryption_key("test_passwore", &salt).unwrap();
    let env = encrypt_using_key(&key, "secret").unwrap();
    assert_eq!(decrypt_using_key(&other, env), Err(VaultError::DecryptionFailed));
}

#[test]
fn envelope_length_floor() {
    let salt = generate_salt();
    let key = derive_encryption_key("test_password", &salt).unwrap();
    for n in [0usize, 1, 16, 27, 28] {
        let short = vec![0u8; n];
        assert_eq!(decrypt_using_key(&key, short), Err(VaultError::InvalidEnvelope));
    }
    // 29 bytes clears the floor but cannot carry a valid tag
    let just_past = vec![0u8; 29];
    assert_eq!(decrypt_using_key(&key, just_past), Err(VaultError::DecryptionFailed));
}

#[test]
fn empty_and_unicode_round_trip() {
    let salt = generate_salt();
    let key = derive_encryption_key("test_password", &salt).unwrap();

    let env = encrypt_using_key(&key, "").unwrap();
    assert_eq!(env.len(), 44);
    assert_eq!(decrypt_using_key(&key, env).unwrap(), "");

    let msg = "pâsswörd — 密码 ✓";
    let env2 = encrypt_using_key(&key, msg).unwrap();
    assert_eq!(env2.len(), msg.len() + 44);
    assert_eq!(decrypt_using_key(&key, env2).unwrap(), msg);
}
