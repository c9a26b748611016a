use chrome_password_unlock::crypto::{
    decrypt_password, derive_key, encrypt_password_legacy, encrypt_password_modern,
};
use chrome_password_unlock::models::DecryptError;
use aes_gcm::aead::Aead;
use aes_gcm::KeyInit;

const NONCE: [u8; 12] = [7, 1, 4, 1, 5, 9, 2, 6, 5, 3, 5, 8];

#[test]
fn derive_key_is_deterministic() {
    let a = derive_key("correct horse battery staple");
    let b = derive_key("correct horse battery staple");
    assert_eq!(a, b);
    assert_eq!(a.len(), 16);
}

#[test]
fn derive_key_distinguishes_secrets() {
    let a = derive_key("alpha");
    let b = derive_key("beta");
    assert_ne!(a, b);
}

#[test]
fn derive_key_matches_reference_kdf() {
    let secret = "swordfish";
    let mut expected = [0u8; 16];
    pbkdf2::pbkdf2_hmac::<sha1::Sha1>(secret.as_bytes(), b"saltysalt", 1003, &mut expected);
    assert_eq!(derive_key(secret), expected.to_vec());
}

#[test]
fn round_trip_legacy() {
    let key = derive_key("session secret");
    let blob = encrypt_password_legacy(&key, "hunter2");
    assert_eq!(decrypt_password(&key, &blob).unwrap(), "hunter2");
}

#[test]
fn round_trip_legacy_empty_password() {
    let key = derive_key("session secret");
    let blob = encrypt_password_legacy(&key, "");
    assert_eq!(decrypt_password(&key, &blob).unwrap(), "");
}

#[test]
fn round_trip_modern() {
    let key = derive_key("session secret");
    let blob = encrypt_password_modern(&key, &NONCE, "p4ssw0rd!");
    assert_eq!(decrypt_password(&key, &blob).unwrap(), "p4ssw0rd!");
}

#[test]
fn round_trip_modern_unicode() {
    let key = derive_key("session secret");
    let blob = encrypt_password_modern(&key, &NONCE, "contraseña σύνθημα");
    assert_eq!(decrypt_password(&key, &blob).unwrap(), "contraseña σύνθημα");
}

#[test]
fn legacy_layout_is_exact() {
    let key = derive_key("k");
    let blob = encrypt_password_legacy(&key, "hunter2");
    assert_eq!(&blob[0..3], b"v10");
    // 7 plaintext bytes pad to one 16-byte block
    assert_eq!(blob.len(), 3 + 16);
}

#[test]
fn modern_layout_is_exact() {
    let key = derive_key("k");
    let blob = encrypt_password_modern(&key, &NONCE, "hunter2");
    assert_eq!(&blob[0..3], b"v20");
    assert_eq!(&blob[3..15], &NONCE);
    // nonce + 7 ciphertext bytes + 16-byte integrity tag
    assert_eq!(blob.len(), 3 + 12 + 7 + 16);
}

#[test]
fn modern_blob_interoperates_with_reference_cipher() {
    let key = derive_key("interop");
    let cipher = aes_gcm::Aes128Gcm::new_from_slice(&key).unwrap();
    let nonce = aes_gcm::Nonce::try_from(&NONCE[..]).unwrap();
    let sealed = cipher.encrypt(&nonce, "by the book".as_bytes()).unwrap();
    let mut blob = b"v20".to_vec();
    blob.extend_from_slice(&NONCE);
    blob.extend_from_slice(&sealed);
    assert_eq!(decrypt_password(&key, &blob).unwrap(), "by the book");
}

#[test]
fn tamper_detection_modern_every_bit_position() {
    // Flipping any bit of the tag bytes, nonce, body or integrity tag
    // must make decryption fail; a wrong plaintext must never come back.
    let key = derive_key("tamper");
    let blob = encrypt_password_modern(&key, &NONCE, "integrity matters");
    for i in 0..blob.len() {
        for bit in 0..8 {
            let mut bad = blob.clone();
            bad[i] ^= 1u8 << bit;
            let r = decrypt_password(&key, &bad);
            assert!(r.is_err(), "byte {} bit {} accepted", i, bit);
        }
    }
}

#[test]
fn wrong_key_fails_modern() {
    let key = derive_key("right key");
    let other = derive_key("wrong key");
    let blob = encrypt_password_modern(&key, &NONCE, "guard this");
    let r = decrypt_password(&other, &blob);
    assert!(matches!(r, Err(DecryptError::CryptoError(_))));
}

#[test]
fn wrong_key_fails_legacy() {
    let key = derive_key("right key");
    let other = derive_key("wrong key");
    let blob = encrypt_password_legacy(&key, "guard this too");
    let r = decrypt_password(&other, &blob);
    assert!(matches!(r, Err(DecryptError::CryptoError(_))));
}

#[test]
fn invalid_plaintext_encoding_is_an_error() {
    let key = derive_key("encoding");
    let cipher = aes_gcm::Aes128Gcm::new_from_slice(&key).unwrap();
    let nonce = aes_gcm::Nonce::try_from(&NONCE[..]).unwrap();
    let sealed = cipher.encrypt(&nonce, &[0xffu8, 0xfe, 0xfd][..]).unwrap();
    let mut blob = b"v20".to_vec();
    blob.extend_from_slice(&NONCE);
    blob.extend_from_slice(&sealed);
    let r = decrypt_password(&key, &blob);
    assert!(matches!(r, Err(DecryptError::CryptoError(_))));
}

#[test]
fn too_short_blob_is_an_error() {
    let key = derive_key("k");
    assert!(decrypt_password(&key, b"").is_err());
    assert!(decrypt_password(&key, b"v10").is_err());
    assert!(decrypt_password(&key, &[118u8, 49, 48, 0, 0, 0, 0, 0]).is_err());
}

#[test]
fn unknown_version_tag_is_an_error() {
    let key = derive_key("k");
    let mut blob = b"v99".to_vec();
    blob.extend_from_slice(&[0u8; 32]);
    let r = decrypt_password(&key, &blob);
    assert!(matches!(r, Err(DecryptError::CryptoError(_))));
}

#[test]
fn error_message_text() {
    let e = DecryptError::CryptoError("boom".to_string());
    assert_eq!(e.message(), "Cryptography error: boom");
    assert_eq!(
        DecryptError::LoginDataNotFound.message(),
        "Login data file not found"
    );
}
