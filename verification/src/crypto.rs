//! Key derivation and the versioned ciphertext codec.
//!
//! A master secret is turned into a fixed-length symmetric key by
//! PBKDF2-HMAC-SHA1 with fixed salt, iteration count and output length.
//! Ciphertext blobs start with a three-byte version tag. The legacy
//! generation is AES-128-CBC with an implicit all-spaces IV and PKCS#7
//! padding; the modern generation is AES-128-GCM with a 12-byte nonce
//! embedded right after the tag and a 16-byte integrity tag at the end.

use crate::models::DecryptError;
use aes::cipher::block_padding::Pkcs7;
use aes::cipher::{BlockModeDecrypt, BlockModeEncrypt, KeyIvInit};
use aes_gcm::aead::Aead;
use aes_gcm::KeyInit;
use vstd::prelude::*;
use vstd::utf8::{decode_utf8, encode_utf8, valid_utf8};

verus! {

/// Iteration count of the key derivation, fixed by the target
/// application's own scheme.
pub const PBKDF2_ROUNDS: u32 = 1003;

/// Length in bytes of the derived key (AES-128 key size).
pub const DERIVED_KEY_LEN: usize = 16;

/// Length of the version tag at the start of every blob.
pub const VERSION_TAG_LEN: usize = 3;

/// Shortest blob any supported generation can produce: the legacy tag
/// plus one cipher block.
pub const MIN_BLOB_LEN: usize = 19;

/// Shortest well-formed modern-generation blob: tag, 12-byte nonce and
/// 16-byte integrity tag around an empty ciphertext body.
pub const MODERN_MIN_BLOB_LEN: usize = 31;

/// Salt of the key derivation: the bytes of `saltysalt`.
pub open spec fn spec_salt() -> Seq<u8> {
    seq![115u8, 97u8, 108u8, 116u8, 121u8, 115u8, 97u8, 108u8, 116u8]
}

/// The 16-byte key that PBKDF2-HMAC-SHA1 derives from the given password
/// and salt with the given iteration count.
pub uninterp spec fn pbkdf2_sha1_of(password: Seq<u8>, salt: Seq<u8>, rounds: u32) -> Seq<u8>;

/// What AES-128-CBC decryption with PKCS#7 unpadding returns for the
/// given key, IV and ciphertext; `None` when the input length or the
/// padding is invalid.
pub uninterp spec fn aes128_cbc_decrypt_of(key: Seq<u8>, iv: Seq<u8>, data: Seq<u8>) -> Option<
    Seq<u8>,
>;

/// What AES-128-GCM open (decrypt-and-verify) returns for the given key,
/// nonce and ciphertext-with-trailing-tag; `None` on authentication
/// failure.
pub uninterp spec fn aes128_gcm_open_of(key: Seq<u8>, nonce: Seq<u8>, data: Seq<u8>) -> Option<
    Seq<u8>,
>;

/// Relies on `pbkdf2::pbkdf2_hmac` with `sha1::Sha1`: fills the output
/// buffer (16 bytes here) as a pure function of password, salt and
/// iteration count; accepts any password length.
#[verifier::external_body]
fn pbkdf2_sha1(password: &[u8], salt: &[u8], rounds: u32) -> (key: Vec<u8>)
    ensures
        key@ == pbkdf2_sha1_of(password@, salt@, rounds),
        key@.len() == DERIVED_KEY_LEN,
{
    let mut key = vec![0u8; DERIVED_KEY_LEN];
    pbkdf2::pbkdf2_hmac::<sha1::Sha1>(password, salt, rounds, &mut key);
    key
}

/// Relies on `cbc::Decryptor<aes::Aes128>` with `Pkcs7` unpadding: the
/// result is a pure function of key, IV and input, and is an error
/// exactly when the input length or the recovered padding is invalid.
#[verifier::external_body]
fn aes128_cbc_decrypt(key: &[u8], iv: &[u8], data: &[u8]) -> (r: Option<Vec<u8>>)
    requires
        key@.len() == 16,
        iv@.len() == 16,
    ensures
        r matches Some(v) ==> aes128_cbc_decrypt_of(key@, iv@, data@) == Some(v@),
        r is None ==> aes128_cbc_decrypt_of(key@, iv@, data@) is None,
{
    let dec = cbc::Decryptor::<aes::Aes128>::new_from_slices(key, iv).ok()?;
    dec.decrypt_padded_vec::<Pkcs7>(data).ok()
}

/// Relies on `cbc::Encryptor<aes::Aes128>` with `Pkcs7` padding:
/// decryption with the same key and IV inverts it, and the output is the
/// input padded to the next multiple of the 16-byte block size.
#[verifier::external_body]
fn aes128_cbc_encrypt(key: &[u8], iv: &[u8], data: &[u8]) -> (r: Vec<u8>)
    requires
        key@.len() == 16,
        iv@.len() == 16,
    ensures
        aes128_cbc_decrypt_of(key@, iv@, r@) == Some(data@),
        r@.len() == (data@.len() as int / 16) * 16 + 16,
{
    let enc = cbc::Encryptor::<aes::Aes128>::new_from_slices(key, iv).unwrap();
    enc.encrypt_padded_vec::<Pkcs7>(data)
}

/// Relies on `aes_gcm::Aes128Gcm` through `aead::Aead::decrypt`: the
/// result is a pure function of key, nonce and input, and is an error on
/// authentication failure.
#[verifier::external_body]
fn aes128_gcm_open(key: &[u8], nonce: &[u8], data: &[u8]) -> (r: Option<Vec<u8>>)
    requires
        key@.len() == 16,
        nonce@.len() == 12,
    ensures
        r matches Some(v) ==> aes128_gcm_open_of(key@, nonce@, data@) == Some(v@),
        r is None ==> aes128_gcm_open_of(key@, nonce@, data@) is None,
{
    let cipher = aes_gcm::Aes128Gcm::new_from_slice(key).ok()?;
    let nonce = aes_gcm::Nonce::try_from(nonce).ok()?;
    cipher.decrypt(&nonce, data).ok()
}

/// Relies on `aes_gcm::Aes128Gcm` through `aead::Aead::encrypt`: open
/// with the same key and nonce inverts it, and the output is the input
/// followed by the 16-byte integrity tag.
#[verifier::external_body]
fn aes128_gcm_seal(key: &[u8], nonce: &[u8], data: &[u8]) -> (r: Vec<u8>)
    requires
        key@.len() == 16,
        nonce@.len() == 12,
        data@.len() < 0x1_0000_0000,
    ensures
        aes128_gcm_open_of(key@, nonce@, r@) == Some(data@),
        r@.len() == data@.len() + 16,
{
    let cipher = aes_gcm::Aes128Gcm::new_from_slice(key).unwrap();
    let nonce = aes_gcm::Nonce::try_from(nonce).unwrap();
    cipher.encrypt(&nonce, data).unwrap()
}

/// Relies on `String::from_utf8`: succeeds exactly on valid UTF-8 and
/// returns the decoded characters.
#[verifier::external_body]
pub(crate) fn bytes_to_string(bytes: Vec<u8>) -> (r: Option<String>)
    ensures
        r matches Some(s) ==> valid_utf8(bytes@) && s@ == decode_utf8(bytes@),
        r is None ==> !valid_utf8(bytes@),
{
    String::from_utf8(bytes).ok()
}

/// The key derived from a master secret: PBKDF2-HMAC-SHA1 over the
/// secret's UTF-8 bytes with the fixed salt and iteration count.
pub open spec fn spec_derive_key(secret: Seq<char>) -> Seq<u8> {
    pbkdf2_sha1_of(encode_utf8(secret), spec_salt(), PBKDF2_ROUNDS)
}

/// Derives the fixed-length symmetric key from the master secret. A pure
/// function of the secret: equal secrets always yield equal keys.
pub fn derive_key(secret: &str) -> (key: Vec<u8>)
    ensures
        key@ == spec_derive_key(secret@),
        key@.len() == DERIVED_KEY_LEN,
{
    let bytes = secret.as_bytes();
    let mut salt: Vec<u8> = Vec::new();
    salt.push(115);
    salt.push(97);
    salt.push(108);
    salt.push(116);
    salt.push(121);
    salt.push(115);
    salt.push(97);
    salt.push(108);
    salt.push(116);
    proof {
        assert(salt@ =~= spec_salt());
    }
    pbkdf2_sha1(bytes, salt.as_slice(), PBKDF2_ROUNDS)
}

/// True when the blob carries the legacy generation's version tag.
pub open spec fn has_legacy_tag(blob: Seq<u8>) -> bool {
    blob.len() >= 3 && blob[0] == 118u8 && blob[1] == 49u8 && blob[2] == 48u8
}

/// True when the blob carries the modern generation's version tag.
pub open spec fn has_modern_tag(blob: Seq<u8>) -> bool {
    blob.len() >= 3 && blob[0] == 118u8 && blob[1] == 50u8 && blob[2] == 48u8
}

/// The implicit IV of the legacy generation: sixteen space bytes.
pub open spec fn spec_legacy_iv() -> Seq<u8> {
    Seq::new(16, |i: int| 32u8)
}

/// Decoded plaintext of a raw decryption outcome: the recovered bytes
/// must form valid UTF-8, or the record is undecipherable.
pub open spec fn spec_plaintext_chars(pt: Option<Seq<u8>>) -> Option<Seq<char>> {
    match pt {
        Some(b) => if valid_utf8(b) {
            Some(decode_utf8(b))
        } else {
            None
        },
        None => None,
    }
}

/// What decrypting a blob under a key yields: `None` collapses every
/// failure mode (too short, unknown version tag, decryption or
/// authentication failure, invalid plaintext encoding).
pub open spec fn spec_decrypt_blob(key: Seq<u8>, blob: Seq<u8>) -> Option<Seq<char>> {
    if blob.len() < MIN_BLOB_LEN {
        None
    } else if has_legacy_tag(blob) {
        spec_plaintext_chars(aes128_cbc_decrypt_of(key, spec_legacy_iv(), blob.skip(3)))
    } else if has_modern_tag(blob) {
        if blob.len() < MODERN_MIN_BLOB_LEN {
            None
        } else {
            spec_plaintext_chars(
                aes128_gcm_open_of(key, blob.subrange(3, 15), blob.skip(15)),
            )
        }
    } else {
        None
    }
}

/// Builds the legacy IV as an executable value.
fn legacy_iv() -> (iv: Vec<u8>)
    ensures
        iv@ == spec_legacy_iv(),
{
    let mut iv: Vec<u8> = Vec::new();
    while iv.len() < 16
        invariant
            iv@ =~= Seq::new(iv@.len(), |i: int| 32u8),
            iv@.len() <= 16,
        decreases 16 - iv@.len(),
    {
        iv.push(32);
    }
    proof {
        assert(iv@ =~= spec_legacy_iv());
    }
    iv
}

/// Validates the recovered plaintext bytes as text.
fn plaintext_to_string(pt: Vec<u8>) -> (r: Result<String, DecryptError>)
    ensures
        r matches Ok(s) ==> valid_utf8(pt@) && s@ == decode_utf8(pt@),
        r matches Err(e) ==> !valid_utf8(pt@) && e is CryptoError,
{
    match bytes_to_string(pt) {
        Some(s) => Ok(s),
        None => Err(DecryptError::CryptoError("plaintext is not valid UTF-8".to_owned())),
    }
}

/// Builds a legacy-generation blob by encrypting a password under the
/// given key with the generation's exact algorithm and layout. Its
/// contract is the legacy round-trip law: decrypting the blob under the
/// same key recovers the password exactly.
pub fn encrypt_password_legacy(key: &[u8], password: &str) -> (blob: Vec<u8>)
    requires
        key@.len() == DERIVED_KEY_LEN,
    ensures
        spec_decrypt_blob(key@, blob@) == Some(password@),
{
    let pt = password.as_bytes();
    let iv = legacy_iv();
    let mut ct = aes128_cbc_encrypt(key, iv.as_slice(), pt);
    let ghost ctv = ct@;
    let mut blob: Vec<u8> = Vec::new();
    blob.push(118);
    blob.push(49);
    blob.push(48);
    blob.append(&mut ct);
    proof {
        vstd::utf8::encode_utf8_valid_utf8(password@);
        vstd::utf8::encode_utf8_decode_utf8(password@);
        assert((pt@.len() as int / 16) * 16 >= 0) by (nonlinear_arith);
        assert(blob@.len() >= MIN_BLOB_LEN);
        assert(has_legacy_tag(blob@));
        assert(blob@.skip(3) =~= ctv);
        assert(spec_decrypt_blob(key@, blob@) == Some(password@));
    }
    blob
}

/// Builds a modern-generation blob by sealing a password under the given
/// key and nonce with the generation's exact algorithm and layout. Its
/// contract is the modern round-trip law: decrypting the blob under the
/// same key recovers the password exactly.
pub fn encrypt_password_modern(key: &[u8], nonce: &[u8], password: &str) -> (blob: Vec<u8>)
    requires
        key@.len() == DERIVED_KEY_LEN,
        nonce@.len() == 12,
        encode_utf8(password@).len() < 0x1_0000_0000,
    ensures
        spec_decrypt_blob(key@, blob@) == Some(password@),
{
    let pt = password.as_bytes();
    let mut ct = aes128_gcm_seal(key, nonce, pt);
    let ghost ctv = ct@;
    let mut blob: Vec<u8> = Vec::new();
    blob.push(118);
    blob.push(50);
    blob.push(48);
    let mut i: usize = 0;
    while i < nonce.len()
        invariant
            nonce@.len() == 12,
            i <= 12,
            blob@ =~= seq![118u8, 50u8, 48u8] + nonce@.take(i as int),
        decreases 12 - i,
    {
        let b = *vstd::slice::slice_index_get(nonce, i);
        blob.push(b);
        proof {
            assert(nonce@.take(i as int) + seq![nonce@[i as int]] =~= nonce@.take(i + 1));
        }
        i = i + 1;
    }
    proof {
        assert(blob@ =~= seq![118u8, 50u8, 48u8] + nonce@);
    }
    blob.append(&mut ct);
    proof {
        vstd::utf8::encode_utf8_valid_utf8(password@);
        vstd::utf8::encode_utf8_decode_utf8(password@);
        assert(blob@.len() == 15 + ctv.len());
        assert(blob@.len() >= MODERN_MIN_BLOB_LEN);
        assert(has_modern_tag(blob@));
        assert(!has_legacy_tag(blob@));
        assert(blob@.subrange(3, 15) =~= nonce@);
        assert(blob@.skip(15) =~= ctv);
        assert(spec_decrypt_blob(key@, blob@) == Some(password@));
    }
    blob
}

/// Decrypts one versioned ciphertext blob under the derived key. Total
/// over all inputs: returns the plaintext exactly when
/// [`spec_decrypt_blob`] yields one, and a `CryptoError` otherwise.
pub fn decrypt_password(key: &[u8], blob: &[u8]) -> (r: Result<String, DecryptError>)
    requires
        key@.len() == DERIVED_KEY_LEN,
    ensures
        r matches Ok(s) ==> spec_decrypt_blob(key@, blob@) == Some(s@),
        r matches Err(e) ==> spec_decrypt_blob(key@, blob@) is None && e is CryptoError,
{
    if blob.len() < MIN_BLOB_LEN {
        return Err(DecryptError::CryptoError("ciphertext too short".to_owned()));
    }
    let b0 = *vstd::slice::slice_index_get(blob, 0);
    let b1 = *vstd::slice::slice_index_get(blob, 1);
    let b2 = *vstd::slice::slice_index_get(blob, 2);
    if b0 == 118 && b1 == 49 && b2 == 48 {
        let body = vstd::slice::slice_subrange(blob, 3, blob.len());
        let iv = legacy_iv();
        match aes128_cbc_decrypt(key, iv.as_slice(), body) {
            Some(pt) => plaintext_to_string(pt),
            None => Err(DecryptError::CryptoError("block decryption failed".to_owned())),
        }
    } else if b0 == 118 && b1 == 50 && b2 == 48 {
        if blob.len() < MODERN_MIN_BLOB_LEN {
            return Err(DecryptError::CryptoError("ciphertext too short".to_owned()));
        }
        let nonce = vstd::slice::slice_subrange(blob, 3, 15);
        let body = vstd::slice::slice_subrange(blob, 15, blob.len());
        match aes128_gcm_open(key, nonce, body) {
            Some(pt) => plaintext_to_string(pt),
            None => Err(DecryptError::CryptoError("authenticated decryption failed".to_owned())),
        }
    } else {
        Err(DecryptError::CryptoError("unsupported ciphertext version".to_owned()))
    }
}

} // verus!
