//! Data model of the credential decryption engine: record types, their
//! spec-level views, and the error taxonomy.

use vstd::prelude::*;
use vstd::string::StringExecFns;

verus! {

/// A decrypted login entry: URL, username and the recovered plaintext
/// password. This is the result unit handed back to callers.
#[derive(Debug, Clone)]
pub struct LoginInfo {
    pub url: String,
    pub username: String,
    pub password: String,
}

/// Spec-level image of a [`LoginInfo`]: its three fields as character
/// sequences.
pub struct LoginInfoV {
    pub url: Seq<char>,
    pub username: Seq<char>,
    pub password: Seq<char>,
}

impl View for LoginInfo {
    type V = LoginInfoV;

    open spec fn view(&self) -> LoginInfoV {
        LoginInfoV { url: self.url@, username: self.username@, password: self.password@ }
    }
}

impl DeepView for LoginInfo {
    type V = LoginInfoV;

    open spec fn deep_view(&self) -> LoginInfoV {
        self.view()
    }
}

/// A login entry together with the profile it came from.
#[derive(Debug, Clone)]
pub struct LoginInfoWithProfile {
    pub profile: String,
    pub info: LoginInfo,
}

/// One raw row of the credential store: a URL, a username, and the
/// encrypted password blob, exactly as the store holds them.
#[derive(Debug, Clone)]
pub struct EncryptedRecord {
    pub url: String,
    pub username: String,
    pub ciphertext: Vec<u8>,
}

/// Spec-level image of an [`EncryptedRecord`].
pub struct EncryptedRecordV {
    pub url: Seq<char>,
    pub username: Seq<char>,
    pub ciphertext: Seq<u8>,
}

impl View for EncryptedRecord {
    type V = EncryptedRecordV;

    open spec fn view(&self) -> EncryptedRecordV {
        EncryptedRecordV {
            url: self.url@,
            username: self.username@,
            ciphertext: self.ciphertext@,
        }
    }
}

impl DeepView for EncryptedRecord {
    type V = EncryptedRecordV;

    open spec fn deep_view(&self) -> EncryptedRecordV {
        self.view()
    }
}

/// Parameters of one store query: an optional URL keyword filter and the
/// derived key used to decrypt each row.
#[derive(Debug)]
pub struct QueryParams<'a> {
    pub keyword: Option<String>,
    pub derived_key: &'a [u8],
}

/// One browser profile: its display name, its directory, and the path of
/// the credential-store file inside that directory.
#[derive(Debug, Clone)]
pub struct ChromeProfile {
    pub name: String,
    pub path: String,
    pub login_data_path: String,
}

/// Spec-level image of a [`ChromeProfile`].
pub struct ChromeProfileV {
    pub name: Seq<char>,
    pub path: Seq<char>,
    pub login_data_path: Seq<char>,
}

impl View for ChromeProfile {
    type V = ChromeProfileV;

    open spec fn view(&self) -> ChromeProfileV {
        ChromeProfileV {
            name: self.name@,
            path: self.path@,
            login_data_path: self.login_data_path@,
        }
    }
}

impl DeepView for ChromeProfile {
    type V = ChromeProfileV;

    open spec fn deep_view(&self) -> ChromeProfileV {
        self.view()
    }
}

/// Error taxonomy of the engine. Per-record crypto failures are caught at
/// the pipeline boundary and never surface through this type; everything
/// else propagates as a session-level failure.
#[derive(Debug, Clone)]
pub enum DecryptError {
    /// The OS secret store refused or failed to hand out the master secret.
    KeychainError(String),
    /// Key derivation or ciphertext decryption failed.
    CryptoError(String),
    /// Opening or querying the store snapshot failed.
    DatabaseError(String),
    /// Copying the store file or hardening its permissions failed.
    IoError(String),
    /// No profile of the requested name exists.
    ProfileNotFound(String),
    /// The profile directory has no credential-store file.
    LoginDataNotFound,
}

impl DecryptError {
    /// The message text of this error.
    pub open spec fn spec_message(&self) -> Seq<char> {
        match self {
            DecryptError::KeychainError(s) => "Keychain access error: "@ + s@,
            DecryptError::CryptoError(s) => "Cryptography error: "@ + s@,
            DecryptError::DatabaseError(s) => "Database error: "@ + s@,
            DecryptError::IoError(s) => "IO error: "@ + s@,
            DecryptError::ProfileNotFound(s) => "Profile not found: "@ + s@,
            DecryptError::LoginDataNotFound => "Login data file not found"@,
        }
    }

    /// Human-readable description of the error.
    pub fn message(&self) -> (r: String)
        ensures
            r@ == self.spec_message(),
    {
        match self {
            DecryptError::KeychainError(s) => "Keychain access error: ".to_owned().concat(
                s.as_str(),
            ),
            DecryptError::CryptoError(s) => "Cryptography error: ".to_owned().concat(s.as_str()),
            DecryptError::DatabaseError(s) => "Database error: ".to_owned().concat(s.as_str()),
            DecryptError::IoError(s) => "IO error: ".to_owned().concat(s.as_str()),
            DecryptError::ProfileNotFound(s) => "Profile not found: ".to_owned().concat(
                s.as_str(),
            ),
            DecryptError::LoginDataNotFound => "Login data file not found".to_owned(),
        }
    }
}

} // verus!
