//! Credential decryption engine for browser-stored website passwords.
//!
//! The engine derives a fixed-length symmetric key from an OS-protected
//! master secret, takes a private permission-hardened snapshot of the live
//! credential store, queries the snapshot read-only, and decrypts each
//! row's versioned ciphertext blob, isolating per-record failures.

pub mod crypto;
pub mod database;
pub mod keychain;
pub mod models;
pub mod profile;

use crate::crypto::{derive_key, spec_derive_key, DERIVED_KEY_LEN};
use crate::database::{query_login_data, spec_decrypt_rows, spec_like_pattern, sqlite_like_of};
use crate::models::{ChromeProfile, DecryptError, EncryptedRecordV, LoginInfo, QueryParams};
use crate::profile::ProfileDirEntry;
use vstd::prelude::*;
use vstd::string::StringExecFns;

verus! {

/// One decryption session: owns the key derived from the master secret
/// for the session's lifetime; the key is never persisted.
pub struct ChromePasswordUnlock {
    derived_key: Vec<u8>,
}

impl ChromePasswordUnlock {
    /// The session's derived key.
    pub closed spec fn spec_key(&self) -> Seq<u8> {
        self.derived_key@
    }

    /// A session always holds a key of the cipher's key size.
    pub closed spec fn wf(&self) -> bool {
        self.derived_key@.len() == DERIVED_KEY_LEN
    }

    /// Opens a session by deriving the symmetric key from the master
    /// secret. Deterministic: equal secrets give sessions with equal
    /// keys.
    pub fn new(master_password: &str) -> (s: Self)
        ensures
            s.wf(),
            s.spec_key() == spec_derive_key(master_password@),
    {
        let derived_key = derive_key(master_password);
        ChromePasswordUnlock { derived_key }
    }

    /// Decrypts the credentials of one profile. Whatever rows the
    /// profile's store holds, the result is exactly the pipeline's image
    /// of them, and when a keyword is supplied every returned record's
    /// URL matches the `%keyword%` pattern; one bad record never aborts
    /// the batch.
    pub fn decrypt_from_profile(&self, profile: &ChromeProfile, keyword: Option<&str>) -> (r:
        Result<Vec<LoginInfo>, DecryptError>)
        requires
            self.wf(),
        ensures
            match r {
                Ok(out) => (exists|rows: Seq<EncryptedRecordV>|
                    out.deep_view() == spec_decrypt_rows(self.spec_key(), rows)) && (
                match keyword {
                    Some(kw) => forall|i: int|
                        0 <= i < out.deep_view().len() ==> sqlite_like_of(
                            spec_like_pattern(kw@),
                            (#[trigger] out.deep_view()[i]).url,
                        ),
                    None => true,
                }),
                Err(e) => e is IoError || e is DatabaseError,
            },
    {
        let params = QueryParams {
            keyword: match keyword {
                Some(s) => Some(s.to_owned()),
                None => None,
            },
            derived_key: self.derived_key.as_slice(),
        };
        let r = query_login_data(profile.login_data_path.as_str(), &params);
        proof {
            match &r {
                Ok(out) => {
                    let rows = choose|rows: Seq<EncryptedRecordV>|
                        out.deep_view() == spec_decrypt_rows(params.derived_key@, rows);
                    assert(out.deep_view() == spec_decrypt_rows(self.spec_key(), rows));
                    match keyword {
                        Some(s) => {
                            assert(params.keyword matches Some(k) && k@ == s@);
                        },
                        None => {},
                    }
                },
                Err(_) => {},
            }
        }
        r
    }

    /// Decrypts the credentials of every given profile, pairing each
    /// profile's name with its outcome; one profile's failure never
    /// aborts the others, and a supplied keyword filters every profile's
    /// records by URL.
    pub fn decrypt_from_all_profiles(&self, profiles: &Vec<ChromeProfile>, keyword: Option<
        &str,
    >) -> (r: Vec<(String, Result<Vec<LoginInfo>, DecryptError>)>)
        requires
            self.wf(),
        ensures
            r@.len() == profiles@.len(),
            forall|i: int|
                0 <= i < r@.len() ==> (#[trigger] r@[i]).0@ == profiles.deep_view()[i].name,
            forall|i: int|
                0 <= i < r@.len() ==> match (#[trigger] r@[i]).1 {
                    Ok(out) => (exists|rows: Seq<EncryptedRecordV>|
                        out.deep_view() == spec_decrypt_rows(self.spec_key(), rows)) && (
                    match keyword {
                        Some(kw) => forall|n: int|
                            0 <= n < out.deep_view().len() ==> sqlite_like_of(
                                spec_like_pattern(kw@),
                                (#[trigger] out.deep_view()[n]).url,
                            ),
                        None => true,
                    }),
                    Err(e) => e is IoError || e is DatabaseError,
                },
    {
        let mut r: Vec<(String, Result<Vec<LoginInfo>, DecryptError>)> = Vec::new();
        let mut i: usize = 0;
        while i < profiles.len()
            invariant
                self.wf(),
                i <= profiles@.len(),
                r@.len() == i,
                forall|k: int|
                    0 <= k < r@.len() ==> (#[trigger] r@[k]).0@ == profiles.deep_view()[k].name,
                forall|k: int|
                    0 <= k < r@.len() ==> match (#[trigger] r@[k]).1 {
                        Ok(out) => (exists|rows: Seq<EncryptedRecordV>|
                            out.deep_view() == spec_decrypt_rows(self.spec_key(), rows)) && (
                        match keyword {
                            Some(kw) => forall|n: int|
                                0 <= n < out.deep_view().len() ==> sqlite_like_of(
                                    spec_like_pattern(kw@),
                                    (#[trigger] out.deep_view()[n]).url,
                                ),
                            None => true,
                        }),
                        Err(e) => e is IoError || e is DatabaseError,
                    },
            decreases profiles@.len() - i,
        {
            let profile = &profiles[i];
            let outcome = self.decrypt_from_profile(profile, keyword);
            let name = profile.name.as_str().to_owned();
            r.push((name, outcome));
            i = i + 1;
        }
        r
    }

    /// Selects and orders the profiles among the data directory's
    /// entries; see [`crate::profile::find_chrome_profiles`].
    pub fn list_profiles(chrome_dir: &str, entries: &Vec<ProfileDirEntry>) -> (profiles: Vec<
        ChromeProfile,
    >)
        ensures
            profiles.deep_view().to_multiset() == crate::profile::spec_selected(
                chrome_dir@,
                entries.deep_view(),
            ).to_multiset(),
            crate::profile::spec_profiles_sorted(profiles.deep_view()),
    {
        crate::profile::find_chrome_profiles(chrome_dir, entries)
    }
}

} // verus!
