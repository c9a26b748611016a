//! Master-secret acquisition policy.
//!
//! The OS secret store and the optional plaintext cache file are outside
//! collaborators: the caller hands in whatever each of them produced,
//! and this module decides which to use and validates the secret's
//! encoding. A cached secret always wins; otherwise the store's bytes
//! must decode as UTF-8 text.

use crate::crypto::bytes_to_string;
use crate::models::DecryptError;
use vstd::prelude::*;
use vstd::utf8::{decode_utf8, valid_utf8};

verus! {

/// Picks the master password from the cache when one is present, and
/// otherwise from the secret store's raw bytes, which must decode as
/// UTF-8. `fetched` is consulted only on a cache miss, so a caller need
/// not contact the secret store when it has a cached secret.
pub fn get_master_password_with_cache(cached: Option<String>, fetched: Result<
    Vec<u8>,
    DecryptError,
>) -> (r: Result<String, DecryptError>)
    ensures
        match cached {
            Some(p) => r matches Ok(q) && q == p,
            None => match fetched {
                Ok(bytes) => if valid_utf8(bytes@) {
                    r matches Ok(q) && q@ == decode_utf8(bytes@)
                } else {
                    r matches Err(e) && e is KeychainError
                },
                Err(e) => r matches Err(e2) && e2 == e,
            },
        },
{
    match cached {
        Some(p) => Ok(p),
        None => match fetched {
            Ok(bytes) => match bytes_to_string(bytes) {
                Some(s) => Ok(s),
                None => Err(
                    DecryptError::KeychainError("secret is not valid UTF-8".to_owned()),
                ),
            },
            Err(e) => Err(e),
        },
    }
}

} // verus!
