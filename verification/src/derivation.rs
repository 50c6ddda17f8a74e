//! The two ways a key is derived: from an account password and its salt,
//! and from a secret under a label.
use vstd::prelude::*;

use crate::error::KeyError;
use crate::model::calendar::{bytes_of, SESSION_LABEL};
use crate::primitives::{argon2id, expand, hashable_lens, hkdf_sha256, stretch, KEY_LEN};

verus! {

/// The master key of an account: the memory-hard hash of the password's
/// UTF-8 bytes and the account's salt, where the hash accepts their
/// lengths.
pub open spec fn master_key(password: Seq<char>, salt: Seq<u8>) -> Option<Seq<u8>> {
    if hashable_lens(vstd::utf8::encode_utf8(password).len(), salt.len()) {
        Some(argon2id(vstd::utf8::encode_utf8(password), salt))
    } else {
        None
    }
}

/// The key bound to a context: the HKDF expansion of the secret under the
/// label's UTF-8 bytes.
pub open spec fn bound_key(secret: Seq<u8>, label: Seq<char>) -> Seq<u8> {
    hkdf_sha256(secret, vstd::utf8::encode_utf8(label))
}

/// The key a session token yields.
pub open spec fn token_key(token: Seq<u8>) -> Seq<u8> {
    bound_key(token, SESSION_LABEL@)
}

/// The master key that a password as given has under the salt.
pub open spec fn master_key_result(password: Seq<char>, salt: Seq<u8>) -> Result<Seq<u8>, KeyError> {
    match master_key(password, salt) {
        Some(k) => Ok(k),
        None => Err(KeyError::LimitExceeded),
    }
}

/// Derives the master key of an account from its password and salt.
///
/// The same password and salt always give the same key. Fails with
/// `LimitExceeded` exactly when the hash does not accept the lengths:
/// a salt under eight bytes, or an input beyond four gigabytes.
pub fn master_key_derivation(password: &str, salt: &[u8]) -> (key: Result<Vec<u8>, KeyError>)
    ensures
        bytes_of(key) == master_key_result(password@, salt@),
        key matches Ok(k) ==> k@.len() == KEY_LEN,
{
    match stretch(password.as_bytes(), salt) {
        Some(k) => Ok(k),
        None => Err(KeyError::LimitExceeded),
    }
}

/// Derives the key that `secret` yields under `label`.
///
/// The same secret and label always give the same key, of 32 bytes.
pub fn context_key_derivation(secret: &[u8], label: &str) -> (key: Vec<u8>)
    ensures
        key@ == bound_key(secret@, label@),
        key@.len() == KEY_LEN,
{
    expand(secret, label.as_bytes())
}

} // verus!
