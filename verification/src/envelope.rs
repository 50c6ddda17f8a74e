//! Sealed blobs: a nonce and the bytes that were sealed under it.
use vstd::prelude::*;

use crate::error::KeyError;
use crate::model::calendar::{bytes_of, KeyHandler};
use crate::primitives::{
    aead_opened, aead_sealed, random_bytes, sealable_len, KEY_LEN, NONCE_LEN,
};

verus! {

/// The mathematical value of a sealed blob.
pub struct Sealed {
    pub nonce: Seq<u8>,
    pub bytes: Seq<u8>,
}

/// A persisted secret: the nonce it was sealed under and the sealed bytes,
/// which end with the authentication tag.
#[derive(Debug)]
pub struct WrappedKey {
    pub nonce: Vec<u8>,
    pub ciphertext: Vec<u8>,
}

impl View for WrappedKey {
    type V = Sealed;

    open spec fn view(&self) -> Sealed {
        Sealed { nonce: self.nonce@, bytes: self.ciphertext@ }
    }
}

impl Clone for WrappedKey {
    fn clone(&self) -> (copy: Self)
        ensures
            copy@ == self@,
    {
        WrappedKey { nonce: self.nonce.clone(), ciphertext: self.ciphertext.clone() }
    }
}

/// Whether a key and a nonce have the lengths the cipher works with.
pub open spec fn usable(key: Option<Seq<u8>>, nonce: Seq<u8>) -> bool {
    &&& key is Some
    &&& key->0.len() == KEY_LEN
    &&& nonce.len() == NONCE_LEN
}

/// What sealing `secret` under `key` and `nonce` gives: a refusal when the
/// key or the nonce is unusable or the secret too long, else the sealed bytes.
pub open spec fn seal_spec(key: Option<Seq<u8>>, nonce: Seq<u8>, secret: Seq<u8>) -> Result<
    Seq<u8>,
    KeyError,
> {
    if !usable(key, nonce) {
        Err(KeyError::StaleKey)
    } else if !sealable_len(secret.len()) {
        Err(KeyError::LimitExceeded)
    } else {
        Ok(aead_sealed(key->0, nonce, secret))
    }
}

/// What opening `sealed` under `key` and `nonce` gives: the plaintext, or
/// `StaleKey` when the three do not belong together.
pub open spec fn open_spec(key: Option<Seq<u8>>, nonce: Seq<u8>, sealed: Seq<u8>) -> Result<
    Seq<u8>,
    KeyError,
> {
    if usable(key, nonce) && aead_opened(key->0, nonce, sealed) is Some {
        Ok(aead_opened(key->0, nonce, sealed)->0)
    } else {
        Err(KeyError::StaleKey)
    }
}

/// What unwrapping a sealed blob under `key` gives.
pub open spec fn unwrap_spec(key: Option<Seq<u8>>, wrapped: Sealed) -> Result<Seq<u8>, KeyError> {
    open_spec(key, wrapped.nonce, wrapped.bytes)
}

/// Whether `wrapped` is a sealing of `secret` that `key` opens again.
pub open spec fn wraps(key: Option<Seq<u8>>, wrapped: Sealed, secret: Seq<u8>) -> bool {
    unwrap_spec(key, wrapped) == Ok::<Seq<u8>, KeyError>(secret)
}

/// What wrapping `secret` under `key` with the nonce `nonce` gives.
pub open spec fn wrap_spec(key: Option<Seq<u8>>, nonce: Seq<u8>, secret: Seq<u8>) -> Result<
    Sealed,
    KeyError,
> {
    match seal_spec(key, nonce, secret) {
        Ok(bytes) => Ok(Sealed { nonce, bytes }),
        Err(e) => Err(e),
    }
}

/// The value of a wrapping that may have failed.
pub open spec fn sealed_of(r: Result<WrappedKey, KeyError>) -> Result<Sealed, KeyError> {
    match r {
        Ok(w) => Ok(w@),
        Err(e) => Err(e),
    }
}

/// Wraps `secret` under `key` with the given nonce.
///
/// Fails with `StaleKey` when key or nonce are unusable and with
/// `LimitExceeded` when the secret is too long. A wrapping that was made
/// unwraps to the secret again.
pub fn wrap_with(key: &KeyHandler, nonce: &[u8], secret: &[u8]) -> (wrapped: Result<
    WrappedKey,
    KeyError,
>)
    ensures
        sealed_of(wrapped) == wrap_spec(key@, nonce@, secret@),
        wrapped matches Ok(w) ==> wraps(key@, w@, secret@),
{
    let ciphertext = key.encrypt(secret, nonce)?;
    Ok(WrappedKey { nonce: vstd::slice::slice_to_vec(nonce), ciphertext })
}

/// Wraps `secret` under `key` with a freshly drawn nonce.
///
/// Succeeds exactly when the key is usable and the secret not too long.
/// The wrapping carries a nonce of the right length, and unwrapping it
/// under the same key gives the secret back.
pub fn wrap(key: &KeyHandler, secret: &[u8]) -> (wrapped: Result<WrappedKey, KeyError>)
    ensures
        wrapped matches Ok(w) ==> {
            &&& w@.nonce.len() == NONCE_LEN
            &&& sealed_of(wrapped) == wrap_spec(key@, w@.nonce, secret@)
            &&& unwrap_spec(key@, w@) == Ok::<Seq<u8>, KeyError>(secret@)
        },
        wrapped matches Err(e) ==> forall|nonce: Seq<u8>|
            nonce.len() == NONCE_LEN ==> #[trigger] wrap_spec(key@, nonce, secret@) == Err::<
                Sealed,
                KeyError,
            >(e),
{
    let nonce = random_bytes(NONCE_LEN);
    wrap_with(key, nonce.as_slice(), secret)
}

/// Unwraps `wrapped` under `key`.
///
/// Any mismatch between key, nonce and sealed bytes is reported as
/// `StaleKey`; no partly opened bytes are ever handed out.
pub fn unwrap(key: &KeyHandler, wrapped: &WrappedKey) -> (secret: Result<Vec<u8>, KeyError>)
    ensures
        bytes_of(secret) == unwrap_spec(key@, wrapped@),
{
    key.decrypt(wrapped.ciphertext.as_slice(), wrapped.nonce.as_slice())
}

} // verus!
