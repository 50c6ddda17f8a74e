//! The primitives the key hierarchy is built from: the cipher, the key
//! derivations, the hashes, the random source and a few encodings.
//!
//! Every function in this file but the last hands its work to an
//! established implementation. Verus does not look inside those
//! implementations: the contracts here are taken on trust, and each doc
//! comment says what is being trusted. Results that are a pure function of
//! their inputs get a name, so that the rest of the crate can reason about
//! them exactly.
use vstd::prelude::*;

use argon2::Argon2;
use argon2::PasswordHash;
use argon2::PasswordHasher;
use argon2::PasswordVerifier;
use argon2::password_hash::SaltString;
use argon2::password_hash::rand_core::OsRng;
use chacha20poly1305::ChaCha20Poly1305;
use chacha20poly1305::KeyInit;
use chacha20poly1305::aead::Aead;
use hkdf::Hkdf;
use sha2::Digest;
use sha2::Sha256;
use uuid::Uuid;

verus! {

/// Length in bytes of every secret key in the hierarchy.
pub const KEY_LEN: usize = 32;

/// Length in bytes of the nonce stored beside every sealed blob.
pub const NONCE_LEN: usize = 12;

/// Length in bytes of the authentication tag a sealed blob ends with.
pub const TAG_LEN: usize = 16;

/// Shortest salt the password hash accepts.
pub const MIN_SALT_LEN: usize = 8;

/// Longest password or salt the password hash accepts.
pub const MAX_HASH_INPUT_LEN: usize = 0xFFFF_FFFF;

/// Size of one block of the stream cipher's key stream.
pub const CIPHER_BLOCK_LEN: usize = 64;

/// Number of key-stream blocks one nonce can address.
pub const CIPHER_MAX_BLOCKS: usize = 0xFFFF_FFFF;

/// The bytes ChaCha20-Poly1305 produces for a plaintext under a key and a nonce.
pub uninterp spec fn aead_sealed(key: Seq<u8>, nonce: Seq<u8>, plaintext: Seq<u8>) -> Seq<u8>;

/// What ChaCha20-Poly1305 recovers from a sealed blob under a key and a
/// nonce: the plaintext, or nothing when authentication fails.
pub uninterp spec fn aead_opened(key: Seq<u8>, nonce: Seq<u8>, sealed: Seq<u8>) -> Option<Seq<u8>>;

/// The 32 bytes HKDF-SHA256 (no salt) expands from a secret under a label.
pub uninterp spec fn hkdf_sha256(secret: Seq<u8>, label: Seq<u8>) -> Seq<u8>;

/// The 32 bytes Argon2id (default cost parameters) derives from a password and a salt.
pub uninterp spec fn argon2id(password: Seq<u8>, salt: Seq<u8>) -> Seq<u8>;

/// The SHA-256 digest of a byte string.
pub uninterp spec fn sha256(data: Seq<u8>) -> Seq<u8>;

/// Whether Argon2 accepts a password against a stored verifier string.
pub uninterp spec fn verifier_accepts(password: Seq<u8>, verifier: Seq<char>) -> bool;

/// The token that a text spells as a UUID, where it spells one.
pub uninterp spec fn uuid_parsed(text: Seq<char>) -> Option<Seq<u8>>;

/// The hyphenated text of a token read as a UUID.
pub uninterp spec fn uuid_text(token: Seq<u8>) -> Seq<char>;

/// The percent-encoding of a text that keeps letters, digits and `_.-~/`.
pub uninterp spec fn url_encoded(text: Seq<char>) -> Seq<char>;

/// The lower-case hexadecimal digit for a value below sixteen.
pub open spec fn hex_digit(value: int) -> char {
    if value < 10 {
        (48 + value) as char
    } else {
        (87 + value) as char
    }
}

/// The lower-case hexadecimal text of a byte string: two digits for each
/// byte, the high half first.
pub open spec fn hex_text(bytes: Seq<u8>) -> Seq<char> {
    Seq::new(
        2 * bytes.len(),
        |i: int|
            if i % 2 == 0 {
                hex_digit(bytes[i / 2] as int / 16)
            } else {
                hex_digit(bytes[i / 2] as int % 16)
            },
    )
}

/// Whether the cipher can take a plaintext of this length in one message.
pub open spec fn sealable_len(len: nat) -> bool {
    len / (CIPHER_BLOCK_LEN as nat) < CIPHER_MAX_BLOCKS as nat
}

/// Whether the password hash accepts inputs of these lengths.
pub open spec fn hashable_lens(password_len: nat, salt_len: nat) -> bool {
    &&& password_len <= MAX_HASH_INPUT_LEN as nat
    &&& MIN_SALT_LEN as nat <= salt_len <= MAX_HASH_INPUT_LEN as nat
}

/// Seals `plaintext` with `ChaCha20Poly1305::encrypt` under `key` and `nonce`.
///
/// Trusted: the cipher refuses exactly the plaintexts that exceed its
/// key stream; otherwise the result is the named sealing, sixteen bytes
/// longer than the plaintext, and opening it under the same key and nonce
/// gives the plaintext back.
#[verifier::external_body]
pub(crate) fn seal(key: &[u8], nonce: &[u8], plaintext: &[u8]) -> (sealed: Option<Vec<u8>>)
    requires
        key@.len() == KEY_LEN,
        nonce@.len() == NONCE_LEN,
    ensures
        sealed.is_some() == sealable_len(plaintext@.len()),
        sealed matches Some(c) ==> {
            &&& c@ == aead_sealed(key@, nonce@, plaintext@)
            &&& c@.len() == plaintext@.len() + TAG_LEN
            &&& aead_opened(key@, nonce@, c@) == Some(plaintext@)
        },
{
    ChaCha20Poly1305::new(key.into()).encrypt(nonce.into(), plaintext).ok()
}

/// Opens `sealed` with `ChaCha20Poly1305::decrypt` under `key` and `nonce`.
///
/// Trusted: the result is the named opening; a blob shorter than its tag
/// never opens, and a recovered plaintext is sixteen bytes shorter than
/// the blob.
#[verifier::external_body]
pub(crate) fn open(key: &[u8], nonce: &[u8], sealed: &[u8]) -> (plaintext: Option<Vec<u8>>)
    requires
        key@.len() == KEY_LEN,
        nonce@.len() == NONCE_LEN,
    ensures
        plaintext.is_some() == aead_opened(key@, nonce@, sealed@).is_some(),
        plaintext matches Some(p) ==> {
            &&& aead_opened(key@, nonce@, sealed@) == Some(p@)
            &&& p@.len() + TAG_LEN == sealed@.len()
        },
{
    ChaCha20Poly1305::new(key.into()).decrypt(nonce.into(), sealed).ok()
}

/// Expands `secret` under `label` with `Hkdf::<Sha256>::new(None, ..)` and
/// `Hkdf::expand` into 32 bytes.
///
/// Trusted: the result is the named expansion and has the length of a key.
#[verifier::external_body]
pub(crate) fn expand(secret: &[u8], label: &[u8]) -> (key: Vec<u8>)
    ensures
        key@ == hkdf_sha256(secret@, label@),
        key@.len() == KEY_LEN,
{
    let mut key = [0u8; 32];
    Hkdf::<Sha256>::new(None, secret).expand(label, &mut key).unwrap();
    key.to_vec()
}

/// Derives 32 bytes with `Argon2::default().hash_password_into`.
///
/// Trusted: the hash refuses exactly the inputs whose lengths it does not
/// accept; otherwise the result is the named derivation and has the
/// length of a key.
#[verifier::external_body]
pub(crate) fn stretch(password: &[u8], salt: &[u8]) -> (key: Option<Vec<u8>>)
    ensures
        key.is_some() == hashable_lens(password@.len(), salt@.len()),
        key matches Some(k) ==> k@ == argon2id(password@, salt@) && k@.len() == KEY_LEN,
{
    let mut key = [0u8; 32];
    match Argon2::default().hash_password_into(password, salt, &mut key) {
        Ok(()) => Some(key.to_vec()),
        Err(_) => None,
    }
}

/// Hashes `data` with `Sha256::digest`.
///
/// Trusted: the result is the named digest.
#[verifier::external_body]
pub(crate) fn digest(data: &[u8]) -> (hash: [u8; 32])
    ensures
        hash@ == sha256(data@),
{
    Sha256::digest(data).into()
}

/// Writes `bytes` in hexadecimal with `hex::encode`.
///
/// Trusted: the result is the lower-case hexadecimal text of the bytes.
#[verifier::external_body]
pub(crate) fn hex_encode(bytes: &[u8]) -> (text: String)
    ensures
        text@ == hex_text(bytes@),
{
    hex::encode(bytes)
}

/// Draws one byte from `rand::random`.
///
/// Nothing is claimed of the byte.
#[verifier::external_body]
pub(crate) fn random_byte() -> u8 {
    rand::random()
}

/// Draws a fresh token with `Uuid::new_v4`.
///
/// Nothing is claimed of the token beyond its length, which its type fixes.
#[verifier::external_body]
pub(crate) fn random_token() -> [u8; 16] {
    Uuid::new_v4().into_bytes()
}

/// Reads a token from its text with `Uuid::parse_str`.
///
/// Trusted: the answer is the named parse, and a token that was read has
/// sixteen bytes, as its type says.
#[verifier::external_body]
pub(crate) fn parse_token(text: &str) -> (token: Option<[u8; 16]>)
    ensures
        token.is_some() == uuid_parsed(text@).is_some(),
        token matches Some(t) ==> uuid_parsed(text@) == Some(t@),
{
    match Uuid::parse_str(text) {
        Ok(uuid) => Some(uuid.into_bytes()),
        Err(_) => None,
    }
}

/// Writes a token as text with `Uuid::from_bytes` and its `to_string`.
///
/// Trusted: the result is the named text, and reading it gives the token
/// back.
#[verifier::external_body]
pub(crate) fn format_token(token: &[u8; 16]) -> (text: String)
    ensures
        text@ == uuid_text(token@),
        uuid_parsed(text@) == Some(token@),
{
    Uuid::from_bytes(*token).to_string()
}

/// Percent-encodes a text with `askama::filters::urlencode`.
///
/// Trusted: the result is the named encoding.
#[verifier::external_body]
pub(crate) fn url_encode(text: &str) -> (encoded: String)
    ensures
        encoded@ == url_encoded(text@),
{
    askama::filters::urlencode(text).unwrap()
}

/// Produces a verifier string for `password` with `Argon2::hash_password`
/// under a salt from `SaltString::generate`.
///
/// Trusted: a verifier is produced exactly for a password that is not too
/// long for the hash, and it accepts the password it was made from.
#[verifier::external_body]
pub(crate) fn make_verifier(password: &[u8]) -> (verifier: Option<String>)
    ensures
        verifier.is_some() == (password@.len() <= MAX_HASH_INPUT_LEN),
        verifier matches Some(v) ==> verifier_accepts(password@, v@),
{
    let salt = SaltString::generate(&mut OsRng);
    match Argon2::default().hash_password(password, &salt) {
        Ok(hash) => Some(hash.to_string()),
        Err(_) => None,
    }
}

/// Checks `password` against `verifier` with `PasswordHash::new` and
/// `Argon2::verify_password`.
///
/// Trusted: the answer is the named acceptance.
#[verifier::external_body]
pub(crate) fn check_verifier(password: &[u8], verifier: &str) -> (accepted: bool)
    ensures
        accepted == verifier_accepts(password@, verifier@),
{
    match PasswordHash::new(verifier) {
        Ok(hash) => Argon2::default().verify_password(password, &hash).is_ok(),
        Err(_) => false,
    }
}

/// Turns bytes into text with `String::from_utf8`.
///
/// Trusted: the conversion succeeds exactly on well-formed UTF-8 and then
/// gives the decoded characters.
#[verifier::external_body]
pub(crate) fn text_of(bytes: Vec<u8>) -> (text: Option<String>)
    ensures
        text.is_some() == vstd::utf8::valid_utf8(bytes@),
        text matches Some(t) ==> t@ == vstd::utf8::decode_utf8(bytes@),
{
    String::from_utf8(bytes).ok()
}

/// Draws `len` bytes, each from the system's random source.
pub fn random_bytes(len: usize) -> (bytes: Vec<u8>)
    ensures
        bytes@.len() == len,
{
    let mut bytes: Vec<u8> = Vec::new();
    let mut i: usize = 0;
    while i < len
        invariant
            i <= len,
            bytes@.len() == i,
        decreases len - i,
    {
        bytes.push(random_byte());
        i = i + 1;
    }
    bytes
}

} // verus!
