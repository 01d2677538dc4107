//! The cryptographic primitives, each behind one trusted wrapper.
//!
//! Every primitive whose output is a function of its inputs gets a name
//! (an uninterpreted spec function); the wrappers say that the call returns
//! exactly that name. Primitives that draw from the operating system's
//! entropy get no name and promise nothing beyond their type.
use vstd::prelude::*;

use chacha20poly1305::aead::{Aead, AeadCore, KeyInit};
use ed25519_dalek::{Signer, Verifier};

verus! {

/// Length of a keyed-hash key, an Ed25519 secret or public key, and a
/// ChaCha20-Poly1305 key.
pub const KEY_LEN: usize = 32;

/// Length of a keyed-hash digest.
pub const DIGEST_LEN: usize = 32;

/// Length of an Ed25519 signature.
pub const SIGNATURE_LEN: usize = 64;

/// Length of a ChaCha20-Poly1305 nonce.
pub const NONCE_LEN: usize = 12;

/// Length of a ChaCha20-Poly1305 authentication tag.
pub const TAG_LEN: usize = 16;

/// ChaCha20-Poly1305 refuses a message of this many 64-byte blocks or more.
pub const MAX_AEAD_BLOCKS: u64 = 4294967295;

/// The BLAKE3 keyed hash of `data` under `key`.
pub uninterp spec fn blake3_keyed_hash(key: Seq<u8>, data: Seq<u8>) -> [u8; 32];

/// The Ed25519 public key that belongs to the secret key `secret`.
pub uninterp spec fn ed25519_public_key(secret: Seq<u8>) -> [u8; 32];

/// Whether `public` is the compressed form of a point on the curve.
pub uninterp spec fn ed25519_key_decodes(public: Seq<u8>) -> bool;

/// The Ed25519 signature of `message` under the secret key `secret`.
pub uninterp spec fn ed25519_signature(secret: Seq<u8>, message: Seq<u8>) -> [u8; 64];

/// Whether Ed25519 verification of `signature` on `message` under `public` succeeds.
pub uninterp spec fn ed25519_accepts(public: Seq<u8>, message: Seq<u8>, signature: Seq<u8>) -> bool;

/// The ChaCha20-Poly1305 ciphertext (with its tag appended) of `plaintext`.
pub uninterp spec fn chacha_seal(key: Seq<u8>, nonce: Seq<u8>, plaintext: Seq<u8>) -> Seq<u8>;

/// The ChaCha20-Poly1305 opening of `ciphertext`: `None` when the tag does not match.
pub uninterp spec fn chacha_open(key: Seq<u8>, nonce: Seq<u8>, ciphertext: Seq<u8>) -> Option<Seq<u8>>;

/// The plain view of an optional byte vector.
pub open spec fn opt_bytes(v: Option<Vec<u8>>) -> Option<Seq<u8>> {
    match v {
        Some(b) => Some(b@),
        None => None,
    }
}

/// Relies on `blake3::keyed_hash`: a 32-byte digest that depends on the key
/// and the data alone.
#[verifier::external_body]
pub(crate) fn keyed_hash(key: &[u8; 32], data: &[u8]) -> (r: [u8; 32])
    ensures
        r == blake3_keyed_hash(key@, data@),
{
    *blake3::keyed_hash(key, data).as_bytes()
}

/// Relies on `ed25519_dalek::SigningKey::verifying_key`: the public key is
/// derived from the secret alone, and is the compressed form of a curve point.
#[verifier::external_body]
pub(crate) fn public_key_of(secret: &[u8; 32]) -> (r: [u8; 32])
    ensures
        r == ed25519_public_key(secret@),
        ed25519_key_decodes(r@),
{
    ed25519_dalek::SigningKey::from_bytes(secret).verifying_key().to_bytes()
}

/// Relies on `ed25519_dalek::VerifyingKey::from_bytes`, which fails exactly
/// when the bytes do not decompress to a curve point.
#[verifier::external_body]
pub(crate) fn public_key_decodes(public: &[u8; 32]) -> (r: bool)
    ensures
        r == ed25519_key_decodes(public@),
{
    ed25519_dalek::VerifyingKey::from_bytes(public).is_ok()
}

/// Relies on `ed25519_dalek::SigningKey::sign`: Ed25519 signing is
/// deterministic, and a signature verifies under the signer's public key.
#[verifier::external_body]
pub(crate) fn sign_ed25519(secret: &[u8; 32], message: &[u8]) -> (r: [u8; 64])
    ensures
        r == ed25519_signature(secret@, message@),
        ed25519_accepts(ed25519_public_key(secret@)@, message@, r@),
{
    ed25519_dalek::SigningKey::from_bytes(secret).sign(message).to_bytes()
}

/// Relies on `ed25519_dalek::VerifyingKey::verify`, the ordinary
/// (non-strict) Ed25519 check; the key is decoded as it was when validated.
#[verifier::external_body]
pub(crate) fn verify_ed25519(public: &[u8; 32], message: &[u8], signature: &[u8; 64]) -> (r: bool)
    requires
        ed25519_key_decodes(public@),
    ensures
        r == ed25519_accepts(public@, message@, signature@),
{
    let signature = ed25519_dalek::Signature::from_bytes(signature);
    match ed25519_dalek::VerifyingKey::from_bytes(public) {
        Ok(key) => key.verify(message, &signature).is_ok(),
        Err(_) => false,
    }
}

/// Relies on `Aead::encrypt` of `chacha20poly1305::ChaCha20Poly1305` with no
/// associated data: it fails only for a message of `MAX_AEAD_BLOCKS` blocks
/// or more; the ciphertext carries a 16-byte tag and opens to the message.
#[verifier::external_body]
pub(crate) fn seal(key: &[u8; 32], nonce: &[u8; 12], plaintext: &[u8]) -> (r: Option<Vec<u8>>)
    ensures
        r is Some <==> plaintext@.len() / 64 < MAX_AEAD_BLOCKS,
        r matches Some(c) ==> c@ == chacha_seal(key@, nonce@, plaintext@),
        r matches Some(c) ==> c@.len() == plaintext@.len() + TAG_LEN,
        r matches Some(c) ==> chacha_open(key@, nonce@, c@) == Some(plaintext@),
{
    let cipher = chacha20poly1305::ChaCha20Poly1305::new(key.into());
    cipher.encrypt(nonce.into(), plaintext).ok()
}

/// Relies on `Aead::decrypt` of `chacha20poly1305::ChaCha20Poly1305` with no
/// associated data: the plaintext, or nothing when authentication fails.
#[verifier::external_body]
pub(crate) fn open(key: &[u8; 32], nonce: &[u8; 12], ciphertext: &[u8]) -> (r: Option<Vec<u8>>)
    ensures
        opt_bytes(r) == chacha_open(key@, nonce@, ciphertext@),
{
    let cipher = chacha20poly1305::ChaCha20Poly1305::new(key.into());
    cipher.decrypt(nonce.into(), ciphertext).ok()
}

/// Relies on `AeadCore::generate_nonce` with the operating system's
/// generator: a fresh random nonce.
#[verifier::external_body]
pub(crate) fn fresh_nonce() -> (r: [u8; 12]) {
    chacha20poly1305::ChaCha20Poly1305::generate_nonce(&mut chacha20poly1305::aead::OsRng).into()
}

/// Relies on `KeyInit::generate_key` with the operating system's generator:
/// a fresh random cipher key.
#[verifier::external_body]
pub(crate) fn fresh_cipher_key() -> (r: [u8; 32]) {
    chacha20poly1305::ChaCha20Poly1305::generate_key(&mut chacha20poly1305::aead::OsRng).into()
}

/// Relies on `ed25519_dalek::SigningKey::generate` with the operating
/// system's generator: a fresh random secret key.
#[verifier::external_body]
pub(crate) fn fresh_signing_key() -> (r: [u8; 32]) {
    ed25519_dalek::SigningKey::generate(&mut rand::rngs::OsRng).to_bytes()
}

} // verus!
