//! Signing, verification, encryption and decryption of texts.
//!
//! Signatures and ciphertexts travel as unpadded URL-safe base64 text. A
//! ciphertext carries its nonce in front, so decryption never needs one
//! supplied from outside.
use vstd::prelude::*;

use crate::codec::{decode_url_safe, encode_url_safe, url_safe_decoding, url_safe_encoding};
use crate::crypto::{
    blake3_keyed_hash, chacha_open, chacha_seal, ed25519_accepts, ed25519_public_key,
    ed25519_signature, fresh_nonce, keyed_hash, open, seal, sign_ed25519, verify_ed25519,
    DIGEST_LEN, KEY_LEN, MAX_AEAD_BLOCKS, NONCE_LEN, SIGNATURE_LEN, TAG_LEN,
};
use crate::formats::TextSignFormat;
use crate::keys::{
    key_prefix, Blake3, Chacha20poly1305, Ed25519Signer, Ed25519Verifier, KeyFormatError,
    KeyGenerator, KeyLoader,
};
use crate::util::prefix_array;

verus! {

/// Why a text operation failed.
#[derive(Debug, Clone, Copy, PartialEq, Eq, Structural)]
pub enum TextError {
    /// The base64 text is malformed.
    Encoding,
    /// The key source yields no key.
    KeyFormat(KeyFormatError),
    /// The signature does not have the algorithm's length.
    SignatureLength,
    /// The ciphertext does not authenticate under the key.
    Authentication,
    /// The algorithm does not offer the operation.
    Unsupported,
    /// The plaintext is beyond what the cipher accepts.
    TooLong,
}

impl TextError {
    /// A human-readable description of the error.
    pub fn message(&self) -> &'static str {
        match self {
            TextError::Encoding => "malformed base64 text",
            TextError::KeyFormat(e) => e.message(),
            TextError::SignatureLength => "signature has the wrong length",
            TextError::Authentication => "ciphertext failed authentication",
            TextError::Unsupported => "the algorithm does not offer this operation",
            TextError::TooLong => "plaintext is too long",
        }
    }
}

/// Something that signs byte strings.
pub trait TextSign {
    /// Whether `signature` is what signing `data` yields.
    spec fn signed(&self, data: Seq<u8>, signature: Seq<u8>) -> bool;

    /// Signs the whole of `data`.
    fn sign(&self, data: &[u8]) -> (r: Vec<u8>)
        ensures
            self.signed(data@, r@),
    ;
}

/// Something that checks signatures of byte strings.
pub trait TextVerify {
    /// The fixed length of a signature.
    spec fn signature_len() -> nat;

    /// Whether `signature`, of the fixed length, is a valid signature of `data`.
    spec fn accepts(&self, data: Seq<u8>, signature: Seq<u8>) -> bool;

    /// Checks `signature` against the whole of `data`; a signature of the
    /// wrong length is malformed and refused before any comparison.
    fn verify(&self, data: &[u8], signature: &[u8]) -> (r: Result<bool, TextError>)
        ensures
            r == (if signature@.len() == Self::signature_len() {
                Ok::<bool, TextError>(self.accepts(data@, signature@))
            } else {
                Err::<bool, TextError>(TextError::SignatureLength)
            }),
    ;
}

impl TextSign for Blake3 {
    open spec fn signed(&self, data: Seq<u8>, signature: Seq<u8>) -> bool {
        signature == blake3_keyed_hash(self@, data)@
    }

    fn sign(&self, data: &[u8]) -> (r: Vec<u8>) {
        let key = self.key();
        let digest = keyed_hash(&key, data);
        vstd::slice::slice_to_vec(digest.as_slice())
    }
}

/// An Ed25519 signature is deterministic, and verifies under the signer's
/// public key.
impl TextSign for Ed25519Signer {
    open spec fn signed(&self, data: Seq<u8>, signature: Seq<u8>) -> bool {
        &&& signature == ed25519_signature(self@, data)@
        &&& ed25519_accepts(ed25519_public_key(self@)@, data, signature)
    }

    fn sign(&self, data: &[u8]) -> (r: Vec<u8>) {
        let key = self.key();
        let signature = sign_ed25519(&key, data);
        vstd::slice::slice_to_vec(signature.as_slice())
    }
}

impl TextVerify for Blake3 {
    open spec fn signature_len() -> nat {
        DIGEST_LEN as nat
    }

    open spec fn accepts(&self, data: Seq<u8>, signature: Seq<u8>) -> bool {
        signature == blake3_keyed_hash(self@, data)@
    }

    fn verify(&self, data: &[u8], signature: &[u8]) -> (r: Result<bool, TextError>) {
        if signature.len() != DIGEST_LEN {
            return Err(TextError::SignatureLength);
        }
        let key = self.key();
        let digest = keyed_hash(&key, data);
        let mut i: usize = 0;
        while i < DIGEST_LEN
            invariant
                signature@.len() == DIGEST_LEN,
                digest == blake3_keyed_hash(self@, data@),
                digest@.len() == DIGEST_LEN,
                i <= DIGEST_LEN,
                forall|j: int| 0 <= j < i ==> digest@[j] == signature@[j],
            decreases DIGEST_LEN - i,
        {
            if digest[i] != signature[i] {
                proof {
                    assert(digest@[i as int] != signature@[i as int]);
                    assert(digest@ != signature@);
                }
                return Ok(false);
            }
            i = i + 1;
        }
        proof {
            assert(digest@ =~= signature@);
        }
        Ok(true)
    }
}

impl TextVerify for Ed25519Verifier {
    open spec fn signature_len() -> nat {
        SIGNATURE_LEN as nat
    }

    open spec fn accepts(&self, data: Seq<u8>, signature: Seq<u8>) -> bool {
        ed25519_accepts(self@, data, signature)
    }

    fn verify(&self, data: &[u8], signature: &[u8]) -> (r: Result<bool, TextError>) {
        if signature.len() != SIGNATURE_LEN {
            return Err(TextError::SignatureLength);
        }
        let sig: [u8; 64] = prefix_array(signature);
        proof {
            assert(sig@ =~= signature@);
        }
        let key = self.key();
        Ok(verify_ed25519(&key, data, &sig))
    }
}

/// The nonce at the front of an encrypted blob.
pub open spec fn nonce_of(blob: Seq<u8>) -> Seq<u8> {
    blob.subrange(0, NONCE_LEN as int)
}

/// The sealed payload (ciphertext and tag) after the nonce.
pub open spec fn payload_of(blob: Seq<u8>) -> Seq<u8> {
    blob.subrange(NONCE_LEN as int, blob.len() as int)
}

/// Whether `plaintext` is short enough to be sealed into a blob.
pub open spec fn fits_cipher(plaintext: Seq<u8>) -> bool {
    plaintext.len() / 64 < MAX_AEAD_BLOCKS && plaintext.len() + NONCE_LEN + TAG_LEN <= isize::MAX
}

/// Whether `blob` is a nonce followed by `plaintext` sealed under `key` with
/// that nonce, and opens back to `plaintext`.
pub open spec fn sealed_blob(key: Seq<u8>, plaintext: Seq<u8>, blob: Seq<u8>) -> bool {
    &&& blob.len() >= NONCE_LEN
    &&& payload_of(blob) == chacha_seal(key, nonce_of(blob), plaintext)
    &&& chacha_open(key, nonce_of(blob), payload_of(blob)) == Some(plaintext)
}

/// What opening `blob` under `key` yields.
pub open spec fn opened_blob(key: Seq<u8>, blob: Seq<u8>) -> Result<Seq<u8>, TextError> {
    if blob.len() < NONCE_LEN {
        Err(TextError::Authentication)
    } else {
        match chacha_open(key, nonce_of(blob), payload_of(blob)) {
            Some(p) => Ok(p),
            None => Err(TextError::Authentication),
        }
    }
}

impl Chacha20poly1305 {
    /// Encrypts `plaintext` under a fresh random nonce; the nonce is put in
    /// front of the sealed payload.
    pub fn encrypt(&self, plaintext: &[u8]) -> (r: Result<Vec<u8>, TextError>)
        ensures
            fits_cipher(plaintext@) ==> (r matches Ok(blob) && sealed_blob(self@, plaintext@, blob@)
                && blob@.len() == plaintext@.len() + NONCE_LEN + TAG_LEN),
            !fits_cipher(plaintext@) ==> r == Err::<Vec<u8>, TextError>(TextError::TooLong),
    {
        if plaintext.len() > usize::MAX - NONCE_LEN - TAG_LEN || plaintext.len() + NONCE_LEN + TAG_LEN
            > isize::MAX as usize {
            return Err(TextError::TooLong);
        }
        let key = self.key();
        let nonce = fresh_nonce();
        match seal(&key, &nonce, plaintext) {
            Some(payload) => {
                let mut blob = vstd::slice::slice_to_vec(nonce.as_slice());
                let ghost sealed = payload@;
                let mut payload = payload;
                blob.append(&mut payload);
                proof {
                    assert(nonce_of(blob@) =~= nonce@);
                    assert(payload_of(blob@) =~= sealed);
                }
                Ok(blob)
            },
            None => Err(TextError::TooLong),
        }
    }

    /// Decrypts a blob made by `encrypt`, with the nonce it carries.
    pub fn decrypt(&self, blob: &[u8]) -> (r: Result<Vec<u8>, TextError>)
        ensures
            match opened_blob(self@, blob@) {
                Ok(p) => r matches Ok(v) && v@ == p,
                Err(e) => r matches Err(f) && f == e,
            },
    {
        if blob.len() < NONCE_LEN {
            return Err(TextError::Authentication);
        }
        let nonce: [u8; 12] = prefix_array(blob);
        let payload = vstd::slice::slice_subrange(blob, NONCE_LEN, blob.len());
        let key = self.key();
        match open(&key, &nonce, payload) {
            Some(p) => Ok(p),
            None => Err(TextError::Authentication),
        }
    }
}

/// The raw signature of `data` under the key that the source `key` yields.
pub open spec fn signature_for(format: TextSignFormat, key: Seq<u8>, data: Seq<u8>) -> Result<
    Seq<u8>,
    TextError,
> {
    match format {
        TextSignFormat::Blake3 => match Blake3::key_from_source(key) {
            Ok(k) => Ok(blake3_keyed_hash(k, data)@),
            Err(e) => Err(TextError::KeyFormat(e)),
        },
        TextSignFormat::Ed25519 => match Ed25519Signer::key_from_source(key) {
            Ok(k) => Ok(ed25519_signature(k, data)@),
            Err(e) => Err(TextError::KeyFormat(e)),
        },
        TextSignFormat::ChaCha20Poly1305 => Err(TextError::Unsupported),
    }
}

/// Whether `text` is the signature of `data` under the key that the source
/// `key` yields, as `process_text_sign` returns it: the raw signature in
/// URL-safe base64, which decodes back to it; an Ed25519 signature also
/// verifies under the signer's public key.
pub open spec fn text_signed(format: TextSignFormat, key: Seq<u8>, data: Seq<u8>, text: Seq<char>) -> bool {
    match signature_for(format, key, data) {
        Ok(sig) => {
            &&& text == url_safe_encoding(sig)
            &&& url_safe_decoding(text) == Some(sig)
            &&& format == TextSignFormat::Ed25519 ==> ed25519_accepts(
                ed25519_public_key(key.subrange(0, 32))@,
                data,
                sig,
            )
        },
        Err(_) => false,
    }
}

/// What verifying the base64 signature `text` of `data` under the key that
/// the source `key` yields gives.
pub open spec fn verification(format: TextSignFormat, key: Seq<u8>, data: Seq<u8>, text: Seq<char>) -> Result<
    bool,
    TextError,
> {
    match url_safe_decoding(text) {
        None => Err(TextError::Encoding),
        Some(sig) => match format {
            TextSignFormat::Blake3 => match Blake3::key_from_source(key) {
                Ok(k) => if sig.len() != DIGEST_LEN {
                    Err(TextError::SignatureLength)
                } else {
                    Ok(sig == blake3_keyed_hash(k, data)@)
                },
                Err(e) => Err(TextError::KeyFormat(e)),
            },
            TextSignFormat::Ed25519 => match Ed25519Verifier::key_from_source(key) {
                Ok(k) => if sig.len() != SIGNATURE_LEN {
                    Err(TextError::SignatureLength)
                } else {
                    Ok(ed25519_accepts(k, data, sig))
                },
                Err(e) => Err(TextError::KeyFormat(e)),
            },
            TextSignFormat::ChaCha20Poly1305 => Err(TextError::Unsupported),
        },
    }
}

/// Signs `input` with the key read from `key`, and returns the signature as
/// unpadded URL-safe base64 text. The cipher algorithm signs nothing.
pub fn process_text_sign(input: &[u8], key: &[u8], format: TextSignFormat) -> (r: Result<
    String,
    TextError,
>)
    ensures
        match signature_for(format, key@, input@) {
            Ok(_) => r matches Ok(text) && text_signed(format, key@, input@, text@),
            Err(e) => r matches Err(f) && f == e,
        },
{
    let signature = match format {
        TextSignFormat::Blake3 => {
            let signer = match Blake3::load(key) {
                Ok(s) => s,
                Err(e) => return Err(TextError::KeyFormat(e)),
            };
            signer.sign(input)
        },
        TextSignFormat::Ed25519 => {
            let signer = match Ed25519Signer::load(key) {
                Ok(s) => s,
                Err(e) => return Err(TextError::KeyFormat(e)),
            };
            signer.sign(input)
        },
        TextSignFormat::ChaCha20Poly1305 => {
            return Err(TextError::Unsupported);
        },
    };
    Ok(encode_url_safe(signature.as_slice()))
}

/// Verifies the base64 `signature` of `input` with the key read from `key`:
/// the signing key for the keyed hash, the public key for Ed25519.
pub fn process_text_verify(input: &[u8], key: &[u8], signature: &str, format: TextSignFormat) -> (r:
    Result<bool, TextError>)
    ensures
        r == verification(format, key@, input@, signature@),
{
    let signature = match decode_url_safe(signature) {
        Some(s) => s,
        None => return Err(TextError::Encoding),
    };
    match format {
        TextSignFormat::Blake3 => {
            let verifier = match Blake3::load(key) {
                Ok(v) => v,
                Err(e) => return Err(TextError::KeyFormat(e)),
            };
            verifier.verify(input, signature.as_slice())
        },
        TextSignFormat::Ed25519 => {
            let verifier = match Ed25519Verifier::load(key) {
                Ok(v) => v,
                Err(e) => return Err(TextError::KeyFormat(e)),
            };
            verifier.verify(input, signature.as_slice())
        },
        TextSignFormat::ChaCha20Poly1305 => Err(TextError::Unsupported),
    }
}

/// Whether `keys` is a possible outcome of generating keys for `format`.
pub open spec fn generated_for(format: TextSignFormat, keys: Seq<Seq<u8>>) -> bool {
    match format {
        TextSignFormat::Blake3 => Blake3::generated(keys),
        TextSignFormat::Ed25519 => Ed25519Signer::generated(keys),
        TextSignFormat::ChaCha20Poly1305 => Chacha20poly1305::generated(keys),
    }
}

/// Generates fresh key material for `format`.
pub fn process_text_generate(format: TextSignFormat) -> (r: Result<Vec<Vec<u8>>, TextError>)
    ensures
        r matches Ok(keys) && generated_for(format, keys@.map_values(|k: Vec<u8>| k@)),
{
    match format {
        TextSignFormat::Blake3 => Ok(Blake3::generate()),
        TextSignFormat::Ed25519 => Ok(Ed25519Signer::generate()),
        TextSignFormat::ChaCha20Poly1305 => Ok(Chacha20poly1305::generate()),
    }
}

/// Whether `text` is a possible result of encrypting `plaintext` under the
/// key that the source `key` yields: an encrypted blob in URL-safe base64,
/// which decodes back to it.
pub open spec fn encrypted_text(key: Seq<u8>, plaintext: Seq<u8>, text: Seq<char>) -> bool {
    match key_prefix(key) {
        Ok(k) => exists|blob: Seq<u8>|
            #![trigger url_safe_encoding(blob)]
            text == url_safe_encoding(blob) && url_safe_decoding(text) == Some(blob) && sealed_blob(
                k,
                plaintext,
                blob,
            ),
        Err(_) => false,
    }
}

/// What decrypting the base64 ciphertext `text` under the key that the
/// source `key` yields gives.
pub open spec fn decryption(key: Seq<u8>, text: Seq<char>) -> Result<Seq<u8>, TextError> {
    match url_safe_decoding(text) {
        None => Err(TextError::Encoding),
        Some(blob) => match key_prefix(key) {
            Ok(k) => opened_blob(k, blob),
            Err(e) => Err(TextError::KeyFormat(e)),
        },
    }
}

/// Encrypts `input` with the cipher key read from `key`, under a fresh
/// nonce, and returns nonce and sealed payload as URL-safe base64 text.
pub fn process_text_encrypt(input: &[u8], key: &[u8]) -> (r: Result<String, TextError>)
    ensures
        match key_prefix(key@) {
            Ok(_) => if fits_cipher(input@) {
                r matches Ok(text) && encrypted_text(key@, input@, text@)
            } else {
                r == Err::<String, TextError>(TextError::TooLong)
            },
            Err(e) => r == Err::<String, TextError>(TextError::KeyFormat(e)),
        },
{
    let cipher = match Chacha20poly1305::load(key) {
        Ok(c) => c,
        Err(e) => return Err(TextError::KeyFormat(e)),
    };
    let blob = match cipher.encrypt(input) {
        Ok(b) => b,
        Err(e) => return Err(e),
    };
    let text = encode_url_safe(blob.as_slice());
    proof {
        assert(url_safe_encoding(blob@) == text@);
    }
    Ok(text)
}

/// Decrypts base64 text made by `process_text_encrypt` with the cipher key
/// read from `key`, using the nonce that the text carries.
pub fn process_text_decrypt(encrypted: &str, key: &[u8]) -> (r: Result<Vec<u8>, TextError>)
    ensures
        match decryption(key@, encrypted@) {
            Ok(p) => r matches Ok(v) && v@ == p,
            Err(e) => r matches Err(f) && f == e,
        },
{
    let blob = match decode_url_safe(encrypted) {
        Some(b) => b,
        None => return Err(TextError::Encoding),
    };
    let cipher = match Chacha20poly1305::load(key) {
        Ok(c) => c,
        Err(e) => return Err(TextError::KeyFormat(e)),
    };
    cipher.decrypt(blob.as_slice())
}

/// A keyed-hash signature has the fixed length and verifies under the key
/// that made it.
pub proof fn lemma_blake3_sign_then_verify(key: Blake3, data: Seq<u8>, signature: Seq<u8>)
    requires
        key.signed(data, signature),
    ensures
        signature.len() == <Blake3 as TextVerify>::signature_len(),
        key.accepts(data, signature),
{
}

/// An Ed25519 signature has the fixed length and verifies under the
/// public key of the secret key that made it.
pub proof fn lemma_ed25519_sign_then_verify(
    signer: Ed25519Signer,
    verifier: Ed25519Verifier,
    data: Seq<u8>,
    signature: Seq<u8>,
)
    requires
        signer.signed(data, signature),
        verifier@ == ed25519_public_key(signer@)@,
    ensures
        signature.len() == <Ed25519Verifier as TextVerify>::signature_len(),
        verifier.accepts(data, signature),
{
}

/// `s` with bit `bit` of byte `i` flipped.
pub open spec fn flip_bit(s: Seq<u8>, i: int, bit: u8) -> Seq<u8> {
    s.update(i, s[i] ^ (1u8 << bit))
}

/// A keyed-hash signature with any single bit flipped no longer verifies.
pub proof fn lemma_blake3_rejects_flipped_signature(
    key: Blake3,
    data: Seq<u8>,
    signature: Seq<u8>,
    i: int,
    bit: u8,
)
    requires
        key.signed(data, signature),
        0 <= i < signature.len(),
        bit < 8,
    ensures
        !key.accepts(data, flip_bit(signature, i, bit)),
{
    let x = signature[i];
    assert(x ^ (1u8 << bit) != x) by (bit_vector)
        requires
            bit < 8,
    ;
    assert(flip_bit(signature, i, bit)[i] != signature[i]);
}

/// A keyed-hash signature text that decodes to the signature with one bit
/// flipped is refused by `process_text_verify` under the signing key.
pub proof fn lemma_text_rejects_flipped_keyed_hash(
    key: Seq<u8>,
    data: Seq<u8>,
    text: Seq<char>,
    altered: Seq<char>,
    i: int,
    bit: u8,
)
    requires
        text_signed(TextSignFormat::Blake3, key, data, text),
        0 <= i < DIGEST_LEN,
        bit < 8,
        url_safe_decoding(altered) == Some(flip_bit(url_safe_decoding(text)->0, i, bit)),
    ensures
        verification(TextSignFormat::Blake3, key, data, altered) == Ok::<bool, TextError>(false),
{
    let sig = url_safe_decoding(text)->0;
    let x = sig[i];
    assert(x ^ (1u8 << bit) != x) by (bit_vector)
        requires
            bit < 8,
    ;
    assert(flip_bit(sig, i, bit)[i] != sig[i]);
}

/// Whether `verifying` is a key source that matches the signing key source
/// `signing`: one that yields the same key for the keyed hash, one that
/// yields the signer's public key for Ed25519.
pub open spec fn matching_keys(format: TextSignFormat, signing: Seq<u8>, verifying: Seq<u8>) -> bool {
    match format {
        TextSignFormat::Blake3 => Blake3::key_from_source(verifying) == Blake3::key_from_source(signing),
        TextSignFormat::Ed25519 => match Ed25519Signer::key_from_source(signing) {
            Ok(k) => Ed25519Verifier::key_from_source(verifying) == Ok::<Seq<u8>, KeyFormatError>(
                ed25519_public_key(k)@,
            ),
            Err(_) => false,
        },
        TextSignFormat::ChaCha20Poly1305 => false,
    }
}

/// A signature made by `process_text_sign` verifies with
/// `process_text_verify` under a matching key.
pub proof fn lemma_text_sign_then_verify(
    format: TextSignFormat,
    signing: Seq<u8>,
    verifying: Seq<u8>,
    data: Seq<u8>,
    text: Seq<char>,
)
    requires
        text_signed(format, signing, data, text),
        matching_keys(format, signing, verifying),
    ensures
        verification(format, verifying, data, text) == Ok::<bool, TextError>(true),
{
}

/// A blob sealed under a key opens under that key to the plaintext.
pub proof fn lemma_seal_then_open(key: Seq<u8>, plaintext: Seq<u8>, blob: Seq<u8>)
    requires
        sealed_blob(key, plaintext, blob),
    ensures
        opened_blob(key, blob) == Ok::<Seq<u8>, TextError>(plaintext),
{
}

/// Text made by `process_text_encrypt` decrypts with
/// `process_text_decrypt`, under the same key source, to the plaintext.
pub proof fn lemma_encrypt_then_decrypt(key: Seq<u8>, data: Seq<u8>, text: Seq<char>)
    requires
        encrypted_text(key, data, text),
    ensures
        decryption(key, text) == Ok::<Seq<u8>, TextError>(data),
{
    let k = key.subrange(0, KEY_LEN as int);
    let blob = choose|blob: Seq<u8>|
        #![trigger url_safe_encoding(blob)]
        text == url_safe_encoding(blob) && url_safe_decoding(text) == Some(blob) && sealed_blob(
            k,
            data,
            blob,
        );
    lemma_seal_then_open(k, data, blob);
}

/// Two encryptions of one plaintext under one key, which differ by their
/// nonces, both decrypt to that plaintext.
pub proof fn lemma_encryptions_agree(key: Seq<u8>, data: Seq<u8>, first: Seq<char>, second: Seq<char>)
    requires
        encrypted_text(key, data, first),
        encrypted_text(key, data, second),
    ensures
        decryption(key, first) == decryption(key, second),
        decryption(key, first) == Ok::<Seq<u8>, TextError>(data),
{
    lemma_encrypt_then_decrypt(key, data, first);
    lemma_encrypt_then_decrypt(key, data, second);
}

} // verus!
