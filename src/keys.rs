//! Key material: loading keys from raw bytes and generating fresh ones.
use vstd::prelude::*;

use crate::crypto::{
    ed25519_key_decodes, ed25519_public_key, fresh_cipher_key, fresh_signing_key, public_key_decodes,
    public_key_of, KEY_LEN,
};
use crate::password::{generate_password, is_password, CharClasses};
use crate::util::{prefix_array, trailing_space_cut, trim_trailing_space};

verus! {

/// Why a byte source yields no key.
#[derive(Debug, Clone, Copy, PartialEq, Eq, Structural)]
pub enum KeyFormatError {
    /// Fewer bytes than the algorithm's key length.
    TooShort,
    /// The bytes are not a valid key of the algorithm.
    InvalidKey,
}

impl KeyFormatError {
    /// A human-readable description of the error.
    pub fn message(&self) -> &'static str {
        match self {
            KeyFormatError::TooShort => "key is shorter than 32 bytes",
            KeyFormatError::InvalidKey => "key is not a valid public key",
        }
    }
}

/// The key that a raw byte source yields: its first 32 bytes; longer sources
/// are cut, shorter ones refused.
pub open spec fn key_prefix(source: Seq<u8>) -> Result<Seq<u8>, KeyFormatError> {
    if source.len() >= KEY_LEN {
        Ok(source.subrange(0, KEY_LEN as int))
    } else {
        Err(KeyFormatError::TooShort)
    }
}

/// The public key that a raw byte source yields: its first 32 bytes, if
/// they encode a curve point.
pub open spec fn public_key_prefix(source: Seq<u8>) -> Result<Seq<u8>, KeyFormatError> {
    match key_prefix(source) {
        Ok(k) => if ed25519_key_decodes(k) {
            Ok(k)
        } else {
            Err(KeyFormatError::InvalidKey)
        },
        Err(e) => Err(e),
    }
}

/// A type of key that can be read from a raw byte source.
pub trait KeyLoader: Sized {
    /// The key bytes that the value holds.
    spec fn key_bytes(&self) -> Seq<u8>;

    /// The key bytes that `source` yields, or why it yields none.
    spec fn key_from_source(source: Seq<u8>) -> Result<Seq<u8>, KeyFormatError>;

    /// Reads a key from the content of a key file or stream.
    fn load(source: &[u8]) -> (r: Result<Self, KeyFormatError>)
        ensures
            match Self::key_from_source(source@) {
                Ok(k) => r matches Ok(v) && v.key_bytes() == k,
                Err(e) => r matches Err(f) && f == e,
            },
    ;
}

/// A type of key that can be generated afresh.
pub trait KeyGenerator {
    /// Whether `keys` is a possible outcome of generation.
    spec fn generated(keys: Seq<Seq<u8>>) -> bool;

    /// Generates key material: one key for a symmetric algorithm, a secret
    /// key and then its public key for an asymmetric one.
    fn generate() -> (r: Vec<Vec<u8>>)
        ensures
            Self::generated(r@.map_values(|k: Vec<u8>| k@)),
    ;
}

/// A BLAKE3 keyed-hash signer and verifier.
pub struct Blake3 {
    key: [u8; 32],
}

/// An Ed25519 signer, holding a secret key.
pub struct Ed25519Signer {
    key: [u8; 32],
}

/// An Ed25519 verifier, holding a public key that encodes a curve point.
pub struct Ed25519Verifier {
    key: [u8; 32],
}

/// A ChaCha20-Poly1305 cipher key.
pub struct Chacha20poly1305 {
    key: [u8; 32],
}

impl View for Blake3 {
    type V = Seq<u8>;

    closed spec fn view(&self) -> Seq<u8> {
        self.key@
    }
}

impl View for Ed25519Signer {
    type V = Seq<u8>;

    closed spec fn view(&self) -> Seq<u8> {
        self.key@
    }
}

impl View for Ed25519Verifier {
    type V = Seq<u8>;

    closed spec fn view(&self) -> Seq<u8> {
        self.key@
    }
}

impl View for Chacha20poly1305 {
    type V = Seq<u8>;

    closed spec fn view(&self) -> Seq<u8> {
        self.key@
    }
}

impl Blake3 {
    pub fn new(key: [u8; 32]) -> (r: Self)
        ensures
            r@ == key@,
    {
        Blake3 { key }
    }

    /// Takes the first 32 bytes of `key`.
    pub fn try_new(key: &[u8]) -> (r: Result<Self, KeyFormatError>)
        ensures
            match key_prefix(key@) {
                Ok(k) => r matches Ok(v) && v@ == k,
                Err(e) => r matches Err(f) && f == e,
            },
    {
        if key.len() < KEY_LEN {
            return Err(KeyFormatError::TooShort);
        }
        Ok(Blake3::new(prefix_array(key)))
    }

    /// The raw key bytes.
    pub fn key(&self) -> (r: [u8; 32])
        ensures
            r@ == self@,
    {
        self.key
    }
}

impl Ed25519Signer {
    pub fn new(key: [u8; 32]) -> (r: Self)
        ensures
            r@ == key@,
    {
        Ed25519Signer { key }
    }

    /// Takes the first 32 bytes of `key` as the secret key.
    pub fn try_new(key: &[u8]) -> (r: Result<Self, KeyFormatError>)
        ensures
            match key_prefix(key@) {
                Ok(k) => r matches Ok(v) && v@ == k,
                Err(e) => r matches Err(f) && f == e,
            },
    {
        if key.len() < KEY_LEN {
            return Err(KeyFormatError::TooShort);
        }
        Ok(Ed25519Signer::new(prefix_array(key)))
    }

    /// The raw secret key bytes.
    pub fn key(&self) -> (r: [u8; 32])
        ensures
            r@ == self@,
    {
        self.key
    }

    /// The verifier for this signer's public key.
    pub fn verifying_key(&self) -> (r: Ed25519Verifier)
        ensures
            r@ == ed25519_public_key(self@)@,
    {
        let public = public_key_of(&self.key);
        Ed25519Verifier::new(public)
    }
}

impl Ed25519Verifier {
    #[verifier::type_invariant]
    spec fn decodes(self) -> bool {
        ed25519_key_decodes(self.key@)
    }

    pub fn new(key: [u8; 32]) -> (r: Self)
        requires
            ed25519_key_decodes(key@),
        ensures
            r@ == key@,
    {
        Ed25519Verifier { key }
    }

    /// Takes the first 32 bytes of `key` as the public key.
    pub fn try_new(key: &[u8]) -> (r: Result<Self, KeyFormatError>)
        ensures
            match public_key_prefix(key@) {
                Ok(k) => r matches Ok(v) && v@ == k,
                Err(e) => r matches Err(f) && f == e,
            },
    {
        if key.len() < KEY_LEN {
            return Err(KeyFormatError::TooShort);
        }
        let public = prefix_array(key);
        if !public_key_decodes(&public) {
            return Err(KeyFormatError::InvalidKey);
        }
        Ok(Ed25519Verifier::new(public))
    }

    /// The raw public key bytes.
    pub fn key(&self) -> (r: [u8; 32])
        ensures
            r@ == self@,
            ed25519_key_decodes(r@),
    {
        proof {
            use_type_invariant(self);
        }
        self.key
    }
}

impl Chacha20poly1305 {
    pub fn new(key: [u8; 32]) -> (r: Self)
        ensures
            r@ == key@,
    {
        Chacha20poly1305 { key }
    }

    /// Takes the first 32 bytes of `key`.
    pub fn try_new(key: &[u8]) -> (r: Result<Self, KeyFormatError>)
        ensures
            match key_prefix(key@) {
                Ok(k) => r matches Ok(v) && v@ == k,
                Err(e) => r matches Err(f) && f == e,
            },
    {
        if key.len() < KEY_LEN {
            return Err(KeyFormatError::TooShort);
        }
        Ok(Chacha20poly1305::new(prefix_array(key)))
    }

    /// The raw key bytes.
    pub fn key(&self) -> (r: [u8; 32])
        ensures
            r@ == self@,
    {
        self.key
    }
}

/// A keyed-hash key is text: trailing whitespace, such as the newline that
/// ends a line of a file, is not part of it.
impl KeyLoader for Blake3 {
    open spec fn key_bytes(&self) -> Seq<u8> {
        self@
    }

    open spec fn key_from_source(source: Seq<u8>) -> Result<Seq<u8>, KeyFormatError> {
        key_prefix(trim_trailing_space(source))
    }

    fn load(source: &[u8]) -> (r: Result<Self, KeyFormatError>) {
        let n = trailing_space_cut(source);
        let text = vstd::slice::slice_subrange(source, 0, n);
        Blake3::try_new(text)
    }
}

impl KeyLoader for Ed25519Signer {
    open spec fn key_bytes(&self) -> Seq<u8> {
        self@
    }

    open spec fn key_from_source(source: Seq<u8>) -> Result<Seq<u8>, KeyFormatError> {
        key_prefix(source)
    }

    fn load(source: &[u8]) -> (r: Result<Self, KeyFormatError>) {
        Ed25519Signer::try_new(source)
    }
}

impl KeyLoader for Ed25519Verifier {
    open spec fn key_bytes(&self) -> Seq<u8> {
        self@
    }

    open spec fn key_from_source(source: Seq<u8>) -> Result<Seq<u8>, KeyFormatError> {
        public_key_prefix(source)
    }

    fn load(source: &[u8]) -> (r: Result<Self, KeyFormatError>) {
        Ed25519Verifier::try_new(source)
    }
}

impl KeyLoader for Chacha20poly1305 {
    open spec fn key_bytes(&self) -> Seq<u8> {
        self@
    }

    open spec fn key_from_source(source: Seq<u8>) -> Result<Seq<u8>, KeyFormatError> {
        key_prefix(source)
    }

    fn load(source: &[u8]) -> (r: Result<Self, KeyFormatError>) {
        Chacha20poly1305::try_new(source)
    }
}

/// The character classes of a generated keyed-hash key: all four.
pub open spec fn key_classes() -> CharClasses {
    CharClasses { upper: true, lower: true, number: true, symbol: true }
}

/// A keyed-hash key is a random 32-character password over all four
/// character classes, taken as its bytes.
impl KeyGenerator for Blake3 {
    open spec fn generated(keys: Seq<Seq<u8>>) -> bool {
        keys.len() == 1 && is_password(keys[0], KEY_LEN as nat, key_classes())
    }

    fn generate() -> (r: Vec<Vec<u8>>) {
        let classes = CharClasses { upper: true, lower: true, number: true, symbol: true };
        match generate_password(32, classes) {
            Ok(key) => {
                let ghost k = key@;
                let r = vec![key];
                proof {
                    assert(r@.map_values(|k: Vec<u8>| k@) =~= seq![k]);
                }
                r
            },
            Err(_) => {
                proof {
                    assert(false);
                }
                Vec::new()
            },
        }
    }
}

/// An Ed25519 key pair: a random secret key, then its public key.
impl KeyGenerator for Ed25519Signer {
    open spec fn generated(keys: Seq<Seq<u8>>) -> bool {
        &&& keys.len() == 2
        &&& keys[0].len() == KEY_LEN
        &&& keys[1] == ed25519_public_key(keys[0])@
    }

    fn generate() -> (r: Vec<Vec<u8>>) {
        let secret = fresh_signing_key();
        let public = public_key_of(&secret);
        let sk = vstd::slice::slice_to_vec(secret.as_slice());
        let pk = vstd::slice::slice_to_vec(public.as_slice());
        let ghost (s, p) = (sk@, pk@);
        let r = vec![sk, pk];
        proof {
            assert(r@.map_values(|k: Vec<u8>| k@) =~= seq![s, p]);
        }
        r
    }
}

/// A ChaCha20-Poly1305 key: 32 random bytes.
impl KeyGenerator for Chacha20poly1305 {
    open spec fn generated(keys: Seq<Seq<u8>>) -> bool {
        keys.len() == 1 && keys[0].len() == KEY_LEN
    }

    fn generate() -> (r: Vec<Vec<u8>>) {
        let key = fresh_cipher_key();
        let k = vstd::slice::slice_to_vec(key.as_slice());
        let ghost kv = k@;
        let r = vec![k];
        proof {
            assert(r@.map_values(|k: Vec<u8>| k@) =~= seq![kv]);
        }
        r
    }
}

/// Trimming trailing whitespace never lengthens a source.
pub proof fn lemma_trim_shortens(s: Seq<u8>)
    ensures
        trim_trailing_space(s).len() <= s.len(),
    decreases s.len(),
{
    if s.len() > 0 && crate::util::is_space_byte(s.last()) {
        lemma_trim_shortens(s.drop_last());
    }
}

/// Loading a raw key reads the first 32 bytes of the source and nothing
/// else: sources that agree on those bytes yield the same key, which is
/// those bytes.
pub proof fn lemma_key_source_prefix(a: Seq<u8>, b: Seq<u8>)
    requires
        a.len() >= KEY_LEN,
        b.len() >= KEY_LEN,
        a.subrange(0, KEY_LEN as int) == b.subrange(0, KEY_LEN as int),
    ensures
        Chacha20poly1305::key_from_source(a) == Ok::<Seq<u8>, KeyFormatError>(
            a.subrange(0, KEY_LEN as int),
        ),
        Chacha20poly1305::key_from_source(a) == Chacha20poly1305::key_from_source(b),
        Ed25519Signer::key_from_source(a) == Ed25519Signer::key_from_source(b),
        Ed25519Verifier::key_from_source(a) == Ed25519Verifier::key_from_source(b),
{
}

/// A source of fewer than 32 bytes yields no key of any algorithm.
pub proof fn lemma_short_source_refused(source: Seq<u8>)
    requires
        source.len() < KEY_LEN,
    ensures
        Blake3::key_from_source(source) == Err::<Seq<u8>, KeyFormatError>(KeyFormatError::TooShort),
        Ed25519Signer::key_from_source(source) == Err::<Seq<u8>, KeyFormatError>(
            KeyFormatError::TooShort,
        ),
        Ed25519Verifier::key_from_source(source) == Err::<Seq<u8>, KeyFormatError>(
            KeyFormatError::TooShort,
        ),
        Chacha20poly1305::key_from_source(source) == Err::<Seq<u8>, KeyFormatError>(
            KeyFormatError::TooShort,
        ),
{
    lemma_trim_shortens(source);
}

} // verus!
