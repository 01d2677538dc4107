//! Signing, verification and authenticated encryption of byte streams,
//! with a base64 transport form for the binary results.
//!
//! One algorithm tag selects the operation set: a BLAKE3 keyed hash and
//! Ed25519 signatures sign and verify, ChaCha20-Poly1305 encrypts and
//! decrypts. Keys are read from raw bytes or generated afresh.
pub mod cli;
pub mod codec;
pub mod convert;
pub mod crypto;
pub mod formats;
pub mod http;
pub mod jwt;
pub mod keys;
pub mod password;
pub mod text;
pub mod util;
