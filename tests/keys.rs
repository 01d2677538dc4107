use rcli::keys::{
    Blake3, Chacha20poly1305, Ed25519Signer, Ed25519Verifier, KeyFormatError, KeyLoader,
};

#[test]
fn long_key_sources_are_cut_the_same_way() {
    let mut source = b"0123456789abcdef0123456789abcdef".to_vec();
    source.extend_from_slice(b"trailing bytes");
    let first = Chacha20poly1305::load(&source).unwrap();
    let second = Chacha20poly1305::load(&source).unwrap();
    assert_eq!(first.key(), second.key());
    assert_eq!(first.key().to_vec(), source[..32].to_vec());
    let signer = Ed25519Signer::load(&source).unwrap();
    assert_eq!(signer.key().to_vec(), source[..32].to_vec());
    let blake = Blake3::try_new(&source).unwrap();
    assert_eq!(blake.key().to_vec(), source[..32].to_vec());
}

#[test]
fn short_key_sources_are_refused() {
    let source = [7u8; 31];
    assert!(matches!(Blake3::load(&source), Err(KeyFormatError::TooShort)));
    assert!(matches!(Ed25519Signer::load(&source), Err(KeyFormatError::TooShort)));
    assert!(matches!(Ed25519Verifier::load(&source), Err(KeyFormatError::TooShort)));
    assert!(matches!(Chacha20poly1305::load(&source), Err(KeyFormatError::TooShort)));
    assert!(matches!(Chacha20poly1305::try_new(&[]), Err(KeyFormatError::TooShort)));
}

#[test]
fn blake3_key_whitespace_is_trimmed_before_length_check() {
    let mut source = [b'k'; 31].to_vec();
    source.extend_from_slice(b" \n");
    assert!(matches!(Blake3::load(&source), Err(KeyFormatError::TooShort)));
    assert!(Blake3::try_new(&source).is_ok());
}

#[test]
fn invalid_public_key_is_refused() {
    let mut bad = [0u8; 32];
    bad[0] = 2;
    assert!(matches!(Ed25519Verifier::load(&bad), Err(KeyFormatError::InvalidKey)));
}

#[test]
fn new_keeps_the_key() {
    let key = [9u8; 32];
    assert_eq!(Blake3::new(key).key(), key);
    assert_eq!(Chacha20poly1305::new(key).key(), key);
    assert_eq!(Ed25519Signer::new(key).key(), key);
}
