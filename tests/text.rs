use rcli::codec::{encode_bytes, process_decode};
use rcli::formats::{Base64Format, TextSignFormat};
use rcli::keys::{
    Blake3, Chacha20poly1305, Ed25519Signer, Ed25519Verifier, KeyFormatError, KeyGenerator,
    KeyLoader,
};
use rcli::text::{
    process_text_decrypt, process_text_encrypt, process_text_generate, process_text_sign,
    process_text_verify, TextError, TextSign, TextVerify,
};

const BLAKE3_KEY: &[u8] = b"01234567890123456789012345678901";
const TEXT: &[u8] = b"The quick brown fox jumps over the lazy dog.\n";

fn hex(s: &str) -> Vec<u8> {
    (0..s.len())
        .step_by(2)
        .map(|i| u8::from_str_radix(&s[i..i + 2], 16).unwrap())
        .collect()
}

const RFC_SECRET: &str = "9d61b19deffd5a60ba844af492ec2cc44449c5697b326919703bac031cae7f60";
const RFC_PUBLIC: &str = "d75a980182b10ab7d54bfed3c964073a0ee172f3daa62325af021a68f707511a";
const RFC_SIGNATURE: &str = "e5564300c360ac729086e2cc806e828a84877f1eb8e5d974d873e065224901555fb8821590a33bacc61e39701cf9b46bd25bf5f0595bbe24655141438e7a100b";

#[test]
fn test_blake3_sign_verify() {
    let signer = Blake3::load(BLAKE3_KEY).unwrap();
    let data = b"hello world!";
    let sig = signer.sign(&data[..]);
    println!("sig = {:?}", encode_bytes(&sig, Base64Format::UrlSafe));
    assert!(signer.verify(&data[..], &sig).unwrap());
}

#[test]
fn test_ed25519_sign_verify() {
    let sk = Ed25519Signer::load(&hex(RFC_SECRET)).unwrap();
    let pk = Ed25519Verifier::load(&hex(RFC_PUBLIC)).unwrap();
    let data = b"hello!";
    let sig = sk.sign(&data[..]);
    assert!(pk.verify(&data[..], &sig).unwrap());
}

#[test]
fn test_chacha20poly1305_encrypt_dncrypt() {
    let keys = Chacha20poly1305::generate();
    let cipher = Chacha20poly1305::load(&keys[0]).unwrap();
    let ciphertext = cipher.encrypt(b"plaintext message").unwrap();
    let plaintext = cipher.decrypt(&ciphertext).unwrap();
    assert_eq!(&plaintext, b"plaintext message");
}

#[test]
fn test_process_text_sign_and_verify_blake3() {
    let signed = process_text_sign(TEXT, BLAKE3_KEY, TextSignFormat::Blake3).unwrap();
    println!("signed: {:?}", signed);
    let verified = process_text_verify(TEXT, BLAKE3_KEY, &signed, TextSignFormat::Blake3);

    assert!(verified.unwrap());
}

#[test]
fn test_process_text_sign_and_verify_ed25519() {
    let keys = process_text_generate(TextSignFormat::Ed25519).unwrap();
    let signed = process_text_sign(TEXT, &keys[0], TextSignFormat::Ed25519).unwrap();
    let verified = process_text_verify(TEXT, &keys[1], &signed, TextSignFormat::Ed25519);

    assert!(verified.unwrap());
}

#[test]
fn keyed_hash_signature_is_the_blake3_keyed_hash() {
    let key: [u8; 32] = BLAKE3_KEY.try_into().unwrap();
    let data = b"hello world!";
    let first = process_text_sign(data, BLAKE3_KEY, TextSignFormat::Blake3).unwrap();
    let second = process_text_sign(data, BLAKE3_KEY, TextSignFormat::Blake3).unwrap();
    assert_eq!(first, second);
    let raw = process_decode(&first, Base64Format::UrlSafe).unwrap();
    assert_eq!(raw.len(), 32);
    assert_eq!(raw, blake3::keyed_hash(&key, data).as_bytes().to_vec());
    assert_ne!(raw, data.to_vec());
}

#[test]
fn keyed_hash_needs_the_same_key() {
    let signed = process_text_sign(TEXT, BLAKE3_KEY, TextSignFormat::Blake3).unwrap();
    let other = b"abcdefghijabcdefghijabcdefghijab";
    assert_eq!(
        process_text_verify(TEXT, other, &signed, TextSignFormat::Blake3),
        Ok(false)
    );
    let unkeyed = blake3::hash(TEXT);
    let unkeyed = encode_bytes(unkeyed.as_bytes(), Base64Format::UrlSafe);
    assert_eq!(
        process_text_verify(TEXT, BLAKE3_KEY, &unkeyed, TextSignFormat::Blake3),
        Ok(false)
    );
}

#[test]
fn keyed_hash_key_ignores_trailing_newline() {
    let mut key = BLAKE3_KEY.to_vec();
    key.push(b'\n');
    assert_eq!(
        process_text_sign(TEXT, &key, TextSignFormat::Blake3),
        process_text_sign(TEXT, BLAKE3_KEY, TextSignFormat::Blake3)
    );
}

#[test]
fn ed25519_matches_the_rfc_vector() {
    let signer = Ed25519Signer::load(&hex(RFC_SECRET)).unwrap();
    assert_eq!(signer.verifying_key().key().to_vec(), hex(RFC_PUBLIC));
    assert_eq!(signer.sign(b""), hex(RFC_SIGNATURE));
    let verifier = Ed25519Verifier::load(&hex(RFC_PUBLIC)).unwrap();
    assert_eq!(verifier.verify(b"", &hex(RFC_SIGNATURE)), Ok(true));
}

#[test]
fn ed25519_generated_pair_and_unrelated_key() {
    let keys = process_text_generate(TextSignFormat::Ed25519).unwrap();
    assert_eq!(keys.len(), 2);
    let signer = Ed25519Signer::load(&keys[0]).unwrap();
    let verifier = Ed25519Verifier::load(&keys[1]).unwrap();
    let sig = signer.sign(b"hello!");
    assert_eq!(sig.len(), 64);
    assert_eq!(verifier.verify(b"hello!", &sig), Ok(true));
    let others = process_text_generate(TextSignFormat::Ed25519).unwrap();
    let unrelated = Ed25519Verifier::load(&others[1]).unwrap();
    assert_eq!(unrelated.verify(b"hello!", &sig), Ok(false));
}

#[test]
fn flipped_bits_fail_verification() {
    let data = b"hello world!".to_vec();
    let blake = Blake3::load(BLAKE3_KEY).unwrap();
    let sig = blake.sign(&data);
    let keys = Ed25519Signer::generate();
    let signer = Ed25519Signer::load(&keys[0]).unwrap();
    let verifier = Ed25519Verifier::load(&keys[1]).unwrap();
    let esig = signer.sign(&data);
    for i in 0..data.len() {
        let mut altered = data.clone();
        altered[i] ^= 1 << (i % 8);
        assert_eq!(blake.verify(&altered, &sig), Ok(false));
        assert_eq!(verifier.verify(&altered, &esig), Ok(false));
    }
    for i in 0..sig.len() {
        let mut altered = sig.clone();
        altered[i] ^= 1 << (i % 8);
        assert_eq!(blake.verify(&data, &altered), Ok(false));
    }
    for i in 0..esig.len() {
        let mut altered = esig.clone();
        altered[i] ^= 1 << (i % 8);
        assert_eq!(verifier.verify(&data, &altered), Ok(false));
    }
}

#[test]
fn wrong_signature_length_is_malformed() {
    let blake = Blake3::load(BLAKE3_KEY).unwrap();
    assert_eq!(blake.verify(b"x", &[0u8; 31]), Err(TextError::SignatureLength));
    let keys = Ed25519Signer::generate();
    let verifier = Ed25519Verifier::load(&keys[1]).unwrap();
    assert_eq!(verifier.verify(b"x", &[0u8; 32]), Err(TextError::SignatureLength));
    let short = encode_bytes(&[1u8; 10], Base64Format::UrlSafe);
    assert_eq!(
        process_text_verify(b"x", BLAKE3_KEY, &short, TextSignFormat::Blake3),
        Err(TextError::SignatureLength)
    );
}

#[test]
fn text_errors() {
    assert_eq!(
        process_text_verify(b"x", BLAKE3_KEY, "***", TextSignFormat::Blake3),
        Err(TextError::Encoding)
    );
    assert_eq!(
        process_text_sign(b"x", b"short", TextSignFormat::Blake3),
        Err(TextError::KeyFormat(KeyFormatError::TooShort))
    );
    assert_eq!(
        process_text_sign(b"x", BLAKE3_KEY, TextSignFormat::ChaCha20Poly1305),
        Err(TextError::Unsupported)
    );
    let sig = encode_bytes(&[0u8; 32], Base64Format::UrlSafe);
    assert_eq!(
        process_text_verify(b"x", BLAKE3_KEY, &sig, TextSignFormat::ChaCha20Poly1305),
        Err(TextError::Unsupported)
    );
    assert_eq!(
        process_text_decrypt("***", BLAKE3_KEY),
        Err(TextError::Encoding)
    );
    assert_eq!(
        process_text_encrypt(b"x", b"short"),
        Err(TextError::KeyFormat(KeyFormatError::TooShort))
    );
}

#[test]
fn encrypt_then_decrypt_round_trips() {
    let key = Chacha20poly1305::generate();
    for data in [&b""[..], b"a", b"plaintext message", TEXT] {
        let text = process_text_encrypt(data, &key[0]).unwrap();
        let blob = process_decode(&text, Base64Format::UrlSafe).unwrap();
        assert_eq!(blob.len(), 12 + data.len() + 16);
        assert_ne!(blob[12..].to_vec(), data.to_vec());
        assert_eq!(process_text_decrypt(&text, &key[0]), Ok(data.to_vec()));
    }
}

#[test]
fn encryption_uses_a_fresh_nonce_each_call() {
    let key = Chacha20poly1305::generate();
    let first = process_text_encrypt(TEXT, &key[0]).unwrap();
    let second = process_text_encrypt(TEXT, &key[0]).unwrap();
    assert_ne!(first, second);
    assert_eq!(process_text_decrypt(&first, &key[0]), Ok(TEXT.to_vec()));
    assert_eq!(process_text_decrypt(&second, &key[0]), Ok(TEXT.to_vec()));
}

#[test]
fn tampered_ciphertext_fails_authentication() {
    let key = Chacha20poly1305::generate();
    let cipher = Chacha20poly1305::load(&key[0]).unwrap();
    let blob = cipher.encrypt(TEXT).unwrap();
    for i in 0..blob.len() {
        let mut altered = blob.clone();
        altered[i] ^= 1 << (i % 8);
        assert_eq!(cipher.decrypt(&altered), Err(TextError::Authentication));
    }
    assert_eq!(cipher.decrypt(&blob[..11]), Err(TextError::Authentication));
    let other = Chacha20poly1305::load(&Chacha20poly1305::generate()[0]).unwrap();
    assert_eq!(other.decrypt(&blob), Err(TextError::Authentication));
}

#[test]
fn generated_keys_have_their_shapes() {
    let blake = process_text_generate(TextSignFormat::Blake3).unwrap();
    assert_eq!(blake.len(), 1);
    assert_eq!(blake[0].len(), 32);
    assert!(blake[0].iter().all(|b| b.is_ascii_graphic()));
    let chacha = process_text_generate(TextSignFormat::ChaCha20Poly1305).unwrap();
    assert_eq!(chacha.len(), 1);
    assert_eq!(chacha[0].len(), 32);
    let pair = process_text_generate(TextSignFormat::Ed25519).unwrap();
    let signer = Ed25519Signer::load(&pair[0]).unwrap();
    assert_eq!(signer.verifying_key().key().to_vec(), pair[1]);
}
