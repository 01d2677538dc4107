use rcli::codec::{encode_bytes, process_decode, process_encode, CodecError};
use rcli::formats::Base64Format;

#[test]
fn test_process_encode() {
    let input = b"[package]\nname = \"rcli\"\n";
    let format1 = Base64Format::Standard;
    assert!(process_encode(input, format1).is_ok());

    let format2 = Base64Format::UrlSafe;

    assert!(process_encode(input, format2).is_ok());
}

#[test]
fn test_process_decode_standard() {
    let input = "aGVsbG8gd29ybGQ=\n";
    let format = Base64Format::Standard;
    assert!(process_decode(input, format).is_ok());
}

#[test]
fn test_process_decode_urlsafe() {
    let input = "aGVsbG8gd29ybGQ\n";
    let format = Base64Format::UrlSafe;
    assert!(process_decode(input, format).is_ok());
}

#[test]
fn test_process_encode_and_decode_standard() {
    let input = b"hello world\n";
    let format = Base64Format::Standard;
    let encoded = process_encode(input, format).unwrap();
    let decoded = process_decode(&encoded, format).unwrap();
    assert_eq!(b"hello world".to_vec(), decoded);
}

#[test]
fn test_process_encode_and_decode_urlsafe() {
    let input = b"hello world\n";
    let format = Base64Format::UrlSafe;
    let encoded = process_encode(input, format).unwrap();
    let decoded = process_decode(&encoded, format).unwrap();
    assert_eq!(b"hello world".to_vec(), decoded);
}

#[test]
fn encode_gives_known_texts() {
    assert_eq!(
        process_encode(b"hello world\n", Base64Format::Standard).unwrap(),
        "aGVsbG8gd29ybGQ="
    );
    assert_eq!(
        process_encode(b"hello world", Base64Format::UrlSafe).unwrap(),
        "aGVsbG8gd29ybGQ"
    );
    assert_eq!(process_encode(b"", Base64Format::Standard).unwrap(), "");
    assert_eq!(encode_bytes(&[0xfb, 0xff], Base64Format::UrlSafe), "-_8");
    assert_eq!(encode_bytes(&[0xfb, 0xff], Base64Format::Standard), "+/8=");
}

#[test]
fn only_one_trailing_newline_is_dropped() {
    assert_eq!(
        process_encode(b"a\n\n", Base64Format::Standard).unwrap(),
        encode_bytes(b"a\n", Base64Format::Standard)
    );
}

#[test]
fn malformed_text_is_refused() {
    assert_eq!(
        process_decode("not base64!", Base64Format::Standard),
        Err(CodecError::Malformed)
    );
    assert_eq!(
        process_decode("aGVsbG8gd29ybGQ=", Base64Format::UrlSafe),
        Err(CodecError::Malformed)
    );
}
