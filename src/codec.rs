//! The transport codec: base64 text for binary signatures and ciphertexts.
use vstd::prelude::*;

use base64::Engine;

use crate::crypto::opt_bytes;
use crate::formats::Base64Format;
use crate::util::{trim_str, trimmed};

verus! {

/// The unpadded URL-safe base64 text of `bytes`.
pub uninterp spec fn url_safe_encoding(bytes: Seq<u8>) -> Seq<char>;

/// The bytes that unpadded URL-safe base64 `text` stands for, if it is well formed.
pub uninterp spec fn url_safe_decoding(text: Seq<char>) -> Option<Seq<u8>>;

/// The padded standard base64 text of `bytes`.
pub uninterp spec fn standard_encoding(bytes: Seq<u8>) -> Seq<char>;

/// The bytes that padded standard base64 `text` stands for, if it is well formed.
pub uninterp spec fn standard_decoding(text: Seq<char>) -> Option<Seq<u8>>;

/// The length of the unpadded base64 text of `n` bytes.
pub open spec fn unpadded_len(n: nat) -> nat {
    (4 * n + 2) / 3
}

/// The length of the padded base64 text of `n` bytes.
pub open spec fn padded_len(n: nat) -> nat {
    4 * ((n + 2) / 3)
}

/// A base64 error: the text is not well formed in the chosen alphabet.
#[derive(Debug, Clone, Copy, PartialEq, Eq, Structural)]
pub enum CodecError {
    Malformed,
}

/// Relies on `Engine::encode` of `base64::engine::general_purpose::URL_SAFE_NO_PAD`;
/// the text decodes back to the bytes.
#[verifier::external_body]
pub(crate) fn encode_url_safe(bytes: &[u8]) -> (r: String)
    requires
        bytes@.len() <= isize::MAX,
    ensures
        r@ == url_safe_encoding(bytes@),
        r@.len() == unpadded_len(bytes@.len()),
        url_safe_decoding(r@) == Some(bytes@),
{
    base64::engine::general_purpose::URL_SAFE_NO_PAD.encode(bytes)
}

/// Relies on `Engine::decode` of `base64::engine::general_purpose::URL_SAFE_NO_PAD`.
#[verifier::external_body]
pub(crate) fn decode_url_safe(text: &str) -> (r: Option<Vec<u8>>)
    ensures
        opt_bytes(r) == url_safe_decoding(text@),
{
    base64::engine::general_purpose::URL_SAFE_NO_PAD.decode(text).ok()
}

/// Relies on `Engine::encode` of `base64::engine::general_purpose::STANDARD`;
/// the text decodes back to the bytes.
#[verifier::external_body]
pub(crate) fn encode_standard(bytes: &[u8]) -> (r: String)
    requires
        bytes@.len() <= isize::MAX,
    ensures
        r@ == standard_encoding(bytes@),
        r@.len() == padded_len(bytes@.len()),
        standard_decoding(r@) == Some(bytes@),
{
    base64::engine::general_purpose::STANDARD.encode(bytes)
}

/// Relies on `Engine::decode` of `base64::engine::general_purpose::STANDARD`.
#[verifier::external_body]
pub(crate) fn decode_standard(text: &str) -> (r: Option<Vec<u8>>)
    ensures
        opt_bytes(r) == standard_decoding(text@),
{
    base64::engine::general_purpose::STANDARD.decode(text).ok()
}

/// The base64 text of `bytes` in `format`.
pub open spec fn encoding_in(format: Base64Format, bytes: Seq<u8>) -> Seq<char> {
    match format {
        Base64Format::Standard => standard_encoding(bytes),
        Base64Format::UrlSafe => url_safe_encoding(bytes),
    }
}

/// The bytes that base64 `text` in `format` stands for, if it is well formed.
pub open spec fn decoding_in(format: Base64Format, text: Seq<char>) -> Option<Seq<u8>> {
    match format {
        Base64Format::Standard => standard_decoding(text),
        Base64Format::UrlSafe => url_safe_decoding(text),
    }
}

/// `data` without one trailing newline, if it ends with one.
pub open spec fn without_trailing_newline(data: Seq<u8>) -> Seq<u8> {
    if data.len() > 0 && data.last() == 10u8 {
        data.drop_last()
    } else {
        data
    }
}

/// Encodes `bytes` as base64 text in `format`.
pub fn encode_bytes(bytes: &[u8], format: Base64Format) -> (r: String)
    requires
        bytes@.len() <= isize::MAX,
    ensures
        r@ == encoding_in(format, bytes@),
        decoding_in(format, r@) == Some(bytes@),
{
    match format {
        Base64Format::Standard => encode_standard(bytes),
        Base64Format::UrlSafe => encode_url_safe(bytes),
    }
}

/// Encodes the content of an input for display: one trailing newline, as
/// left by a text editor or a shell, is not part of the content.
pub fn process_encode(input: &[u8], format: Base64Format) -> (r: Result<String, CodecError>)
    requires
        input@.len() <= isize::MAX,
    ensures
        r matches Ok(text) && text@ == encoding_in(format, without_trailing_newline(input@)),
{
    let n = input.len();
    if n > 0 && input[n - 1] == 10u8 {
        let content = vstd::slice::slice_subrange(input, 0, n - 1);
        proof {
            assert(content@ =~= input@.drop_last());
        }
        Ok(encode_bytes(content, format))
    } else {
        Ok(encode_bytes(input, format))
    }
}

/// Decodes base64 text in `format`; whitespace around the text, such as a
/// trailing newline, is ignored.
pub fn process_decode(input: &str, format: Base64Format) -> (r: Result<Vec<u8>, CodecError>)
    ensures
        match decoding_in(format, trimmed(input@)) {
            Some(bytes) => r matches Ok(v) && v@ == bytes,
            None => r == Err::<Vec<u8>, CodecError>(CodecError::Malformed),
        },
{
    let text = trim_str(input);
    let decoded = match format {
        Base64Format::Standard => decode_standard(text),
        Base64Format::UrlSafe => decode_url_safe(text),
    };
    match decoded {
        Some(v) => Ok(v),
        None => Err(CodecError::Malformed),
    }
}

} // verus!
