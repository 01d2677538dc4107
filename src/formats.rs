//! The algorithm and format tags that callers name by string.
use vstd::prelude::*;

use crate::util::{lowercase, str_eq, to_lower};

verus! {

/// The algorithm of a text operation.
#[derive(Debug, Clone, Copy, PartialEq, Eq, Structural)]
pub enum TextSignFormat {
    /// A keyed hash (BLAKE3) under a shared 32-byte key.
    Blake3,
    /// An asymmetric signature (Ed25519).
    Ed25519,
    /// Authenticated encryption (ChaCha20-Poly1305) under a shared 32-byte key.
    ChaCha20Poly1305,
}

/// The alphabet of a base64 text.
#[derive(Debug, Clone, Copy, PartialEq, Eq, Structural)]
pub enum Base64Format {
    Standard,
    UrlSafe,
}

/// The file format of converted CSV records.
#[derive(Debug, Clone, Copy, PartialEq, Eq, Structural)]
pub enum OutputFormat {
    Json,
    Yaml,
}

/// The encoding of a JSON web token key.
#[derive(Debug, Clone, Copy, PartialEq, Eq, Structural)]
pub enum JwtKeyFormat {
    Secret,
    Base64Secret,
    Rsa,
    ECDSA,
    EdDSA,
    RsaDer,
    ECDSADer,
    EdDSADer,
}

/// A tag string that names no known format.
#[derive(Debug, Clone, Copy, PartialEq, Eq, Structural)]
pub enum FormatError {
    InvalidTextSignFormat,
    InvalidBase64Format,
    UnsupportedOutputFormat,
    InvalidKeyType,
}

impl FormatError {
    /// A human-readable description of the error.
    pub fn message(&self) -> &'static str {
        match self {
            FormatError::InvalidTextSignFormat => "Invalid text sign format",
            FormatError::InvalidBase64Format => "Invalid base64 format",
            FormatError::UnsupportedOutputFormat => "Unsupported format",
            FormatError::InvalidKeyType => "invalid key type",
        }
    }
}

/// The text operation format that `s` names, matched case-sensitively.
pub open spec fn text_sign_format_named(s: Seq<char>) -> Option<TextSignFormat> {
    if s == "blake3"@ {
        Some(TextSignFormat::Blake3)
    } else if s == "ed25519"@ {
        Some(TextSignFormat::Ed25519)
    } else if s == "chacha20poly1305"@ {
        Some(TextSignFormat::ChaCha20Poly1305)
    } else {
        None
    }
}

/// The base64 alphabet that `s` names, matched case-sensitively.
pub open spec fn base64_format_named(s: Seq<char>) -> Option<Base64Format> {
    if s == "standard"@ {
        Some(Base64Format::Standard)
    } else if s == "urlsafe"@ {
        Some(Base64Format::UrlSafe)
    } else {
        None
    }
}

/// The output format that the lowercase string `s` names.
pub open spec fn output_format_named(s: Seq<char>) -> Option<OutputFormat> {
    if s == "json"@ {
        Some(OutputFormat::Json)
    } else if s == "yaml"@ {
        Some(OutputFormat::Yaml)
    } else {
        None
    }
}

/// The key format that the lowercase string `s` names.
pub open spec fn jwt_key_format_named(s: Seq<char>) -> Option<JwtKeyFormat> {
    if s == "secret"@ {
        Some(JwtKeyFormat::Secret)
    } else if s == "base64-secret"@ {
        Some(JwtKeyFormat::Base64Secret)
    } else if s == "rsa"@ {
        Some(JwtKeyFormat::Rsa)
    } else if s == "ecdsa"@ {
        Some(JwtKeyFormat::ECDSA)
    } else if s == "eddsa"@ {
        Some(JwtKeyFormat::EdDSA)
    } else if s == "rsa-der"@ {
        Some(JwtKeyFormat::RsaDer)
    } else if s == "ecdsa-der"@ {
        Some(JwtKeyFormat::ECDSADer)
    } else if s == "eddsa-der"@ {
        Some(JwtKeyFormat::EdDSADer)
    } else {
        None
    }
}

/// The result of parsing a tag: the named format, or `err`.
pub open spec fn parsed<T>(named: Option<T>, err: FormatError) -> Result<T, FormatError> {
    match named {
        Some(f) => Ok(f),
        None => Err(err),
    }
}

/// Parses a text operation format: "blake3", "ed25519" or "chacha20poly1305".
pub fn parse_text_sign_format(s: &str) -> (r: Result<TextSignFormat, FormatError>)
    ensures
        r == parsed(text_sign_format_named(s@), FormatError::InvalidTextSignFormat),
{
    if str_eq(s, "blake3") {
        Ok(TextSignFormat::Blake3)
    } else if str_eq(s, "ed25519") {
        Ok(TextSignFormat::Ed25519)
    } else if str_eq(s, "chacha20poly1305") {
        Ok(TextSignFormat::ChaCha20Poly1305)
    } else {
        Err(FormatError::InvalidTextSignFormat)
    }
}

/// Parses a base64 alphabet: "standard" or "urlsafe".
pub fn parse_base64_format(s: &str) -> (r: Result<Base64Format, FormatError>)
    ensures
        r == parsed(base64_format_named(s@), FormatError::InvalidBase64Format),
{
    if str_eq(s, "standard") {
        Ok(Base64Format::Standard)
    } else if str_eq(s, "urlsafe") {
        Ok(Base64Format::UrlSafe)
    } else {
        Err(FormatError::InvalidBase64Format)
    }
}

/// Matches an already lowercased output format name: "json" or "yaml".
pub fn output_format_from_lowercase(s: &str) -> (r: Result<OutputFormat, FormatError>)
    ensures
        r == parsed(output_format_named(s@), FormatError::UnsupportedOutputFormat),
{
    if str_eq(s, "json") {
        Ok(OutputFormat::Json)
    } else if str_eq(s, "yaml") {
        Ok(OutputFormat::Yaml)
    } else {
        Err(FormatError::UnsupportedOutputFormat)
    }
}

/// Parses an output format name, in any letter case.
pub fn parse_format(s: &str) -> (r: Result<OutputFormat, FormatError>)
    ensures
        r == parsed(output_format_named(lowercase(s@)), FormatError::UnsupportedOutputFormat),
{
    let lower = to_lower(s);
    output_format_from_lowercase(lower.as_str())
}

/// Matches an already lowercased key format name.
pub fn jwt_key_format_from_lowercase(s: &str) -> (r: Result<JwtKeyFormat, FormatError>)
    ensures
        r == parsed(jwt_key_format_named(s@), FormatError::InvalidKeyType),
{
    if str_eq(s, "secret") {
        Ok(JwtKeyFormat::Secret)
    } else if str_eq(s, "base64-secret") {
        Ok(JwtKeyFormat::Base64Secret)
    } else if str_eq(s, "rsa") {
        Ok(JwtKeyFormat::Rsa)
    } else if str_eq(s, "ecdsa") {
        Ok(JwtKeyFormat::ECDSA)
    } else if str_eq(s, "eddsa") {
        Ok(JwtKeyFormat::EdDSA)
    } else if str_eq(s, "rsa-der") {
        Ok(JwtKeyFormat::RsaDer)
    } else if str_eq(s, "ecdsa-der") {
        Ok(JwtKeyFormat::ECDSADer)
    } else if str_eq(s, "eddsa-der") {
        Ok(JwtKeyFormat::EdDSADer)
    } else {
        Err(FormatError::InvalidKeyType)
    }
}

/// Parses a key format name, in any letter case.
pub fn parse_jwt_sign_format(s: &str) -> (r: Result<JwtKeyFormat, FormatError>)
    ensures
        r == parsed(jwt_key_format_named(lowercase(s@)), FormatError::InvalidKeyType),
{
    let lower = to_lower(s);
    jwt_key_format_from_lowercase(lower.as_str())
}

impl TextSignFormat {
    /// The name of the format.
    pub open spec fn name(self) -> Seq<char> {
        match self {
            TextSignFormat::Blake3 => "blake3"@,
            TextSignFormat::Ed25519 => "ed25519"@,
            TextSignFormat::ChaCha20Poly1305 => "chacha20poly1305"@,
        }
    }

    /// The name of the format, as `parse_text_sign_format` reads it.
    pub fn as_str(self) -> (r: &'static str)
        ensures
            r@ == self.name(),
    {
        match self {
            TextSignFormat::Blake3 => "blake3",
            TextSignFormat::Ed25519 => "ed25519",
            TextSignFormat::ChaCha20Poly1305 => "chacha20poly1305",
        }
    }
}

impl Base64Format {
    /// The name of the alphabet.
    pub open spec fn name(self) -> Seq<char> {
        match self {
            Base64Format::Standard => "standard"@,
            Base64Format::UrlSafe => "urlsafe"@,
        }
    }

    /// The name of the alphabet, as `parse_base64_format` reads it.
    pub fn as_str(self) -> (r: &'static str)
        ensures
            r@ == self.name(),
    {
        match self {
            Base64Format::Standard => "standard",
            Base64Format::UrlSafe => "urlsafe",
        }
    }
}

impl OutputFormat {
    /// The name of the format, which is also its file extension.
    pub open spec fn name(self) -> Seq<char> {
        match self {
            OutputFormat::Json => "json"@,
            OutputFormat::Yaml => "yaml"@,
        }
    }

    /// The name of the format, which is also its file extension.
    pub fn as_str(self) -> (r: &'static str)
        ensures
            r@ == self.name(),
    {
        match self {
            OutputFormat::Json => "json",
            OutputFormat::Yaml => "yaml",
        }
    }
}

impl JwtKeyFormat {
    /// The display name of the key format.
    pub open spec fn name(self) -> Seq<char> {
        match self {
            JwtKeyFormat::Secret => "secret"@,
            JwtKeyFormat::Base64Secret => "base64Secret"@,
            JwtKeyFormat::Rsa => "rsa"@,
            JwtKeyFormat::ECDSA => "ecdsa"@,
            JwtKeyFormat::EdDSA => "eddsa"@,
            JwtKeyFormat::RsaDer => "rsaDer"@,
            JwtKeyFormat::ECDSADer => "ecdsaDer"@,
            JwtKeyFormat::EdDSADer => "eddsaDer"@,
        }
    }

    /// The display name of the key format.
    pub fn as_str(self) -> (r: &'static str)
        ensures
            r@ == self.name(),
    {
        match self {
            JwtKeyFormat::Secret => "secret",
            JwtKeyFormat::Base64Secret => "base64Secret",
            JwtKeyFormat::Rsa => "rsa",
            JwtKeyFormat::ECDSA => "ecdsa",
            JwtKeyFormat::EdDSA => "eddsa",
            JwtKeyFormat::RsaDer => "rsaDer",
            JwtKeyFormat::ECDSADer => "ecdsaDer",
            JwtKeyFormat::EdDSADer => "eddsaDer",
        }
    }
}

impl std::str::FromStr for TextSignFormat {
    type Err = FormatError;

    fn from_str(s: &str) -> Result<Self, Self::Err> {
        parse_text_sign_format(s)
    }
}

impl std::str::FromStr for Base64Format {
    type Err = FormatError;

    fn from_str(s: &str) -> Result<Self, Self::Err> {
        parse_base64_format(s)
    }
}

impl std::str::FromStr for OutputFormat {
    type Err = FormatError;

    fn from_str(s: &str) -> Result<Self, Self::Err> {
        parse_format(s)
    }
}

impl std::str::FromStr for JwtKeyFormat {
    type Err = FormatError;

    fn from_str(s: &str) -> Result<Self, Self::Err> {
        parse_jwt_sign_format(s)
    }
}

} // verus!
