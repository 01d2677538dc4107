//! The command model: checks on file arguments, the options of each
//! command, and the names the commands derive from their options.
use vstd::prelude::*;

use crate::formats::{Base64Format, OutputFormat, TextSignFormat};

verus! {

/// The argument that stands for standard input.
pub open spec fn stdin_marker() -> Seq<char> {
    "-"@
}

/// Relies on `std::path::Path::exists`; the answer depends on the file
/// system at the time of the call, so nothing is promised of it.
#[verifier::external_body]
fn path_exists(path: &str) -> (r: bool) {
    std::path::Path::new(path).exists()
}

/// Relies on `std::path::Path::is_dir`; the answer depends on the file
/// system at the time of the call, so nothing is promised of it.
#[verifier::external_body]
fn path_is_dir(path: &str) -> (r: bool) {
    std::path::Path::new(path).is_dir()
}

/// Accepts an input argument that names an existing file, or standard input.
pub fn check_input_file(filename: &str, found: bool) -> (r: Result<String, &'static str>)
    ensures
        found || filename@ == stdin_marker() ==> (r matches Ok(s) && s@ == filename@),
        !(found || filename@ == stdin_marker()) ==> (r matches Err(m) && m@
            == "File does not exist"@),
{
    if found || crate::util::str_eq(filename, "-") {
        Ok(filename.to_owned())
    } else {
        Err("File does not exist")
    }
}

/// Accepts an input argument that names an existing file, or "-" for
/// standard input.
pub fn verify_file(filename: &str) -> (r: Result<String, &'static str>)
    ensures
        filename@ == stdin_marker() ==> (r matches Ok(s) && s@ == filename@),
        r matches Ok(s) ==> s@ == filename@,
        r matches Err(m) ==> m@ == "File does not exist"@,
{
    if crate::util::str_eq(filename, "-") {
        return check_input_file(filename, false);
    }
    let found = path_exists(filename);
    check_input_file(filename, found)
}

/// Accepts a directory argument when the path names an existing directory.
pub fn check_dir(path: &str, found: bool, is_dir: bool) -> (r: Result<String, &'static str>)
    ensures
        found && is_dir ==> (r matches Ok(s) && s@ == path@),
        !(found && is_dir) ==> (r matches Err(m) && m@
            == "Path does not exist or is not a directory"@),
{
    if found && is_dir {
        Ok(path.to_owned())
    } else {
        Err("Path does not exist or is not a directory")
    }
}

/// Accepts a directory argument: a path that names an existing directory.
pub fn verify_path(filename: &str) -> (r: Result<String, &'static str>)
    ensures
        r matches Ok(s) ==> s@ == filename@,
        r matches Err(m) ==> m@ == "Path does not exist or is not a directory"@,
{
    let found = path_exists(filename);
    let is_dir = path_is_dir(filename);
    check_dir(filename, found, is_dir)
}

/// The command line: one subcommand.
#[derive(Debug)]
pub struct Opts {
    pub cmd: SubCommand,
}

/// The subcommands of the command line.
#[derive(Debug)]
pub enum SubCommand {
    /// Show CSV, or convert CSV to other formats.
    Csv(CsvOpts),
    /// Generate a random password.
    GenPW(GenPWOpts),
    Base64(Base64Subcommand),
    Text(TextSubCommand),
    Http(HttpSubCommand),
}

/// Options of CSV conversion.
#[derive(Debug)]
pub struct CsvOpts {
    pub input: String,
    pub output: Option<String>,
    pub format: OutputFormat,
    pub delimiter: char,
    pub header: bool,
}

/// Options of password generation.
#[derive(Debug)]
pub struct GenPWOpts {
    pub length: u8,
    pub uppercase: bool,
    pub lowercase: bool,
    pub number: bool,
    pub symbol: bool,
}

/// The base64 subcommands.
#[derive(Debug)]
pub enum Base64Subcommand {
    /// Encode a string to base64.
    Encode(Base64EncodeOpts),
    /// Decode a base64 string.
    Decode(Base64DecodeOpts),
}

/// Options of base64 encoding.
#[derive(Debug)]
pub struct Base64EncodeOpts {
    pub input: String,
    pub format: Base64Format,
}

/// Options of base64 decoding.
#[derive(Debug)]
pub struct Base64DecodeOpts {
    pub input: String,
    pub format: Base64Format,
}

/// The HTTP subcommands.
#[derive(Debug)]
pub enum HttpSubCommand {
    /// Serve a directory over HTTP.
    Serve(HttpServeOpts),
}

/// Options of the static file server.
#[derive(Debug)]
pub struct HttpServeOpts {
    pub dir: String,
    pub port: u16,
}

/// The text subcommands.
#[derive(Debug)]
pub enum TextSubCommand {
    /// Sign a message with a private or shared key.
    Sign(TextSignOpts),
    /// Verify a signed message with a public or shared key.
    Verify(TextVerifyOpts),
    /// Generate a new key.
    Generate(TextKeyGenerateOpts),
    /// Encrypt a text.
    Encrypt(TextEncryptOpts),
    /// Decrypt a text.
    Dncrypt(TextDecryptOpts),
}

/// Options of text signing.
#[derive(Debug)]
pub struct TextSignOpts {
    pub input: String,
    pub key: String,
    pub format: TextSignFormat,
}

/// Options of signature verification.
#[derive(Debug)]
pub struct TextVerifyOpts {
    pub input: String,
    pub key: String,
    pub sig: String,
    pub format: TextSignFormat,
}

/// Options of key generation.
#[derive(Debug)]
pub struct TextKeyGenerateOpts {
    pub format: TextSignFormat,
    pub output: String,
}

/// Options of text encryption.
#[derive(Debug)]
pub struct TextEncryptOpts {
    pub input: String,
    pub key: String,
}

/// Options of text decryption.
#[derive(Debug)]
pub struct TextDecryptOpts {
    pub input: String,
    pub key: String,
}

/// The file name of converted CSV output: the chosen base name, or
/// "output", with the format's extension.
pub open spec fn csv_output_name(output: Option<Seq<char>>, format: OutputFormat) -> Seq<char> {
    match output {
        Some(base) => base + "."@ + format.name(),
        None => "output"@ + "."@ + format.name(),
    }
}

impl CsvOpts {
    /// The file that converted records are written to.
    pub fn output_file(&self) -> (r: String)
        ensures
            r@ == csv_output_name(
                match self.output {
                    Some(o) => Some(o@),
                    None => None,
                },
                self.format,
            ),
    {
        let mut name = match &self.output {
            Some(o) => o.clone(),
            None => "output".to_owned(),
        };
        name.append(".");
        name.append(self.format.as_str());
        name
    }
}

/// The file names that generated keys are written to, one per key, in the
/// order that `process_text_generate` returns the keys.
pub open spec fn key_file_names(format: TextSignFormat) -> Seq<Seq<char>> {
    match format {
        TextSignFormat::Blake3 => seq!["blake3.txt"@],
        TextSignFormat::Ed25519 => seq!["ed25519.sk"@, "ed25519.pk"@],
        TextSignFormat::ChaCha20Poly1305 => seq!["chacha20poly1305.txt"@],
    }
}

impl TextKeyGenerateOpts {
    /// The file names that the generated keys are written to, inside the
    /// output directory.
    pub fn key_files(&self) -> (r: Vec<&'static str>)
        ensures
            r@.len() == key_file_names(self.format).len(),
            forall|i: int| 0 <= i < r@.len() ==> #[trigger] r@[i]@ == key_file_names(self.format)[i],
    {
        match self.format {
            TextSignFormat::Blake3 => vec!["blake3.txt"],
            TextSignFormat::Ed25519 => vec!["ed25519.sk", "ed25519.pk"],
            TextSignFormat::ChaCha20Poly1305 => vec!["chacha20poly1305.txt"],
        }
    }
}

} // verus!
