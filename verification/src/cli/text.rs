//! Options of the signing commands.

use vstd::prelude::*;

use crate::cli::OptionError;
use crate::utils::same_text;

verus! {

/// The authentication scheme that a caller asks for.
#[derive(Debug, Clone, Copy, PartialEq, Eq, Structural)]
pub enum TextFormat {
    /// Keyed hash under a 32-byte secret key.
    Blake3,
    /// Asymmetric signature with a 32-byte seed and a 32-byte public key.
    Ed25519,
}

/// Sign, verify, or generate keys.
#[derive(Debug)]
pub enum TextSubcommand {
    /// Sign a text with a private or shared key and return a signature.
    Sign(SignText),
    /// Verify a signature with a public or shared key.
    Verify(VerifyText),
    /// Generate new key material.
    GenerateKeyPair(GenerateKeyPair),
}

/// What to sign, and with which key. A path of `-` is standard input.
#[derive(Debug)]
pub struct SignText {
    pub input: String,
    pub key: String,
    pub format: TextFormat,
}

/// What to verify, with which key, against which signature. A path of `-` is
/// standard input; the signature is URL-safe Base64 without padding.
#[derive(Debug)]
pub struct VerifyText {
    pub input: String,
    pub key: String,
    pub signature: String,
    pub format: TextFormat,
}

/// Where the generated key material goes, and for which scheme it is.
#[derive(Debug)]
pub struct GenerateKeyPair {
    pub output_path: String,
    pub format: TextFormat,
}

/// The scheme that a name stands for, if any.
pub open spec fn format_named(name: Seq<char>) -> Option<TextFormat> {
    if name == "blake3"@ {
        Some(TextFormat::Blake3)
    } else if name == "ed25519"@ {
        Some(TextFormat::Ed25519)
    } else {
        None
    }
}

/// Reads the name of a scheme: `blake3` or `ed25519`, written exactly so.
pub fn parser_format(format: &str) -> (r: Result<TextFormat, OptionError>)
    ensures
        match r {
            Ok(scheme) => format_named(format@) == Some(scheme),
            Err(e) => format_named(format@) is None && e == OptionError::InvalidSignatureFormat,
        },
{
    if same_text(format, "blake3") {
        Ok(TextFormat::Blake3)
    } else if same_text(format, "ed25519") {
        Ok(TextFormat::Ed25519)
    } else {
        Err(OptionError::InvalidSignatureFormat)
    }
}

impl std::str::FromStr for TextFormat {
    type Err = OptionError;

    fn from_str(s: &str) -> (r: Result<Self, Self::Err>)
        ensures
            match r {
                Ok(scheme) => format_named(s@) == Some(scheme),
                Err(e) => format_named(s@) is None && e == OptionError::InvalidSignatureFormat,
            },
    {
        parser_format(s)
    }
}

} // verus!
