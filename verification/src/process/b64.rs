//! Base64: the standard alphabet with padding for the Base64 commands, the
//! URL-safe alphabet without padding for signatures that are shown to a reader.

use vstd::prelude::*;
use vstd::utf8::encode_utf8;

use ::base64::Engine;

use crate::cli::base64::IoArgs;

verus! {

/// Why a Base64 command failed.
#[derive(Debug, Clone, Copy, PartialEq, Eq, Structural)]
pub enum Base64Error {
    /// A file and a literal string were both given as input.
    ConflictingInputs,
    /// The input is not Base64.
    InvalidEncoding,
}

/// Where a Base64 command takes its input from.
#[derive(Debug)]
pub enum InputSource {
    /// The file under this path.
    File(String),
    /// This text itself.
    Text(String),
    StandardInput,
}

/// The choice among the inputs that the options allow: a file or a literal
/// string, not both; standard input where neither is given.
pub fn input_source(args: IoArgs) -> (r: Result<InputSource, Base64Error>)
    ensures
        match (args.input, args.string) {
            (Some(_), Some(_)) => r == Err::<InputSource, Base64Error>(
                Base64Error::ConflictingInputs,
            ),
            (Some(path), None) => r == Ok::<InputSource, Base64Error>(InputSource::File(path)),
            (None, Some(text)) => r == Ok::<InputSource, Base64Error>(InputSource::Text(text)),
            (None, None) => r == Ok::<InputSource, Base64Error>(InputSource::StandardInput),
        },
{
    match (args.input, args.string) {
        (Some(_), Some(_)) => Err(Base64Error::ConflictingInputs),
        (Some(path), None) => Ok(InputSource::File(path)),
        (None, Some(text)) => Ok(InputSource::Text(text)),
        (None, None) => Ok(InputSource::StandardInput),
    }
}

/// The Base64 text of some bytes, as the `base64` crate's standard engine
/// writes it.
pub uninterp spec fn base64_text(data: Seq<u8>) -> Seq<char>;

/// The bytes that the `base64` crate's standard engine reads out of a text
/// given as bytes; `None` where it refuses the text.
pub uninterp spec fn base64_bytes(text: Seq<u8>) -> Option<Seq<u8>>;

/// `base64::DecodeError`, the reason why a text was refused. Nothing is read
/// out of it.
#[verifier::external_type_specification]
#[verifier::external_body]
pub struct ExDecodeError(::base64::DecodeError);

/// Calls `Engine::encode` of `base64::prelude::BASE64_STANDARD`.
///
/// Trusted: the text is a function of the bytes alone, and the same engine
/// reads the bytes back out of the text's bytes.
#[verifier::external_body]
fn standard_encode(data: &[u8]) -> (text: String)
    ensures
        text@ == base64_text(data@),
        base64_bytes(encode_utf8(text@)) == Some(data@),
{
    ::base64::prelude::BASE64_STANDARD.encode(data)
}

/// Calls `Engine::decode` of `base64::prelude::BASE64_STANDARD`.
///
/// Trusted: whether the text is taken, and the bytes read out of it, are
/// functions of the text alone.
#[verifier::external_body]
fn standard_decode(text: &[u8]) -> (r: Result<Vec<u8>, ::base64::DecodeError>)
    ensures
        match r {
            Ok(data) => base64_bytes(text@) == Some(data@),
            Err(_) => base64_bytes(text@) is None,
        },
{
    ::base64::prelude::BASE64_STANDARD.decode(text)
}

/// The text that the `base64` crate's URL-safe engine without padding writes
/// for some bytes.
pub uninterp spec fn base64_url_text(data: Seq<u8>) -> Seq<char>;

/// The bytes that the `base64` crate's URL-safe engine without padding reads
/// out of a text; `None` where it refuses the text.
pub uninterp spec fn base64_url_bytes(text: Seq<char>) -> Option<Seq<u8>>;

/// Calls `Engine::encode` of `base64::prelude::BASE64_URL_SAFE_NO_PAD`.
///
/// Trusted: the text is a function of the bytes alone, and the same engine
/// reads the bytes back out of it.
#[verifier::external_body]
fn url_safe_encode(data: &[u8]) -> (text: String)
    ensures
        text@ == base64_url_text(data@),
        base64_url_bytes(text@) == Some(data@),
{
    ::base64::prelude::BASE64_URL_SAFE_NO_PAD.encode(data)
}

/// Calls `Engine::decode` of `base64::prelude::BASE64_URL_SAFE_NO_PAD`.
///
/// Trusted: whether the text is taken, and the bytes read out of it, are
/// functions of the text alone.
#[verifier::external_body]
fn url_safe_decode(text: &str) -> (r: Result<Vec<u8>, ::base64::DecodeError>)
    ensures
        match r {
            Ok(data) => base64_url_bytes(text@) == Some(data@),
            Err(_) => base64_url_bytes(text@) is None,
        },
{
    ::base64::prelude::BASE64_URL_SAFE_NO_PAD.decode(text)
}

/// A signature as text that can stand in a URL or on a command line.
/// [`signature_from_text`] reads the signature back out of it.
pub fn signature_text(signature: &[u8]) -> (text: String)
    ensures
        text@ == base64_url_text(signature@),
        base64_url_bytes(text@) == Some(signature@),
{
    url_safe_encode(signature)
}

/// The signature that a text stands for.
pub fn signature_from_text(text: &str) -> (r: Result<Vec<u8>, Base64Error>)
    ensures
        match r {
            Ok(signature) => base64_url_bytes(text@) == Some(signature@),
            Err(e) => base64_url_bytes(text@) is None && e == Base64Error::InvalidEncoding,
        },
{
    match url_safe_decode(text) {
        Ok(signature) => Ok(signature),
        Err(_) => Err(Base64Error::InvalidEncoding),
    }
}

/// Encodes the whole input. [`handle_decode`] reads the input back out of the
/// bytes of the text.
pub fn handle_encode(input: &[u8]) -> (text: String)
    ensures
        text@ == base64_text(input@),
        base64_bytes(encode_utf8(text@)) == Some(input@),
{
    standard_encode(input)
}

/// Decodes the whole input, which must be Base64 from the first byte to the
/// last.
pub fn handle_decode(input: &[u8]) -> (r: Result<Vec<u8>, Base64Error>)
    ensures
        match r {
            Ok(data) => base64_bytes(input@) == Some(data@),
            Err(e) => base64_bytes(input@) is None && e == Base64Error::InvalidEncoding,
        },
{
    match standard_decode(input) {
        Ok(data) => Ok(data),
        Err(_) => Err(Base64Error::InvalidEncoding),
    }
}

} // verus!
