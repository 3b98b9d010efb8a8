//! The options that select what the toolbox does, as plain data. Parsing a
//! command line into them is the caller's business.

pub mod base64;
pub mod csv;
pub mod password;
pub mod text;

use vstd::prelude::*;

use crate::cli::base64::Base64Ops;
use crate::cli::csv::CsvOpts;
use crate::cli::password::PasswordOpts;
use crate::cli::text::TextSubcommand;

verus! {

/// Why an option's value was refused.
#[derive(Debug, Clone, Copy, PartialEq, Eq, Structural)]
pub enum OptionError {
    /// The path does not name an existing directory.
    NotADirectory,
    /// The path names something that is not a regular file.
    NotAFile,
    /// Nothing is found under the path.
    FileNotFound,
    /// The name is not one of the output formats.
    InvalidOutputFormat,
    /// The name is not one of the signature schemes.
    InvalidSignatureFormat,
}

/// One invocation of the toolbox.
#[derive(Debug)]
pub struct Opts {
    pub cmd: SubCommand,
}

/// The commands.
#[derive(Debug)]
pub enum SubCommand {
    /// Convert a CSV file to another format.
    Csv(CsvOpts),
    /// Generate a password.
    Password(PasswordOpts),
    /// Encode to or decode from Base64.
    Base64(Base64Ops),
    /// Sign, verify, or generate keys.
    Text(TextSubcommand),
}

/// Accepts the path of an output directory. Whether a directory exists under
/// the path is for the caller to find out; only then is the path accepted,
/// unchanged.
pub fn verify_path(path: &str, is_directory: bool) -> (r: Result<String, OptionError>)
    ensures
        match r {
            Ok(accepted) => is_directory && accepted@ == path@,
            Err(e) => !is_directory && e == OptionError::NotADirectory,
        },
{
    if is_directory {
        Ok(path.to_owned())
    } else {
        Err(OptionError::NotADirectory)
    }
}

} // verus!
