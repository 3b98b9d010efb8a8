//! Helpers shared by the commands.

use vstd::prelude::*;

use crate::cli::OptionError;

verus! {

/// Whether two string slices hold the same characters.
pub fn same_text(a: &str, b: &str) -> (same: bool)
    ensures
        same == (a@ == b@),
{
    let left = a.to_owned();
    let right = b.to_owned();
    left == right
}

/// The path that stands for standard input.
pub const STANDARD_INPUT: &'static str = "-";

/// What the file system holds under a path.
#[derive(Debug, Clone, Copy, PartialEq, Eq, Structural)]
pub enum PathKind {
    /// A regular file.
    File,
    /// Something else, such as a directory.
    Other,
    /// Nothing that could be looked at.
    Missing,
}

/// Where a command reads from.
#[derive(Debug, Clone, Copy, PartialEq, Eq, Structural)]
pub enum ReaderKind {
    StandardInput,
    File,
}

/// Whether a name is one of the output formats that are written.
pub open spec fn is_output_format(format: Seq<char>) -> bool {
    format == "json"@ || format == "yaml"@ || format == "toml"@
}

/// Accepts the path of an input: `-` without a look at the file system,
/// any other path only where a regular file is found under it. An accepted
/// path comes back unchanged.
pub fn verify_file_exists(path: &str, found: PathKind) -> (r: Result<String, OptionError>)
    ensures
        match r {
            Ok(accepted) => accepted@ == path@ && (path@ == STANDARD_INPUT@ || found
                == PathKind::File),
            Err(e) => path@ != STANDARD_INPUT@ && match found {
                PathKind::File => false,
                PathKind::Other => e == OptionError::NotAFile,
                PathKind::Missing => e == OptionError::FileNotFound,
            },
        },
{
    if same_text(path, STANDARD_INPUT) {
        return Ok(path.to_owned());
    }
    match found {
        PathKind::File => Ok(path.to_owned()),
        PathKind::Other => Err(OptionError::NotAFile),
        PathKind::Missing => Err(OptionError::FileNotFound),
    }
}

/// Accepts the name of an output format: `json`, `yaml` or `toml`, in lower
/// case. An accepted name comes back unchanged.
pub fn verify_format_valid(format: &str) -> (r: Result<String, OptionError>)
    ensures
        match r {
            Ok(accepted) => is_output_format(format@) && accepted@ == format@,
            Err(e) => !is_output_format(format@) && e == OptionError::InvalidOutputFormat,
        },
{
    if same_text(format, "json") || same_text(format, "yaml") || same_text(format, "toml") {
        Ok(format.to_owned())
    } else {
        Err(OptionError::InvalidOutputFormat)
    }
}

/// Where the bytes under a path are read from: standard input for `-`, the
/// file of that name for any other path.
pub fn get_reader(key: &str) -> (kind: ReaderKind)
    ensures
        kind == if key@ == STANDARD_INPUT@ {
            ReaderKind::StandardInput
        } else {
            ReaderKind::File
        },
{
    if same_text(key, STANDARD_INPUT) {
        ReaderKind::StandardInput
    } else {
        ReaderKind::File
    }
}

} // verus!
