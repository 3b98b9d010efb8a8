//! Options of the CSV converter.

use vstd::prelude::*;

use crate::cli::OptionError;
use crate::process::csv_generate::Record;
use crate::utils::same_text;

verus! {

/// What to convert, and into what.
#[derive(Debug)]
pub struct CsvOpts {
    /// The path of the CSV file.
    pub input: String,
    /// The path of the file to write.
    pub output: String,
    /// The name of the output format.
    pub format: String,
    pub delimiter: String,
    pub header: bool,
    pub verbose: bool,
    /// The key under which a TOML document keeps the records.
    pub toml_root_key: String,
}

/// The formats that records can be written in.
#[derive(Debug, Clone, Copy, PartialEq, Eq, Structural)]
pub enum OutputFormat {
    Yaml,
    Json,
    Toml,
}

/// The format that a lower-case name stands for, if any.
pub open spec fn output_format_named(name: Seq<char>) -> Option<OutputFormat> {
    if name == "yaml"@ {
        Some(OutputFormat::Yaml)
    } else if name == "json"@ {
        Some(OutputFormat::Json)
    } else if name == "toml"@ {
        Some(OutputFormat::Toml)
    } else {
        None
    }
}

/// The lower-case form of a text, as `str::to_lowercase` gives it.
pub uninterp spec fn lowercase_of(text: Seq<char>) -> Seq<char>;

/// Calls `str::to_lowercase`, which maps each character to its Unicode
/// lower-case form.
///
/// Trusted: the result is a function of the text alone.
#[verifier::external_body]
fn to_lowercase(text: &str) -> (lower: String)
    ensures
        lower@ == lowercase_of(text@),
{
    text.to_lowercase()
}

impl OutputFormat {
    /// Reads the name of a format that is already in lower case: `yaml`,
    /// `json` or `toml`.
    pub fn from_lowercase(name: &str) -> (r: Result<Self, OptionError>)
        ensures
            match r {
                Ok(format) => output_format_named(name@) == Some(format),
                Err(e) => output_format_named(name@) is None && e
                    == OptionError::InvalidOutputFormat,
            },
    {
        if same_text(name, "yaml") {
            Ok(OutputFormat::Yaml)
        } else if same_text(name, "json") {
            Ok(OutputFormat::Json)
        } else if same_text(name, "toml") {
            Ok(OutputFormat::Toml)
        } else {
            Err(OptionError::InvalidOutputFormat)
        }
    }

    /// Reads the name of a format, in any mix of upper and lower case.
    pub fn parse(name: &str) -> (r: Result<Self, OptionError>)
        ensures
            match r {
                Ok(format) => output_format_named(lowercase_of(name@)) == Some(format),
                Err(e) => output_format_named(lowercase_of(name@)) is None && e
                    == OptionError::InvalidOutputFormat,
            },
    {
        let lower = to_lowercase(name);
        Self::from_lowercase(lower.as_str())
    }
}

impl std::str::FromStr for OutputFormat {
    type Err = OptionError;

    fn from_str(s: &str) -> (r: Result<Self, Self::Err>)
        ensures
            match r {
                Ok(format) => output_format_named(lowercase_of(s@)) == Some(format),
                Err(e) => output_format_named(lowercase_of(s@)) is None && e
                    == OptionError::InvalidOutputFormat,
            },
    {
        Self::parse(s)
    }
}

/// One row of the sample data set.
#[derive(Debug)]
pub struct Person {
    pub id: i32,
    pub first_name: String,
    pub last_name: String,
    pub email: String,
    pub gender: String,
    pub ip_address: String,
    pub city: String,
    pub avatar: String,
    pub car: String,
}

/// A TOML document: all records under one key.
#[derive(Debug)]
pub struct TomlRoot {
    pub key: String,
    pub records: Vec<Record>,
}

} // verus!
