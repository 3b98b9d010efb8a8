use first_cli::cli::csv::OutputFormat;
use first_cli::cli::password::{PasswordOpts, DIGITS, LOWER_CASE, SYMBOLS, UPPER_CASE};
use first_cli::cli::text::{parser_format, TextFormat};
use first_cli::cli::{verify_path, OptionError};
use first_cli::utils::{
    get_reader, same_text, verify_file_exists, verify_format_valid, PathKind, ReaderKind,
};

#[test]
fn scheme_names_are_read_exactly() {
    assert_eq!(parser_format("blake3"), Ok(TextFormat::Blake3));
    assert_eq!(parser_format("ed25519"), Ok(TextFormat::Ed25519));
    for other in ["", "Blake3", "BLAKE3", "blake3 ", "ed25519x", "sha256"] {
        assert_eq!(parser_format(other), Err(OptionError::InvalidSignatureFormat));
    }
}

#[test]
fn scheme_names_parse_by_from_str() {
    assert_eq!("blake3".parse::<TextFormat>(), Ok(TextFormat::Blake3));
    assert_eq!("ed25519".parse::<TextFormat>(), Ok(TextFormat::Ed25519));
    assert_eq!("rsa".parse::<TextFormat>(), Err(OptionError::InvalidSignatureFormat));
}

#[test]
fn output_format_names_in_any_case() {
    assert_eq!(OutputFormat::parse("json"), Ok(OutputFormat::Json));
    assert_eq!(OutputFormat::parse("JSON"), Ok(OutputFormat::Json));
    assert_eq!(OutputFormat::parse("Yaml"), Ok(OutputFormat::Yaml));
    assert_eq!(OutputFormat::parse("tOmL"), Ok(OutputFormat::Toml));
    assert_eq!("TOML".parse::<OutputFormat>(), Ok(OutputFormat::Toml));
    for other in ["", "xml", "json ", "yml"] {
        assert_eq!(OutputFormat::parse(other), Err(OptionError::InvalidOutputFormat));
    }
}

#[test]
fn output_format_names_in_lower_case_only() {
    assert_eq!(OutputFormat::from_lowercase("yaml"), Ok(OutputFormat::Yaml));
    assert_eq!(OutputFormat::from_lowercase("json"), Ok(OutputFormat::Json));
    assert_eq!(OutputFormat::from_lowercase("toml"), Ok(OutputFormat::Toml));
    assert_eq!(OutputFormat::from_lowercase("JSON"), Err(OptionError::InvalidOutputFormat));
}

#[test]
fn format_option_is_checked() {
    for name in ["json", "yaml", "toml"] {
        assert_eq!(verify_format_valid(name), Ok(name.to_string()));
    }
    for other in ["", "JSON", "csv", "toml "] {
        assert_eq!(verify_format_valid(other), Err(OptionError::InvalidOutputFormat));
    }
}

#[test]
fn input_path_is_checked() {
    assert_eq!(verify_file_exists("-", PathKind::Missing), Ok("-".to_string()));
    assert_eq!(verify_file_exists("-", PathKind::Other), Ok("-".to_string()));
    assert_eq!(verify_file_exists("-", PathKind::File), Ok("-".to_string()));
    assert_eq!(verify_file_exists("a.txt", PathKind::File), Ok("a.txt".to_string()));
    assert_eq!(verify_file_exists("dir", PathKind::Other), Err(OptionError::NotAFile));
    assert_eq!(verify_file_exists("gone", PathKind::Missing), Err(OptionError::FileNotFound));
    assert_eq!(verify_file_exists("", PathKind::Missing), Err(OptionError::FileNotFound));
}

#[test]
fn output_directory_is_checked() {
    assert_eq!(verify_path("keys", true), Ok("keys".to_string()));
    assert_eq!(verify_path("keys", false), Err(OptionError::NotADirectory));
    assert_eq!(verify_path("-", false), Err(OptionError::NotADirectory));
}

#[test]
fn dash_is_standard_input() {
    assert_eq!(get_reader("-"), ReaderKind::StandardInput);
    assert_eq!(get_reader("--"), ReaderKind::File);
    assert_eq!(get_reader(""), ReaderKind::File);
    assert_eq!(get_reader("key.bin"), ReaderKind::File);
}

#[test]
fn texts_are_compared_by_their_characters() {
    assert!(same_text("", ""));
    assert!(same_text("abc", "abc"));
    assert!(!same_text("abc", "abd"));
    assert!(!same_text("abc", "ab"));
    assert!(!same_text("é", "e"));
}

#[test]
fn password_options_default_to_sixteen_of_every_class() {
    let opts = PasswordOpts::default();
    assert_eq!(opts.length, 16);
    assert!(opts.uppercase && opts.lowercase && opts.digits && opts.symbols);
}

#[test]
fn character_classes() {
    assert_eq!(UPPER_CASE.len(), 26);
    assert_eq!(LOWER_CASE.len(), 26);
    assert_eq!(DIGITS.len(), 10);
    assert_eq!(SYMBOLS, "!@#$%^&*()_+-=[]{}|;:,.<>?");
    assert!(UPPER_CASE.chars().all(|c| c.is_ascii_uppercase()));
    assert!(LOWER_CASE.chars().all(|c| c.is_ascii_lowercase()));
    assert!(DIGITS.chars().all(|c| c.is_ascii_digit()));
}
