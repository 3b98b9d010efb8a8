//! The operations behind each command.

pub mod b64;
pub mod csv_generate;
pub mod key_bundle;
pub mod password_generate;
pub mod text;
