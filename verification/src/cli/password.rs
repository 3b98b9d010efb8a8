//! Options of the password generator.

use vstd::prelude::*;

verus! {

pub const UPPER_CASE: &'static str = "ABCDEFGHIJKLMNOPQRSTUVWXYZ";

pub const LOWER_CASE: &'static str = "abcdefghijklmnopqrstuvwxyz";

pub const DIGITS: &'static str = "0123456789";

pub const SYMBOLS: &'static str = "!@#$%^&*()_+-=[]{}|;:,.<>?";

/// How long the password is and which classes of characters it draws from.
#[derive(Debug)]
pub struct PasswordOpts {
    pub length: usize,
    pub uppercase: bool,
    pub lowercase: bool,
    pub digits: bool,
    pub symbols: bool,
}

impl Default for PasswordOpts {
    /// Sixteen characters from all four classes.
    fn default() -> (opts: Self)
        ensures
            opts.length == 16,
            opts.uppercase,
            opts.lowercase,
            opts.digits,
            opts.symbols,
    {
        PasswordOpts { length: 16, uppercase: true, lowercase: true, digits: true, symbols: true }
    }
}

} // verus!
