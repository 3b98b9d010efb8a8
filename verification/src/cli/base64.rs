//! Options of the Base64 commands.

use vstd::prelude::*;

verus! {

/// The two directions.
#[derive(Debug)]
pub enum Base64Ops {
    /// Encode the input as Base64.
    Encode(IoArgs),
    /// Decode Base64 input to the bytes it stands for.
    Decode(IoArgs),
}

/// Where the input comes from. With neither field set it is standard input.
#[derive(Debug)]
pub struct IoArgs {
    /// The path of an input file.
    pub input: Option<String>,
    /// The input itself.
    pub string: Option<String>,
}

} // verus!
