//! A small command-line toolbox whose core is a pluggable message
//! authentication engine: a keyed hash and an asymmetric signature scheme
//! behind one interface, with key generation for each.

pub mod cli;
pub mod process;
pub mod utils;
