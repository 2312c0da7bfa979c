//! Compiled programs: their constants and how the constants are read from
//! bytes.

pub mod bytecode_constants;
pub mod bytes;
pub mod constant_parsers;
