//! The instructions of the language.

pub mod jumps;
pub mod literal;
pub mod objects;
pub mod op_codes;
pub mod operator_implementations;
pub mod operators;
pub mod side_effects;
pub mod types;
