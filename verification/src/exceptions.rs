//! The faults that this language adds to those of the runtime.

pub mod runtime_exceptions;
pub mod static_exceptions;
