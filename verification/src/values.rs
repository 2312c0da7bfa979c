//! The values that programs compute with.

pub mod get_type;
pub mod to_output_string;
pub mod values;
