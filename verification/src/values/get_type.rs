//! The names of the types of values, as fault messages give them.

use crate::values::values::{JexValue, ValueView};
use vstd::prelude::*;
use vstd::string::StringExecFns;

verus! {

/// The name of the type of a value.
pub open spec fn type_label(value: ValueView) -> Seq<char> {
    match value {
        ValueView::Null => "null"@,
        ValueView::Int(_) => "int"@,
        ValueView::Bool(_) => "bool"@,
        ValueView::Object(_) => "string"@,
        ValueView::Instance(_) => "object"@,
        ValueView::Function(_) => "function"@,
    }
}

/// Something that has a type with a name.
pub trait GetType {
    /// The name of the type.
    spec fn name_of_type(&self) -> Seq<char>;

    fn get_type(&self) -> (name: String)
        ensures
            name@ == self.name_of_type(),
    ;
}

impl GetType for JexValue {
    open spec fn name_of_type(&self) -> Seq<char> {
        type_label(self@)
    }

    fn get_type(&self) -> (name: String) {
        let name = match self {
            JexValue::Null(_) => "null",
            JexValue::Int(_) => "int",
            JexValue::Bool(_) => "bool",
            JexValue::Object(_) => "string",
            JexValue::Instance(_) => "object",
            JexValue::Function(_) => "function",
        };
        String::from_str(name)
    }
}

} // verus!
