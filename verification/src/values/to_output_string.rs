//! How values are rendered as text.

use crate::text::{render_int, signed_decimal};
use crate::values::values::{FunctionView, JexFunction, JexObject, JexValue, ObjectView, ValueView};
use vstd::prelude::*;
use vstd::string::StringExecFns;

verus! {

/// The text of a callable: the name it was declared with, and a fixed name
/// for the script.
pub open spec fn function_text(function: FunctionView) -> Seq<char> {
    match function {
        FunctionView::Script => "<script>"@,
        FunctionView::Function { name, .. } => name,
    }
}

/// The text that a program prints for a value: an integer in decimal, a
/// boolean as `true` or `false`, a string as its characters, a callable as
/// its name, and a fixed word for null and for any instance.
pub open spec fn output_text(value: ValueView) -> Seq<char> {
    match value {
        ValueView::Null => "null"@,
        ValueView::Int(i) => signed_decimal(i),
        ValueView::Bool(b) => if b {
            "true"@
        } else {
            "false"@
        },
        ValueView::Object(ObjectView::String(text)) => text,
        ValueView::Instance(_) => "object"@,
        ValueView::Function(function) => function_text(function),
    }
}

/// The text that diagnostics show for a value: as `output_text`, but with a
/// string between double quotes.
pub open spec fn debug_text(value: ValueView) -> Seq<char> {
    match value {
        ValueView::Object(ObjectView::String(text)) => "\""@ + text + "\""@,
        _ => output_text(value),
    }
}

/// Something that programs can print.
pub trait ToOutputString {
    /// The printed text.
    spec fn output(&self) -> Seq<char>;

    fn to_output_string(&self) -> (text: String)
        ensures
            text@ == self.output(),
    ;
}

impl ToOutputString for JexFunction {
    open spec fn output(&self) -> Seq<char> {
        function_text(self@)
    }

    fn to_output_string(&self) -> (text: String) {
        match self {
            JexFunction::Script => String::from_str("<script>"),
            JexFunction::Function { name, .. } => name.clone(),
        }
    }
}

impl ToOutputString for JexValue {
    open spec fn output(&self) -> Seq<char> {
        output_text(self@)
    }

    fn to_output_string(&self) -> (text: String) {
        match self {
            JexValue::Null(_) => String::from_str("null"),
            JexValue::Int(i) => render_int(*i),
            JexValue::Bool(b) => if *b {
                String::from_str("true")
            } else {
                String::from_str("false")
            },
            JexValue::Object(object) => match &**object {
                JexObject::String(text) => text.clone(),
            },
            JexValue::Instance(_) => String::from_str("object"),
            JexValue::Function(function) => function.to_output_string(),
        }
    }
}

impl JexObject {
    /// Renders the object for diagnostics: a string between double quotes.
    pub fn to_debug_string(&self) -> (text: String)
        ensures
            text@ == debug_text(ValueView::Object(self@)),
    {
        match self {
            JexObject::String(inner) => {
                let mut text = String::from_str("\"");
                text.append(inner.as_str());
                text.append("\"");
                text
            },
        }
    }
}

impl JexValue {
    /// Renders the value for diagnostics.
    pub fn to_debug_string(&self) -> (text: String)
        ensures
            text@ == debug_text(self@),
    {
        match self {
            JexValue::Object(object) => object.to_debug_string(),
            _ => self.to_output_string(),
        }
    }
}

/// The sink of formatted text, which `Debug` writes to.
#[verifier::external_type_specification]
#[verifier::external_body]
pub struct ExFormatter<'a>(std::fmt::Formatter<'a>);

/// The error of formatting, which has no content.
#[verifier::external_type_specification]
pub struct ExFormatError(std::fmt::Error);

/// `Formatter::write_str`: appends the text to what is being formatted.
#[verifier::external_body]
fn write_text(formatter: &mut std::fmt::Formatter<'_>, text: &str) -> (written: std::fmt::Result) {
    formatter.write_str(text)
}

impl std::fmt::Debug for JexObject {
    fn fmt(&self, formatter: &mut std::fmt::Formatter<'_>) -> (written: std::fmt::Result) {
        write_text(formatter, self.to_debug_string().as_str())
    }
}

impl std::fmt::Debug for JexValue {
    fn fmt(&self, formatter: &mut std::fmt::Formatter<'_>) -> (written: std::fmt::Result) {
        write_text(formatter, self.to_debug_string().as_str())
    }
}

} // verus!
