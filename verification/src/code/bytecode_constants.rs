//! The constants of a chunk's constant pool.

use crate::exceptions::runtime_exceptions::TypeException;
use crate::runtime::{fault_of, machine_code, Fault};
use crate::text::{debug_quoted, decimal, quote_for_debug, render_int, render_usize, signed_decimal};
use crate::types::JexMachine;
use crate::values::values::{function_of_chunk, JexFunction, JexValue, ObjectView, ValueView};
use extendable_vm::{Code, Exception};
use vstd::prelude::*;
use vstd::string::StringExecFns;

verus! {

/// A literal stored in a chunk's constant pool.
#[derive(Debug)]
pub enum JexConstant {
    Int(i32),
    String(String),
    Function { chunk_id: usize },
}

/// The kinds of constants. Each has a tag, the byte that precedes a constant
/// of that kind in a compiled program.
#[derive(PartialEq, Eq, Structural, Debug, Clone, Copy)]
pub enum JexConstantType {
    Int,
    String,
    Function,
}

/// What a constant is.
pub enum ConstantView {
    Int(int),
    String(Seq<char>),
    Function { chunk_id: nat },
}

impl View for JexConstant {
    type V = ConstantView;

    open spec fn view(&self) -> ConstantView {
        match *self {
            JexConstant::Int(i) => ConstantView::Int(i as int),
            JexConstant::String(text) => ConstantView::String(text@),
            JexConstant::Function { chunk_id } => ConstantView::Function {
                chunk_id: chunk_id as nat,
            },
        }
    }
}

impl JexConstantType {
    /// The tag of this kind of constant.
    pub open spec fn spec_tag(self) -> u8 {
        match self {
            JexConstantType::Int => 0,
            JexConstantType::String => 1,
            JexConstantType::Function => 2,
        }
    }

    /// The tag of this kind of constant.
    pub fn tag(self) -> (tag: u8)
        ensures
            tag == self.spec_tag(),
    {
        match self {
            JexConstantType::Int => 0,
            JexConstantType::String => 1,
            JexConstantType::Function => 2,
        }
    }

    /// The kind of constant that a tag announces, if it announces one.
    pub fn from_tag(tag: u8) -> (kind: Option<JexConstantType>)
        ensures
            match kind {
                Some(found) => found.spec_tag() == tag,
                None => forall|other: JexConstantType| other.spec_tag() != tag,
            },
    {
        if tag == 0 {
            Some(JexConstantType::Int)
        } else if tag == 1 {
            Some(JexConstantType::String)
        } else if tag == 2 {
            Some(JexConstantType::Function)
        } else {
            None
        }
    }
}

/// No two kinds of constants share a tag.
pub proof fn constant_tags_are_unique(left: JexConstantType, right: JexConstantType)
    requires
        left.spec_tag() == right.spec_tag(),
    ensures
        left == right,
{
}

/// The text that diagnostics show for a constant.
pub open spec fn constant_debug_text(constant: ConstantView) -> Seq<char> {
    match constant {
        ConstantView::Int(i) => "Int("@ + signed_decimal(i) + ")"@,
        ConstantView::String(text) => "String("@ + debug_quoted(text) + ")"@,
        ConstantView::Function { chunk_id } => "Function { chunk_id: "@ + decimal(chunk_id)
            + " }"@,
    }
}

/// The message of the fault of a constant that is not the string it was
/// taken for.
pub open spec fn not_a_string_message(constant: ConstantView) -> Seq<char> {
    "Expected chunk constant "@ + constant_debug_text(constant) + " to be string"@
}

/// The message of the fault of a constant that is not the integer it was
/// taken for.
pub open spec fn not_an_int_message(constant: ConstantView) -> Seq<char> {
    "Expected chunk constant "@ + constant_debug_text(constant) + " to be int"@
}

/// The value that a constant of a program stands for, or the fault of
/// resolving it. An integer and a string stand for themselves; a function
/// constant is resolved against the chunk that it refers to.
pub open spec fn constant_value(code: Code<JexConstant>, constant: ConstantView) -> Result<
    ValueView,
    Fault,
> {
    match constant {
        ConstantView::Int(i) => Ok(ValueView::Int(i)),
        ConstantView::String(text) => Ok(ValueView::Object(ObjectView::String(text))),
        ConstantView::Function { chunk_id } => match function_of_chunk(code, chunk_id) {
            Ok(function) => Ok(ValueView::Function(function)),
            Err(fault) => Err(fault),
        },
    }
}

impl JexConstant {
    /// The value that this constant stands for in the program of the
    /// machine.
    pub fn to_value(&self, machine: &JexMachine) -> (value: Result<JexValue, Exception>)
        ensures
            match value {
                Ok(found) => constant_value(machine_code(machine), self@) == Ok::<
                    ValueView,
                    Fault,
                >(found@),
                Err(exception) => constant_value(machine_code(machine), self@) == Err::<
                    ValueView,
                    Fault,
                >(fault_of(exception)),
            },
    {
        match self {
            JexConstant::Int(i) => Ok(JexValue::Int(*i)),
            JexConstant::String(text) => Ok(JexValue::from_string(text.clone())),
            JexConstant::Function { chunk_id } => {
                match JexFunction::from_code(machine, *chunk_id) {
                    Ok(function) => Ok(JexValue::Function(function)),
                    Err(exception) => Err(exception),
                }
            },
        }
    }

    /// The string constant with the given text.
    pub fn from_str(str: &str) -> (constant: JexConstant)
        ensures
            constant@ == ConstantView::String(str@),
    {
        JexConstant::String(String::from_str(str))
    }

    /// The text of a string constant; a fault for a constant of another
    /// kind.
    pub fn as_string(&self) -> (text: Result<String, TypeException>)
        ensures
            match text {
                Ok(found) => self@ == ConstantView::String(found@),
                Err(exception) => !(self is String) && exception.0@ == not_a_string_message(
                    self@,
                ),
            },
    {
        if let JexConstant::String(string) = self {
            Ok(string.clone())
        } else {
            let mut message = String::from_str("Expected chunk constant ");
            message.append(self.to_debug_string().as_str());
            message.append(" to be string");
            Err(TypeException(message))
        }
    }

    /// The number of an integer constant; a fault for a constant of another
    /// kind.
    pub fn as_int(&self) -> (number: Result<i32, TypeException>)
        ensures
            match number {
                Ok(found) => self@ == ConstantView::Int(found as int),
                Err(exception) => !(self is Int) && exception.0@ == not_an_int_message(self@),
            },
    {
        if let JexConstant::Int(number) = self {
            Ok(*number)
        } else {
            let mut message = String::from_str("Expected chunk constant ");
            message.append(self.to_debug_string().as_str());
            message.append(" to be int");
            Err(TypeException(message))
        }
    }

    /// Renders the constant for diagnostics.
    pub fn to_debug_string(&self) -> (text: String)
        ensures
            text@ == constant_debug_text(self@),
    {
        match self {
            JexConstant::Int(i) => {
                let mut text = String::from_str("Int(");
                text.append(render_int(*i).as_str());
                text.append(")");
                text
            },
            JexConstant::String(string) => {
                let mut text = String::from_str("String(");
                text.append(quote_for_debug(string.as_str()).as_str());
                text.append(")");
                text
            },
            JexConstant::Function { chunk_id } => {
                let mut text = String::from_str("Function { chunk_id: ");
                text.append(render_usize(*chunk_id).as_str());
                text.append(" }");
                text
            },
        }
    }
}

impl Clone for JexConstant {
    fn clone(&self) -> (copy: Self)
        ensures
            copy == *self,
    {
        match self {
            JexConstant::Int(i) => JexConstant::Int(*i),
            JexConstant::String(text) => JexConstant::String(text.clone()),
            JexConstant::Function { chunk_id } => JexConstant::Function { chunk_id: *chunk_id },
        }
    }
}

impl PartialEq for JexConstant {
    fn eq(&self, other: &Self) -> (equal: bool) {
        match (self, other) {
            (JexConstant::Int(left), JexConstant::Int(right)) => *left == *right,
            (JexConstant::String(left), JexConstant::String(right)) => *left == *right,
            (
                JexConstant::Function { chunk_id: left },
                JexConstant::Function { chunk_id: right },
            ) => *left == *right,
            _ => false,
        }
    }
}

impl vstd::std_specs::cmp::PartialEqSpecImpl for JexConstant {
    open spec fn obeys_eq_spec() -> bool {
        true
    }

    open spec fn eq_spec(&self, other: &JexConstant) -> bool {
        self@ == other@
    }
}

impl Eq for JexConstant {

}

} // verus!
