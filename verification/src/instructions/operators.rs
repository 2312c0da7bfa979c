//! The handlers of the instructions that push a literal, apply an operator
//! or read a line: each pairs a shape of the runtime with the function that
//! the instruction runs.

use crate::instructions::operator_implementations::{
    divide, equal, false_value, greater, less, minus, multiply, negate, not, parse_int, plus,
    read_line, to_string, true_value,
};
use crate::instructions::op_codes::JexOpCode;
use crate::runtime::{handler_byte_arity, handler_operation};
use crate::types::JexInstructionFn;
use crate::values::values::JexValue;
use extendable_vm::InstructionFn;
use vstd::prelude::*;

verus! {

/// `InstructionFn::Const` with `JexValue::null` as its function.
#[verifier::external_body]
pub(crate) fn null_handler() -> (handler: JexInstructionFn)
    ensures
        handler_byte_arity(&handler) == 0,
        handler_operation(&handler) == JexOpCode::Null,
{
    InstructionFn::Const(JexValue::null)
}

/// `InstructionFn::Const` with `true_value` as its function.
#[verifier::external_body]
pub(crate) fn true_handler() -> (handler: JexInstructionFn)
    ensures
        handler_byte_arity(&handler) == 0,
        handler_operation(&handler) == JexOpCode::True,
{
    InstructionFn::Const(true_value)
}

/// `InstructionFn::Const` with `false_value` as its function.
#[verifier::external_body]
pub(crate) fn false_handler() -> (handler: JexInstructionFn)
    ensures
        handler_byte_arity(&handler) == 0,
        handler_operation(&handler) == JexOpCode::False,
{
    InstructionFn::Const(false_value)
}

/// `InstructionFn::UnaryOp` with `negate` as its function.
#[verifier::external_body]
pub(crate) fn negate_handler() -> (handler: JexInstructionFn)
    ensures
        handler_byte_arity(&handler) == 0,
        handler_operation(&handler) == JexOpCode::Negate,
{
    InstructionFn::UnaryOp(negate)
}

/// `InstructionFn::BinaryOp` with `plus` as its function.
#[verifier::external_body]
pub(crate) fn add_handler() -> (handler: JexInstructionFn)
    ensures
        handler_byte_arity(&handler) == 0,
        handler_operation(&handler) == JexOpCode::Add,
{
    InstructionFn::BinaryOp(plus)
}

/// `InstructionFn::BinaryOp` with `minus` as its function.
#[verifier::external_body]
pub(crate) fn subtract_handler() -> (handler: JexInstructionFn)
    ensures
        handler_byte_arity(&handler) == 0,
        handler_operation(&handler) == JexOpCode::Subtract,
{
    InstructionFn::BinaryOp(minus)
}

/// `InstructionFn::BinaryOp` with `multiply` as its function.
#[verifier::external_body]
pub(crate) fn multiply_handler() -> (handler: JexInstructionFn)
    ensures
        handler_byte_arity(&handler) == 0,
        handler_operation(&handler) == JexOpCode::Multiply,
{
    InstructionFn::BinaryOp(multiply)
}

/// `InstructionFn::BinaryOp` with `divide` as its function.
#[verifier::external_body]
pub(crate) fn divide_handler() -> (handler: JexInstructionFn)
    ensures
        handler_byte_arity(&handler) == 0,
        handler_operation(&handler) == JexOpCode::Divide,
{
    InstructionFn::BinaryOp(divide)
}

/// `InstructionFn::BinaryOp` with `equal` as its function.
#[verifier::external_body]
pub(crate) fn equal_handler() -> (handler: JexInstructionFn)
    ensures
        handler_byte_arity(&handler) == 0,
        handler_operation(&handler) == JexOpCode::Equal,
{
    InstructionFn::BinaryOp(equal)
}

/// `InstructionFn::BinaryOp` with `greater` as its function.
#[verifier::external_body]
pub(crate) fn greater_handler() -> (handler: JexInstructionFn)
    ensures
        handler_byte_arity(&handler) == 0,
        handler_operation(&handler) == JexOpCode::Greater,
{
    InstructionFn::BinaryOp(greater)
}

/// `InstructionFn::BinaryOp` with `less` as its function.
#[verifier::external_body]
pub(crate) fn less_handler() -> (handler: JexInstructionFn)
    ensures
        handler_byte_arity(&handler) == 0,
        handler_operation(&handler) == JexOpCode::Less,
{
    InstructionFn::BinaryOp(less)
}

/// `InstructionFn::UnaryOp` with `not` as its function.
#[verifier::external_body]
pub(crate) fn not_handler() -> (handler: JexInstructionFn)
    ensures
        handler_byte_arity(&handler) == 0,
        handler_operation(&handler) == JexOpCode::Not,
{
    InstructionFn::UnaryOp(not)
}

/// `InstructionFn::UnaryOp` with `to_string` as its function.
#[verifier::external_body]
pub(crate) fn to_string_handler() -> (handler: JexInstructionFn)
    ensures
        handler_byte_arity(&handler) == 0,
        handler_operation(&handler) == JexOpCode::ToString,
{
    InstructionFn::UnaryOp(to_string)
}

/// `InstructionFn::UnaryOp` with `parse_int` as its function.
#[verifier::external_body]
pub(crate) fn parse_int_handler() -> (handler: JexInstructionFn)
    ensures
        handler_byte_arity(&handler) == 0,
        handler_operation(&handler) == JexOpCode::ParseInt,
{
    InstructionFn::UnaryOp(parse_int)
}

/// `InstructionFn::Raw` with `read_line` as its function.
#[verifier::external_body]
pub(crate) fn read_line_handler(byte_arity: usize) -> (handler: JexInstructionFn)
    ensures
        handler_byte_arity(&handler) == byte_arity,
        handler_operation(&handler) == JexOpCode::ReadLine,
{
    InstructionFn::Raw { byte_arity, instruction_fn: read_line }
}

} // verus!
