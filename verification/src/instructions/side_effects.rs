//! The instruction that writes to the standard output.

use crate::instructions::op_codes::JexOpCode;
use crate::instructions::operator_implementations::print;
use crate::instructions::types::describes;
use crate::runtime::{handler_byte_arity, handler_operation};
use crate::types::{JexInstruction, JexInstructionFn};
use extendable_vm::{Instruction, InstructionFn};
use vstd::prelude::*;

verus! {

/// `InstructionFn::UnaryOp` with `print` as its function.
#[verifier::external_body]
pub(crate) fn print_handler() -> (handler: JexInstructionFn)
    ensures
        handler_byte_arity(&handler) == 0,
        handler_operation(&handler) == JexOpCode::Print,
{
    InstructionFn::UnaryOp(print)
}

/// Adds the record of `PRINT` to the end of a list of instructions: the
/// operation code 10, the name `PRINT`, no argument bytes and the function
/// that prints.
pub fn side_effects_instructions(instructions: &mut Vec<JexInstruction>)
    ensures
        final(instructions)@.len() == old(instructions)@.len() + 1,
        final(instructions)@.drop_last() == old(instructions)@,
        final(instructions)@.last().op_code == 10,
        final(instructions)@.last().name@ == "PRINT"@,
        handler_byte_arity(&final(instructions)@.last().instruction_fn) == 0,
        handler_operation(&final(instructions)@.last().instruction_fn) == JexOpCode::Print,
        describes(final(instructions)@.last(), JexOpCode::Print),
{
    instructions.push(
        Instruction {
            op_code: JexOpCode::Print.code(),
            name: JexOpCode::Print.name(),
            instruction_fn: print_handler(),
        },
    );
    assert(instructions@.drop_last() =~= old(instructions)@);
}

} // verus!
