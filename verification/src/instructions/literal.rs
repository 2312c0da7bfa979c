//! The instruction that pushes a constant of the running chunk.

use crate::code::bytecode_constants::constant_value;
use crate::exceptions::runtime_exceptions::ExpectedInstructionArgument;
use crate::instructions::op_codes::JexOpCode;
use crate::runtime::{
    byte_at, code_of, constant_at, constant_not_found_fault, get_constant, handler_byte_arity,
    handler_operation,
};
use crate::state::{done, failed, is_step, next_argument, push, view_of, MachineView, Step};
use crate::types::{JexInstructionFn, JexMachine};
use extendable_vm::{Exception, InstructionFn, InstructionPointer};
use vstd::prelude::*;

verus! {

/// `CONSTANT` takes the index of a constant of its chunk as its argument
/// byte and pushes the value that the constant stands for.
pub open spec fn constant_step(state: MachineView, args: InstructionPointer) -> Step {
    match byte_at(state.code, args) {
        None => failed(state, ExpectedInstructionArgument.fault()),
        Some(constant_id) => match constant_at(state.code, args.chunk_id, constant_id as usize) {
            None => failed(state, constant_not_found_fault(args.chunk_id, constant_id as usize)),
            Some(constant) => match constant_value(state.code, constant@) {
                Ok(value) => done(state.pushed(value)),
                Err(fault) => failed(state, fault),
            },
        },
    }
}

/// Runs `CONSTANT`.
pub fn constant_instruction(machine: &mut JexMachine, args: InstructionPointer) -> (answer: Result<
    (),
    Exception,
>)
    ensures
        is_step(answer, view_of(final(machine)), constant_step(view_of(old(machine)), args)),
{
    let mut args = args;
    let constant_id = match next_argument(machine, &mut args) {
        Ok(constant_id) => constant_id,
        Err(exception) => {
            return Err(exception);
        },
    };
    let constant = match get_constant(code_of(machine), args.chunk_id, constant_id as usize) {
        Ok(constant) => constant,
        Err(exception) => {
            return Err(exception);
        },
    };
    let value = match constant.to_value(machine) {
        Ok(value) => value,
        Err(exception) => {
            return Err(exception);
        },
    };
    push(machine, value);
    Ok(())
}

/// `InstructionFn::Raw` with `constant_instruction` as its function.
#[verifier::external_body]
pub(crate) fn constant_handler(byte_arity: usize) -> (handler: JexInstructionFn)
    ensures
        handler_byte_arity(&handler) == byte_arity,
        handler_operation(&handler) == JexOpCode::Constant,
{
    InstructionFn::Raw { byte_arity, instruction_fn: constant_instruction }
}

} // verus!
