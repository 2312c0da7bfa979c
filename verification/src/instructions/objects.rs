//! The instructions on instances: creating one, and reading and writing its
//! fields.
//!
//! The fields of an instance are heap state that every handle to the
//! instance shares. They are not part of the machine's state as the
//! contracts see it: what a read of a field finds is an input of the
//! contract of `GET_FIELD`, and what `SET_FIELD` writes shows in later reads
//! only.

use crate::code::bytecode_constants::{not_a_string_message, ConstantView};
use crate::exceptions::runtime_exceptions::{
    ExpectedInstructionArgument, FieldNotFound, NotObjectException, TypeException,
};
use crate::instructions::op_codes::JexOpCode;
use crate::runtime::{
    byte_at, code_of, constant_at, constant_not_found_fault, empty_operand_stack_fault, fault_of,
    get_constant, handler_byte_arity, handler_operation, Fault,
};
use crate::state::{
    done, failed, is_step, next_argument, peek, pop, push, view_of, MachineView, Step,
};
use crate::types::{JexInstructionFn, JexMachine};
use crate::values::get_type::type_label;
use crate::values::values::{JexValue, ValueView};
use extendable_vm::{Exception, ExceptionType, InstructionFn, InstructionPointer};
use vstd::prelude::*;

verus! {

/// The name of the field that a field instruction speaks of: the string
/// constant of its chunk whose index is the argument byte. Where there is no
/// such string, the fault of the instruction.
pub open spec fn field_name(state: MachineView, args: InstructionPointer) -> Result<
    Seq<char>,
    Fault,
> {
    match byte_at(state.code, args) {
        None => Err(ExpectedInstructionArgument.fault()),
        Some(constant_id) => match constant_at(state.code, args.chunk_id, constant_id as usize) {
            None => Err(constant_not_found_fault(args.chunk_id, constant_id as usize)),
            Some(constant) => match constant@ {
                ConstantView::String(name) => Ok(name),
                other => Err(TypeException::message_fault(not_a_string_message(other))),
            },
        },
    }
}

/// What is left of `GET_FIELD` once the field was looked up: the value that
/// was found goes on top of the receiver; no value is the fault of a field
/// that was not found.
pub open spec fn found_field_step(
    state: MachineView,
    name: Seq<char>,
    found: Option<ValueView>,
) -> Step {
    match found {
        Some(value) => done(state.pushed(value)),
        None => failed(state, FieldNotFound::fault_for(name)),
    }
}

/// `GET_FIELD` looks at the top operand, the receiver, which must be an
/// instance and stays on the stack, and pushes the value of the named
/// field. `found` is what the instance holds under that name.
pub open spec fn get_field_step(
    state: MachineView,
    args: InstructionPointer,
    found: Option<ValueView>,
) -> Step {
    match field_name(state, args) {
        Err(fault) => failed(state, fault),
        Ok(name) => if state.operands.len() == 0 {
            failed(state, empty_operand_stack_fault())
        } else {
            match state.top() {
                ValueView::Instance(_) => found_field_step(state, name, found),
                other => failed(state, NotObjectException::fault_for(type_label(other))),
            }
        },
    }
}

/// `SET_FIELD` pops the new value and looks at the operand below it, the
/// receiver, which must be an instance and stays on the stack as the result
/// of the assignment. The new value is popped also where the instruction
/// then faults on the receiver.
pub open spec fn set_field_step(state: MachineView, args: InstructionPointer) -> Step {
    match field_name(state, args) {
        Err(fault) => failed(state, fault),
        Ok(name) => if state.operands.len() == 0 {
            failed(state, empty_operand_stack_fault())
        } else if state.operands.len() == 1 {
            failed(state.popped(), empty_operand_stack_fault())
        } else {
            match state.popped().top() {
                ValueView::Instance(_) => done(state.popped()),
                other => failed(state.popped(), NotObjectException::fault_for(type_label(other))),
            }
        },
    }
}

/// The optional value as the contracts see it.
pub open spec fn found_view(found: Option<JexValue>) -> Option<ValueView> {
    match found {
        Some(value) => Some(value@),
        None => None,
    }
}

/// Reads the name of the field that a field instruction speaks of.
fn read_field_name(machine: &JexMachine, args: InstructionPointer) -> (name: Result<
    String,
    Exception,
>)
    ensures
        match name {
            Ok(found) => field_name(view_of(machine), args) == Ok::<
                Seq<char>,
                Fault,
            >(found@),
            Err(exception) => field_name(view_of(machine), args) == Err::<
                Seq<char>,
                Fault,
            >(fault_of(exception)),
        },
{
    let mut args = args;
    let constant_id = match next_argument(machine, &mut args) {
        Ok(constant_id) => constant_id,
        Err(exception) => {
            return Err(exception);
        },
    };
    let constant = match get_constant(code_of(machine), args.chunk_id, constant_id as usize) {
        Ok(constant) => constant,
        Err(exception) => {
            return Err(exception);
        },
    };
    match constant.as_string() {
        Ok(name) => Ok(name),
        Err(exception) => Err(Exception::from(exception)),
    }
}

/// Finishes `GET_FIELD` with what the receiver holds under the name.
pub fn push_found_field(machine: &mut JexMachine, name: String, found: Option<JexValue>) -> (answer:
    Result<(), Exception>)
    ensures
        is_step(
            answer,
            view_of(final(machine)),
            found_field_step(view_of(old(machine)), name@, found_view(found)),
        ),
{
    match found {
        Some(value) => {
            push(machine, value);
            Ok(())
        },
        None => Err(Exception::from(FieldNotFound(name))),
    }
}

/// Runs `GET_FIELD`: it makes the step of the instruction for what the
/// receiver holds under the name, whatever that is.
pub fn get_field_instruction(machine: &mut JexMachine, args: InstructionPointer) -> (answer: Result<
    (),
    Exception,
>)
    ensures
        exists|found: Option<ValueView>|
            is_step(
                answer,
                view_of(final(machine)),
                #[trigger] get_field_step(view_of(old(machine)), args, found),
            ),
{
    let field_name = match read_field_name(machine, args) {
        Ok(name) => name,
        Err(exception) => {
            assert(is_step(
                Err(exception),
                view_of(machine),
                get_field_step(view_of(old(machine)), args, None),
            ));
            return Err(exception);
        },
    };
    let looked_up = match peek(machine) {
        Ok(receiver) => match receiver {
            JexValue::Instance(instance) => Ok(instance.get_field(field_name.as_str())),
            _ => Err(Exception::from(NotObjectException::new(receiver))),
        },
        Err(exception) => Err(exception),
    };
    match looked_up {
        Ok(found) => {
            let ghost seen = found_view(found);
            let answer = push_found_field(machine, field_name, found);
            assert(is_step(
                answer,
                view_of(machine),
                get_field_step(view_of(old(machine)), args, seen),
            ));
            answer
        },
        Err(exception) => {
            assert(is_step(
                Err(exception),
                view_of(machine),
                get_field_step(view_of(old(machine)), args, None),
            ));
            Err(exception)
        },
    }
}

/// Runs `SET_FIELD`. The field is written into the instance itself, where
/// every handle to the instance finds it.
pub fn set_field_instruction(machine: &mut JexMachine, args: InstructionPointer) -> (answer: Result<
    (),
    Exception,
>)
    ensures
        is_step(answer, view_of(final(machine)), set_field_step(view_of(old(machine)), args)),
{
    let field_name = match read_field_name(machine, args) {
        Ok(name) => name,
        Err(exception) => {
            return Err(exception);
        },
    };
    let new_value = match pop(machine) {
        Ok(value) => value,
        Err(exception) => {
            return Err(exception);
        },
    };
    match peek(machine) {
        Ok(receiver) => match receiver {
            JexValue::Instance(instance) => {
                instance.put_field(field_name, new_value);
                Ok(())
            },
            _ => Err(Exception::from(NotObjectException::new(receiver))),
        },
        Err(exception) => Err(exception),
    }
}

/// `InstructionFn::Const` with `JexValue::new_object` as its function.
#[verifier::external_body]
pub(crate) fn new_instance_handler() -> (handler: JexInstructionFn)
    ensures
        handler_byte_arity(&handler) == 0,
        handler_operation(&handler) == JexOpCode::NewInstance,
{
    InstructionFn::Const(JexValue::new_object)
}

/// `InstructionFn::Raw` with `get_field_instruction` as its function.
#[verifier::external_body]
pub(crate) fn get_field_handler(byte_arity: usize) -> (handler: JexInstructionFn)
    ensures
        handler_byte_arity(&handler) == byte_arity,
        handler_operation(&handler) == JexOpCode::GetField,
{
    InstructionFn::Raw { byte_arity, instruction_fn: get_field_instruction }
}

/// `InstructionFn::Raw` with `set_field_instruction` as its function.
#[verifier::external_body]
pub(crate) fn set_field_handler(byte_arity: usize) -> (handler: JexInstructionFn)
    ensures
        handler_byte_arity(&handler) == byte_arity,
        handler_operation(&handler) == JexOpCode::SetField,
{
    InstructionFn::Raw { byte_arity, instruction_fn: set_field_instruction }
}

/// `SET_FIELD` leaves the receiver on the stack, and it is the same
/// instance that was there before: where the instruction runs without a
/// fault, the stack is the old one less its top operand.
pub proof fn set_field_keeps_receiver(state: MachineView, args: InstructionPointer)
    requires
        set_field_step(state, args).fault is None,
    ensures
        state.operands.len() >= 2,
        set_field_step(state, args).state.operands == state.operands.drop_last(),
        set_field_step(state, args).state.top() is Instance,
        set_field_step(state, args).state.top() == state.from_top(1),
        set_field_step(state, args).state.frames == state.frames,
{
}

/// The faults of the field instructions are faults of the running program.
pub proof fn field_faults_are_runtime_faults(
    state: MachineView,
    args: InstructionPointer,
    found: Option<ValueView>,
)
    ensures
        get_field_step(state, args, found).fault matches Some(fault) ==> fault.severity
            == ExceptionType::Runtime,
        set_field_step(state, args).fault matches Some(fault) ==> fault.severity
            == ExceptionType::Runtime,
{
}

/// `GET_FIELD` leaves the receiver where it was: where it runs without a
/// fault, the stack is the old one with the value of the field on top.
pub proof fn get_field_keeps_receiver(
    state: MachineView,
    args: InstructionPointer,
    found: Option<ValueView>,
)
    requires
        get_field_step(state, args, found).fault is None,
    ensures
        found is Some,
        state.operands.len() > 0,
        state.top() is Instance,
        get_field_step(state, args, found).state.operands == state.operands.push(found.unwrap()),
        get_field_step(state, args, found).state.frames == state.frames,
{
}

/// `GET_FIELD` never answers a missing field with a value: it faults, and
/// leaves the stack as it was.
pub proof fn get_missing_field_faults(state: MachineView, args: InstructionPointer)
    ensures
        get_field_step(state, args, None).fault is Some,
        get_field_step(state, args, None).state == state,
{
}

} // verus!
