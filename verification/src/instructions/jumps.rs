//! The instructions that move the instruction pointer: jumps, calls and
//! returns.
//!
//! When an instruction runs, the current frame's instruction pointer is
//! already behind the instruction and its argument bytes, and `args` is at
//! the first of these argument bytes.

use crate::exceptions::runtime_exceptions::{ExpectedInstructionArgument, IllegalJump, TypeException};
use crate::instructions::op_codes::JexOpCode;
use crate::runtime::{
    byte_at, empty_call_stack, empty_call_stack_fault, empty_operand_stack_fault,
    handler_byte_arity, handler_operation, instruction_pointer, machine_frames, operand_stack_len,
    slot_out_of_bounds_fault,
};
use crate::state::{
    done, enter_frame, entered, failed, frame_views, is_step, leave_frame, next_argument,
    operand_from_top, peek, pop, push, view_of, MachineView, Step,
};
use crate::text::{decimal, render_usize};
use crate::code::bytecode_constants::JexConstant;
use crate::types::{JexInstructionFn, JexMachine};
use crate::values::to_output_string::{function_text, ToOutputString};
use crate::values::values::{FunctionView, JexFunction, ValueView};
use extendable_vm::{Code, Exception, ExceptionType, InstructionFn, InstructionPointer};
use vstd::prelude::*;
use vstd::string::StringExecFns;

verus! {

/// The message of the fault of a call with a number of arguments other than
/// the number of the function's parameters.
pub open spec fn wrong_arity_message(name: Seq<char>, parameters: nat, arguments: nat) -> Seq<char> {
    "Function "@ + name + " has "@ + decimal(parameters) + " parameters but received "@ + decimal(
        arguments,
    )
}

/// The message of the fault of a call of the script.
pub open spec fn cannot_call_message(function: FunctionView) -> Seq<char> {
    "Cannot call "@ + function_text(function)
}

/// A jump from the current frame's instruction pointer by `offset` bytes,
/// forward or, with a negative offset, backward. A jump needs a frame, and
/// its target must be an address.
pub open spec fn jump_step(state: MachineView, offset: int) -> Step {
    if state.frames.len() == 0 {
        failed(state, empty_call_stack_fault())
    } else {
        let target = state.pointer().instruction_pointer + offset;
        if 0 <= target <= usize::MAX {
            done(state.moved_to(target))
        } else {
            failed(state, IllegalJump.fault())
        }
    }
}

/// Whether the current frame's instruction pointer is right behind the one
/// argument byte at `args`, as it is when the machine runs an instruction
/// with one argument byte.
pub open spec fn is_behind_argument(state: MachineView, args: InstructionPointer) -> bool {
    &&& state.frames.len() > 0
    &&& state.pointer().chunk_id == args.chunk_id
    &&& state.pointer().instruction_pointer == args.instruction_pointer + 1
}

/// Whether the code of every chunk of a program fits in memory: a vector
/// holds no more than `isize::MAX` bytes.
pub open spec fn fits_in_memory(code: Code<JexConstant>) -> bool {
    forall|chunk_id: int|
        0 <= chunk_id < code.chunks@.len() ==> (#[trigger] code.chunks@[chunk_id]).code@.len()
            <= isize::MAX
}

/// `JUMP_FORWARD` adds its argument byte to the instruction pointer.
pub open spec fn jump_forward_step(state: MachineView, args: InstructionPointer) -> Step {
    match byte_at(state.code, args) {
        None => failed(state, ExpectedInstructionArgument.fault()),
        Some(offset) => jump_step(state, offset as int),
    }
}

/// `JUMP_BACKWARD` takes its argument byte from the instruction pointer.
pub open spec fn jump_backward_step(state: MachineView, args: InstructionPointer) -> Step {
    match byte_at(state.code, args) {
        None => failed(state, ExpectedInstructionArgument.fault()),
        Some(offset) => jump_step(state, -(offset as int)),
    }
}

/// `JUMP_FORWARD_IF_FALSE` looks at the top operand, which must be a
/// boolean and stays on the stack, and jumps where it is false.
pub open spec fn jump_forward_if_false_step(state: MachineView, args: InstructionPointer) -> Step {
    match byte_at(state.code, args) {
        None => failed(state, ExpectedInstructionArgument.fault()),
        Some(offset) => if state.operands.len() == 0 {
            failed(state, empty_operand_stack_fault())
        } else {
            match state.top() {
                ValueView::Bool(condition) => if condition {
                    done(state)
                } else {
                    jump_step(state, offset as int)
                },
                _ => failed(
                    state,
                    TypeException::message_fault("Jump forward if false condition was not bool"@),
                ),
            }
        },
    }
}

/// `CALL` takes the number of arguments as its argument byte. The callable
/// lies below that many arguments and must be a function of as many
/// parameters. The new frame begins at the slot of the callable.
pub open spec fn call_step(state: MachineView, args: InstructionPointer) -> Step {
    match byte_at(state.code, args) {
        None => failed(state, ExpectedInstructionArgument.fault()),
        Some(arguments) => if arguments >= state.operands.len() {
            failed(state, slot_out_of_bounds_fault())
        } else {
            match state.from_top(arguments as int) {
                ValueView::Function(FunctionView::Function { arity, chunk_id, name }) => if arity
                    == arguments {
                    done(
                        state.called(
                            entered(
                                chunk_id as usize,
                                name,
                                (state.operands.len() - 1 - arguments) as usize,
                            ),
                        ),
                    )
                } else {
                    failed(
                        state,
                        TypeException::message_fault(
                            wrong_arity_message(name, arity, arguments as nat),
                        ),
                    )
                },
                ValueView::Function(script) => failed(
                    state,
                    TypeException::message_fault(cannot_call_message(script)),
                ),
                _ => failed(state, TypeException::message_fault("Value was not callable"@)),
            }
        },
    }
}

/// `RETURN` pops the returned value, discards the current frame with the
/// operands that belong to it, and pushes the returned value.
pub open spec fn return_step(state: MachineView) -> Step {
    if state.operands.len() == 0 {
        failed(state, empty_operand_stack_fault())
    } else if state.frames.len() == 0 {
        failed(state.popped(), empty_call_stack_fault())
    } else {
        done(state.popped().returned().pushed(state.top()))
    }
}

/// Moves the current frame's instruction pointer by `offset` bytes forward,
/// or backward where `backward` is set.
fn jump(machine: &mut JexMachine, offset: u8, backward: bool) -> (answer: Result<(), Exception>)
    ensures
        is_step(
            answer,
            view_of(final(machine)),
            jump_step(
                view_of(old(machine)),
                if backward {
                    -(offset as int)
                } else {
                    offset as int
                },
            ),
        ),
{
    let pointer = match instruction_pointer(machine) {
        Ok(pointer) => pointer,
        Err(fault) => {
            return Err(empty_call_stack(fault));
        },
    };
    let ghost target = pointer.instruction_pointer + (if backward {
        -(offset as int)
    } else {
        offset as int
    });
    let distance: usize = offset as usize;
    let answer = if backward {
        if distance <= pointer.instruction_pointer {
            pointer.jump_backward(distance);
            Ok(())
        } else {
            Err(Exception::from(IllegalJump))
        }
    } else {
        if pointer.instruction_pointer <= usize::MAX - distance {
            pointer.jump_forward(distance);
            Ok(())
        } else {
            Err(Exception::from(IllegalJump))
        }
    };
    proof {
        let before = machine_frames(old(machine));
        let after = machine_frames(machine);
        if answer is Ok {
            assert(frame_views(after) =~= view_of(old(machine)).moved_to(target).frames);
        } else {
            assert(after =~= before);
        }
    }
    answer
}

/// Runs `JUMP_FORWARD`. Where the machine runs it, the instruction pointer
/// is right behind the argument byte, and the jump then succeeds: the
/// pointer moves on by exactly the offset.
pub fn jump_forward_instruction(machine: &mut JexMachine, args: InstructionPointer) -> (answer:
    Result<(), Exception>)
    ensures
        is_step(answer, view_of(final(machine)), jump_forward_step(view_of(old(machine)), args)),
        is_behind_argument(view_of(old(machine)), args) ==> (byte_at(
            view_of(old(machine)).code,
            args,
        ) matches Some(offset) ==> answer is Ok && view_of(final(machine)) == view_of(
            old(machine),
        ).moved_to(args.instruction_pointer + 1 + offset)),
{
    let mut args = args;
    let offset = match next_argument(machine, &mut args) {
        Ok(offset) => offset,
        Err(exception) => {
            return Err(exception);
        },
    };
    jump(machine, offset, false)
}

/// Runs `JUMP_FORWARD_IF_FALSE`. Where the machine runs it on a false
/// condition, the instruction pointer is right behind the argument byte,
/// and the jump then succeeds: the pointer moves on by exactly the offset.
pub fn jump_forward_if_false_instruction(
    machine: &mut JexMachine,
    args: InstructionPointer,
) -> (answer: Result<(), Exception>)
    ensures
        is_step(
            answer,
            view_of(final(machine)),
            jump_forward_if_false_step(view_of(old(machine)), args),
        ),
        is_behind_argument(view_of(old(machine)), args) && view_of(old(machine)).operands.len()
            > 0 && view_of(old(machine)).top() == ValueView::Bool(false) ==> (byte_at(
            view_of(old(machine)).code,
            args,
        ) matches Some(offset) ==> answer is Ok && view_of(final(machine)) == view_of(
            old(machine),
        ).moved_to(args.instruction_pointer + 1 + offset)),
{
    let mut args = args;
    let offset = match next_argument(machine, &mut args) {
        Ok(offset) => offset,
        Err(exception) => {
            return Err(exception);
        },
    };
    let condition = match peek(machine) {
        Ok(operand) => operand.as_bool(),
        Err(exception) => {
            return Err(exception);
        },
    };
    match condition {
        Some(value) => if !value {
            jump(machine, offset, false)
        } else {
            Ok(())
        },
        None => Err(
            Exception::from(
                TypeException(String::from_str("Jump forward if false condition was not bool")),
            ),
        ),
    }
}

/// Runs `JUMP_BACKWARD`.
pub fn jump_backward_instruction(machine: &mut JexMachine, args: InstructionPointer) -> (answer:
    Result<(), Exception>)
    ensures
        is_step(answer, view_of(final(machine)), jump_backward_step(view_of(old(machine)), args)),
{
    let mut args = args;
    let offset = match next_argument(machine, &mut args) {
        Ok(offset) => offset,
        Err(exception) => {
            return Err(exception);
        },
    };
    jump(machine, offset, true)
}

/// Runs `CALL`. The frame of the callee is entered last: a call that faults
/// leaves the operands and the frames as they were.
pub fn call_instruction(machine: &mut JexMachine, args: InstructionPointer) -> (answer: Result<
    (),
    Exception,
>)
    ensures
        is_step(answer, view_of(final(machine)), call_step(view_of(old(machine)), args)),
{
    let mut args = args;
    let arity: usize = match next_argument(machine, &mut args) {
        Ok(arity) => arity as usize,
        Err(exception) => {
            return Err(exception);
        },
    };
    let callee = match operand_from_top(machine, arity) {
        Ok(callee) => callee,
        Err(exception) => {
            return Err(exception);
        },
    };
    let function = match callee.as_function() {
        Some(function) => function,
        None => {
            return Err(Exception::from(TypeException(String::from_str("Value was not callable"))));
        },
    };
    match function {
        JexFunction::Function { chunk_id, arity: actual_arity, name } => {
            if arity == *actual_arity {
                let chunk_id = *chunk_id;
                let name = name.clone();
                let chunk_start_slot = operand_stack_len(machine) - 1 - arity;
                enter_frame(machine, chunk_id, name, chunk_start_slot);
                Ok(())
            } else {
                let mut message = String::from_str("Function ");
                message.append(function.to_output_string().as_str());
                message.append(" has ");
                message.append(render_usize(*actual_arity).as_str());
                message.append(" parameters but received ");
                message.append(render_usize(arity).as_str());
                Err(Exception::from(TypeException(message)))
            }
        },
        JexFunction::Script => {
            let mut message = String::from_str("Cannot call ");
            message.append(function.to_output_string().as_str());
            Err(Exception::from(TypeException(message)))
        },
    }
}

/// Runs `RETURN`.
pub fn return_instruction(machine: &mut JexMachine, args: InstructionPointer) -> (answer: Result<
    (),
    Exception,
>)
    ensures
        is_step(answer, view_of(final(machine)), return_step(view_of(old(machine)))),
{
    let return_value = match pop(machine) {
        Ok(value) => value,
        Err(exception) => {
            return Err(exception);
        },
    };
    match leave_frame(machine) {
        Ok(_) => {},
        Err(exception) => {
            return Err(exception);
        },
    }
    push(machine, return_value);
    Ok(())
}

/// `InstructionFn::Raw` with `jump_forward_instruction` as its function.
#[verifier::external_body]
pub(crate) fn jump_forward_handler(byte_arity: usize) -> (handler: JexInstructionFn)
    ensures
        handler_byte_arity(&handler) == byte_arity,
        handler_operation(&handler) == JexOpCode::JumpForward,
{
    InstructionFn::Raw { byte_arity, instruction_fn: jump_forward_instruction }
}

/// `InstructionFn::Raw` with `jump_forward_if_false_instruction` as its
/// function.
#[verifier::external_body]
pub(crate) fn jump_forward_if_false_handler(byte_arity: usize) -> (handler: JexInstructionFn)
    ensures
        handler_byte_arity(&handler) == byte_arity,
        handler_operation(&handler) == JexOpCode::JumpForwardIfFalse,
{
    InstructionFn::Raw { byte_arity, instruction_fn: jump_forward_if_false_instruction }
}

/// `InstructionFn::Raw` with `jump_backward_instruction` as its function.
#[verifier::external_body]
pub(crate) fn jump_backward_handler(byte_arity: usize) -> (handler: JexInstructionFn)
    ensures
        handler_byte_arity(&handler) == byte_arity,
        handler_operation(&handler) == JexOpCode::JumpBackward,
{
    InstructionFn::Raw { byte_arity, instruction_fn: jump_backward_instruction }
}

/// `InstructionFn::Raw` with `call_instruction` as its function.
#[verifier::external_body]
pub(crate) fn call_handler(byte_arity: usize) -> (handler: JexInstructionFn)
    ensures
        handler_byte_arity(&handler) == byte_arity,
        handler_operation(&handler) == JexOpCode::Call,
{
    InstructionFn::Raw { byte_arity, instruction_fn: call_instruction }
}

/// `InstructionFn::Raw` with `return_instruction` as its function.
#[verifier::external_body]
pub(crate) fn return_handler(byte_arity: usize) -> (handler: JexInstructionFn)
    ensures
        handler_byte_arity(&handler) == byte_arity,
        handler_operation(&handler) == JexOpCode::Return,
{
    InstructionFn::Raw { byte_arity, instruction_fn: return_instruction }
}

/// A call with a number of arguments other than the number of the
/// function's parameters faults, and leaves the operand stack and the
/// frames as they were: the callee's frame is not entered.
pub proof fn call_with_wrong_arity_faults(
    state: MachineView,
    args: InstructionPointer,
    arguments: u8,
    arity: nat,
    chunk_id: nat,
    name: Seq<char>,
)
    requires
        byte_at(state.code, args) == Some(arguments),
        arguments < state.operands.len(),
        state.from_top(arguments as int) == ValueView::Function(
            FunctionView::Function { arity, chunk_id, name },
        ),
        arity != arguments,
    ensures
        call_step(state, args).fault == Some(
            TypeException::message_fault(wrong_arity_message(name, arity, arguments as nat)),
        ),
        call_step(state, args).state == state,
{
}

/// A call that succeeds enters one frame, at the first byte of the
/// function's chunk, which begins at the slot of the callable: the length
/// of the stack less one and less the number of arguments.
pub proof fn call_enters_frame_at_callable(state: MachineView, args: InstructionPointer)
    requires
        state.operands.len() <= usize::MAX,
        call_step(state, args).fault is None,
    ensures
        byte_at(state.code, args) is Some,
        call_step(state, args).state.operands == state.operands,
        call_step(state, args).state.frames.len() == state.frames.len() + 1,
        call_step(state, args).state.frames.drop_last() == state.frames,
        call_step(state, args).state.frames.last().start_slot == state.operands.len() - 1
            - byte_at(state.code, args).unwrap(),
        call_step(state, args).state.frames.last().pointer.instruction_pointer == 0,
{
    assert(call_step(state, args).state.frames.drop_last() =~= state.frames);
}

/// The faults of jumps, calls and returns are faults of the running
/// program.
pub proof fn control_faults_are_runtime_faults(state: MachineView, args: InstructionPointer)
    ensures
        jump_forward_step(state, args).fault matches Some(fault) ==> fault.severity
            == ExceptionType::Runtime,
        jump_backward_step(state, args).fault matches Some(fault) ==> fault.severity
            == ExceptionType::Runtime,
        jump_forward_if_false_step(state, args).fault matches Some(fault) ==> fault.severity
            == ExceptionType::Runtime,
        call_step(state, args).fault matches Some(fault) ==> fault.severity
            == ExceptionType::Runtime,
        return_step(state).fault matches Some(fault) ==> fault.severity == ExceptionType::Runtime,
{
}

/// A conditional jump leaves the operands as they were, whether it jumps or
/// not: the condition stays on the stack.
pub proof fn conditional_jump_keeps_the_condition(state: MachineView, args: InstructionPointer)
    ensures
        jump_forward_if_false_step(state, args).state.operands == state.operands,
{
}

/// A return that succeeds leaves one frame less, and of the operands those
/// below the frame's first slot with the returned value on top.
pub proof fn return_collapses_the_frame(state: MachineView)
    requires
        return_step(state).fault is None,
    ensures
        state.operands.len() > 0,
        state.frames.len() > 0,
        return_step(state).state.frames == state.frames.drop_last(),
        return_step(state).state.operands.last() == state.operands.last(),
        return_step(state).state.operands.len() <= state.frames.last().start_slot + 1,
        forall|slot: int|
            0 <= slot < return_step(state).state.operands.len() - 1 ==> return_step(
                state,
            ).state.operands[slot] == state.operands[slot],
{
}

/// A forward jump that the machine runs, with its operation code at the
/// byte `p` of a chunk and its offset `k` at the byte `p + 1`, succeeds and
/// leaves the instruction pointer at `p + 2 + k`: exactly `k` bytes behind
/// the byte that follows the offset, whatever lies there. The operands and
/// everything else of the frames stay.
pub proof fn jump_forward_lands_offset_behind_argument(
    state: MachineView,
    args: InstructionPointer,
    k: u8,
)
    requires
        fits_in_memory(state.code),
        byte_at(state.code, args) == Some(k),
        is_behind_argument(state, args),
    ensures
        jump_forward_step(state, args).fault is None,
        jump_forward_step(state, args).state.pointer().instruction_pointer
            == args.instruction_pointer + 1 + k,
        jump_forward_step(state, args).state.pointer().chunk_id == args.chunk_id,
        jump_forward_step(state, args).state.operands == state.operands,
        jump_forward_step(state, args).state.code == state.code,
        jump_forward_step(state, args).state.table == state.table,
        jump_forward_step(state, args).state.frames.len() == state.frames.len(),
        jump_forward_step(state, args).state.frames.drop_last() == state.frames.drop_last(),
        jump_forward_step(state, args).state.frames.last().chunk_id
            == state.frames.last().chunk_id,
        jump_forward_step(state, args).state.frames.last().start_slot
            == state.frames.last().start_slot,
        jump_forward_step(state, args).state.frames.last().name == state.frames.last().name,
{
    assert(state.code.chunks@[args.chunk_id as int].code@.len() <= isize::MAX);
    assert(isize::MAX + 256 <= usize::MAX);
    assert(jump_forward_step(state, args).state.frames.drop_last() =~= state.frames.drop_last());
}

/// A forward jump by `k` moves the instruction pointer exactly `k` bytes on
/// from where it is, whatever lies at the target, and changes nothing
/// else, where the target is an address.
pub proof fn jump_forward_advances_by_offset(state: MachineView, args: InstructionPointer, k: u8)
    requires
        byte_at(state.code, args) == Some(k),
        state.frames.len() > 0,
        state.pointer().instruction_pointer + k <= usize::MAX,
    ensures
        jump_forward_step(state, args).fault is None,
        jump_forward_step(state, args).state.pointer().instruction_pointer
            == state.pointer().instruction_pointer + k,
        jump_forward_step(state, args).state.pointer().chunk_id == state.pointer().chunk_id,
        jump_forward_step(state, args).state.operands == state.operands,
        jump_forward_step(state, args).state.frames.len() == state.frames.len(),
        jump_forward_step(state, args).state.frames.drop_last() == state.frames.drop_last(),
{
    assert(jump_forward_step(state, args).state.frames.drop_last() =~= state.frames.drop_last());
}

} // verus!
