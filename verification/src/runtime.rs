//! The machine that runs the programs, as this library sees it.
//!
//! The machine, its operand stack and its call frames belong to
//! `extendable_vm`. The verifier cannot look into a machine, so this module
//! names what a machine holds and states, for each of the machine's
//! operations that the instructions use, what the operation does to it.
//! Those statements are taken from the runtime's source and are not proved.

use crate::code::bytecode_constants::JexConstant;
use crate::instructions::op_codes::JexOpCode;
use crate::text::decimal;
use crate::types::{JexInstruction, JexInstructionFn, JexInstructionTable, JexMachine};
use crate::values::values::JexValue;
use extendable_vm::runtime_exceptions::{EmptyCallStack, EmptyOperandStack, SlotOutOfBounds};
use extendable_vm::{
    ByteReadable, CallFrame, Chunk, Code, Exception, ExceptionType, Instruction, InstructionFn,
    InstructionPointer, InstructionTable, Machine,
};
use std::fmt::Debug;
use vstd::prelude::*;

verus! {

/// The machine. Its stacks are private: the verifier sees none of it.
#[verifier::external_type_specification]
#[verifier::external_body]
#[verifier::reject_recursive_types(Constant)]
#[verifier::reject_recursive_types(Value)]
pub struct ExMachine<'a, Constant, Value: Debug>(Machine<'a, Constant, Value>);

/// The table from operation codes to instructions, which a machine is
/// built with. The verifier sees none of it.
#[verifier::external_type_specification]
#[verifier::external_body]
#[verifier::reject_recursive_types(Constant)]
#[verifier::reject_recursive_types(Value)]
pub struct ExInstructionTable<'a, Constant, Value: Debug>(InstructionTable<'a, Constant, Value>);

/// The handler of an instruction: one of the runtime's four shapes with the
/// function to run. It holds a function pointer, so the verifier sees none
/// of it.
#[verifier::external_type_specification]
#[verifier::external_body]
#[verifier::reject_recursive_types(Constant)]
#[verifier::reject_recursive_types(Value)]
pub struct ExInstructionFn<Constant, Value: Debug>(InstructionFn<Constant, Value>);

/// The record of an instruction: its operation code, its name and its
/// handler, all public.
#[verifier::external_type_specification]
#[verifier::reject_recursive_types(Constant)]
#[verifier::reject_recursive_types(Value)]
pub struct ExInstruction<Constant, Value: Debug>(Instruction<Constant, Value>);

/// A program: its chunks, which are public.
#[verifier::external_type_specification]
pub struct ExCode<Constant>(Code<Constant>);

/// A chunk: its constants and its code, both public.
#[verifier::external_type_specification]
pub struct ExChunk<Constant>(Chunk<Constant>);

/// A place in the code: a chunk and a byte of it, both public.
#[verifier::external_type_specification]
pub struct ExInstructionPointer(InstructionPointer);

/// A call frame, with public fields.
#[verifier::external_type_specification]
pub struct ExCallFrame(CallFrame);

/// A fault: its severity, its name and its message, all public.
#[verifier::external_type_specification]
pub struct ExException(Exception);

/// The severity of a fault: of loading or of running.
#[verifier::external_type_specification]
pub struct ExExceptionType(ExceptionType);

/// The runtime's marker of an empty operand stack.
#[verifier::external_type_specification]
pub struct ExEmptyOperandStack(EmptyOperandStack);

/// The runtime's marker of an empty call stack.
#[verifier::external_type_specification]
pub struct ExEmptyCallStack(EmptyCallStack);

/// The runtime's marker of an operand slot out of bounds.
#[verifier::external_type_specification]
pub struct ExSlotOutOfBounds(SlotOutOfBounds);

/// The operand stack of a machine, bottom first.
pub uninterp spec fn machine_operands(machine: &JexMachine) -> Seq<JexValue>;

/// The call frames of a machine, outermost first.
pub uninterp spec fn machine_frames(machine: &JexMachine) -> Seq<CallFrame>;

/// The program that a machine runs.
pub uninterp spec fn machine_code(machine: &JexMachine) -> Code<JexConstant>;

/// The frames with the instruction pointer of the last one at `pointer`.
pub open spec fn frames_with_pointer(frames: Seq<CallFrame>, pointer: InstructionPointer) -> Seq<
    CallFrame,
>
    recommends
        frames.len() > 0,
{
    frames.update(
        frames.len() - 1,
        CallFrame { instruction_pointer: pointer, ..frames.last() },
    )
}

/// The operands below the slot `start`: all of them where the stack does not
/// reach that slot.
pub open spec fn operands_below<T>(operands: Seq<T>, start: usize) -> Seq<T> {
    if start < operands.len() {
        operands.take(start as int)
    } else {
        operands
    }
}

/// A frame as it is when a call enters it: at the first byte of its chunk.
pub open spec fn entered_frame(chunk_id: usize, name: String, start_slot: usize) -> CallFrame {
    CallFrame {
        chunk_id,
        name,
        instruction_pointer: InstructionPointer { chunk_id, instruction_pointer: 0 },
        start_slot,
    }
}

/// The chunk of a program with the given index, if the program has one.
pub open spec fn chunk_at(code: Code<JexConstant>, chunk_id: usize) -> Option<Chunk<JexConstant>> {
    if chunk_id < code.chunks@.len() {
        Some(code.chunks@[chunk_id as int])
    } else {
        None
    }
}

/// The constant of a program at the given place, if there is one.
pub open spec fn constant_at(code: Code<JexConstant>, chunk_id: usize, constant_id: usize) -> Option<
    JexConstant,
> {
    match chunk_at(code, chunk_id) {
        Some(chunk) => if constant_id < chunk.constants@.len() {
            Some(chunk.constants@[constant_id as int])
        } else {
            None
        },
        None => None,
    }
}

/// The byte of a program that a pointer is at, if the pointer is inside the
/// code of a chunk.
pub open spec fn byte_at(code: Code<JexConstant>, pointer: InstructionPointer) -> Option<u8> {
    match chunk_at(code, pointer.chunk_id) {
        Some(chunk) => if pointer.instruction_pointer < chunk.code@.len() {
            Some(chunk.code@[pointer.instruction_pointer as int])
        } else {
            None
        },
        None => None,
    }
}

/// What a fault tells: its severity, its name and its message.
pub struct Fault {
    pub severity: ExceptionType,
    pub name: Seq<char>,
    pub message: Seq<char>,
}

/// What the given fault tells.
pub open spec fn fault_of(exception: Exception) -> Fault {
    Fault {
        severity: exception.exception_type,
        name: exception.name@,
        message: exception.message@,
    }
}

/// The fault of a pop or peek on an empty operand stack.
pub open spec fn empty_operand_stack_fault() -> Fault {
    Fault {
        severity: ExceptionType::Runtime,
        name: "EmptyOperandStack"@,
        message: "Operand stack was empty"@,
    }
}

/// The fault of an operation that needs a call frame when there is none.
pub open spec fn empty_call_stack_fault() -> Fault {
    Fault { severity: ExceptionType::Runtime, name: "EmptyCallStack"@, message: ""@ }
}

/// The fault of a read of an operand slot that the stack does not have.
pub open spec fn slot_out_of_bounds_fault() -> Fault {
    Fault {
        severity: ExceptionType::Runtime,
        name: "SlotOutOfBounds"@,
        message: "Stack slot is out of bounds"@,
    }
}

/// The fault of a read of a constant that the program does not have.
pub open spec fn constant_not_found_fault(chunk_id: usize, constant_id: usize) -> Fault {
    Fault {
        severity: ExceptionType::Runtime,
        name: "ConstantNotFound"@,
        message: "#"@ + decimal(chunk_id as nat) + "@"@ + decimal(constant_id as nat),
    }
}

/// The number of argument bytes that a handler declares: what
/// `InstructionFn::byte_arity` returns for it. It is the declared number for
/// a raw handler and zero for the other shapes.
pub uninterp spec fn handler_byte_arity(handler: &JexInstructionFn) -> usize;

/// The instruction whose function a handler holds. Each handler of this
/// library is built by the one constructor that stores the function of one
/// instruction, and that constructor says which.
pub uninterp spec fn handler_operation(handler: &JexInstructionFn) -> JexOpCode;

/// What a table holds: the instruction registered under each operation
/// code.
pub uninterp spec fn table_instructions(table: &JexInstructionTable) -> Map<u8, JexInstruction>;

/// What the table of a machine holds: the instruction that the machine runs
/// for each operation code.
pub uninterp spec fn machine_table(machine: &JexMachine) -> Map<u8, JexInstruction>;

/// The global values of a machine, by name: what its field `globals`
/// holds. The machine's own operations leave them alone.
pub uninterp spec fn machine_globals(machine: &JexMachine) -> Map<Seq<char>, JexValue>;

/// The global values of a machine that has none.
pub open spec fn no_globals() -> Map<Seq<char>, JexValue> {
    Map::empty()
}

/// Whether a table holds the given instructions, each under its operation
/// code, and nothing else.
pub open spec fn is_table_of(
    table: Map<u8, JexInstruction>,
    instructions: Seq<&JexInstruction>,
) -> bool {
    &&& forall|i: int|
        0 <= i < instructions.len() ==> table.contains_pair(
            (#[trigger] instructions[i]).op_code,
            *instructions[i],
        )
    &&& forall|code: u8| #[trigger]
        table.dom().contains(code) ==> exists|i: int|
            0 <= i < instructions.len() && (#[trigger] instructions[i]).op_code == code
}

/// Whether no two of the instructions share an operation code.
pub open spec fn distinct_op_codes(instructions: Seq<&JexInstruction>) -> bool {
    forall|i: int, j: int|
        0 <= i < j < instructions.len() ==> instructions[i].op_code != instructions[j].op_code
}

/// `InstructionTable::instructions`: the table of the given instructions,
/// each registered under its operation code. It panics where two of them
/// have the same operation code.
#[verifier::external_body]
pub(crate) fn instruction_table<'a>(instructions: &'a [&'a JexInstruction]) -> (table:
    JexInstructionTable<'a>)
    requires
        distinct_op_codes(instructions@),
    ensures
        is_table_of(table_instructions(&table), instructions@),
{
    InstructionTable::instructions(instructions)
}

/// `Machine::new`: a machine for the program with the given table, without
/// operands, without frames and without global values.
#[verifier::external_body]
pub(crate) fn new_machine<'a>(
    code: &'a Code<JexConstant>,
    table: JexInstructionTable<'a>,
) -> (machine: JexMachine<'a>)
    ensures
        machine_code(&machine) == *code,
        machine_table(&machine) == table_instructions(&table),
        machine_globals(&machine) == no_globals(),
        machine_operands(&machine) == Seq::<JexValue>::empty(),
        machine_frames(&machine) == Seq::<CallFrame>::empty(),
{
    Machine::new(code, table)
}

/// The field `code` of a machine: the program it runs.
#[verifier::external_body]
pub(crate) fn code_of<'a>(machine: &JexMachine<'a>) -> (code: &'a Code<JexConstant>)
    ensures
        *code == machine_code(machine),
{
    machine.code
}

/// `Code::get_chunk`: the chunk with the given index, or nothing where the
/// program has no such chunk.
#[verifier::external_body]
pub(crate) fn get_chunk<'c>(code: &'c Code<JexConstant>, chunk_id: usize) -> (chunk: Option<
    &'c Chunk<JexConstant>,
>)
    ensures
        match chunk {
            Some(found) => chunk_at(*code, chunk_id) == Some(*found),
            None => chunk_at(*code, chunk_id) is None,
        },
{
    code.get_chunk(chunk_id)
}

/// `Code::get_constant`: the constant at the given place, or the fault
/// `ConstantNotFound` with the two indices where there is none.
#[verifier::external_body]
pub(crate) fn get_constant<'c>(
    code: &'c Code<JexConstant>,
    chunk_id: usize,
    constant_id: usize,
) -> (constant: Result<&'c JexConstant, Exception>)
    ensures
        match constant {
            Ok(found) => constant_at(*code, chunk_id, constant_id) == Some(*found),
            Err(exception) => constant_at(*code, chunk_id, constant_id) is None && fault_of(
                exception,
            ) == constant_not_found_fault(chunk_id, constant_id),
        },
{
    code.get_constant(chunk_id, constant_id)
}

/// `ByteReadable::read` of a machine: the byte of the program at the
/// pointer, which then moves one byte on; nothing, with the pointer left
/// where it is, where the pointer is outside the code of a chunk. The code
/// of a chunk is a vector of bytes, and no vector holds more than
/// `isize::MAX` bytes, so a byte is read below that index only.
#[verifier::external_body]
pub(crate) fn read_byte(machine: &JexMachine, pointer: &mut InstructionPointer) -> (byte: Option<u8>)
    ensures
        byte == byte_at(machine_code(machine), *old(pointer)),
        byte is Some ==> old(pointer).instruction_pointer < isize::MAX,
        final(pointer).chunk_id == old(pointer).chunk_id,
        final(pointer).instruction_pointer == old(pointer).instruction_pointer + (if byte is Some {
            1int
        } else {
            0int
        }),
{
    machine.read(pointer)
}

/// `Machine::push_operand`: the operand goes on top of the stack.
#[verifier::external_body]
pub(crate) fn push_operand(machine: &mut JexMachine, operand: JexValue)
    ensures
        machine_operands(final(machine)) == machine_operands(old(machine)).push(operand),
        machine_frames(final(machine)) == machine_frames(old(machine)),
        machine_code(final(machine)) == machine_code(old(machine)),
        machine_table(final(machine)) == machine_table(old(machine)),
        machine_globals(final(machine)) == machine_globals(old(machine)),
{
    machine.push_operand(operand)
}

/// `Machine::peek_operand`: the operand on top of the stack, which stays
/// there; `EmptyOperandStack` where the stack is empty.
#[verifier::external_body]
pub(crate) fn peek_operand<'m>(machine: &'m mut JexMachine) -> (top: Result<
    &'m JexValue,
    EmptyOperandStack,
>)
    ensures
        machine_operands(final(machine)) == machine_operands(old(machine)),
        machine_frames(final(machine)) == machine_frames(old(machine)),
        machine_code(final(machine)) == machine_code(old(machine)),
        machine_table(final(machine)) == machine_table(old(machine)),
        machine_globals(final(machine)) == machine_globals(old(machine)),
        match top {
            Ok(operand) => machine_operands(old(machine)).len() > 0 && *operand
                == machine_operands(old(machine)).last(),
            Err(_) => machine_operands(old(machine)).len() == 0,
        },
{
    machine.peek_operand()
}

/// `Machine::pop_operand`: takes the operand on top off the stack;
/// `EmptyOperandStack`, and no change, where the stack is empty.
#[verifier::external_body]
pub(crate) fn pop_operand(machine: &mut JexMachine) -> (top: Result<JexValue, EmptyOperandStack>)
    ensures
        machine_frames(final(machine)) == machine_frames(old(machine)),
        machine_code(final(machine)) == machine_code(old(machine)),
        machine_table(final(machine)) == machine_table(old(machine)),
        machine_globals(final(machine)) == machine_globals(old(machine)),
        match top {
            Ok(operand) => {
                &&& machine_operands(old(machine)).len() > 0
                &&& operand == machine_operands(old(machine)).last()
                &&& machine_operands(final(machine)) == machine_operands(old(machine)).drop_last()
            },
            Err(_) => {
                &&& machine_operands(old(machine)).len() == 0
                &&& machine_operands(final(machine)) == machine_operands(old(machine))
            },
        },
{
    machine.pop_operand()
}

/// `Machine::get_operand_from_top`: the operand that lies `depth` slots
/// below the top; `SlotOutOfBounds` where the stack is not that deep.
#[verifier::external_body]
pub(crate) fn get_operand_from_top<'m>(machine: &'m JexMachine, depth: usize) -> (operand: Result<
    &'m JexValue,
    SlotOutOfBounds,
>)
    ensures
        match operand {
            Ok(found) => {
                &&& depth < machine_operands(machine).len()
                &&& *found == machine_operands(machine)[machine_operands(machine).len() - 1
                    - depth]
            },
            Err(_) => depth >= machine_operands(machine).len(),
        },
{
    machine.get_operand_from_top(depth)
}

/// `Machine::operand_stack_len`: the number of operands on the stack.
#[verifier::external_body]
pub(crate) fn operand_stack_len(machine: &JexMachine) -> (len: usize)
    ensures
        len == machine_operands(machine).len(),
{
    machine.operand_stack_len()
}

/// `Machine::push_frame`: a frame for a call of the chunk becomes the
/// current frame, at the first byte of the chunk.
#[verifier::external_body]
pub(crate) fn push_frame(machine: &mut JexMachine, chunk_id: usize, name: String, start_slot: usize)
    ensures
        machine_frames(final(machine)) == machine_frames(old(machine)).push(
            entered_frame(chunk_id, name, start_slot),
        ),
        machine_operands(final(machine)) == machine_operands(old(machine)),
        machine_code(final(machine)) == machine_code(old(machine)),
        machine_table(final(machine)) == machine_table(old(machine)),
        machine_globals(final(machine)) == machine_globals(old(machine)),
{
    machine.push_frame(chunk_id, name, start_slot)
}

/// `Machine::discard_frame`: the current frame leaves the machine, and with
/// it the operands from its first slot on; `EmptyCallStack`, and no change,
/// where there is no frame.
#[verifier::external_body]
pub(crate) fn discard_frame(machine: &mut JexMachine) -> (discarded: Result<
    CallFrame,
    EmptyCallStack,
>)
    ensures
        machine_code(final(machine)) == machine_code(old(machine)),
        machine_table(final(machine)) == machine_table(old(machine)),
        machine_globals(final(machine)) == machine_globals(old(machine)),
        match discarded {
            Ok(frame) => {
                &&& machine_frames(old(machine)).len() > 0
                &&& frame == machine_frames(old(machine)).last()
                &&& machine_frames(final(machine)) == machine_frames(old(machine)).drop_last()
                &&& machine_operands(final(machine)) == operands_below(
                    machine_operands(old(machine)),
                    frame.start_slot,
                )
            },
            Err(_) => {
                &&& machine_frames(old(machine)).len() == 0
                &&& machine_frames(final(machine)) == machine_frames(old(machine))
                &&& machine_operands(final(machine)) == machine_operands(old(machine))
            },
        },
{
    machine.discard_frame()
}

/// `Machine::instruction_pointer`: the instruction pointer of the current
/// frame, to be moved in place; `EmptyCallStack` where there is no frame.
/// Nothing else of the machine changes.
#[verifier::external_body]
pub(crate) fn instruction_pointer<'m>(machine: &'m mut JexMachine) -> (pointer: Result<
    &'m mut InstructionPointer,
    EmptyCallStack,
>)
    ensures
        machine_operands(final(machine)) == machine_operands(old(machine)),
        machine_code(final(machine)) == machine_code(old(machine)),
        machine_table(final(machine)) == machine_table(old(machine)),
        machine_globals(final(machine)) == machine_globals(old(machine)),
        match pointer {
            Ok(current) => {
                &&& machine_frames(old(machine)).len() > 0
                &&& *current == machine_frames(old(machine)).last().instruction_pointer
                &&& machine_frames(final(machine)) == frames_with_pointer(
                    machine_frames(old(machine)),
                    *final(current),
                )
            },
            Err(_) => {
                &&& machine_frames(old(machine)).len() == 0
                &&& machine_frames(final(machine)) == machine_frames(old(machine))
            },
        },
{
    machine.instruction_pointer()
}

/// `InstructionPointer::jump_forward` adds the offset to the pointer. It
/// overflows where the sum does not fit.
pub assume_specification[ InstructionPointer::jump_forward ](
    pointer: &mut InstructionPointer,
    offset: usize,
)
    requires
        old(pointer).instruction_pointer + offset <= usize::MAX,
    ensures
        final(pointer).chunk_id == old(pointer).chunk_id,
        final(pointer).instruction_pointer == old(pointer).instruction_pointer + offset,
;

/// `InstructionPointer::jump_backward` takes the offset from the pointer. It
/// panics where the offset is larger than the pointer.
pub assume_specification[ InstructionPointer::jump_backward ](
    pointer: &mut InstructionPointer,
    offset: usize,
)
    requires
        offset <= old(pointer).instruction_pointer,
    ensures
        final(pointer).chunk_id == old(pointer).chunk_id,
        final(pointer).instruction_pointer == old(pointer).instruction_pointer - offset,
;

/// `Exception::from` of `EmptyOperandStack`.
#[verifier::external_body]
pub(crate) fn empty_operand_stack(fault: EmptyOperandStack) -> (exception: Exception)
    ensures
        fault_of(exception) == empty_operand_stack_fault(),
{
    Exception::from(fault)
}

/// `Exception::from` of `EmptyCallStack`.
#[verifier::external_body]
pub(crate) fn empty_call_stack(fault: EmptyCallStack) -> (exception: Exception)
    ensures
        fault_of(exception) == empty_call_stack_fault(),
{
    Exception::from(fault)
}

/// `Exception::from` of `SlotOutOfBounds`.
#[verifier::external_body]
pub(crate) fn slot_out_of_bounds(fault: SlotOutOfBounds) -> (exception: Exception)
    ensures
        fault_of(exception) == slot_out_of_bounds_fault(),
{
    Exception::from(fault)
}

} // verus!
