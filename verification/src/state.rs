//! The state of a machine as the instructions see it, and the machine's
//! operations in terms of that state.

use crate::code::bytecode_constants::JexConstant;
use crate::exceptions::runtime_exceptions::ExpectedInstructionArgument;
use crate::runtime::{
    byte_at, discard_frame, empty_call_stack, empty_call_stack_fault, empty_operand_stack,
    empty_operand_stack_fault, fault_of, get_operand_from_top, machine_code, machine_frames,
    machine_globals, machine_operands, machine_table, operands_below, peek_operand, pop_operand,
    push_frame, push_operand, read_byte, slot_out_of_bounds, slot_out_of_bounds_fault, Fault,
};
use crate::types::{JexInstruction, JexMachine};
use crate::values::values::{JexValue, ValueView};
use extendable_vm::{CallFrame, Code, Exception, InstructionPointer};
use vstd::prelude::*;

verus! {

/// What a call frame is: the chunk it runs, the name it is shown under, the
/// place of the next byte to read, and the slot of the operand stack at
/// which the frame begins.
pub struct FrameView {
    pub chunk_id: usize,
    pub name: Seq<char>,
    pub pointer: InstructionPointer,
    pub start_slot: usize,
}

/// What a machine holds: the program, the table of the instructions that it
/// runs, the operand stack, bottom first, the call frames, outermost first,
/// and the global values by name. No instruction of this language changes
/// the program, the table or the global values.
pub struct MachineView {
    pub code: Code<JexConstant>,
    pub table: Map<u8, JexInstruction>,
    pub operands: Seq<ValueView>,
    pub frames: Seq<FrameView>,
    pub globals: Map<Seq<char>, ValueView>,
}

/// What a frame of the runtime is.
pub open spec fn frame_view(frame: CallFrame) -> FrameView {
    FrameView {
        chunk_id: frame.chunk_id,
        name: frame.name@,
        pointer: frame.instruction_pointer,
        start_slot: frame.start_slot,
    }
}

/// What the operands are, slot by slot.
pub open spec fn views(operands: Seq<JexValue>) -> Seq<ValueView> {
    operands.map_values(|operand: JexValue| operand@)
}

/// What the frames are, frame by frame.
pub open spec fn frame_views(frames: Seq<CallFrame>) -> Seq<FrameView> {
    frames.map_values(|frame: CallFrame| frame_view(frame))
}

/// What the instructions read and change of the given machine.
pub open spec fn view_of(machine: &JexMachine) -> MachineView {
    MachineView {
        code: machine_code(machine),
        table: machine_table(machine),
        operands: views(machine_operands(machine)),
        frames: frame_views(machine_frames(machine)),
        globals: machine_globals(machine).map_values(|global: JexValue| global@),
    }
}

/// A frame as it is when a call enters it: at the first byte of its chunk.
pub open spec fn entered(chunk_id: usize, name: Seq<char>, start_slot: usize) -> FrameView {
    FrameView {
        chunk_id,
        name,
        pointer: InstructionPointer { chunk_id, instruction_pointer: 0 },
        start_slot,
    }
}

impl MachineView {
    /// The operand on top of the stack.
    pub open spec fn top(self) -> ValueView
        recommends
            self.operands.len() > 0,
    {
        self.operands.last()
    }

    /// The operand that lies `depth` slots below the top.
    pub open spec fn from_top(self, depth: int) -> ValueView
        recommends
            0 <= depth < self.operands.len(),
    {
        self.operands[self.operands.len() - 1 - depth]
    }

    /// This state with `operand` pushed.
    pub open spec fn pushed(self, operand: ValueView) -> MachineView {
        MachineView { operands: self.operands.push(operand), ..self }
    }

    /// This state with the top operand popped.
    pub open spec fn popped(self) -> MachineView
        recommends
            self.operands.len() > 0,
    {
        MachineView { operands: self.operands.drop_last(), ..self }
    }

    /// This state with `frame` as the new current frame.
    pub open spec fn called(self, frame: FrameView) -> MachineView {
        MachineView { frames: self.frames.push(frame), ..self }
    }

    /// This state after the current frame was discarded: the operands from
    /// the frame's first slot on leave the stack with it.
    pub open spec fn returned(self) -> MachineView
        recommends
            self.frames.len() > 0,
    {
        MachineView {
            operands: operands_below(self.operands, self.frames.last().start_slot),
            frames: self.frames.drop_last(),
            ..self
        }
    }

    /// The place of the next byte that the current frame reads.
    pub open spec fn pointer(self) -> InstructionPointer
        recommends
            self.frames.len() > 0,
    {
        self.frames.last().pointer
    }

    /// This state with the current frame's instruction pointer moved to the
    /// byte `target` of its chunk.
    pub open spec fn moved_to(self, target: int) -> MachineView
        recommends
            self.frames.len() > 0,
            0 <= target <= usize::MAX,
    {
        MachineView {
            frames: self.frames.update(
                self.frames.len() - 1,
                FrameView {
                    pointer: InstructionPointer {
                        chunk_id: self.pointer().chunk_id,
                        instruction_pointer: target as usize,
                    },
                    ..self.frames.last()
                },
            ),
            ..self
        }
    }
}

/// What an instruction does: the state it leaves, and the fault it stops
/// with, if it stops with one.
pub struct Step {
    pub state: MachineView,
    pub fault: Option<Fault>,
}

/// The step of an instruction that ran and left `state`.
pub open spec fn done(state: MachineView) -> Step {
    Step { state, fault: None }
}

/// The step of an instruction that left `state` and stopped with `fault`.
pub open spec fn failed(state: MachineView, fault: Fault) -> Step {
    Step { state, fault: Some(fault) }
}

/// Whether an instruction that answered `answer` and left `after` made the
/// step `step`.
pub open spec fn is_step(answer: Result<(), Exception>, after: MachineView, step: Step) -> bool {
    &&& after == step.state
    &&& match answer {
        Ok(_) => step.fault is None,
        Err(exception) => step.fault == Some(fault_of(exception)),
    }
}

/// The argument byte of an instruction at `pointer`, which moves behind the
/// byte; the fault of a missing argument where the code ends before it.
pub(crate) fn next_argument(machine: &JexMachine, pointer: &mut InstructionPointer) -> (argument:
    Result<u8, Exception>)
    ensures
        match argument {
            Ok(byte) => {
                &&& byte_at(machine_code(machine), *old(pointer)) == Some(byte)
                &&& old(pointer).instruction_pointer < isize::MAX
                &&& final(pointer).instruction_pointer == old(pointer).instruction_pointer + 1
            },
            Err(exception) => {
                &&& byte_at(machine_code(machine), *old(pointer)) is None
                &&& fault_of(exception) == ExpectedInstructionArgument.fault()
                &&& final(pointer).instruction_pointer == old(pointer).instruction_pointer
            },
        },
        final(pointer).chunk_id == old(pointer).chunk_id,
{
    match read_byte(machine, pointer) {
        Some(byte) => Ok(byte),
        None => Err(Exception::from(ExpectedInstructionArgument)),
    }
}

/// Pushes an operand.
pub(crate) fn push(machine: &mut JexMachine, operand: JexValue)
    ensures
        view_of(final(machine)) == view_of(old(machine)).pushed(operand@),
        machine_operands(final(machine)) == machine_operands(old(machine)).push(operand),
{
    push_operand(machine, operand);
    assert(views(machine_operands(machine)) =~= views(machine_operands(old(machine))).push(
        operand@,
    ));
}

/// Pops the top operand; the fault of an empty stack, and no change, where
/// there is none.
pub(crate) fn pop(machine: &mut JexMachine) -> (top: Result<JexValue, Exception>)
    ensures
        match top {
            Ok(operand) => {
                &&& view_of(old(machine)).operands.len() > 0
                &&& operand == machine_operands(old(machine)).last()
                &&& operand@ == view_of(old(machine)).top()
                &&& view_of(final(machine)) == view_of(old(machine)).popped()
            },
            Err(exception) => {
                &&& view_of(old(machine)).operands.len() == 0
                &&& view_of(final(machine)) == view_of(old(machine))
                &&& fault_of(exception) == empty_operand_stack_fault()
            },
        },
{
    match pop_operand(machine) {
        Ok(operand) => {
            assert(views(machine_operands(machine)) =~= views(
                machine_operands(old(machine)),
            ).drop_last());
            Ok(operand)
        },
        Err(fault) => Err(empty_operand_stack(fault)),
    }
}

/// The top operand, which stays on the stack; the fault of an empty stack
/// where there is none.
pub(crate) fn peek<'m>(machine: &'m mut JexMachine) -> (top: Result<&'m JexValue, Exception>)
    ensures
        view_of(final(machine)) == view_of(old(machine)),
        machine_operands(final(machine)) == machine_operands(old(machine)),
        match top {
            Ok(operand) => {
                &&& view_of(old(machine)).operands.len() > 0
                &&& *operand == machine_operands(old(machine)).last()
                &&& operand@ == view_of(old(machine)).top()
            },
            Err(exception) => {
                &&& view_of(old(machine)).operands.len() == 0
                &&& fault_of(exception) == empty_operand_stack_fault()
            },
        },
{
    match peek_operand(machine) {
        Ok(operand) => Ok(operand),
        Err(fault) => Err(empty_operand_stack(fault)),
    }
}

/// The operand that lies `depth` slots below the top; the fault of a slot
/// out of bounds where the stack is not that deep.
pub(crate) fn operand_from_top<'m>(machine: &'m JexMachine, depth: usize) -> (operand: Result<
    &'m JexValue,
    Exception,
>)
    ensures
        match operand {
            Ok(found) => depth < view_of(machine).operands.len() && found@ == view_of(
                machine,
            ).from_top(depth as int),
            Err(exception) => depth >= view_of(machine).operands.len() && fault_of(exception)
                == slot_out_of_bounds_fault(),
        },
{
    match get_operand_from_top(machine, depth) {
        Ok(found) => Ok(found),
        Err(fault) => Err(slot_out_of_bounds(fault)),
    }
}

/// Enters a frame for a call of the chunk.
pub(crate) fn enter_frame(machine: &mut JexMachine, chunk_id: usize, name: String, start_slot: usize)
    ensures
        view_of(final(machine)) == view_of(old(machine)).called(
            entered(chunk_id, name@, start_slot),
        ),
{
    push_frame(machine, chunk_id, name, start_slot);
    assert(frame_views(machine_frames(machine)) =~= frame_views(
        machine_frames(old(machine)),
    ).push(entered(chunk_id, name@, start_slot)));
}

/// Discards the current frame; the fault of an empty call stack, and no
/// change, where there is none.
pub(crate) fn leave_frame(machine: &mut JexMachine) -> (answer: Result<(), Exception>)
    ensures
        match answer {
            Ok(_) => {
                &&& view_of(old(machine)).frames.len() > 0
                &&& view_of(final(machine)) == view_of(old(machine)).returned()
            },
            Err(exception) => {
                &&& view_of(old(machine)).frames.len() == 0
                &&& view_of(final(machine)) == view_of(old(machine))
                &&& fault_of(exception) == empty_call_stack_fault()
            },
        },
{
    match discard_frame(machine) {
        Ok(frame) => {
            assert(frame_views(machine_frames(machine)) =~= frame_views(
                machine_frames(old(machine)),
            ).drop_last());
            assert(views(machine_operands(machine)) =~= operands_below(
                views(machine_operands(old(machine))),
                frame.start_slot,
            ));
            Ok(())
        },
        Err(fault) => Err(empty_call_stack(fault)),
    }
}

} // verus!
