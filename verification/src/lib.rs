//! A stack machine for compiled Jex programs.
//!
//! The machine itself, with its operand stack, its call frames and its
//! fetch and dispatch loop, is that of `extendable_vm`. This library gives
//! it the language: the values, the constants and their parsers, the
//! instructions and the faults.

use crate::code::bytecode_constants::JexConstant;
use crate::runtime::{distinct_op_codes, instruction_table, is_table_of, new_machine};
use crate::state::{enter_frame, entered, push, view_of, MachineView};
use crate::types::{JexInstruction, JexMachine};
use crate::values::values::{FunctionView, JexFunction, JexValue, ValueView};
use extendable_vm::Code;
use vstd::prelude::*;
use vstd::string::StringExecFns;

pub mod code;
pub mod exceptions;
pub mod instructions;
pub mod runtime;
pub mod state;
pub mod text;
pub mod types;
pub mod values;

verus! {

/// Whether a state is that of a machine before it runs: it holds the
/// program and a table of the instructions, the script is the one operand,
/// the one frame is that of the script, at the first byte of the first
/// chunk and with the script in its first slot, and there are no global
/// values.
pub open spec fn is_initial_state(
    state: MachineView,
    code: Code<JexConstant>,
    instructions: Seq<&JexInstruction>,
) -> bool {
    &&& state.code == code
    &&& is_table_of(state.table, instructions)
    &&& state.operands == seq![ValueView::Function(FunctionView::Script)]
    &&& state.frames == seq![entered(0, "<script>"@, 0)]
    &&& state.globals == Map::<Seq<char>, ValueView>::empty()
}

/// A machine that is ready to run the program with the given instructions,
/// each under its operation code. No two of the instructions may share an
/// operation code.
pub fn build_jex_machine<'a>(
    code: &'a Code<JexConstant>,
    instructions: &'a [&'a JexInstruction],
) -> (machine: JexMachine<'a>)
    requires
        distinct_op_codes(instructions@),
    ensures
        is_initial_state(view_of(&machine), *code, instructions@),
{
    let table = instruction_table(instructions);
    let mut machine = new_machine(code, table);
    push(&mut machine, JexValue::Function(JexFunction::Script));
    enter_frame(&mut machine, 0, String::from_str("<script>"), 0);
    assert(view_of(&machine).operands =~= seq![ValueView::Function(FunctionView::Script)]);
    assert(view_of(&machine).frames =~= seq![entered(0, "<script>"@, 0)]);
    assert(view_of(&machine).globals =~= Map::<Seq<char>, ValueView>::empty());
    machine
}

} // verus!
