//! The runtime's generic types, at the constants and values of this
//! language.

use crate::code::bytecode_constants::JexConstant;
use crate::values::values::JexValue;
use extendable_vm::{ConstantParser, Instruction, InstructionFn, InstructionTable, Machine};
use vstd::prelude::*;

verus! {

/// The machine of this language.
pub type JexMachine<'a> = Machine<'a, JexConstant, JexValue>;

/// The record of an instruction of this language.
pub type JexInstruction = Instruction<JexConstant, JexValue>;

/// The handler of an instruction of this language.
pub type JexInstructionFn = InstructionFn<JexConstant, JexValue>;

/// The table of the instructions of this language.
pub type JexInstructionTable<'a> = InstructionTable<'a, JexConstant, JexValue>;

/// The record of a parser of constants of this language.
pub type JexConstantParser = ConstantParser<JexConstant>;

} // verus!
