//! The instruction records that the machine's table is built from.

use crate::instructions::jumps::{
    call_handler, jump_backward_handler, jump_forward_handler, jump_forward_if_false_handler,
    return_handler,
};
use crate::instructions::literal::constant_handler;
use crate::instructions::objects::{get_field_handler, new_instance_handler, set_field_handler};
use crate::instructions::op_codes::{JexOpCode, OP_CODE_COUNT};
use crate::instructions::operators::{
    add_handler, divide_handler, equal_handler, false_handler, greater_handler, less_handler,
    multiply_handler, negate_handler, not_handler, null_handler, parse_int_handler,
    read_line_handler, subtract_handler, to_string_handler, true_handler,
};
use crate::instructions::side_effects::print_handler;
use crate::runtime::{distinct_op_codes, handler_byte_arity, handler_operation, is_table_of};
use crate::types::JexInstruction;
use extendable_vm::Instruction;
use vstd::prelude::*;

verus! {

/// Whether a record is that of the given instruction: it has the
/// instruction's operation code and name, and its handler takes the
/// instruction's number of argument bytes and holds the instruction's
/// function.
pub open spec fn describes(instruction: JexInstruction, op_code: JexOpCode) -> bool {
    &&& instruction.op_code == op_code.spec_code()
    &&& instruction.name@ == op_code.spec_name()
    &&& handler_byte_arity(&instruction.instruction_fn) == op_code.spec_byte_arity()
    &&& handler_operation(&instruction.instruction_fn) == op_code
}

/// The record of an instruction.
pub fn instruction(op_code: JexOpCode) -> (instruction: JexInstruction)
    ensures
        describes(instruction, op_code),
{
    let byte_arity = op_code.byte_arity();
    let instruction_fn = match op_code {
        JexOpCode::Constant => constant_handler(byte_arity),
        JexOpCode::Null => null_handler(),
        JexOpCode::True => true_handler(),
        JexOpCode::False => false_handler(),
        JexOpCode::Negate => negate_handler(),
        JexOpCode::Add => add_handler(),
        JexOpCode::Subtract => subtract_handler(),
        JexOpCode::Multiply => multiply_handler(),
        JexOpCode::Divide => divide_handler(),
        JexOpCode::Equal => equal_handler(),
        JexOpCode::Greater => greater_handler(),
        JexOpCode::Less => less_handler(),
        JexOpCode::Not => not_handler(),
        JexOpCode::ToString => to_string_handler(),
        JexOpCode::ParseInt => parse_int_handler(),
        JexOpCode::JumpForward => jump_forward_handler(byte_arity),
        JexOpCode::JumpForwardIfFalse => jump_forward_if_false_handler(byte_arity),
        JexOpCode::JumpBackward => jump_backward_handler(byte_arity),
        JexOpCode::Call => call_handler(byte_arity),
        JexOpCode::Return => return_handler(byte_arity),
        JexOpCode::NewInstance => new_instance_handler(),
        JexOpCode::GetField => get_field_handler(byte_arity),
        JexOpCode::SetField => set_field_handler(byte_arity),
        JexOpCode::Print => print_handler(),
        JexOpCode::ReadLine => read_line_handler(byte_arity),
    };
    Instruction { op_code: op_code.code(), name: op_code.name(), instruction_fn }
}

/// Whether a list holds the record of every instruction, each at the place
/// of its operation code.
pub open spec fn is_instruction_set(instructions: Seq<JexInstruction>) -> bool {
    &&& instructions.len() == OP_CODE_COUNT
    &&& forall|code: int|
        0 <= code < OP_CODE_COUNT ==> describes(#[trigger] instructions[code], op_code_at(code))
}

/// The instructions of the language, in the order of their operation
/// codes.
pub fn jex_instructions() -> (instructions: Vec<JexInstruction>)
    ensures
        is_instruction_set(instructions@),
{
    let mut instructions: Vec<JexInstruction> = Vec::new();
    let mut code: u8 = 0;
    while code < OP_CODE_COUNT
        invariant
            code <= OP_CODE_COUNT,
            instructions@.len() == code,
            forall|place: int|
                0 <= place < code ==> describes(#[trigger] instructions@[place], op_code_at(place)),
        decreases OP_CODE_COUNT - code,
    {
        match JexOpCode::from_code(code) {
            Some(op_code) => {
                assert(op_code == op_code_at(code as int));
                instructions.push(instruction(op_code));
            },
            None => {
                assert(false);
            },
        }
        code = code + 1;
    }
    instructions
}

/// A table of an instruction set holds, under the operation code of each
/// instruction, the record of that instruction, and holds nothing under a
/// byte that is no operation code.
pub proof fn table_of_instruction_set(
    table: Map<u8, JexInstruction>,
    instructions: Seq<&JexInstruction>,
)
    requires
        is_table_of(table, instructions),
        is_instruction_set(instructions.map_values(|record: &JexInstruction| *record)),
    ensures
        forall|op_code: JexOpCode|
            table.dom().contains(#[trigger] op_code.spec_code()) && describes(
                table[op_code.spec_code()],
                op_code,
            ),
        forall|code: u8| code >= OP_CODE_COUNT ==> !table.dom().contains(code),
{
    let records = instructions.map_values(|record: &JexInstruction| *record);
    instruction_set_is_distinct(records);
    assert forall|op_code: JexOpCode|
        table.dom().contains(#[trigger] op_code.spec_code()) && describes(
            table[op_code.spec_code()],
            op_code,
        ) by {
        let place = op_code.spec_code() as int;
        assert(op_code_at(place) == op_code);
        assert(describes(records[place], op_code));
        assert(*instructions[place] == records[place]);
        assert(table.contains_pair(instructions[place].op_code, *instructions[place]));
    }
    assert forall|code: u8| code >= OP_CODE_COUNT implies !table.dom().contains(code) by {
        if table.dom().contains(code) {
            let i = choose|i: int|
                0 <= i < instructions.len() && (#[trigger] instructions[i]).op_code == code;
            assert(records[i].op_code == i);
        }
    }
}

/// An instruction set has no two instructions with one operation code.
pub proof fn instruction_set_is_distinct(instructions: Seq<JexInstruction>)
    requires
        is_instruction_set(instructions),
    ensures
        forall|i: int, j: int|
            0 <= i < j < instructions.len() ==> instructions[i].op_code != instructions[j].op_code,
        forall|i: int| 0 <= i < instructions.len() ==> (#[trigger] instructions[i]).op_code == i,
{
    assert forall|i: int| 0 <= i < instructions.len() implies (#[trigger] instructions[i]).op_code
        == i by {
        assert(describes(instructions[i], op_code_at(i)));
    }
}

/// The instruction with the given operation code: the one whose code it
/// is.
pub proof fn op_code_at_is_the_inverse(op_code: JexOpCode)
    ensures
        op_code_at(op_code.spec_code() as int) == op_code,
{
}

/// The instruction with the given operation code.
pub open spec fn op_code_at(code: int) -> JexOpCode
    recommends
        0 <= code < OP_CODE_COUNT,
{
    if code == 0 {
        JexOpCode::Constant
    } else if code == 1 {
        JexOpCode::Null
    } else if code == 2 {
        JexOpCode::True
    } else if code == 3 {
        JexOpCode::False
    } else if code == 4 {
        JexOpCode::Negate
    } else if code == 5 {
        JexOpCode::Add
    } else if code == 6 {
        JexOpCode::Subtract
    } else if code == 7 {
        JexOpCode::Multiply
    } else if code == 8 {
        JexOpCode::Divide
    } else if code == 9 {
        JexOpCode::Equal
    } else if code == 10 {
        JexOpCode::Print
    } else if code == 11 {
        JexOpCode::Greater
    } else if code == 12 {
        JexOpCode::Less
    } else if code == 13 {
        JexOpCode::Not
    } else if code == 14 {
        JexOpCode::ToString
    } else if code == 15 {
        JexOpCode::ParseInt
    } else if code == 16 {
        JexOpCode::JumpForward
    } else if code == 17 {
        JexOpCode::JumpForwardIfFalse
    } else if code == 18 {
        JexOpCode::JumpBackward
    } else if code == 19 {
        JexOpCode::Call
    } else if code == 20 {
        JexOpCode::Return
    } else if code == 21 {
        JexOpCode::NewInstance
    } else if code == 22 {
        JexOpCode::GetField
    } else if code == 23 {
        JexOpCode::SetField
    } else {
        JexOpCode::ReadLine
    }
}

/// Whether no two of the instructions share an operation code, as a table
/// of them needs it.
pub fn has_distinct_op_codes(instructions: &[&JexInstruction]) -> (distinct: bool)
    ensures
        distinct == distinct_op_codes(instructions@),
{
    let mut i: usize = 0;
    while i < instructions.len()
        invariant
            i <= instructions@.len(),
            forall|a: int, b: int|
                0 <= a < b < instructions@.len() && a < i ==> instructions@[a].op_code
                    != instructions@[b].op_code,
        decreases instructions@.len() - i,
    {
        let mut j: usize = i + 1;
        while j < instructions.len()
            invariant
                i < j <= instructions@.len(),
                forall|b: int|
                    i < b < j ==> instructions@[i as int].op_code != instructions@[b].op_code,
            decreases instructions@.len() - j,
        {
            if instructions[i].op_code == instructions[j].op_code {
                return false;
            }
            j = j + 1;
        }
        i = i + 1;
    }
    true
}

/// References to the instructions of a list, in the order of the list, as
/// the machine's table takes them.
pub fn instruction_refs<'a>(instructions: &'a Vec<JexInstruction>) -> (refs: Vec<
    &'a JexInstruction,
>)
    ensures
        refs@.len() == instructions@.len(),
        forall|i: int| 0 <= i < refs@.len() ==> *(#[trigger] refs@[i]) == instructions@[i],
{
    let mut refs: Vec<&'a JexInstruction> = Vec::new();
    let mut i: usize = 0;
    while i < instructions.len()
        invariant
            i <= instructions@.len(),
            refs@.len() == i,
            forall|j: int| 0 <= j < i ==> *(#[trigger] refs@[j]) == instructions@[j],
        decreases instructions@.len() - i,
    {
        refs.push(&instructions[i]);
        i = i + 1;
    }
    refs
}

} // verus!
