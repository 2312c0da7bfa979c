//! The operation codes: the byte that names each instruction in compiled
//! code.

use vstd::prelude::*;

verus! {

/// The instructions, in the order of their operation codes.
#[derive(PartialEq, Eq, Structural, Debug, Clone, Copy)]
pub enum JexOpCode {
    Constant,
    Null,
    True,
    False,
    Negate,
    Add,
    Subtract,
    Multiply,
    Divide,
    Equal,
    Print,
    Greater,
    Less,
    Not,
    ToString,
    ParseInt,
    JumpForward,
    JumpForwardIfFalse,
    JumpBackward,
    Call,
    Return,
    NewInstance,
    GetField,
    SetField,
    ReadLine,
}

/// The number of instructions.
pub const OP_CODE_COUNT: u8 = 25;

impl JexOpCode {
    /// The byte of this instruction.
    pub open spec fn spec_code(self) -> u8 {
        match self {
            JexOpCode::Constant => 0,
            JexOpCode::Null => 1,
            JexOpCode::True => 2,
            JexOpCode::False => 3,
            JexOpCode::Negate => 4,
            JexOpCode::Add => 5,
            JexOpCode::Subtract => 6,
            JexOpCode::Multiply => 7,
            JexOpCode::Divide => 8,
            JexOpCode::Equal => 9,
            JexOpCode::Print => 10,
            JexOpCode::Greater => 11,
            JexOpCode::Less => 12,
            JexOpCode::Not => 13,
            JexOpCode::ToString => 14,
            JexOpCode::ParseInt => 15,
            JexOpCode::JumpForward => 16,
            JexOpCode::JumpForwardIfFalse => 17,
            JexOpCode::JumpBackward => 18,
            JexOpCode::Call => 19,
            JexOpCode::Return => 20,
            JexOpCode::NewInstance => 21,
            JexOpCode::GetField => 22,
            JexOpCode::SetField => 23,
            JexOpCode::ReadLine => 24,
        }
    }

    /// The name of this instruction in diagnostics.
    pub open spec fn spec_name(self) -> Seq<char> {
        match self {
            JexOpCode::Constant => "CONSTANT"@,
            JexOpCode::Null => "NULL"@,
            JexOpCode::True => "TRUE"@,
            JexOpCode::False => "FALSE"@,
            JexOpCode::Negate => "NEGATE"@,
            JexOpCode::Add => "ADD"@,
            JexOpCode::Subtract => "SUBTRACT"@,
            JexOpCode::Multiply => "MULTIPLY"@,
            JexOpCode::Divide => "DIVIDE"@,
            JexOpCode::Equal => "EQUAL"@,
            JexOpCode::Print => "PRINT"@,
            JexOpCode::Greater => "GREATER"@,
            JexOpCode::Less => "LESS"@,
            JexOpCode::Not => "NOT"@,
            JexOpCode::ToString => "TO_STRING"@,
            JexOpCode::ParseInt => "PARSE_INT"@,
            JexOpCode::JumpForward => "JUMP_FORWARD"@,
            JexOpCode::JumpForwardIfFalse => "JUMP_FORWARD_IF_FALSE"@,
            JexOpCode::JumpBackward => "JUMP_BACKWARD"@,
            JexOpCode::Call => "CALL"@,
            JexOpCode::Return => "RETURN"@,
            JexOpCode::NewInstance => "NEW_INSTANCE"@,
            JexOpCode::GetField => "GET_FIELD"@,
            JexOpCode::SetField => "SET_FIELD"@,
            JexOpCode::ReadLine => "READ_LINE"@,
        }
    }

    /// The number of argument bytes that follow this instruction's byte in
    /// compiled code.
    pub open spec fn spec_byte_arity(self) -> usize {
        match self {
            JexOpCode::Constant
            | JexOpCode::JumpForward
            | JexOpCode::JumpForwardIfFalse
            | JexOpCode::JumpBackward
            | JexOpCode::Call
            | JexOpCode::GetField
            | JexOpCode::SetField => 1,
            _ => 0,
        }
    }

    /// The byte of this instruction.
    pub fn code(self) -> (code: u8)
        ensures
            code == self.spec_code(),
    {
        match self {
            JexOpCode::Constant => 0,
            JexOpCode::Null => 1,
            JexOpCode::True => 2,
            JexOpCode::False => 3,
            JexOpCode::Negate => 4,
            JexOpCode::Add => 5,
            JexOpCode::Subtract => 6,
            JexOpCode::Multiply => 7,
            JexOpCode::Divide => 8,
            JexOpCode::Equal => 9,
            JexOpCode::Print => 10,
            JexOpCode::Greater => 11,
            JexOpCode::Less => 12,
            JexOpCode::Not => 13,
            JexOpCode::ToString => 14,
            JexOpCode::ParseInt => 15,
            JexOpCode::JumpForward => 16,
            JexOpCode::JumpForwardIfFalse => 17,
            JexOpCode::JumpBackward => 18,
            JexOpCode::Call => 19,
            JexOpCode::Return => 20,
            JexOpCode::NewInstance => 21,
            JexOpCode::GetField => 22,
            JexOpCode::SetField => 23,
            JexOpCode::ReadLine => 24,
        }
    }

    /// The name of this instruction in diagnostics.
    pub fn name(self) -> (name: &'static str)
        ensures
            name@ == self.spec_name(),
    {
        match self {
            JexOpCode::Constant => "CONSTANT",
            JexOpCode::Null => "NULL",
            JexOpCode::True => "TRUE",
            JexOpCode::False => "FALSE",
            JexOpCode::Negate => "NEGATE",
            JexOpCode::Add => "ADD",
            JexOpCode::Subtract => "SUBTRACT",
            JexOpCode::Multiply => "MULTIPLY",
            JexOpCode::Divide => "DIVIDE",
            JexOpCode::Equal => "EQUAL",
            JexOpCode::Print => "PRINT",
            JexOpCode::Greater => "GREATER",
            JexOpCode::Less => "LESS",
            JexOpCode::Not => "NOT",
            JexOpCode::ToString => "TO_STRING",
            JexOpCode::ParseInt => "PARSE_INT",
            JexOpCode::JumpForward => "JUMP_FORWARD",
            JexOpCode::JumpForwardIfFalse => "JUMP_FORWARD_IF_FALSE",
            JexOpCode::JumpBackward => "JUMP_BACKWARD",
            JexOpCode::Call => "CALL",
            JexOpCode::Return => "RETURN",
            JexOpCode::NewInstance => "NEW_INSTANCE",
            JexOpCode::GetField => "GET_FIELD",
            JexOpCode::SetField => "SET_FIELD",
            JexOpCode::ReadLine => "READ_LINE",
        }
    }

    /// The number of argument bytes of this instruction.
    pub fn byte_arity(self) -> (arity: usize)
        ensures
            arity == self.spec_byte_arity(),
    {
        match self {
            JexOpCode::Constant
            | JexOpCode::JumpForward
            | JexOpCode::JumpForwardIfFalse
            | JexOpCode::JumpBackward
            | JexOpCode::Call
            | JexOpCode::GetField
            | JexOpCode::SetField => 1,
            _ => 0,
        }
    }

    /// The instruction that a byte names, if it names one.
    pub fn from_code(code: u8) -> (op_code: Option<JexOpCode>)
        ensures
            match op_code {
                Some(found) => found.spec_code() == code,
                None => code >= OP_CODE_COUNT,
            },
    {
        match code {
            0 => Some(JexOpCode::Constant),
            1 => Some(JexOpCode::Null),
            2 => Some(JexOpCode::True),
            3 => Some(JexOpCode::False),
            4 => Some(JexOpCode::Negate),
            5 => Some(JexOpCode::Add),
            6 => Some(JexOpCode::Subtract),
            7 => Some(JexOpCode::Multiply),
            8 => Some(JexOpCode::Divide),
            9 => Some(JexOpCode::Equal),
            10 => Some(JexOpCode::Print),
            11 => Some(JexOpCode::Greater),
            12 => Some(JexOpCode::Less),
            13 => Some(JexOpCode::Not),
            14 => Some(JexOpCode::ToString),
            15 => Some(JexOpCode::ParseInt),
            16 => Some(JexOpCode::JumpForward),
            17 => Some(JexOpCode::JumpForwardIfFalse),
            18 => Some(JexOpCode::JumpBackward),
            19 => Some(JexOpCode::Call),
            20 => Some(JexOpCode::Return),
            21 => Some(JexOpCode::NewInstance),
            22 => Some(JexOpCode::GetField),
            23 => Some(JexOpCode::SetField),
            24 => Some(JexOpCode::ReadLine),
            _ => None,
        }
    }
}

/// No two instructions share an operation code, and every code lies below
/// the number of instructions.
pub proof fn op_codes_are_unique(left: JexOpCode, right: JexOpCode)
    ensures
        left.spec_code() < OP_CODE_COUNT,
        left.spec_code() == right.spec_code() ==> left == right,
{
}

} // verus!
