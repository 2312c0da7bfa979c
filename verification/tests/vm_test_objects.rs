use extendable_vm::{Chunk, Code};
use jex_vm::build_jex_machine;
use jex_vm::code::bytecode_constants::JexConstant;
use jex_vm::instructions::op_codes::JexOpCode;
use jex_vm::instructions::types::{instruction_refs, jex_instructions};
use jex_vm::values::values::JexValue;

struct TestChunk {
    constants: Vec<JexConstant>,
    instructions: Vec<TestInstruction>,
}

impl TestChunk {
    fn compile(&self) -> Chunk<JexConstant> {
        let mut code: Vec<u8> = vec![];
        for instruction in &self.instructions {
            instruction.compile(&mut code);
        }
        Chunk { constants: self.constants.clone(), code }
    }
}

struct TestInstruction {
    op_code: JexOpCode,
    args: Vec<u8>,
}

impl TestInstruction {
    fn compile(&self, code: &mut Vec<u8>) {
        code.push(self.op_code.code());
        for arg in &self.args {
            code.push(*arg);
        }
    }
}

fn run_chunks(chunks: Vec<TestChunk>) -> Option<JexValue> {
    let mut compiled_chunks: Vec<Chunk<JexConstant>> = vec![];
    for chunk in chunks {
        compiled_chunks.push(chunk.compile());
    }
    let code = Code { chunks: compiled_chunks };
    let instructions = jex_instructions();
    let refs = instruction_refs(&instructions);

    let mut machine = build_jex_machine(&code, &refs);

    let finished_gracefully = machine.start();
    if !finished_gracefully {
        panic!();
    }
    machine.peek_operand().ok().cloned()
}

fn run_chunk(chunk: TestChunk) -> Option<JexValue> {
    run_chunks(vec![chunk])
}

#[test]
fn it_should_create_empty_object() {
    let result = run_chunk(TestChunk {
        constants: vec![],
        instructions: vec![TestInstruction { op_code: JexOpCode::NewInstance, args: vec![] }],
    });

    assert!(result.unwrap().as_instance().unwrap().is_empty())
}

#[test]
fn it_should_set_field_of_empty_object() {
    let result = run_chunk(TestChunk {
        constants: vec![JexConstant::String("field_name".to_string())],
        instructions: vec![
            TestInstruction { op_code: JexOpCode::NewInstance, args: vec![] },
            TestInstruction { op_code: JexOpCode::True, args: vec![] },
            TestInstruction { op_code: JexOpCode::SetField, args: vec![0] },
        ],
    });
    let result = result.unwrap();
    let instance = result.as_instance().unwrap();
    assert!(!instance.is_empty());
    assert_eq!(JexValue::Bool(true), instance.get_field("field_name").unwrap());
}

#[test]
fn it_should_get_field_after_setting_field() {
    let result = run_chunk(TestChunk {
        constants: vec![JexConstant::String("field_name".to_string())],
        instructions: vec![
            TestInstruction { op_code: JexOpCode::NewInstance, args: vec![] },
            TestInstruction { op_code: JexOpCode::True, args: vec![] },
            TestInstruction { op_code: JexOpCode::SetField, args: vec![0] },
            TestInstruction { op_code: JexOpCode::GetField, args: vec![0] },
        ],
    });
    let result = result.unwrap();
    let bool = result.as_bool().unwrap();
    assert!(bool)
}

// exceptions

#[test]
#[should_panic]
fn it_should_panic_if_get_field_of_empty_object() {
    run_chunk(TestChunk {
        constants: vec![JexConstant::String("field_name".to_string())],
        instructions: vec![
            TestInstruction { op_code: JexOpCode::NewInstance, args: vec![] },
            TestInstruction { op_code: JexOpCode::GetField, args: vec![0] },
        ],
    });
}

#[test]
#[should_panic]
fn it_should_panic_if_get_field_of_bool() {
    run_chunk(TestChunk {
        constants: vec![JexConstant::String("field_name".to_string())],
        instructions: vec![
            TestInstruction { op_code: JexOpCode::True, args: vec![] },
            TestInstruction { op_code: JexOpCode::GetField, args: vec![0] },
        ],
    });
}

#[test]
#[should_panic]
fn it_should_panic_if_set_field_of_bool() {
    run_chunk(TestChunk {
        constants: vec![JexConstant::String("field_name".to_string())],
        instructions: vec![
            TestInstruction { op_code: JexOpCode::True, args: vec![] },
            TestInstruction { op_code: JexOpCode::False, args: vec![] },
            TestInstruction { op_code: JexOpCode::SetField, args: vec![0] },
        ],
    });
}
