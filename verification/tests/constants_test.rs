use extendable_vm::{Chunk, Code, ExceptionType};
use jex_vm::build_jex_machine;
use jex_vm::code::bytecode_constants::{JexConstant, JexConstantType};
use jex_vm::instructions::types::{instruction_refs, jex_instructions};
use jex_vm::values::values::{JexFunction, JexValue};

fn function_chunk(name: &str, arity: i32) -> Chunk<JexConstant> {
    Chunk {
        constants: vec![JexConstant::String(name.to_string()), JexConstant::Int(arity)],
        code: vec![],
    }
}

fn empty_chunk() -> Chunk<JexConstant> {
    Chunk { constants: vec![], code: vec![] }
}

#[test]
fn constant_tags_are_zero_one_and_two() {
    assert_eq!(JexConstantType::Int.tag(), 0);
    assert_eq!(JexConstantType::String.tag(), 1);
    assert_eq!(JexConstantType::Function.tag(), 2);
    assert_eq!(JexConstantType::from_tag(0), Some(JexConstantType::Int));
    assert_eq!(JexConstantType::from_tag(1), Some(JexConstantType::String));
    assert_eq!(JexConstantType::from_tag(2), Some(JexConstantType::Function));
    assert_eq!(JexConstantType::from_tag(3), None);
    assert_eq!(JexConstantType::from_tag(255), None);
}

#[test]
fn from_str_makes_a_string_constant() {
    assert_eq!(JexConstant::from_str("abc"), JexConstant::String("abc".to_string()));
    assert_eq!(JexConstant::from_str(""), JexConstant::String(String::new()));
}

#[test]
fn constants_are_equal_by_kind_and_payload() {
    assert_eq!(JexConstant::Int(1), JexConstant::Int(1));
    assert_ne!(JexConstant::Int(1), JexConstant::Int(2));
    assert_ne!(JexConstant::Int(1), JexConstant::Function { chunk_id: 1 });
    assert_ne!(JexConstant::from_str("1"), JexConstant::Int(1));
    assert_eq!(JexConstant::Function { chunk_id: 4 }, JexConstant::Function { chunk_id: 4 }.clone());
    assert_eq!(JexConstant::from_str("x").clone(), JexConstant::from_str("x"));
}

#[test]
fn as_string_gives_the_text_of_a_string_constant() {
    assert_eq!(JexConstant::from_str("name").as_string().unwrap(), "name");
}

#[test]
fn as_string_faults_on_other_constants() {
    let of_int = JexConstant::Int(-5).as_string().unwrap_err();
    assert_eq!(of_int.0, "Expected chunk constant Int(-5) to be string");
    let of_function = JexConstant::Function { chunk_id: 12 }.as_string().unwrap_err();
    assert_eq!(of_function.0, "Expected chunk constant Function { chunk_id: 12 } to be string");
}

#[test]
fn as_int_gives_the_number_of_an_integer_constant() {
    assert_eq!(JexConstant::Int(i32::MIN).as_int().unwrap(), i32::MIN);
    assert_eq!(JexConstant::Int(17).as_int().unwrap(), 17);
}

#[test]
fn as_int_faults_on_other_constants() {
    let of_string = JexConstant::from_str("a\"b\n").as_int().unwrap_err();
    assert_eq!(of_string.0, "Expected chunk constant String(\"a\\\"b\\n\") to be int");
    let of_function = JexConstant::Function { chunk_id: 0 }.as_int().unwrap_err();
    assert_eq!(of_function.0, "Expected chunk constant Function { chunk_id: 0 } to be int");
}

#[test]
fn constants_render_as_the_derived_form() {
    let constants = vec![
        JexConstant::Int(0),
        JexConstant::Int(-2147483648),
        JexConstant::from_str("plain"),
        JexConstant::from_str("tab\there 'q' \\ é"),
        JexConstant::Function { chunk_id: 255 },
    ];
    for constant in constants {
        assert_eq!(constant.to_debug_string(), format!("{:?}", constant));
    }
}

#[test]
fn plain_constants_stand_for_themselves() {
    let code = Code { chunks: vec![empty_chunk()] };
    let instructions = jex_instructions();
    let refs = instruction_refs(&instructions);
    let machine = build_jex_machine(&code, &refs);
    assert_eq!(JexConstant::Int(9).to_value(&machine).unwrap(), JexValue::Int(9));
    assert_eq!(
        JexConstant::from_str("s").to_value(&machine).unwrap(),
        JexValue::from_string("s".to_string())
    );
}

#[test]
fn a_function_constant_is_resolved_against_its_chunk() {
    let code = Code { chunks: vec![empty_chunk(), function_chunk("sum", 2)] };
    let instructions = jex_instructions();
    let refs = instruction_refs(&instructions);
    let machine = build_jex_machine(&code, &refs);
    let function = JexFunction::from_code(&machine, 1).unwrap();
    assert_eq!(
        function,
        JexFunction::Function { arity: 2, chunk_id: 1, name: "sum".to_string() }
    );
    let value = JexConstant::Function { chunk_id: 1 }.to_value(&machine).unwrap();
    assert_eq!(value, JexValue::Function(function));
}

#[test]
fn a_function_constant_without_a_chunk_is_a_load_fault() {
    let code = Code { chunks: vec![empty_chunk()] };
    let instructions = jex_instructions();
    let refs = instruction_refs(&instructions);
    let machine = build_jex_machine(&code, &refs);
    let fault = JexFunction::from_code(&machine, 3).unwrap_err();
    assert!(matches!(fault.exception_type, ExceptionType::Static));
    assert_eq!(fault.name, "NotFoundChunkForFunction");
    assert_eq!(fault.message, "Chunk #3 of a function was not found");
    let through_constant = JexConstant::Function { chunk_id: 3 }.to_value(&machine).unwrap_err();
    assert_eq!(through_constant.name, "NotFoundChunkForFunction");
}

#[test]
fn a_chunk_without_name_and_arity_is_no_function() {
    let one_constant = Chunk { constants: vec![JexConstant::from_str("f")], code: vec![] };
    let code = Code { chunks: vec![empty_chunk(), one_constant, function_chunk("g", -1)] };
    let instructions = jex_instructions();
    let refs = instruction_refs(&instructions);
    let machine = build_jex_machine(&code, &refs);
    for chunk_id in 0..3 {
        let fault = JexFunction::from_code(&machine, chunk_id).unwrap_err();
        assert!(matches!(fault.exception_type, ExceptionType::Static));
        assert_eq!(fault.name, "InvalidFunctionChunk");
        assert_eq!(fault.message, format!("Chunk #{} does not describe a function", chunk_id));
    }
}

#[test]
fn a_function_chunk_with_constants_of_the_wrong_kind_is_a_type_fault() {
    let name_is_int = Chunk {
        constants: vec![JexConstant::Int(1), JexConstant::Int(0)],
        code: vec![],
    };
    let arity_is_string = Chunk {
        constants: vec![JexConstant::from_str("f"), JexConstant::from_str("0")],
        code: vec![],
    };
    let code = Code { chunks: vec![name_is_int, arity_is_string] };
    let instructions = jex_instructions();
    let refs = instruction_refs(&instructions);
    let machine = build_jex_machine(&code, &refs);
    let first = JexFunction::from_code(&machine, 0).unwrap_err();
    assert!(matches!(first.exception_type, ExceptionType::Runtime));
    assert_eq!(first.name, "TypeException");
    assert_eq!(first.message, "Expected chunk constant Int(1) to be string");
    let second = JexFunction::from_code(&machine, 1).unwrap_err();
    assert_eq!(second.name, "TypeException");
    assert_eq!(second.message, "Expected chunk constant String(\"0\") to be int");
}

#[test]
fn a_function_of_no_parameters_is_valid() {
    let code = Code { chunks: vec![function_chunk("main", 0)] };
    let instructions = jex_instructions();
    let refs = instruction_refs(&instructions);
    let machine = build_jex_machine(&code, &refs);
    assert_eq!(
        JexFunction::from_code(&machine, 0).unwrap(),
        JexFunction::Function { arity: 0, chunk_id: 0, name: "main".to_string() }
    );
}
