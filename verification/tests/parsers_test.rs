use extendable_vm::{
    CodeParser, ConstantParserTable, Exception, ExceptionType, RawBytes, RawBytesPointer,
};
use jex_vm::code::bytecode_constants::JexConstant;
use jex_vm::code::constant_parsers::{
    jex_constant_parsers, parse_function_constant, parse_int_constant, parse_string_constant,
    StringConstantParsingError,
};

fn parse_int(bytes: Vec<u8>, at: usize) -> (Result<JexConstant, Exception>, usize) {
    let bytes = RawBytes::from_bytes(bytes);
    let mut pointer = RawBytesPointer { next_byte: at };
    let constant = parse_int_constant(&bytes, &mut pointer);
    (constant, pointer.next_byte)
}

fn parse_string(bytes: Vec<u8>, at: usize) -> (Result<JexConstant, Exception>, usize) {
    let bytes = RawBytes::from_bytes(bytes);
    let mut pointer = RawBytesPointer { next_byte: at };
    let constant = parse_string_constant(&bytes, &mut pointer);
    (constant, pointer.next_byte)
}

fn parse_function(bytes: Vec<u8>, at: usize) -> (Result<JexConstant, Exception>, usize) {
    let bytes = RawBytes::from_bytes(bytes);
    let mut pointer = RawBytesPointer { next_byte: at };
    let constant = parse_function_constant(&bytes, &mut pointer);
    (constant, pointer.next_byte)
}

fn assert_code_ended(fault: &Exception, expected: &str) {
    assert!(matches!(fault.exception_type, ExceptionType::Static));
    assert_eq!(fault.name, "CodeEndedAt");
    assert_eq!(fault.message, format!("Code ended while reading {}", expected));
}

#[test]
fn an_integer_is_four_little_endian_bytes() {
    let (constant, end) = parse_int(vec![5, 0, 0, 0], 0);
    assert_eq!(constant.unwrap(), JexConstant::Int(5));
    assert_eq!(end, 4);
    assert_eq!(parse_int(vec![0x78, 0x56, 0x34, 0x12], 0).0.unwrap(), JexConstant::Int(0x12345678));
    assert_eq!(parse_int(vec![0, 1, 0, 0], 0).0.unwrap(), JexConstant::Int(256));
    assert_eq!(parse_int(vec![0, 0, 1, 0], 0).0.unwrap(), JexConstant::Int(65536));
    assert_eq!(parse_int(vec![0, 0, 0, 1], 0).0.unwrap(), JexConstant::Int(16777216));
}

#[test]
fn an_integer_is_signed_in_twos_complement() {
    assert_eq!(parse_int(vec![255, 255, 255, 255], 0).0.unwrap(), JexConstant::Int(-1));
    assert_eq!(parse_int(vec![0, 0, 0, 128], 0).0.unwrap(), JexConstant::Int(i32::MIN));
    assert_eq!(parse_int(vec![255, 255, 255, 127], 0).0.unwrap(), JexConstant::Int(i32::MAX));
    assert_eq!(parse_int(vec![254, 255, 255, 255], 0).0.unwrap(), JexConstant::Int(-2));
}

#[test]
fn an_integer_is_read_at_the_pointer() {
    let (constant, end) = parse_int(vec![9, 9, 3, 0, 0, 0, 9], 2);
    assert_eq!(constant.unwrap(), JexConstant::Int(3));
    assert_eq!(end, 6);
}

#[test]
fn a_truncated_integer_is_a_load_fault_that_names_i32() {
    for len in 0..4 {
        let (constant, end) = parse_int(vec![1; len], 0);
        assert_code_ended(&constant.unwrap_err(), "i32");
        assert_eq!(end, len + 1);
    }
    let (behind, end) = parse_int(vec![1, 2, 3, 4], 7);
    assert_code_ended(&behind.unwrap_err(), "i32");
    assert_eq!(end, 8);
}

#[test]
fn an_integer_at_the_largest_address_is_a_load_fault() {
    let (constant, end) = parse_int(vec![1, 2, 3, 4], usize::MAX - 2);
    assert_code_ended(&constant.unwrap_err(), "i32");
    assert_eq!(end, usize::MAX - 2);
}

#[test]
fn a_string_is_a_length_and_that_many_bytes() {
    let (constant, end) = parse_string(vec![3, 0, b'a', b'b', b'c', 7], 0);
    assert_eq!(constant.unwrap(), JexConstant::String("abc".to_string()));
    assert_eq!(end, 5);
    let (empty, end) = parse_string(vec![0, 0], 0);
    assert_eq!(empty.unwrap(), JexConstant::String(String::new()));
    assert_eq!(end, 2);
}

#[test]
fn the_length_of_a_string_is_little_endian() {
    let mut bytes = vec![44, 1];
    bytes.extend(vec![b'x'; 300]);
    let (constant, end) = parse_string(bytes, 0);
    assert_eq!(constant.unwrap(), JexConstant::String("x".repeat(300)));
    assert_eq!(end, 302);
}

#[test]
fn a_string_is_decoded_as_utf8() {
    let text = "héllo, мир, 世界";
    let mut bytes = vec![text.len() as u8, 0];
    bytes.extend(text.as_bytes());
    let (constant, end) = parse_string(bytes, 0);
    assert_eq!(constant.unwrap(), JexConstant::String(text.to_string()));
    assert_eq!(end, 2 + text.len());
}

#[test]
fn a_string_with_a_truncated_length_names_u16() {
    let (none, end) = parse_string(vec![], 0);
    assert_code_ended(&none.unwrap_err(), "u16");
    assert_eq!(end, 1);
    let (one, end) = parse_string(vec![3], 0);
    assert_code_ended(&one.unwrap_err(), "u16");
    assert_eq!(end, 2);
}

#[test]
fn a_string_whose_length_exceeds_the_bytes_names_string_data() {
    let (constant, end) = parse_string(vec![5, 0, b'a', b'b'], 0);
    assert_code_ended(&constant.unwrap_err(), "string data");
    assert_eq!(end, 5);
    let (nothing_left, end) = parse_string(vec![1, 0], 0);
    assert_code_ended(&nothing_left.unwrap_err(), "string data");
    assert_eq!(end, 3);
}

#[test]
fn a_string_that_is_not_utf8_is_a_load_fault_of_its_own() {
    let (constant, end) = parse_string(vec![2, 0, 0xC3, 0x28], 0);
    let fault = constant.unwrap_err();
    assert!(matches!(fault.exception_type, ExceptionType::Static));
    assert_eq!(fault.name, "StringConstantParsingError");
    assert_eq!(fault.message, "Could not parse utf8 string");
    assert_eq!(end, 4);
    let (lone_continuation, _) = parse_string(vec![1, 0, 0x80], 0);
    assert_eq!(lone_continuation.unwrap_err().name, "StringConstantParsingError");
}

#[test]
fn the_string_fault_converts_to_a_load_fault() {
    let fault = Exception::from(StringConstantParsingError);
    assert!(matches!(fault.exception_type, ExceptionType::Static));
    assert_eq!(fault.name, "StringConstantParsingError");
    assert_eq!(fault.message, "Could not parse utf8 string");
}

#[test]
fn a_function_is_the_byte_of_its_chunk() {
    let (constant, end) = parse_function(vec![7], 0);
    assert_eq!(constant.unwrap(), JexConstant::Function { chunk_id: 7 });
    assert_eq!(end, 1);
    let (last, end) = parse_function(vec![0, 0, 255], 2);
    assert_eq!(last.unwrap(), JexConstant::Function { chunk_id: 255 });
    assert_eq!(end, 3);
}

#[test]
fn a_missing_function_byte_names_chunk_id() {
    let (constant, end) = parse_function(vec![], 0);
    assert_code_ended(&constant.unwrap_err(), "chunk_id");
    assert_eq!(end, 1);
    let (at_limit, end) = parse_function(vec![1], usize::MAX);
    assert_code_ended(&at_limit.unwrap_err(), "chunk_id");
    assert_eq!(end, usize::MAX);
}

#[test]
fn the_parsers_are_registered_under_their_tags() {
    let parsers = jex_constant_parsers();
    let tags: Vec<u8> = parsers.iter().map(|parser| parser.constant_type).collect();
    assert_eq!(tags, vec![0, 1, 2]);
}

#[test]
fn a_program_is_parsed_with_the_registered_parsers() {
    let parsers = jex_constant_parsers();
    let table = ConstantParserTable::parsers(&parsers);
    let parser = CodeParser::new(&table);
    let bytes = vec![
        3, // three constants
        0, 42, 0, 0, 0, // an integer
        1, 2, 0, b'h', b'i', // a string
        2, 1, // a function
        2, 0, 9, 8, // two bytes of code
        0, // a second chunk: no constants
        0, 0, // no code
    ];
    let code = parser.parse(&RawBytes::from_bytes(bytes)).unwrap();
    assert_eq!(code.chunks.len(), 2);
    assert_eq!(
        code.chunks[0].constants,
        vec![
            JexConstant::Int(42),
            JexConstant::String("hi".to_string()),
            JexConstant::Function { chunk_id: 1 },
        ]
    );
    assert_eq!(code.chunks[0].code, vec![9, 8]);
    assert!(code.chunks[1].constants.is_empty());
    assert!(code.chunks[1].code.is_empty());
}

#[test]
fn a_program_with_a_truncated_string_does_not_load() {
    let parsers = jex_constant_parsers();
    let table = ConstantParserTable::parsers(&parsers);
    let parser = CodeParser::new(&table);
    let bytes = vec![1, 1, 10, 0, b'a', b'b'];
    let fault = parser.parse(&RawBytes::from_bytes(bytes)).err().unwrap();
    assert!(matches!(fault.exception_type, ExceptionType::Static));
    assert_eq!(fault.name, "ChunkParsingError");
    assert!(fault.message.contains("Code ended while reading string data"));
}

#[test]
fn a_program_with_an_unknown_tag_does_not_load() {
    let parsers = jex_constant_parsers();
    let table = ConstantParserTable::parsers(&parsers);
    let parser = CodeParser::new(&table);
    let fault = parser.parse(&RawBytes::from_bytes(vec![1, 3, 0, 0])).err().unwrap();
    assert!(matches!(fault.exception_type, ExceptionType::Static));
    assert!(fault.message.contains("Unknown constant with type 3"));
}
