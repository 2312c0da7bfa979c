//! The parsers of the constants of a compiled program.
//!
//! A constant follows its tag: an integer as four bytes, a string as a
//! two-byte length and that many bytes of UTF-8, and a function as the one
//! byte of its chunk's index.

use crate::code::bytecode_constants::{ConstantView, JexConstant, JexConstantType};
use crate::code::bytes::{
    buffer_fits, bytes_read, can_read, code_ended_at, code_ended_fault, i32_of, position_after,
    raw_bytes, read, read_i32, read_n, read_u16, string_from_utf8, u16_of,
};
use crate::runtime::{fault_of, Fault};
use crate::types::JexConstantParser;
use extendable_vm::{ConstantParser, Exception, ExceptionType, RawBytes, RawBytesPointer};
use vstd::prelude::*;
use vstd::string::StringExecFns;
use vstd::utf8::{decode_utf8, valid_utf8};

verus! {

/// The record of a constant parser: a tag and the function that parses the
/// constants with that tag. It holds a function pointer, so the verifier
/// sees none of it.
#[verifier::external_type_specification]
#[verifier::external_body]
#[verifier::reject_recursive_types(Constant)]
pub struct ExConstantParser<Constant>(ConstantParser<Constant>);

/// The bytes of a string constant are not UTF-8.
pub struct StringConstantParsingError;

impl StringConstantParsingError {
    /// What the fault of this exception tells.
    pub open spec fn fault(self) -> Fault {
        Fault {
            severity: ExceptionType::Static,
            name: "StringConstantParsingError"@,
            message: "Could not parse utf8 string"@,
        }
    }
}

impl From<StringConstantParsingError> for Exception {
    fn from(exception: StringConstantParsingError) -> (fault: Exception)
        ensures
            fault_of(fault) == exception.fault(),
    {
        Exception {
            exception_type: ExceptionType::Static,
            name: String::from_str("StringConstantParsingError"),
            message: String::from_str("Could not parse utf8 string"),
        }
    }
}

impl vstd::std_specs::convert::FromSpecImpl<StringConstantParsingError> for Exception {
    open spec fn obeys_from_spec() -> bool {
        false
    }

    open spec fn from_spec(exception: StringConstantParsingError) -> Exception {
        arbitrary()
    }
}

/// The outcome of parsing a constant: the constant or the load fault, and
/// where the pointer is left.
pub struct Parsed {
    pub result: Result<ConstantView, Fault>,
    pub end: int,
}

/// Where an attempt to read `count` bytes at `position` leaves the pointer.
/// Nothing is read, and the pointer stays, where the bytes would lie beyond
/// the largest address: no buffer holds bytes there.
pub open spec fn end_of_read(data: Seq<u8>, position: int, count: int) -> int {
    if position + count <= usize::MAX {
        position_after(data, position, count)
    } else {
        position
    }
}

/// An integer constant at `position`: four bytes.
pub open spec fn int_constant_at(data: Seq<u8>, position: int) -> Parsed {
    Parsed {
        result: if can_read(data, position, 4) {
            Ok(ConstantView::Int(i32_of(bytes_read(data, position, 4))))
        } else {
            Err(code_ended_fault("i32"@))
        },
        end: end_of_read(data, position, 4),
    }
}

/// A string constant at `position`: a length of two bytes, then that many
/// bytes, which are the string in UTF-8.
pub open spec fn string_constant_at(data: Seq<u8>, position: int) -> Parsed {
    if !can_read(data, position, 2) {
        Parsed { result: Err(code_ended_fault("u16"@)), end: end_of_read(data, position, 2) }
    } else {
        let len = u16_of(bytes_read(data, position, 2));
        let start = position + 2;
        if !can_read(data, start, len) {
            Parsed {
                result: Err(code_ended_fault("string data"@)),
                end: end_of_read(data, start, len),
            }
        } else {
            let payload = bytes_read(data, start, len);
            Parsed {
                result: if valid_utf8(payload) {
                    Ok(ConstantView::String(decode_utf8(payload)))
                } else {
                    Err(StringConstantParsingError.fault())
                },
                end: start + len,
            }
        }
    }
}

/// A function constant at `position`: one byte, the index of its chunk.
pub open spec fn function_constant_at(data: Seq<u8>, position: int) -> Parsed {
    Parsed {
        result: if can_read(data, position, 1) {
            Ok(ConstantView::Function { chunk_id: data[position] as nat })
        } else {
            Err(code_ended_fault("chunk_id"@))
        },
        end: end_of_read(data, position, 1),
    }
}

/// Whether a parser's answer and the pointer it left are the given
/// outcome.
pub open spec fn is_parsed(
    answer: Result<JexConstant, Exception>,
    end: usize,
    parsed: Parsed,
) -> bool {
    &&& end == parsed.end
    &&& match answer {
        Ok(constant) => parsed.result == Ok::<ConstantView, Fault>(constant@),
        Err(exception) => parsed.result == Err::<ConstantView, Fault>(fault_of(exception)),
    }
}

/// Parses an integer constant. A buffer that ends within the four bytes
/// gives the load fault that names `i32`.
pub fn parse_int_constant(bytes: &RawBytes, pointer: &mut RawBytesPointer) -> (constant: Result<
    JexConstant,
    Exception,
>)
    ensures
        is_parsed(
            constant,
            final(pointer).next_byte,
            int_constant_at(raw_bytes(bytes), old(pointer).next_byte as int),
        ),
        constant is Ok <==> old(pointer).next_byte + 4 <= raw_bytes(bytes).len(),
        constant matches Err(exception) ==> fault_of(exception) == code_ended_fault("i32"@),
{
    proof {
        buffer_fits(bytes);
    }
    if pointer.next_byte > usize::MAX - 4 {
        return Err(code_ended_at(String::from_str("i32")));
    }
    match read_i32(bytes, pointer) {
        Some(number) => Ok(JexConstant::Int(number)),
        None => Err(code_ended_at(String::from_str("i32"))),
    }
}

/// Parses a string constant. A buffer that ends within the length gives the
/// load fault that names `u16`, one that ends within the text the load fault
/// that names `string data`, and text that is not UTF-8 a load fault of its
/// own.
pub fn parse_string_constant(bytes: &RawBytes, pointer: &mut RawBytesPointer) -> (constant:
    Result<JexConstant, Exception>)
    ensures
        is_parsed(
            constant,
            final(pointer).next_byte,
            string_constant_at(raw_bytes(bytes), old(pointer).next_byte as int),
        ),
        constant is Ok <==> holds_string(raw_bytes(bytes), old(pointer).next_byte as int),
        constant matches Err(exception) ==> fault_of(exception).severity
            == ExceptionType::Static,
{
    proof {
        buffer_fits(bytes);
        string_is_parsed_where_it_lies(raw_bytes(bytes), pointer.next_byte as int);
    }
    if pointer.next_byte > usize::MAX - 2 {
        return Err(code_ended_at(String::from_str("u16")));
    }
    let str_len: usize = match read_u16(bytes, pointer) {
        Some(len) => len as usize,
        None => {
            return Err(code_ended_at(String::from_str("u16")));
        },
    };
    if pointer.next_byte > usize::MAX - str_len {
        return Err(code_ended_at(String::from_str("string data")));
    }
    let str_data = match read_n(bytes, pointer, str_len) {
        Some(data) => data,
        None => {
            return Err(code_ended_at(String::from_str("string data")));
        },
    };
    match string_from_utf8(str_data) {
        Ok(string) => Ok(JexConstant::String(string)),
        Err(_) => Err(Exception::from(StringConstantParsingError)),
    }
}

/// Parses a function constant. A buffer that ends before the byte gives the
/// load fault that names `chunk_id`.
pub fn parse_function_constant(bytes: &RawBytes, pointer: &mut RawBytesPointer) -> (constant:
    Result<JexConstant, Exception>)
    ensures
        is_parsed(
            constant,
            final(pointer).next_byte,
            function_constant_at(raw_bytes(bytes), old(pointer).next_byte as int),
        ),
        constant is Ok <==> old(pointer).next_byte + 1 <= raw_bytes(bytes).len(),
        constant matches Err(exception) ==> fault_of(exception) == code_ended_fault(
            "chunk_id"@,
        ),
{
    proof {
        buffer_fits(bytes);
    }
    if pointer.next_byte > usize::MAX - 1 {
        return Err(code_ended_at(String::from_str("chunk_id")));
    }
    match read(bytes, pointer) {
        Some(chunk_id) => Ok(JexConstant::Function { chunk_id: chunk_id as usize }),
        None => Err(code_ended_at(String::from_str("chunk_id"))),
    }
}

/// A constant that cannot be parsed gives a load fault, and where the bytes
/// end before the constant does, the fault names what was being read.
pub proof fn parsing_faults_are_load_faults(data: Seq<u8>, position: int)
    ensures
        int_constant_at(data, position).result matches Err(fault) ==> fault == code_ended_fault(
            "i32"@,
        ),
        function_constant_at(data, position).result matches Err(fault) ==> fault
            == code_ended_fault("chunk_id"@),
        string_constant_at(data, position).result matches Err(fault) ==> fault == code_ended_fault(
            "u16"@,
        ) || fault == code_ended_fault("string data"@) || fault
            == StringConstantParsingError.fault(),
        int_constant_at(data, position).result matches Err(fault) ==> fault.severity
            == ExceptionType::Static,
        function_constant_at(data, position).result matches Err(fault) ==> fault.severity
            == ExceptionType::Static,
        string_constant_at(data, position).result matches Err(fault) ==> fault.severity
            == ExceptionType::Static,
{
}

/// Whether a string constant lies at `position`: the two bytes of its
/// length and then as many bytes as the length says are in the buffer, and
/// these are UTF-8.
pub open spec fn holds_string(data: Seq<u8>, position: int) -> bool {
    &&& position + 2 <= data.len()
    &&& position + 2 + u16_of(data.subrange(position, position + 2)) <= data.len()
    &&& valid_utf8(
        data.subrange(
            position + 2,
            position + 2 + u16_of(data.subrange(position, position + 2)),
        ),
    )
}

/// A string constant is parsed exactly where one lies in the buffer, and it
/// is then the text that its bytes encode. Everywhere else, also where the
/// buffer ends within the constant, the answer is a load fault.
pub proof fn string_is_parsed_where_it_lies(data: Seq<u8>, position: int)
    requires
        0 <= position,
    ensures
        string_constant_at(data, position).result is Ok <==> holds_string(data, position),
        holds_string(data, position) ==> string_constant_at(data, position).result == Ok::<
            ConstantView,
            Fault,
        >(
            ConstantView::String(
                decode_utf8(
                    data.subrange(
                        position + 2,
                        position + 2 + u16_of(data.subrange(position, position + 2)),
                    ),
                ),
            ),
        ),
        string_constant_at(data, position).result matches Err(fault) ==> fault.severity
            == ExceptionType::Static,
{
    if can_read(data, position, 2) {
        let len = u16_of(data.subrange(position, position + 2));
        assert(data.subrange(position, position + 2)[0] >= 0);
        assert(len >= 0);
        if len == 0 {
            assert(data.subrange(position + 2, position + 2) =~= Seq::<u8>::empty());
        }
    }
}

/// An integer constant is parsed exactly where four bytes are left in the
/// buffer, and a function constant exactly where one is.
pub proof fn fixed_width_constants_are_parsed_where_they_lie(data: Seq<u8>, position: int)
    requires
        0 <= position,
    ensures
        int_constant_at(data, position).result is Ok <==> position + 4 <= data.len(),
        function_constant_at(data, position).result is Ok <==> position + 1 <= data.len(),
{
}

/// A string constant whose length says more bytes than the buffer holds
/// behind it gives the load fault that names `string data`.
pub proof fn truncated_string_is_a_load_fault(data: Seq<u8>, position: int)
    requires
        0 <= position,
        position + 2 <= data.len(),
        position + 2 + u16_of(data.subrange(position, position + 2)) > data.len(),
    ensures
        string_constant_at(data, position).result == Err::<ConstantView, Fault>(
            code_ended_fault("string data"@),
        ),
{
    let len = u16_of(data.subrange(position, position + 2));
    assert(data.subrange(position, position + 2)[0] >= 0);
    assert(len >= 0);
}

/// A constant that is parsed ends where the pointer is left: the pointer
/// moves over the bytes of the constant and over no others.
pub proof fn parsed_constant_spans_its_bytes(data: Seq<u8>, position: int)
    requires
        0 <= position,
        data.len() <= usize::MAX,
    ensures
        int_constant_at(data, position).result is Ok ==> int_constant_at(data, position).end
            == position + 4,
        function_constant_at(data, position).result is Ok ==> function_constant_at(
            data,
            position,
        ).end == position + 1,
        string_constant_at(data, position).result is Ok ==> string_constant_at(
            data,
            position,
        ).end == position + 2 + u16_of(data.subrange(position, position + 2)),
{
}

/// The tag that a parser is registered for.
pub uninterp spec fn parser_tag(parser: &JexConstantParser) -> u8;

/// The kind of constant whose parsing function a parser holds. Each parser
/// of this library is built by the one constructor that stores the function
/// of one kind, and that constructor says which.
pub uninterp spec fn parser_kind(parser: &JexConstantParser) -> JexConstantType;

/// Whether a record is the parser of the given kind of constant: it is
/// registered under the tag of the kind and holds the function that parses
/// constants of the kind.
pub open spec fn parses(parser: JexConstantParser, kind: JexConstantType) -> bool {
    &&& parser_tag(&parser) == kind.spec_tag()
    &&& parser_kind(&parser) == kind
}

/// A `ConstantParser` with `parse_int_constant` as its function.
#[verifier::external_body]
fn int_constant_parser(constant_type: u8) -> (parser: JexConstantParser)
    ensures
        parser_tag(&parser) == constant_type,
        parser_kind(&parser) == JexConstantType::Int,
{
    ConstantParser { constant_type, parser_fn: parse_int_constant }
}

/// A `ConstantParser` with `parse_string_constant` as its function.
#[verifier::external_body]
fn string_constant_parser(constant_type: u8) -> (parser: JexConstantParser)
    ensures
        parser_tag(&parser) == constant_type,
        parser_kind(&parser) == JexConstantType::String,
{
    ConstantParser { constant_type, parser_fn: parse_string_constant }
}

/// A `ConstantParser` with `parse_function_constant` as its function.
#[verifier::external_body]
fn function_constant_parser(constant_type: u8) -> (parser: JexConstantParser)
    ensures
        parser_tag(&parser) == constant_type,
        parser_kind(&parser) == JexConstantType::Function,
{
    ConstantParser { constant_type, parser_fn: parse_function_constant }
}

/// The parsers of the three kinds of constants, each under the tag of its
/// kind and with the function that parses constants of its kind.
pub fn jex_constant_parsers() -> (parsers: Vec<JexConstantParser>)
    ensures
        parsers@.len() == 3,
        parses(parsers@[0], JexConstantType::Int),
        parses(parsers@[1], JexConstantType::String),
        parses(parsers@[2], JexConstantType::Function),
{
    let mut parsers = Vec::new();
    parsers.push(int_constant_parser(JexConstantType::Int.tag()));
    parsers.push(string_constant_parser(JexConstantType::String.tag()));
    parsers.push(function_constant_parser(JexConstantType::Function.tag()));
    parsers
}

} // verus!
