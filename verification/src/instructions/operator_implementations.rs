//! What the operators compute.
//!
//! Integers are 32 bits wide and arithmetic on them wraps around. Division
//! rounds towards zero.

use crate::exceptions::runtime_exceptions::{
    DivisionByZero, OperatorNotDefined, UnaryOperatorNotDefined,
};
use crate::runtime::{fault_of, Fault};
use crate::state::{done, is_step, push, view_of};
use crate::text::{parse_i32, parsed_int};
use crate::types::JexMachine;
use crate::values::get_type::type_label;
use crate::values::to_output_string::{output_text, ToOutputString};
use crate::values::values::{JexValue, ObjectView, ValueView};
use extendable_vm::{Exception, ExceptionType, InstructionPointer};
use std::io::Write;
use vstd::prelude::*;
use vstd::string::StringExecFns;

verus! {

/// The 32-bit integer that an integer wraps around to.
pub open spec fn wrapped(n: int) -> int {
    let low = n % 4294967296;
    if low > i32::MAX {
        low - 4294967296
    } else {
        low
    }
}

/// The quotient of a division that rounds towards zero.
pub open spec fn truncated_quotient(dividend: int, divisor: int) -> int
    recommends
        divisor != 0,
{
    let magnitude = (if dividend < 0 {
        -dividend
    } else {
        dividend
    }) / (if divisor < 0 {
        -divisor
    } else {
        divisor
    });
    if (dividend < 0) != (divisor < 0) {
        -magnitude
    } else {
        magnitude
    }
}

/// The fault of a unary operator on a value that it has no meaning for.
pub open spec fn unary_undefined(operator: Seq<char>, operand: ValueView) -> Fault {
    UnaryOperatorNotDefined::fault_for(operator, type_label(operand))
}

/// The fault of a binary operator on values that it has no meaning for.
pub open spec fn binary_undefined(operator: Seq<char>, left: ValueView, right: ValueView) -> Fault {
    OperatorNotDefined::fault_for(operator, type_label(left), type_label(right))
}

/// `NEGATE`: the negative of an integer.
pub open spec fn negate_of(value: ValueView) -> Result<ValueView, Fault> {
    match value {
        ValueView::Int(i) => Ok(ValueView::Int(wrapped(-i))),
        _ => Err(unary_undefined("-"@, value)),
    }
}

/// `NOT`: the other boolean.
pub open spec fn not_of(value: ValueView) -> Result<ValueView, Fault> {
    match value {
        ValueView::Bool(b) => Ok(ValueView::Bool(!b)),
        _ => Err(unary_undefined("!"@, value)),
    }
}

/// `ADD`: the sum of two integers, or two strings joined.
pub open spec fn plus_of(left: ValueView, right: ValueView) -> Result<ValueView, Fault> {
    match (left, right) {
        (ValueView::Int(a), ValueView::Int(b)) => Ok(ValueView::Int(wrapped(a + b))),
        (
            ValueView::Object(ObjectView::String(a)),
            ValueView::Object(ObjectView::String(b)),
        ) => Ok(ValueView::Object(ObjectView::String(a + b))),
        _ => Err(binary_undefined("+"@, left, right)),
    }
}

/// `SUBTRACT`: the difference of two integers.
pub open spec fn minus_of(left: ValueView, right: ValueView) -> Result<ValueView, Fault> {
    match (left, right) {
        (ValueView::Int(a), ValueView::Int(b)) => Ok(ValueView::Int(wrapped(a - b))),
        _ => Err(binary_undefined("-"@, left, right)),
    }
}

/// `MULTIPLY`: the product of two integers.
pub open spec fn multiply_of(left: ValueView, right: ValueView) -> Result<ValueView, Fault> {
    match (left, right) {
        (ValueView::Int(a), ValueView::Int(b)) => Ok(ValueView::Int(wrapped(a * b))),
        _ => Err(binary_undefined("*"@, left, right)),
    }
}

/// `DIVIDE`: the quotient of two integers, rounded towards zero; a fault
/// where the divisor is zero.
pub open spec fn divide_of(left: ValueView, right: ValueView) -> Result<ValueView, Fault> {
    match (left, right) {
        (ValueView::Int(a), ValueView::Int(b)) => if b == 0 {
            Err(DivisionByZero.fault())
        } else {
            Ok(ValueView::Int(wrapped(truncated_quotient(a, b))))
        },
        _ => Err(binary_undefined("/"@, left, right)),
    }
}

/// `EQUAL`: whether two values are equal. Values of any two types can be
/// compared.
pub open spec fn equal_of(left: ValueView, right: ValueView) -> Result<ValueView, Fault> {
    Ok(ValueView::Bool(left == right))
}

/// `GREATER`: whether the left integer is the greater one.
pub open spec fn greater_of(left: ValueView, right: ValueView) -> Result<ValueView, Fault> {
    match (left, right) {
        (ValueView::Int(a), ValueView::Int(b)) => Ok(ValueView::Bool(a > b)),
        _ => Err(binary_undefined(">"@, left, right)),
    }
}

/// `LESS`: whether the left integer is the lesser one.
pub open spec fn less_of(left: ValueView, right: ValueView) -> Result<ValueView, Fault> {
    match (left, right) {
        (ValueView::Int(a), ValueView::Int(b)) => Ok(ValueView::Bool(a < b)),
        _ => Err(binary_undefined("<"@, left, right)),
    }
}

/// `TO_STRING`: the text that is printed for a value, as a string.
pub open spec fn to_string_of(value: ValueView) -> Result<ValueView, Fault> {
    Ok(ValueView::Object(ObjectView::String(output_text(value))))
}

/// `PARSE_INT`: the integer that a string stands for in decimal, or null
/// where it stands for none.
pub open spec fn parse_int_of(value: ValueView) -> Result<ValueView, Fault> {
    match value {
        ValueView::Object(ObjectView::String(text)) => match parsed_int(text) {
            Some(number) => Ok(ValueView::Int(number as int)),
            None => Ok(ValueView::Null),
        },
        _ => Err(unary_undefined("parse_int"@, value)),
    }
}

/// The faults of the operators are faults of the running program, and
/// equality has none: values of any two types can be compared.
pub proof fn operator_faults_are_runtime_faults(left: ValueView, right: ValueView)
    ensures
        equal_of(left, right) is Ok,
        to_string_of(left) is Ok,
        negate_of(left) matches Err(fault) ==> fault.severity == ExceptionType::Runtime,
        not_of(left) matches Err(fault) ==> fault.severity == ExceptionType::Runtime,
        parse_int_of(left) matches Err(fault) ==> fault.severity == ExceptionType::Runtime,
        plus_of(left, right) matches Err(fault) ==> fault.severity == ExceptionType::Runtime,
        minus_of(left, right) matches Err(fault) ==> fault.severity == ExceptionType::Runtime,
        multiply_of(left, right) matches Err(fault) ==> fault.severity == ExceptionType::Runtime,
        divide_of(left, right) matches Err(fault) ==> fault.severity == ExceptionType::Runtime,
        greater_of(left, right) matches Err(fault) ==> fault.severity == ExceptionType::Runtime,
        less_of(left, right) matches Err(fault) ==> fault.severity == ExceptionType::Runtime,
{
}

/// The integers that the arithmetic gives are 32 bits wide, and an integer
/// of 32 bits wraps around to itself.
pub proof fn wrapped_is_in_range(n: int)
    ensures
        i32::MIN <= wrapped(n) <= i32::MAX,
        i32::MIN <= n <= i32::MAX ==> wrapped(n) == n,
{
}

/// Whether an operator's answer is the expected value or fault.
pub open spec fn is_answer(
    answer: Result<JexValue, Exception>,
    expected: Result<ValueView, Fault>,
) -> bool {
    match answer {
        Ok(value) => expected == Ok::<ValueView, Fault>(value@),
        Err(exception) => expected == Err::<ValueView, Fault>(fault_of(exception)),
    }
}

/// The boolean `true`, as the instruction `TRUE` pushes it.
pub fn true_value() -> (value: JexValue)
    ensures
        value == JexValue::Bool(true),
{
    JexValue::Bool(true)
}

/// The boolean `false`, as the instruction `FALSE` pushes it.
pub fn false_value() -> (value: JexValue)
    ensures
        value == JexValue::Bool(false),
{
    JexValue::Bool(false)
}

/// Applies `NEGATE`.
pub fn negate(value: JexValue) -> (answer: Result<JexValue, Exception>)
    ensures
        is_answer(answer, negate_of(value@)),
{
    match value.as_int() {
        Some(i) => Ok(JexValue::Int(0i32.wrapping_sub(i))),
        None => Err(Exception::from(UnaryOperatorNotDefined::new("-", &value))),
    }
}

/// Applies `NOT`.
pub fn not(value: JexValue) -> (answer: Result<JexValue, Exception>)
    ensures
        is_answer(answer, not_of(value@)),
{
    match value.as_bool() {
        Some(b) => Ok(JexValue::Bool(!b)),
        None => Err(Exception::from(UnaryOperatorNotDefined::new("!", &value))),
    }
}

/// Applies `ADD`.
pub fn plus(left: JexValue, right: JexValue) -> (answer: Result<JexValue, Exception>)
    ensures
        is_answer(answer, plus_of(left@, right@)),
{
    match (left.as_int(), right.as_int()) {
        (Some(a), Some(b)) => {
            return Ok(JexValue::Int(a.wrapping_add(b)));
        },
        _ => {},
    }
    match (left.as_string(), right.as_string()) {
        (Some(a), Some(b)) => {
            let mut joined = a.clone();
            joined.append(b.as_str());
            Ok(JexValue::from_string(joined))
        },
        _ => Err(Exception::from(OperatorNotDefined::new("+", &left, &right))),
    }
}

/// Applies `SUBTRACT`.
pub fn minus(left: JexValue, right: JexValue) -> (answer: Result<JexValue, Exception>)
    ensures
        is_answer(answer, minus_of(left@, right@)),
{
    match (left.as_int(), right.as_int()) {
        (Some(a), Some(b)) => Ok(JexValue::Int(a.wrapping_sub(b))),
        _ => Err(Exception::from(OperatorNotDefined::new("-", &left, &right))),
    }
}

/// Applies `MULTIPLY`.
pub fn multiply(left: JexValue, right: JexValue) -> (answer: Result<JexValue, Exception>)
    ensures
        is_answer(answer, multiply_of(left@, right@)),
{
    match (left.as_int(), right.as_int()) {
        (Some(a), Some(b)) => Ok(JexValue::Int(a.wrapping_mul(b))),
        _ => Err(Exception::from(OperatorNotDefined::new("*", &left, &right))),
    }
}

/// The quotient of two integers, rounded towards zero and wrapped around.
fn quotient(dividend: i32, divisor: i32) -> (quotient: i32)
    requires
        divisor != 0,
    ensures
        quotient == wrapped(truncated_quotient(dividend as int, divisor as int)),
{
    let wide_dividend: i64 = dividend as i64;
    let wide_divisor: i64 = divisor as i64;
    let dividend_magnitude: u64 = if wide_dividend < 0 {
        (-wide_dividend) as u64
    } else {
        wide_dividend as u64
    };
    let divisor_magnitude: u64 = if wide_divisor < 0 {
        (-wide_divisor) as u64
    } else {
        wide_divisor as u64
    };
    let magnitude: u64 = dividend_magnitude / divisor_magnitude;
    assert(magnitude <= dividend_magnitude) by (nonlinear_arith)
        requires
            magnitude == dividend_magnitude / divisor_magnitude,
            divisor_magnitude >= 1,
    ;
    let signed: i64 = if (wide_dividend < 0) != (wide_divisor < 0) {
        -(magnitude as i64)
    } else {
        magnitude as i64
    };
    if signed > 2147483647 {
        i32::MIN
    } else {
        signed as i32
    }
}

/// Applies `DIVIDE`.
pub fn divide(left: JexValue, right: JexValue) -> (answer: Result<JexValue, Exception>)
    ensures
        is_answer(answer, divide_of(left@, right@)),
{
    match (left.as_int(), right.as_int()) {
        (Some(a), Some(b)) => if b == 0 {
            Err(Exception::from(DivisionByZero))
        } else {
            Ok(JexValue::Int(quotient(a, b)))
        },
        _ => Err(Exception::from(OperatorNotDefined::new("/", &left, &right))),
    }
}

/// Applies `EQUAL`.
pub fn equal(left: JexValue, right: JexValue) -> (answer: Result<JexValue, Exception>)
    ensures
        is_answer(answer, equal_of(left@, right@)),
{
    Ok(JexValue::Bool(left.eq(&right)))
}

/// Applies `GREATER`.
pub fn greater(left: JexValue, right: JexValue) -> (answer: Result<JexValue, Exception>)
    ensures
        is_answer(answer, greater_of(left@, right@)),
{
    match (left.as_int(), right.as_int()) {
        (Some(a), Some(b)) => Ok(JexValue::Bool(a > b)),
        _ => Err(Exception::from(OperatorNotDefined::new(">", &left, &right))),
    }
}

/// Applies `LESS`.
pub fn less(left: JexValue, right: JexValue) -> (answer: Result<JexValue, Exception>)
    ensures
        is_answer(answer, less_of(left@, right@)),
{
    match (left.as_int(), right.as_int()) {
        (Some(a), Some(b)) => Ok(JexValue::Bool(a < b)),
        _ => Err(Exception::from(OperatorNotDefined::new("<", &left, &right))),
    }
}

/// Applies `TO_STRING`.
pub fn to_string(value: JexValue) -> (answer: Result<JexValue, Exception>)
    ensures
        is_answer(answer, to_string_of(value@)),
{
    Ok(JexValue::from_string(value.to_output_string()))
}

/// Applies `PARSE_INT`.
pub fn parse_int(value: JexValue) -> (answer: Result<JexValue, Exception>)
    ensures
        is_answer(answer, parse_int_of(value@)),
{
    match value.as_string() {
        Some(text) => match parse_i32(text.as_str()) {
            Some(number) => Ok(JexValue::Int(number)),
            None => Ok(JexValue::null()),
        },
        None => Err(Exception::from(UnaryOperatorNotDefined::new("parse_int", &value))),
    }
}

/// `writeln!` to the standard output: writes the text and ends the line. A
/// failure to write is passed over.
#[verifier::external_body]
fn write_line(text: &str) {
    let _ = writeln!(std::io::stdout(), "{}", text);
}

/// The error of a read of the standard input, carried and never looked
/// into.
#[verifier::external_type_specification]
#[verifier::external_body]
pub struct ExInputError(std::io::Error);

/// `Stdin::lines`, its next item: the next line of the standard input
/// without its end of line, for which it waits; nothing at the end of the
/// input, and an error where the line cannot be read. What it gives depends
/// on the input, so nothing is promised of it.
#[verifier::external_body]
fn next_input_line() -> (line: Option<Result<String, std::io::Error>>) {
    std::io::stdin().lines().next()
}

/// The next line of the standard input, or nothing where there is none to
/// be had. What it gives depends on the input alone: `input_line` says what
/// becomes of each thing that the read can give.
fn read_input_line() -> (line: Option<String>) {
    input_line(next_input_line())
}

/// `PRINT`: writes the text of a value as a line of the standard output.
/// Its result is null.
pub fn print(value: JexValue) -> (answer: Result<JexValue, Exception>)
    ensures
        is_answer(answer, Ok(ValueView::Null)),
{
    let text = value.to_output_string();
    write_line(text.as_str());
    Ok(JexValue::null())
}

/// What a read of the standard input counts as: the line that was read, or
/// nothing at the end of the input. A line that could not be read counts as
/// the end of the input.
pub fn input_line(read: Option<Result<String, std::io::Error>>) -> (line: Option<String>)
    ensures
        line == (match read {
            Some(Ok(text)) => Some(text),
            _ => None,
        }),
{
    match read {
        Some(Ok(text)) => Some(text),
        _ => None,
    }
}

/// The value that `READ_LINE` pushes for what was read: the line as a
/// string, or null at the end of the input.
pub open spec fn line_value(line: Option<Seq<char>>) -> ValueView {
    match line {
        Some(text) => ValueView::Object(ObjectView::String(text)),
        None => ValueView::Null,
    }
}

/// The characters of a line that was read.
pub open spec fn line_text(line: Option<String>) -> Option<Seq<char>> {
    match line {
        Some(text) => Some(text@),
        None => None,
    }
}

/// Pushes the value of a line that was read.
pub fn push_line(machine: &mut JexMachine, line: Option<String>) -> (answer: Result<(), Exception>)
    ensures
        is_step(
            answer,
            view_of(final(machine)),
            done(view_of(old(machine)).pushed(line_value(line_text(line)))),
        ),
{
    match line {
        Some(text) => push(machine, JexValue::from_string(text)),
        None => push(machine, JexValue::null()),
    }
    Ok(())
}

/// `READ_LINE`: waits for a line of the standard input and pushes it as a
/// string, or pushes null at the end of the input.
pub fn read_line(machine: &mut JexMachine, args: InstructionPointer) -> (answer: Result<
    (),
    Exception,
>)
    ensures
        exists|line: Option<Seq<char>>|
            is_step(
                answer,
                view_of(final(machine)),
                done(view_of(old(machine)).pushed(#[trigger] line_value(line))),
            ),
{
    let line = read_input_line();
    let ghost read = line_text(line);
    let answer = push_line(machine, line);
    assert(is_step(
        answer,
        view_of(machine),
        done(view_of(old(machine)).pushed(line_value(read))),
    ));
    answer
}

} // verus!
