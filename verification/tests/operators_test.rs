use extendable_vm::{Exception, ExceptionType};
use jex_vm::instructions::operator_implementations::{
    divide, equal, false_value, greater, input_line, less, minus, multiply, negate, not,
    parse_int, plus, print, to_string, true_value,
};
use jex_vm::values::values::{JexFunction, JexValue};

fn number(i: i32) -> JexValue {
    JexValue::Int(i)
}

fn text(s: &str) -> JexValue {
    JexValue::from_string(s.to_string())
}

fn assert_binary_undefined(fault: Exception, operator: &str, left: &str, right: &str) {
    assert!(matches!(fault.exception_type, ExceptionType::Runtime));
    assert_eq!(fault.name, "OperatorUndefined");
    assert_eq!(
        fault.message,
        format!("Binary operator {} is not defined for types {} and {}", operator, left, right)
    );
}

fn assert_unary_undefined(fault: Exception, operator: &str, operand: &str) {
    assert!(matches!(fault.exception_type, ExceptionType::Runtime));
    assert_eq!(fault.name, "UnaryOperatorNotDefined");
    assert_eq!(
        fault.message,
        format!("Unary operator {} is not defined for type {}", operator, operand)
    );
}

#[test]
fn the_boolean_literals_are_true_and_false() {
    assert_eq!(true_value(), JexValue::Bool(true));
    assert_eq!(false_value(), JexValue::Bool(false));
}

#[test]
fn negate_gives_the_negative() {
    assert_eq!(negate(number(5)).unwrap(), number(-5));
    assert_eq!(negate(number(-5)).unwrap(), number(5));
    assert_eq!(negate(number(0)).unwrap(), number(0));
    assert_eq!(negate(number(i32::MAX)).unwrap(), number(-i32::MAX));
}

#[test]
fn negate_wraps_around_at_the_least_integer() {
    assert_eq!(negate(number(i32::MIN)).unwrap(), number(i32::MIN));
}

#[test]
fn negate_is_defined_for_integers_only() {
    assert_unary_undefined(negate(JexValue::Bool(true)).unwrap_err(), "-", "bool");
    assert_unary_undefined(negate(text("1")).unwrap_err(), "-", "string");
    assert_unary_undefined(negate(JexValue::null()).unwrap_err(), "-", "null");
}

#[test]
fn not_gives_the_other_boolean() {
    assert_eq!(not(JexValue::Bool(true)).unwrap(), JexValue::Bool(false));
    assert_eq!(not(JexValue::Bool(false)).unwrap(), JexValue::Bool(true));
}

#[test]
fn not_is_defined_for_booleans_only() {
    assert_unary_undefined(not(number(0)).unwrap_err(), "!", "int");
    assert_unary_undefined(not(JexValue::null()).unwrap_err(), "!", "null");
    assert_unary_undefined(not(JexValue::new_object()).unwrap_err(), "!", "object");
}

#[test]
fn plus_adds_integers() {
    assert_eq!(plus(number(2), number(3)).unwrap(), number(5));
    assert_eq!(plus(number(-2), number(3)).unwrap(), number(1));
    assert_eq!(plus(number(i32::MAX), number(0)).unwrap(), number(i32::MAX));
}

#[test]
fn plus_wraps_around() {
    assert_eq!(plus(number(i32::MAX), number(1)).unwrap(), number(i32::MIN));
    assert_eq!(plus(number(i32::MIN), number(-1)).unwrap(), number(i32::MAX));
    assert_eq!(plus(number(i32::MAX), number(i32::MAX)).unwrap(), number(-2));
}

#[test]
fn plus_joins_strings() {
    assert_eq!(plus(text("ab"), text("cd")).unwrap(), text("abcd"));
    assert_eq!(plus(text(""), text("x")).unwrap(), text("x"));
}

#[test]
fn plus_is_undefined_for_mixed_operands() {
    assert_binary_undefined(plus(number(1), text("a")).unwrap_err(), "+", "int", "string");
    assert_binary_undefined(plus(text("a"), number(1)).unwrap_err(), "+", "string", "int");
    assert_binary_undefined(
        plus(JexValue::Bool(true), JexValue::null()).unwrap_err(),
        "+",
        "bool",
        "null",
    );
}

#[test]
fn minus_subtracts_the_right_from_the_left() {
    assert_eq!(minus(number(5), number(3)).unwrap(), number(2));
    assert_eq!(minus(number(3), number(5)).unwrap(), number(-2));
    assert_eq!(minus(number(i32::MIN), number(1)).unwrap(), number(i32::MAX));
    assert_eq!(minus(number(0), number(i32::MIN)).unwrap(), number(i32::MIN));
    assert_binary_undefined(minus(text("a"), text("b")).unwrap_err(), "-", "string", "string");
}

#[test]
fn multiply_gives_the_product() {
    assert_eq!(multiply(number(6), number(7)).unwrap(), number(42));
    assert_eq!(multiply(number(-6), number(7)).unwrap(), number(-42));
    assert_eq!(multiply(number(65536), number(65536)).unwrap(), number(0));
    assert_eq!(multiply(number(i32::MAX), number(2)).unwrap(), number(-2));
    assert_eq!(multiply(number(i32::MIN), number(-1)).unwrap(), number(i32::MIN));
    assert_eq!(multiply(number(123456789), number(987654321)).unwrap(), number(123456789i32.wrapping_mul(987654321)));
    assert_binary_undefined(
        multiply(number(1), JexValue::Function(JexFunction::Script)).unwrap_err(),
        "*",
        "int",
        "function",
    );
}

#[test]
fn divide_rounds_towards_zero() {
    assert_eq!(divide(number(7), number(2)).unwrap(), number(3));
    assert_eq!(divide(number(-7), number(2)).unwrap(), number(-3));
    assert_eq!(divide(number(7), number(-2)).unwrap(), number(-3));
    assert_eq!(divide(number(-7), number(-2)).unwrap(), number(3));
    assert_eq!(divide(number(0), number(5)).unwrap(), number(0));
    assert_eq!(divide(number(1), number(i32::MIN)).unwrap(), number(0));
    assert_eq!(divide(number(i32::MIN), number(1)).unwrap(), number(i32::MIN));
    assert_eq!(divide(number(i32::MIN), number(2)).unwrap(), number(-1073741824));
}

#[test]
fn divide_wraps_around_for_the_least_integer_by_minus_one() {
    assert_eq!(divide(number(i32::MIN), number(-1)).unwrap(), number(i32::MIN));
}

#[test]
fn divide_by_zero_is_a_fault() {
    for dividend in [0, 1, -1, i32::MIN, i32::MAX] {
        let fault = divide(number(dividend), number(0)).unwrap_err();
        assert!(matches!(fault.exception_type, ExceptionType::Runtime));
        assert_eq!(fault.name, "DivisionByZero");
        assert_eq!(fault.message, "Division by zero");
    }
    assert_binary_undefined(divide(number(1), JexValue::null()).unwrap_err(), "/", "int", "null");
}

#[test]
fn division_agrees_with_the_wrapping_division_of_the_machine() {
    let samples = [i32::MIN, i32::MIN + 1, -1000, -7, -1, 0, 1, 7, 1000, i32::MAX - 1, i32::MAX];
    for a in samples {
        for b in samples {
            if b != 0 {
                assert_eq!(divide(number(a), number(b)).unwrap(), number(a.wrapping_div(b)));
            }
            assert_eq!(plus(number(a), number(b)).unwrap(), number(a.wrapping_add(b)));
            assert_eq!(minus(number(a), number(b)).unwrap(), number(a.wrapping_sub(b)));
            assert_eq!(multiply(number(a), number(b)).unwrap(), number(a.wrapping_mul(b)));
        }
        assert_eq!(negate(number(a)).unwrap(), number(a.wrapping_neg()));
    }
}

#[test]
fn equal_compares_any_two_values() {
    assert_eq!(equal(number(1), number(1)).unwrap(), JexValue::Bool(true));
    assert_eq!(equal(number(1), number(2)).unwrap(), JexValue::Bool(false));
    assert_eq!(equal(number(1), JexValue::Bool(true)).unwrap(), JexValue::Bool(false));
    assert_eq!(equal(text("a"), text("a")).unwrap(), JexValue::Bool(true));
    assert_eq!(equal(JexValue::null(), JexValue::null()).unwrap(), JexValue::Bool(true));
    let instance = JexValue::new_object();
    assert_eq!(equal(instance.clone(), instance).unwrap(), JexValue::Bool(true));
    assert_eq!(
        equal(JexValue::new_object(), JexValue::new_object()).unwrap(),
        JexValue::Bool(false)
    );
}

#[test]
fn greater_and_less_compare_integers() {
    assert_eq!(greater(number(2), number(1)).unwrap(), JexValue::Bool(true));
    assert_eq!(greater(number(1), number(2)).unwrap(), JexValue::Bool(false));
    assert_eq!(greater(number(1), number(1)).unwrap(), JexValue::Bool(false));
    assert_eq!(less(number(1), number(2)).unwrap(), JexValue::Bool(true));
    assert_eq!(less(number(2), number(1)).unwrap(), JexValue::Bool(false));
    assert_eq!(less(number(1), number(1)).unwrap(), JexValue::Bool(false));
    assert_eq!(less(number(i32::MIN), number(i32::MAX)).unwrap(), JexValue::Bool(true));
    assert_binary_undefined(greater(text("b"), text("a")).unwrap_err(), ">", "string", "string");
    assert_binary_undefined(less(JexValue::Bool(false), number(1)).unwrap_err(), "<", "bool", "int");
}

#[test]
fn to_string_gives_the_printed_text() {
    assert_eq!(to_string(number(-12)).unwrap(), text("-12"));
    assert_eq!(to_string(JexValue::Bool(true)).unwrap(), text("true"));
    assert_eq!(to_string(JexValue::null()).unwrap(), text("null"));
    assert_eq!(to_string(text("as is")).unwrap(), text("as is"));
    assert_eq!(to_string(JexValue::new_object()).unwrap(), text("object"));
}

#[test]
fn parse_int_reads_a_decimal_integer() {
    assert_eq!(parse_int(text("0")).unwrap(), number(0));
    assert_eq!(parse_int(text("42")).unwrap(), number(42));
    assert_eq!(parse_int(text("-42")).unwrap(), number(-42));
    assert_eq!(parse_int(text("+42")).unwrap(), number(42));
    assert_eq!(parse_int(text("007")).unwrap(), number(7));
    assert_eq!(parse_int(text("-0")).unwrap(), number(0));
    assert_eq!(parse_int(text("2147483647")).unwrap(), number(i32::MAX));
    assert_eq!(parse_int(text("-2147483648")).unwrap(), number(i32::MIN));
}

#[test]
fn parse_int_gives_null_for_other_text() {
    for other in ["", "-", "+", "abc", "12a", " 12", "12 ", "1.5", "--1", "+-1", "2147483648", "-2147483649", "٣"] {
        assert_eq!(parse_int(text(other)).unwrap(), JexValue::null(), "for {:?}", other);
    }
}

#[test]
fn parse_int_is_defined_for_strings_only() {
    assert_unary_undefined(parse_int(number(1)).unwrap_err(), "parse_int", "int");
    assert_unary_undefined(parse_int(JexValue::null()).unwrap_err(), "parse_int", "null");
}

#[test]
fn print_gives_null() {
    assert_eq!(print(number(12)).unwrap(), JexValue::null());
    assert_eq!(print(text("printed by a test")).unwrap(), JexValue::null());
    assert_eq!(print(JexValue::new_object()).unwrap(), JexValue::null());
}

#[test]
fn a_line_that_cannot_be_read_counts_as_the_end_of_the_input() {
    assert_eq!(input_line(Some(Ok("a line".to_string()))), Some("a line".to_string()));
    assert_eq!(input_line(Some(Ok(String::new()))), Some(String::new()));
    assert_eq!(input_line(None), None);
    let failure = std::io::Error::new(std::io::ErrorKind::InvalidData, "not text");
    assert_eq!(input_line(Some(Err(failure))), None);
}
