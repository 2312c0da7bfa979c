use jex_vm::text::{parse_i32, render_int, render_unsigned, render_usize};

#[test]
fn unsigned_numbers_render_in_decimal() {
    assert_eq!(render_unsigned(0), "0");
    assert_eq!(render_unsigned(9), "9");
    assert_eq!(render_unsigned(10), "10");
    assert_eq!(render_unsigned(1234567890), "1234567890");
    assert_eq!(render_unsigned(u64::MAX), "18446744073709551615");
    assert_eq!(render_usize(255), "255");
}

#[test]
fn signed_numbers_render_with_a_minus_sign() {
    assert_eq!(render_int(0), "0");
    assert_eq!(render_int(5), "5");
    assert_eq!(render_int(-5), "-5");
    assert_eq!(render_int(-100), "-100");
    assert_eq!(render_int(i32::MAX), "2147483647");
    assert_eq!(render_int(i32::MIN), "-2147483648");
}

#[test]
fn rendering_agrees_with_the_standard_formatting() {
    let mut n: i64 = i32::MIN as i64;
    while n <= i32::MAX as i64 {
        assert_eq!(render_int(n as i32), format!("{}", n));
        n += 104729;
    }
}

#[test]
fn decimal_text_is_parsed_to_an_integer() {
    assert_eq!(parse_i32("0"), Some(0));
    assert_eq!(parse_i32("-17"), Some(-17));
    assert_eq!(parse_i32("+17"), Some(17));
    assert_eq!(parse_i32("0017"), Some(17));
    assert_eq!(parse_i32("2147483647"), Some(i32::MAX));
    assert_eq!(parse_i32("-2147483648"), Some(i32::MIN));
    assert_eq!(parse_i32("2147483648"), None);
    assert_eq!(parse_i32(""), None);
    assert_eq!(parse_i32("-"), None);
    assert_eq!(parse_i32("1 "), None);
    assert_eq!(parse_i32("0x10"), None);
}

#[test]
fn parsing_undoes_rendering() {
    let mut n: i64 = i32::MIN as i64;
    while n <= i32::MAX as i64 {
        assert_eq!(parse_i32(&render_int(n as i32)), Some(n as i32));
        n += 7919 * 1013;
    }
}
