use jex_vm::values::get_type::GetType;
use jex_vm::values::to_output_string::ToOutputString;
use jex_vm::values::values::{JexFunction, JexInstance, JexNull, JexObject, JexValue};

#[test]
fn cloned_strings_should_be_equal() {
    let str = JexValue::from_string("a".to_string());
    let str2 = str.clone();
    assert_eq!(str, str2);
}

#[test]
fn identical_strings_should_be_equal() {
    let str = JexValue::from_string("a".to_string());
    let str2 = JexValue::from_string("a".to_string());
    assert_eq!(str, str2);
}

#[test]
fn different_strings_should_be_equal() {
    let str = JexValue::from_string("a".to_string());
    let str2 = JexValue::from_string("b".to_string());
    assert_ne!(str, str2);
}

#[test]
fn two_empty_objects_should_not_be_equal() {
    let obj = JexValue::new_object();
    let obj2 = JexValue::new_object();
    assert_ne!(obj, obj2);
}

#[test]
fn two_cloned_objects_should_be_equal() {
    let obj = JexValue::new_object();
    let obj2 = obj.clone();
    assert_eq!(obj, obj2);
}

fn one_of_each_kind() -> Vec<JexValue> {
    vec![
        JexValue::null(),
        JexValue::Int(0),
        JexValue::Bool(false),
        JexValue::from_string("".to_string()),
        JexValue::new_object(),
        JexValue::Function(JexFunction::Script),
    ]
}

#[test]
fn values_of_different_kinds_are_never_equal() {
    let values = one_of_each_kind();
    for (i, left) in values.iter().enumerate() {
        for (j, right) in values.iter().enumerate() {
            if i == j {
                assert!(left == right);
                assert!(!(left != right));
            } else {
                assert!(left != right);
                assert!(!(left == right));
            }
        }
    }
}

#[test]
fn zero_is_not_false_and_not_null() {
    assert_ne!(JexValue::Int(0), JexValue::Bool(false));
    assert_ne!(JexValue::Int(0), JexValue::null());
    assert_ne!(JexValue::Int(1), JexValue::Bool(true));
    assert_ne!(JexValue::from_string("1".to_string()), JexValue::Int(1));
}

#[test]
fn integers_and_booleans_are_equal_by_value() {
    assert_eq!(JexValue::Int(7), JexValue::Int(7));
    assert_ne!(JexValue::Int(7), JexValue::Int(8));
    assert_eq!(JexValue::Bool(true), JexValue::Bool(true));
    assert_ne!(JexValue::Bool(true), JexValue::Bool(false));
    assert_eq!(JexValue::null(), JexValue::Null(JexNull));
}

#[test]
fn functions_are_equal_by_arity_chunk_and_name() {
    let make = |arity: usize, chunk_id: usize, name: &str| {
        JexValue::Function(JexFunction::Function { arity, chunk_id, name: name.to_string() })
    };
    assert_eq!(make(2, 1, "f"), make(2, 1, "f"));
    assert_ne!(make(2, 1, "f"), make(3, 1, "f"));
    assert_ne!(make(2, 1, "f"), make(2, 2, "f"));
    assert_ne!(make(2, 1, "f"), make(2, 1, "g"));
    assert_ne!(make(0, 0, "<script>"), JexValue::Function(JexFunction::Script));
    assert_eq!(JexValue::Function(JexFunction::Script), JexValue::Function(JexFunction::Script));
}

#[test]
fn instances_with_equal_fields_are_still_different() {
    let first = JexValue::new_object();
    let second = JexValue::new_object();
    first.as_instance().unwrap().put_field("f".to_string(), JexValue::Int(1));
    second.as_instance().unwrap().put_field("f".to_string(), JexValue::Int(1));
    assert_ne!(first, second);
}

#[test]
fn a_clone_of_an_instance_shares_its_fields() {
    let first = JexValue::new_object();
    let alias = first.clone();
    assert!(alias.as_instance().unwrap().is_empty());
    first.as_instance().unwrap().put_field("f".to_string(), JexValue::Bool(true));
    assert!(!alias.as_instance().unwrap().is_empty());
    assert_eq!(alias.as_instance().unwrap().get_field("f"), Some(JexValue::Bool(true)));
    alias.as_instance().unwrap().put_field("f".to_string(), JexValue::Int(3));
    assert_eq!(first.as_instance().unwrap().get_field("f"), Some(JexValue::Int(3)));
    assert_eq!(first, alias);
}

#[test]
fn a_new_instance_has_no_fields() {
    let instance = JexInstance::new();
    assert!(instance.is_empty());
    assert_eq!(instance.get_field("f"), None);
    let by_default = JexInstance::default();
    assert!(by_default.is_empty());
}

#[test]
fn put_field_replaces_the_value_under_a_name() {
    let instance = JexInstance::new();
    instance.put_field("a".to_string(), JexValue::Int(1));
    instance.put_field("b".to_string(), JexValue::Int(2));
    instance.put_field("a".to_string(), JexValue::Int(3));
    assert_eq!(instance.get_field("a"), Some(JexValue::Int(3)));
    assert_eq!(instance.get_field("b"), Some(JexValue::Int(2)));
    assert_eq!(instance.get_field("c"), None);
}

#[test]
fn an_instance_can_hold_itself() {
    let value = JexValue::new_object();
    value.as_instance().unwrap().put_field("me".to_string(), value.clone());
    let inner = value.as_instance().unwrap().get_field("me").unwrap();
    assert_eq!(inner, value);
}

#[test]
fn projections_answer_for_their_own_variant_only() {
    let values = one_of_each_kind();
    let is_some: Vec<[bool; 6]> = values
        .iter()
        .map(|value| {
            [
                value.as_int().is_some(),
                value.as_bool().is_some(),
                value.as_object().is_some(),
                value.as_string().is_some(),
                value.as_instance().is_some(),
                value.as_function().is_some(),
            ]
        })
        .collect();
    assert_eq!(is_some[0], [false, false, false, false, false, false]);
    assert_eq!(is_some[1], [true, false, false, false, false, false]);
    assert_eq!(is_some[2], [false, true, false, false, false, false]);
    assert_eq!(is_some[3], [false, false, true, true, false, false]);
    assert_eq!(is_some[4], [false, false, false, false, true, false]);
    assert_eq!(is_some[5], [false, false, false, false, false, true]);
}

#[test]
fn projections_give_the_payload() {
    assert_eq!(JexValue::Int(-12).as_int(), Some(-12));
    assert_eq!(JexValue::Bool(true).as_bool(), Some(true));
    let text = JexValue::from_string("héllo".to_string());
    assert_eq!(text.as_string(), Some(&"héllo".to_string()));
    assert!(matches!(text.as_object(), Some(JexObject::String(inner)) if inner == "héllo"));
    let function = JexValue::Function(JexFunction::Function {
        arity: 2,
        chunk_id: 5,
        name: "sum".to_string(),
    });
    assert!(matches!(
        function.as_function(),
        Some(JexFunction::Function { arity: 2, chunk_id: 5, name }) if name == "sum"
    ));
}

#[test]
fn values_print_as_their_literal_form() {
    assert_eq!(JexValue::Int(0).to_output_string(), "0");
    assert_eq!(JexValue::Int(42).to_output_string(), "42");
    assert_eq!(JexValue::Int(-7).to_output_string(), "-7");
    assert_eq!(JexValue::Int(i32::MAX).to_output_string(), "2147483647");
    assert_eq!(JexValue::Int(i32::MIN).to_output_string(), "-2147483648");
    assert_eq!(JexValue::Bool(true).to_output_string(), "true");
    assert_eq!(JexValue::Bool(false).to_output_string(), "false");
    assert_eq!(JexValue::null().to_output_string(), "null");
    assert_eq!(JexValue::from_string("a b".to_string()).to_output_string(), "a b");
    assert_eq!(JexValue::new_object().to_output_string(), "object");
    assert_eq!(JexValue::Function(JexFunction::Script).to_output_string(), "<script>");
    let function = JexFunction::Function { arity: 1, chunk_id: 3, name: "twice".to_string() };
    assert_eq!(function.to_output_string(), "twice");
    assert_eq!(JexValue::Function(function).to_output_string(), "twice");
}

#[test]
fn diagnostics_show_strings_in_quotes() {
    assert_eq!(JexValue::from_string("a b".to_string()).to_debug_string(), "\"a b\"");
    assert_eq!(JexValue::from_string("".to_string()).to_debug_string(), "\"\"");
    assert_eq!(JexValue::Int(-7).to_debug_string(), "-7");
    assert_eq!(JexValue::Bool(true).to_debug_string(), "true");
    assert_eq!(JexValue::null().to_debug_string(), "null");
    assert_eq!(JexValue::new_object().to_debug_string(), "object");
    assert_eq!(JexValue::Function(JexFunction::Script).to_debug_string(), "<script>");
    let instance = JexValue::new_object();
    instance.as_instance().unwrap().put_field("secret".to_string(), JexValue::Int(1));
    assert_eq!(instance.to_debug_string(), "object");
}

#[test]
fn every_kind_of_value_has_a_type_name() {
    let names: Vec<String> = one_of_each_kind().iter().map(|value| value.get_type()).collect();
    assert_eq!(names, vec!["null", "int", "bool", "string", "object", "function"]);
}

#[test]
fn debug_formatting_is_the_rendering_for_diagnostics() {
    assert_eq!(format!("{:?}", JexValue::Int(-7)), "-7");
    assert_eq!(format!("{:?}", JexValue::Bool(false)), "false");
    assert_eq!(format!("{:?}", JexValue::null()), "null");
    assert_eq!(format!("{:?}", JexValue::from_string("a b".to_string())), "\"a b\"");
    assert_eq!(format!("{:?}", JexObject::String("q\"q".to_string())), "\"q\"q\"");
    assert_eq!(format!("{:?}", JexValue::new_object()), "object");
    assert_eq!(format!("{:?}", JexValue::Function(JexFunction::Script)), "<script>");
    let stack = vec![JexValue::Int(1), JexValue::from_string("x".to_string())];
    assert_eq!(format!("{:?}", stack), "[1, \"x\"]");
}
