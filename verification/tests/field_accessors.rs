use serenity_bridge::error::BridgeError;
use serenity_bridge::host::{HostObject, HostValue};
use serenity_bridge::utils::fields::{
    expect_object, optional_boolean, optional_number, optional_string, required_bigint,
    required_boolean, required_float64, required_number, required_object, required_string,
    violation_of,
};
use serenity_bridge::utils::node_converter::{
    convert_to_js_boolean, convert_to_js_number, convert_to_js_string, create_node_float64,
    create_node_number, create_node_object, get_node_bigint, get_node_boolean, get_node_float64,
    get_node_func, get_node_number, get_node_object, get_node_string,
};

fn sample() -> HostObject {
    let mut nested = HostObject::new();
    nested.set("inner", HostValue::Int32(1));
    let mut object = HostObject::new();
    object.set("text", HostValue::Text("hello".to_string()));
    object.set("int", HostValue::Int32(-42));
    object.set("double", HostValue::Double(64.0f64.to_bits()));
    object.set("flag", HostValue::Boolean(true));
    object.set("big", HostValue::BigInt(18_446_744_073_709_551_615));
    object.set("nested", HostValue::Object(nested));
    object.set("method", HostValue::Function);
    object.set("nothing", HostValue::Null);
    object.set("undefined", HostValue::Undefined);
    object
}

fn missing(name: &str) -> BridgeError {
    BridgeError::FieldMissingOrWrongType(name.to_string())
}

#[test]
fn get_node_string_reads_text() {
    assert_eq!(get_node_string(&sample(), "text"), Ok("hello".to_string()));
}

#[test]
fn get_node_string_refuses_missing_and_mistyped() {
    assert_eq!(get_node_string(&sample(), "absent"), Err(missing("absent")));
    assert_eq!(get_node_string(&sample(), "int"), Err(missing("int")));
    assert_eq!(get_node_string(&sample(), "nothing"), Err(missing("nothing")));
}

#[test]
fn get_node_number_reads_integer() {
    assert_eq!(get_node_number(&sample(), "int"), Ok(-42));
}

#[test]
fn get_node_number_refuses_missing_and_mistyped() {
    assert_eq!(get_node_number(&sample(), "absent"), Err(missing("absent")));
    assert_eq!(get_node_number(&sample(), "text"), Err(missing("text")));
    assert_eq!(get_node_number(&sample(), "double"), Err(missing("double")));
    assert_eq!(get_node_number(&sample(), "big"), Err(missing("big")));
}

#[test]
fn get_node_float64_reads_bits() {
    let bits = get_node_float64(&sample(), "double").unwrap();
    assert_eq!(f64::from_bits(bits), 64.0);
}

#[test]
fn get_node_float64_refuses_missing_and_mistyped() {
    assert_eq!(get_node_float64(&sample(), "absent"), Err(missing("absent")));
    assert_eq!(get_node_float64(&sample(), "int"), Err(missing("int")));
}

#[test]
fn get_node_boolean_reads_flag() {
    assert_eq!(get_node_boolean(&sample(), "flag"), Ok(true));
}

#[test]
fn get_node_boolean_refuses_missing_and_mistyped() {
    assert_eq!(get_node_boolean(&sample(), "absent"), Err(missing("absent")));
    assert_eq!(get_node_boolean(&sample(), "int"), Err(missing("int")));
    assert_eq!(get_node_boolean(&sample(), "undefined"), Err(missing("undefined")));
}

#[test]
fn get_node_bigint_reads_number() {
    assert_eq!(get_node_bigint(&sample(), "big"), Ok(u64::MAX));
}

#[test]
fn get_node_bigint_refuses_missing_and_mistyped() {
    assert_eq!(get_node_bigint(&sample(), "absent"), Err(missing("absent")));
    assert_eq!(get_node_bigint(&sample(), "int"), Err(missing("int")));
}

#[test]
fn get_node_object_copies_nested_object() {
    let nested = get_node_object(&sample(), "nested").unwrap();
    assert_eq!(nested.get("inner"), Some(&HostValue::Int32(1)));
    assert_eq!(nested.properties.len(), 1);
}

#[test]
fn get_node_object_refuses_missing_and_mistyped() {
    assert_eq!(get_node_object(&sample(), "absent"), Err(missing("absent")));
    assert_eq!(get_node_object(&sample(), "text"), Err(missing("text")));
    assert_eq!(get_node_object(&sample(), "method"), Err(missing("method")));
    assert_eq!(get_node_object(&sample(), "nothing"), Err(missing("nothing")));
}

#[test]
fn get_node_func_resolves_callable() {
    let function = get_node_func(&sample(), "method").unwrap();
    assert_eq!(function.name, "method");
}

#[test]
fn get_node_func_refuses_missing_and_mistyped() {
    assert_eq!(get_node_func(&sample(), "absent"), Err(missing("absent")));
    assert_eq!(get_node_func(&sample(), "nested"), Err(missing("nested")));
    assert_eq!(get_node_func(&sample(), "text"), Err(missing("text")));
}

#[test]
fn construction_gives_values_of_the_right_kind() {
    assert_eq!(create_node_object(), HostObject::new());
    assert_eq!(create_node_number(i32::MIN), HostValue::Int32(i32::MIN));
    assert_eq!(convert_to_js_number(i32::MAX), HostValue::Int32(i32::MAX));
    assert_eq!(create_node_float64(1.5f64.to_bits()), HostValue::Double(0x3FF8_0000_0000_0000));
    assert_eq!(convert_to_js_string("abc"), HostValue::Text("abc".to_string()));
    assert_eq!(convert_to_js_string(""), HostValue::Text(String::new()));
    assert_eq!(convert_to_js_boolean(false), HostValue::Boolean(false));
    assert_eq!(convert_to_js_boolean(true), HostValue::Boolean(true));
}

#[test]
fn constructed_values_are_read_back() {
    let mut object = create_node_object();
    object.set("n", convert_to_js_number(7));
    object.set("s", convert_to_js_string("seven"));
    object.set("b", convert_to_js_boolean(true));
    object.set("d", create_node_float64((-0.0f64).to_bits()));
    assert_eq!(get_node_number(&object, "n"), Ok(7));
    assert_eq!(get_node_string(&object, "s"), Ok("seven".to_string()));
    assert_eq!(get_node_boolean(&object, "b"), Ok(true));
    assert_eq!(get_node_float64(&object, "d"), Ok(0x8000_0000_0000_0000));
}

#[test]
fn required_fields_name_the_violation() {
    let violation = |name: &str| BridgeError::SchemaViolation(name.to_string());
    assert_eq!(violation_of("identifier"), violation("identifier"));
    assert_eq!(required_string(&sample(), "text"), Ok("hello".to_string()));
    assert_eq!(required_string(&sample(), "absent"), Err(violation("absent")));
    assert_eq!(required_number(&sample(), "int"), Ok(-42));
    assert_eq!(required_number(&sample(), "text"), Err(violation("text")));
    assert_eq!(required_float64(&sample(), "double"), Ok(64.0f64.to_bits()));
    assert_eq!(required_float64(&sample(), "int"), Err(violation("int")));
    assert_eq!(required_boolean(&sample(), "flag"), Ok(true));
    assert_eq!(required_boolean(&sample(), "absent"), Err(violation("absent")));
    assert_eq!(required_bigint(&sample(), "big"), Ok(u64::MAX));
    assert_eq!(required_bigint(&sample(), "flag"), Err(violation("flag")));
    assert!(required_object(&sample(), "nested").is_ok());
    assert_eq!(required_object(&sample(), "int"), Err(violation("int")));
}

#[test]
fn optional_fields_fall_back_to_the_default() {
    assert_eq!(optional_string(&sample(), "text", "fallback"), "hello");
    assert_eq!(optional_string(&sample(), "absent", "fallback"), "fallback");
    assert_eq!(optional_string(&sample(), "int", ""), "");
    assert_eq!(optional_number(&sample(), "int", 5), -42);
    assert_eq!(optional_number(&sample(), "absent", 5), 5);
    assert_eq!(optional_number(&sample(), "text", 0), 0);
    assert!(optional_boolean(&sample(), "flag", false));
    assert!(!optional_boolean(&sample(), "absent", false));
    assert!(optional_boolean(&sample(), "text", true));
}

#[test]
fn expect_object_accepts_objects_only() {
    assert_eq!(expect_object(HostValue::Object(sample())), Ok(sample()));
    assert_eq!(expect_object(HostValue::Null), Err(BridgeError::NotAnObject));
    assert_eq!(expect_object(HostValue::Undefined), Err(BridgeError::NotAnObject));
    assert_eq!(expect_object(HostValue::Int32(3)), Err(BridgeError::NotAnObject));
    assert_eq!(expect_object(HostValue::Function), Err(BridgeError::NotAnObject));
    assert_eq!(expect_object(HostValue::Text("{}".to_string())), Err(BridgeError::NotAnObject));
}
