use serenity_bridge::error::BridgeError;
use serenity_bridge::host::{HostObject, HostValue};
use serenity_bridge::utils::call_forwarder::{
    coerce_to_bool, coerce_to_number, coerce_to_object, forward, forward_none, forward_one,
    forward_two, Invocation,
};

fn receiver() -> HostObject {
    let mut object = HostObject::new();
    object.set("run", HostValue::Function);
    object.set("label", HostValue::Text("not callable".to_string()));
    object
}

#[test]
fn forward_keeps_method_and_argument_order() {
    let arguments = vec![
        HostValue::Int32(1),
        HostValue::Text("two".to_string()),
        HostValue::Boolean(true),
    ];
    let invocation = forward(&receiver(), "run", arguments).unwrap();
    assert_eq!(invocation.method, "run");
    assert_eq!(
        invocation.arguments,
        vec![HostValue::Int32(1), HostValue::Text("two".to_string()), HostValue::Boolean(true)]
    );
}

#[test]
fn forward_without_the_method_is_method_not_found() {
    let object = receiver();
    let before = object.duplicate();
    let r = forward(&object, "walk", vec![HostValue::Int32(1)]);
    assert_eq!(r, Err(BridgeError::MethodNotFound("walk".to_string())));
    assert_eq!(object, before);
}

#[test]
fn forward_on_a_property_that_is_not_callable_is_method_not_found() {
    let r = forward(&receiver(), "label", Vec::new());
    assert_eq!(r, Err(BridgeError::MethodNotFound("label".to_string())));
}

#[test]
fn forward_on_an_empty_handle_is_method_not_found() {
    let r = forward_none(&HostObject::new(), "run");
    assert_eq!(r, Err(BridgeError::MethodNotFound("run".to_string())));
}

#[test]
fn forward_by_arity() {
    let none = forward_none(&receiver(), "run").unwrap();
    assert_eq!(none, Invocation { method: "run".to_string(), arguments: vec![] });
    let one = forward_one(&receiver(), "run", HostValue::Int32(5)).unwrap();
    assert_eq!(one.arguments, vec![HostValue::Int32(5)]);
    let two = forward_two(&receiver(), "run", HostValue::Int32(5), HostValue::Null).unwrap();
    assert_eq!(two.arguments, vec![HostValue::Int32(5), HostValue::Null]);
    assert_eq!(
        forward_one(&receiver(), "stop", HostValue::Int32(5)),
        Err(BridgeError::MethodNotFound("stop".to_string()))
    );
    assert_eq!(
        forward_two(&receiver(), "stop", HostValue::Int32(5), HostValue::Null),
        Err(BridgeError::MethodNotFound("stop".to_string()))
    );
}

#[test]
fn coerce_to_bool_accepts_booleans_only() {
    let mismatch = Err(BridgeError::ReturnTypeMismatch("hasAbility".to_string()));
    assert_eq!(coerce_to_bool("hasAbility", &HostValue::Boolean(true)), Ok(true));
    assert_eq!(coerce_to_bool("hasAbility", &HostValue::Boolean(false)), Ok(false));
    assert_eq!(coerce_to_bool("hasAbility", &HostValue::Int32(1)), mismatch);
    assert_eq!(coerce_to_bool("hasAbility", &HostValue::Undefined), mismatch);
}

#[test]
fn coerce_to_number_accepts_integers_only() {
    let mismatch = Err(BridgeError::ReturnTypeMismatch("getCurrentValue".to_string()));
    assert_eq!(coerce_to_number("getCurrentValue", &HostValue::Int32(20)), Ok(20));
    let double = HostValue::Double(20.0f64.to_bits());
    assert_eq!(coerce_to_number("getCurrentValue", &double), mismatch);
    assert_eq!(coerce_to_number("getCurrentValue", &HostValue::Text("20".to_string())), mismatch);
}

#[test]
fn coerce_to_object_accepts_objects_only() {
    let mismatch = Err(BridgeError::ReturnTypeMismatch("getType".to_string()));
    assert_eq!(coerce_to_object("getType", &HostValue::Object(receiver())), Ok(receiver()));
    assert_eq!(coerce_to_object("getType", &HostValue::Null), mismatch);
    assert_eq!(coerce_to_object("getType", &HostValue::Function), mismatch);
}
