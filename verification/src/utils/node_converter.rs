use crate::error::{BridgeError, BridgeErrorView};
use crate::host::{lookup, HostObject, HostValue, PropertyView, ValueView};
use vstd::prelude::*;

verus! {

/// A property of a handle that was found to be callable.
#[derive(Debug, PartialEq, Eq)]
pub struct HostFunction {
    pub name: String,
}

/// The text that the property called `name` holds, if it holds text.
pub open spec fn text_at(object: Seq<PropertyView>, name: Seq<char>) -> Option<Seq<char>> {
    match lookup(object, name) {
        Some(ValueView::Text(text)) => Some(text),
        _ => None,
    }
}

/// The 32-bit integer that the property called `name` holds, if it holds one.
pub open spec fn int_at(object: Seq<PropertyView>, name: Seq<char>) -> Option<i32> {
    match lookup(object, name) {
        Some(ValueView::Int32(number)) => Some(number),
        _ => None,
    }
}

/// The bits of the double that the property called `name` holds, if it holds
/// one.
pub open spec fn double_at(object: Seq<PropertyView>, name: Seq<char>) -> Option<u64> {
    match lookup(object, name) {
        Some(ValueView::Double(bits)) => Some(bits),
        _ => None,
    }
}

/// The boolean that the property called `name` holds, if it holds one.
pub open spec fn boolean_at(object: Seq<PropertyView>, name: Seq<char>) -> Option<bool> {
    match lookup(object, name) {
        Some(ValueView::Boolean(flag)) => Some(flag),
        _ => None,
    }
}

/// The big integer that the property called `name` holds, if it holds one.
pub open spec fn bigint_at(object: Seq<PropertyView>, name: Seq<char>) -> Option<u64> {
    match lookup(object, name) {
        Some(ValueView::BigInt(number)) => Some(number),
        _ => None,
    }
}

/// The object that the property called `name` holds, if it holds one.
pub open spec fn object_at(object: Seq<PropertyView>, name: Seq<char>) -> Option<
    Seq<PropertyView>,
> {
    match lookup(object, name) {
        Some(ValueView::Object(nested)) => Some(nested),
        _ => None,
    }
}

/// Whether the property called `name` exists and can be called.
pub open spec fn callable_at(object: Seq<PropertyView>, name: Seq<char>) -> bool {
    lookup(object, name) == Some(ValueView::Function)
}

/// The error of an extraction that found no property of the requested kind.
fn missing(name: &str) -> (r: BridgeError)
    ensures
        r@ == BridgeErrorView::FieldMissingOrWrongType(name@),
{
    BridgeError::FieldMissingOrWrongType(name.to_owned())
}

/// Extracts the callable property called `name`.
pub fn get_node_func(object: &HostObject, name: &str) -> (r: Result<HostFunction, BridgeError>)
    ensures
        match r {
            Ok(function) => callable_at(object@, name@) && function.name@ == name@,
            Err(error) => !callable_at(object@, name@) && error@
                == BridgeErrorView::FieldMissingOrWrongType(name@),
        },
{
    match object.get(name) {
        Some(HostValue::Function) => Ok(HostFunction { name: name.to_owned() }),
        _ => Err(missing(name)),
    }
}

/// Extracts a copy of the object that the property called `name` holds.
pub fn get_node_object(object: &HostObject, name: &str) -> (r: Result<HostObject, BridgeError>)
    ensures
        match r {
            Ok(nested) => object_at(object@, name@) == Some(nested@),
            Err(error) => object_at(object@, name@) is None && error@
                == BridgeErrorView::FieldMissingOrWrongType(name@),
        },
{
    match object.get(name) {
        Some(HostValue::Object(nested)) => Ok(nested.duplicate()),
        _ => Err(missing(name)),
    }
}

/// Extracts the text that the property called `name` holds.
pub fn get_node_string(object: &HostObject, name: &str) -> (r: Result<String, BridgeError>)
    ensures
        match r {
            Ok(text) => text_at(object@, name@) == Some(text@),
            Err(error) => text_at(object@, name@) is None && error@
                == BridgeErrorView::FieldMissingOrWrongType(name@),
        },
{
    match object.get(name) {
        Some(HostValue::Text(text)) => Ok(text.clone()),
        _ => Err(missing(name)),
    }
}

/// Extracts the big integer that the property called `name` holds.
pub fn get_node_bigint(object: &HostObject, name: &str) -> (r: Result<u64, BridgeError>)
    ensures
        match r {
            Ok(number) => bigint_at(object@, name@) == Some(number),
            Err(error) => bigint_at(object@, name@) is None && error@
                == BridgeErrorView::FieldMissingOrWrongType(name@),
        },
{
    match object.get(name) {
        Some(HostValue::BigInt(number)) => Ok(*number),
        _ => Err(missing(name)),
    }
}

/// Extracts the 32-bit integer that the property called `name` holds.
pub fn get_node_number(object: &HostObject, name: &str) -> (r: Result<i32, BridgeError>)
    ensures
        match r {
            Ok(number) => int_at(object@, name@) == Some(number),
            Err(error) => int_at(object@, name@) is None && error@
                == BridgeErrorView::FieldMissingOrWrongType(name@),
        },
{
    match object.get(name) {
        Some(HostValue::Int32(number)) => Ok(*number),
        _ => Err(missing(name)),
    }
}

/// Extracts the boolean that the property called `name` holds.
pub fn get_node_boolean(object: &HostObject, name: &str) -> (r: Result<bool, BridgeError>)
    ensures
        match r {
            Ok(flag) => boolean_at(object@, name@) == Some(flag),
            Err(error) => boolean_at(object@, name@) is None && error@
                == BridgeErrorView::FieldMissingOrWrongType(name@),
        },
{
    match object.get(name) {
        Some(HostValue::Boolean(flag)) => Ok(*flag),
        _ => Err(missing(name)),
    }
}

/// Extracts the bits of the double that the property called `name` holds.
pub fn get_node_float64(object: &HostObject, name: &str) -> (r: Result<u64, BridgeError>)
    ensures
        match r {
            Ok(bits) => double_at(object@, name@) == Some(bits),
            Err(error) => double_at(object@, name@) is None && error@
                == BridgeErrorView::FieldMissingOrWrongType(name@),
        },
{
    match object.get(name) {
        Some(HostValue::Double(bits)) => Ok(*bits),
        _ => Err(missing(name)),
    }
}

/// Builds an object without properties.
pub fn create_node_object() -> (r: HostObject)
    ensures
        r@ == Seq::<PropertyView>::empty(),
{
    HostObject::new()
}

/// Builds the host number that stands for a 32-bit integer.
pub fn create_node_number(value: i32) -> (r: HostValue)
    ensures
        r@ == ValueView::Int32(value),
{
    HostValue::Int32(value)
}

/// Builds the host number that stands for the double with the given bits.
pub fn create_node_float64(bits: u64) -> (r: HostValue)
    ensures
        r@ == ValueView::Double(bits),
{
    HostValue::Double(bits)
}

/// Builds the host string that holds `value`.
pub fn convert_to_js_string(value: &str) -> (r: HostValue)
    ensures
        r@ == ValueView::Text(value@),
{
    HostValue::Text(value.to_owned())
}

/// Builds the host number that stands for a 32-bit integer.
pub fn convert_to_js_number(value: i32) -> (r: HostValue)
    ensures
        r@ == ValueView::Int32(value),
{
    HostValue::Int32(value)
}

/// Builds the host boolean that holds `value`.
pub fn convert_to_js_boolean(value: bool) -> (r: HostValue)
    ensures
        r@ == ValueView::Boolean(value),
{
    HostValue::Boolean(value)
}

} // verus!
