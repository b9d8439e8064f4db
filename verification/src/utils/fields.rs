use crate::error::{BridgeError, BridgeErrorView};
use crate::host::{lookup, HostObject, HostValue, PropertyView, ValueView};
use crate::utils::node_converter::{
    bigint_at, boolean_at, double_at, get_node_bigint, get_node_boolean, get_node_float64,
    get_node_number, get_node_object, get_node_string, int_at, object_at, text_at,
};
use vstd::prelude::*;

verus! {

/// The text of an optional field: what the object holds, else the default.
pub open spec fn text_or(object: Seq<PropertyView>, name: Seq<char>, default: Seq<char>) -> Seq<
    char,
> {
    match text_at(object, name) {
        Some(text) => text,
        None => default,
    }
}

/// The integer of an optional field: what the object holds, else the default.
pub open spec fn int_or(object: Seq<PropertyView>, name: Seq<char>, default: i32) -> i32 {
    match int_at(object, name) {
        Some(number) => number,
        None => default,
    }
}

/// The boolean of an optional field: what the object holds, else the default.
pub open spec fn boolean_or(object: Seq<PropertyView>, name: Seq<char>, default: bool) -> bool {
    match boolean_at(object, name) {
        Some(flag) => flag,
        None => default,
    }
}

/// An optional field that the object does not have takes its default,
/// whatever its kind.
pub proof fn lemma_absent_field_takes_default(
    object: Seq<PropertyView>,
    name: Seq<char>,
    text: Seq<char>,
    number: i32,
    flag: bool,
)
    requires
        lookup(object, name) is None,
    ensures
        text_or(object, name, text) == text,
        int_or(object, name, number) == number,
        boolean_or(object, name, flag) == flag,
{
}

/// An optional field that the object holds in another kind takes its default
/// too.
pub proof fn lemma_mistyped_field_takes_default(
    object: Seq<PropertyView>,
    name: Seq<char>,
    text: Seq<char>,
    number: i32,
    flag: bool,
)
    ensures
        !(lookup(object, name) matches Some(ValueView::Text(_))) ==> text_or(object, name, text)
            == text,
        !(lookup(object, name) matches Some(ValueView::Int32(_))) ==> int_or(object, name, number)
            == number,
        !(lookup(object, name) matches Some(ValueView::Boolean(_))) ==> boolean_or(
            object,
            name,
            flag,
        ) == flag,
{
}

/// The error of a construction that lacks the required field `name`.
pub fn violation_of(name: &str) -> (r: BridgeError)
    ensures
        r@ == BridgeErrorView::SchemaViolation(name@),
{
    BridgeError::SchemaViolation(name.to_owned())
}

/// The text of the required field `name`.
pub fn required_string(object: &HostObject, name: &str) -> (r: Result<String, BridgeError>)
    ensures
        match r {
            Ok(text) => text_at(object@, name@) == Some(text@),
            Err(error) => text_at(object@, name@) is None && error@
                == BridgeErrorView::SchemaViolation(name@),
        },
{
    match get_node_string(object, name) {
        Ok(text) => Ok(text),
        Err(_) => Err(violation_of(name)),
    }
}

/// The 32-bit integer of the required field `name`.
pub fn required_number(object: &HostObject, name: &str) -> (r: Result<i32, BridgeError>)
    ensures
        match r {
            Ok(number) => int_at(object@, name@) == Some(number),
            Err(error) => int_at(object@, name@) is None && error@
                == BridgeErrorView::SchemaViolation(name@),
        },
{
    match get_node_number(object, name) {
        Ok(number) => Ok(number),
        Err(_) => Err(violation_of(name)),
    }
}

/// The bits of the double of the required field `name`.
pub fn required_float64(object: &HostObject, name: &str) -> (r: Result<u64, BridgeError>)
    ensures
        match r {
            Ok(bits) => double_at(object@, name@) == Some(bits),
            Err(error) => double_at(object@, name@) is None && error@
                == BridgeErrorView::SchemaViolation(name@),
        },
{
    match get_node_float64(object, name) {
        Ok(bits) => Ok(bits),
        Err(_) => Err(violation_of(name)),
    }
}

/// The boolean of the required field `name`.
pub fn required_boolean(object: &HostObject, name: &str) -> (r: Result<bool, BridgeError>)
    ensures
        match r {
            Ok(flag) => boolean_at(object@, name@) == Some(flag),
            Err(error) => boolean_at(object@, name@) is None && error@
                == BridgeErrorView::SchemaViolation(name@),
        },
{
    match get_node_boolean(object, name) {
        Ok(flag) => Ok(flag),
        Err(_) => Err(violation_of(name)),
    }
}

/// The big integer of the required field `name`.
pub fn required_bigint(object: &HostObject, name: &str) -> (r: Result<u64, BridgeError>)
    ensures
        match r {
            Ok(number) => bigint_at(object@, name@) == Some(number),
            Err(error) => bigint_at(object@, name@) is None && error@
                == BridgeErrorView::SchemaViolation(name@),
        },
{
    match get_node_bigint(object, name) {
        Ok(number) => Ok(number),
        Err(_) => Err(violation_of(name)),
    }
}

/// A copy of the object of the required field `name`.
pub fn required_object(object: &HostObject, name: &str) -> (r: Result<HostObject, BridgeError>)
    ensures
        match r {
            Ok(nested) => object_at(object@, name@) == Some(nested@),
            Err(error) => object_at(object@, name@) is None && error@
                == BridgeErrorView::SchemaViolation(name@),
        },
{
    match get_node_object(object, name) {
        Ok(nested) => Ok(nested),
        Err(_) => Err(violation_of(name)),
    }
}

/// The text of the optional field `name`, or `default`.
pub fn optional_string(object: &HostObject, name: &str, default: &str) -> (r: String)
    ensures
        r@ == text_or(object@, name@, default@),
{
    match get_node_string(object, name) {
        Ok(text) => text,
        Err(_) => default.to_owned(),
    }
}

/// The 32-bit integer of the optional field `name`, or `default`.
pub fn optional_number(object: &HostObject, name: &str, default: i32) -> (r: i32)
    ensures
        r == int_or(object@, name@, default),
{
    match get_node_number(object, name) {
        Ok(number) => number,
        Err(_) => default,
    }
}

/// The boolean of the optional field `name`, or `default`.
pub fn optional_boolean(object: &HostObject, name: &str, default: bool) -> (r: bool)
    ensures
        r == boolean_or(object@, name@, default),
{
    match get_node_boolean(object, name) {
        Ok(flag) => flag,
        Err(_) => default,
    }
}

/// The object behind a value that crossed the boundary.
pub fn expect_object(value: HostValue) -> (r: Result<HostObject, BridgeError>)
    ensures
        match r {
            Ok(object) => value@ == ValueView::Object(object@),
            Err(error) => !(value@ is Object) && error@ == BridgeErrorView::NotAnObject,
        },
{
    match value {
        HostValue::Object(object) => Ok(object),
        _ => Err(BridgeError::NotAnObject),
    }
}

} // verus!
