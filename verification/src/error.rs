use vstd::prelude::*;
use vstd::string::*;

verus! {

/// Why an interaction with the host was refused.
#[derive(Debug, PartialEq, Eq)]
pub enum BridgeError {
    /// The value handed over the boundary is not an object.
    NotAnObject,
    /// A required field of a schema is missing or of the wrong kind.
    SchemaViolation(String),
    /// The named property does not exist or is not of the requested kind.
    FieldMissingOrWrongType(String),
    /// The named property does not exist or cannot be called.
    MethodNotFound(String),
    /// The value that the named method returned is not of the documented kind.
    ReturnTypeMismatch(String),
    /// The host could not allocate an outgoing value.
    HostAllocationFailed,
}

/// A `BridgeError` with the name it carries as a sequence of characters.
pub enum BridgeErrorView {
    NotAnObject,
    SchemaViolation(Seq<char>),
    FieldMissingOrWrongType(Seq<char>),
    MethodNotFound(Seq<char>),
    ReturnTypeMismatch(Seq<char>),
    HostAllocationFailed,
}

impl View for BridgeError {
    type V = BridgeErrorView;

    open spec fn view(&self) -> BridgeErrorView {
        match self {
            BridgeError::NotAnObject => BridgeErrorView::NotAnObject,
            BridgeError::SchemaViolation(name) => BridgeErrorView::SchemaViolation(name@),
            BridgeError::FieldMissingOrWrongType(name) => BridgeErrorView::FieldMissingOrWrongType(
                name@,
            ),
            BridgeError::MethodNotFound(name) => BridgeErrorView::MethodNotFound(name@),
            BridgeError::ReturnTypeMismatch(name) => BridgeErrorView::ReturnTypeMismatch(name@),
            BridgeError::HostAllocationFailed => BridgeErrorView::HostAllocationFailed,
        }
    }
}

impl BridgeErrorView {
    /// The sentence that reports the error: what went wrong, then the name
    /// that the error carries, where it carries one.
    pub open spec fn description(self) -> Seq<char> {
        match self {
            BridgeErrorView::NotAnObject => "value is not an object"@,
            BridgeErrorView::SchemaViolation(name) => "schema violation: "@ + name,
            BridgeErrorView::FieldMissingOrWrongType(name) => "field missing or of wrong type: "@
                + name,
            BridgeErrorView::MethodNotFound(name) => "method not found: "@ + name,
            BridgeErrorView::ReturnTypeMismatch(name) => "return type mismatch: "@ + name,
            BridgeErrorView::HostAllocationFailed => "host allocation failed"@,
        }
    }
}

impl BridgeError {
    /// The sentence that reports the error.
    pub fn describe(&self) -> (r: String)
        ensures
            r@ == self@.description(),
    {
        match self {
            BridgeError::NotAnObject => "value is not an object".to_owned(),
            BridgeError::SchemaViolation(name) => "schema violation: ".to_owned().concat(
                name.as_str(),
            ),
            BridgeError::FieldMissingOrWrongType(name) => "field missing or of wrong type: "
                .to_owned().concat(name.as_str()),
            BridgeError::MethodNotFound(name) => "method not found: ".to_owned().concat(
                name.as_str(),
            ),
            BridgeError::ReturnTypeMismatch(name) => "return type mismatch: ".to_owned().concat(
                name.as_str(),
            ),
            BridgeError::HostAllocationFailed => "host allocation failed".to_owned(),
        }
    }
}

} // verus!
