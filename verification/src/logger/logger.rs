use colored::{Colorize, CustomColor};
use crate::error::{BridgeError, BridgeErrorView};
use crate::host::{HostObject, HostValue, ValueView};
use crate::utils::call_forwarder::{forward_one, Invocation};
use crate::utils::fields::expect_object;
use crate::utils::node_converter::{callable_at, convert_to_js_string, get_node_func};
use crate::utils::schema::{method, FieldKind, FieldView, Schema};
use vstd::prelude::*;
use vstd::string::*;

verus! {

/// The host's logger: six methods that each take one line of text.
#[derive(Debug, PartialEq, Eq)]
pub struct Logger {
    pub object: HostObject,
}

/// `Colorize::black` of the `colored` crate, rendered to a string. Whether
/// the text comes back bare or wrapped in escape sequences is decided by the
/// terminal and the environment, so nothing is claimed of the result.
#[verifier::external_body]
fn paint_black(text: &str) -> (r: String) {
    text.black().to_string()
}

/// `Colorize::custom_color` of the `colored` crate with the colour
/// `CustomColor::new(red, green, blue)`, rendered to a string. Nothing is
/// claimed of the result, for the same reason as for `paint_black`.
#[verifier::external_body]
fn paint_custom(text: &str, red: u8, green: u8, blue: u8) -> (r: String) {
    text.custom_color(CustomColor::new(red, green, blue)).to_string()
}

/// Whether `line` ends in a space followed by `message`.
pub open spec fn carries(line: Seq<char>, message: Seq<char>) -> bool {
    (seq![' '] + message).is_suffix_of(line)
}

/// What a logging call gives: one text argument that carries the message,
/// for the method `method`, or `MethodNotFound` where the logger lacks it.
pub open spec fn logged(
    logger: Logger,
    method: Seq<char>,
    message: Seq<char>,
    r: Result<Invocation, BridgeError>,
) -> bool {
    match r {
        Ok(invocation) => {
            &&& callable_at(logger.object@, method)
            &&& invocation@.method == method
            &&& invocation@.arguments.len() == 1
            &&& invocation@.arguments[0] matches ValueView::Text(line)
            &&& carries(line, message)
        },
        Err(error) => !callable_at(logger.object@, method) && error@
            == BridgeErrorView::MethodNotFound(method),
    }
}

/// Joins the three parts of the tag, a space and the message.
pub fn tag_line(open: &str, tag: &str, close: &str, message: &str) -> (r: String)
    ensures
        r@ == open@ + tag@ + close@ + seq![' '] + message@,
        carries(r@, message@),
{
    proof {
        reveal_strlit(" ");
    }
    let line = open.to_owned().concat(tag).concat(close).concat(" ").concat(message);
    proof {
        let tail = seq![' '] + message@;
        assert(line@.subrange(line@.len() - tail.len(), line@.len() as int) =~= tail);
    }
    line
}

impl Logger {
    /// The schema of a logger: no field is captured.
    pub open spec fn fields() -> Seq<FieldView> {
        Seq::empty()
    }

    /// The schema of a logger, for whoever reads a handle on its behalf.
    pub fn schema() -> (r: Schema)
        ensures
            r@ == Self::fields(),
    {
        Schema::new()
    }

    /// What is read or called on the handle of a logger after construction:
    /// none of it is required.
    pub open spec fn members() -> Seq<FieldView> {
        seq![
            method("log"@),
            method("info"@),
            method("warn"@),
            method("error"@),
            method("success"@),
            method("debug"@),
        ]
    }

    /// The members of a logger, for whoever reads a handle on its behalf.
    pub fn member_schema() -> (r: Schema)
        ensures
            r@ == Self::members(),
    {
        Schema::new()
            .with("log", FieldKind::Function, false)
            .with("info", FieldKind::Function, false)
            .with("warn", FieldKind::Function, false)
            .with("error", FieldKind::Function, false)
            .with("success", FieldKind::Function, false)
            .with("debug", FieldKind::Function, false)
    }

    /// Builds the view of a logger from its handle.
    pub fn new(object: HostObject) -> (r: Logger)
        ensures
            r.object == object,
    {
        Logger { object }
    }

    /// Builds the view of a logger from a value that crossed the boundary.
    pub fn from_value(value: HostValue) -> (r: Result<Logger, BridgeError>)
        ensures
            match r {
                Ok(logger) => value@ == ValueView::Object(logger.object@),
                Err(error) => !(value@ is Object) && error@ == BridgeErrorView::NotAnObject,
            },
    {
        let object = expect_object(value)?;
        Ok(Logger::new(object))
    }

    /// Plans the call of the logging method `method` with the tagged message.
    fn emit(&self, method: &str, message: &str) -> (r: Result<Invocation, BridgeError>)
        ensures
            logged(*self, method@, message@, r),
    {
        if get_node_func(&self.object, method).is_err() {
            return Err(BridgeError::MethodNotFound(method.to_owned()));
        }
        let open = paint_black("[");
        let tag = paint_custom("Rust", 183, 65, 14);
        let close = paint_black("]");
        let line = tag_line(open.as_str(), tag.as_str(), close.as_str(), message);
        let argument = convert_to_js_string(line.as_str());
        forward_one(&self.object, method, argument)
    }

    /// Logs a message to the console.
    pub fn log(&self, message: &str) -> (r: Result<Invocation, BridgeError>)
        ensures
            logged(*self, "log"@, message@, r),
    {
        self.emit("log", message)
    }

    /// Logs an information message to the console.
    pub fn info(&self, message: &str) -> (r: Result<Invocation, BridgeError>)
        ensures
            logged(*self, "info"@, message@, r),
    {
        self.emit("info", message)
    }

    /// Logs a warning message to the console.
    pub fn warn(&self, message: &str) -> (r: Result<Invocation, BridgeError>)
        ensures
            logged(*self, "warn"@, message@, r),
    {
        self.emit("warn", message)
    }

    /// Logs an error message to the console.
    pub fn error(&self, message: &str) -> (r: Result<Invocation, BridgeError>)
        ensures
            logged(*self, "error"@, message@, r),
    {
        self.emit("error", message)
    }

    /// Logs a success message to the console.
    pub fn success(&self, message: &str) -> (r: Result<Invocation, BridgeError>)
        ensures
            logged(*self, "success"@, message@, r),
    {
        self.emit("success", message)
    }

    /// Logs a debug message to the console.
    pub fn debug(&self, message: &str) -> (r: Result<Invocation, BridgeError>)
        ensures
            logged(*self, "debug"@, message@, r),
    {
        self.emit("debug", message)
    }
}

} // verus!
