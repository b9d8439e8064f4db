use crate::error::{BridgeError, BridgeErrorView};
use crate::host::{HostObject, HostValue, PropertyView, ValueView};
use crate::logger::logger::Logger;
use crate::utils::call_forwarder::{forward_two, outcome, plan, Invocation};
use crate::utils::fields::{expect_object, required_object};
use crate::utils::node_converter::{convert_to_js_number, object_at};
use crate::utils::schema::{first_violation, method, object_field, FieldKind, FieldView, Schema};
use vstd::prelude::*;

verus! {

/// The host's registry of worlds, on which listeners for events are set.
#[derive(Debug, PartialEq, Eq)]
pub struct Worlds {
    pub object: HostObject,
    pub logger: Logger,
}

impl Worlds {
    /// The schema of the registry: `logger` (object), required.
    pub open spec fn fields() -> Seq<FieldView> {
        seq![object_field("logger"@, Logger::fields())]
    }

    /// The name that construction from `object` fails on, if it fails.
    pub open spec fn violation(object: Seq<PropertyView>) -> Option<Seq<char>> {
        first_violation(object, Self::fields(), 0)
    }

    /// Whether the view holds `object` and the logger that `object` exposes.
    pub open spec fn snapshot_of(&self, object: Seq<PropertyView>) -> bool {
        &&& self.object@ == object
        &&& object_at(object, "logger"@) == Some(self.logger.object@)
    }

    /// Whether `r` is what construction from `object` gives: the view, or
    /// the violation that names the lacking field.
    pub open spec fn built(object: Seq<PropertyView>, r: Result<Worlds, BridgeError>) -> bool {
        match r {
            Ok(worlds) => Self::violation(object) is None && worlds.snapshot_of(object),
            Err(error) => Self::violation(object) matches Some(name) && error@
                == BridgeErrorView::SchemaViolation(name),
        }
    }

    /// The schema of the registry, for whoever reads a handle on its behalf.
    pub fn schema() -> (r: Schema)
        ensures
            r@ == Self::fields(),
    {
        Schema::new().with("logger", FieldKind::Object(Logger::schema()), true)
    }

    /// What is read or called on the handle of the registry after
    /// construction: none of it is required.
    pub open spec fn members() -> Seq<FieldView> {
        seq![method("on"@)]
    }

    /// The members of the registry, for whoever reads a handle on its behalf.
    pub fn member_schema() -> (r: Schema)
        ensures
            r@ == Self::members(),
    {
        Schema::new().with("on", FieldKind::Function, false)
    }

    /// Builds the view of the registry from its handle.
    pub fn new(object: HostObject) -> (r: Result<Worlds, BridgeError>)
        ensures
            Self::built(object@, r),
    {
        proof {
            reveal_with_fuel(first_violation, 2);
        }
        let logger_object = required_object(&object, "logger")?;
        Ok(Worlds { object, logger: Logger::new(logger_object) })
    }

    /// Builds the view of the registry from a value that crossed the
    /// boundary.
    pub fn from_value(value: HostValue) -> (r: Result<Worlds, BridgeError>)
        ensures
            match value@ {
                ValueView::Object(object) => Self::built(object, r),
                _ => r matches Err(error) && error@ == BridgeErrorView::NotAnObject,
            },
    {
        let object = expect_object(value)?;
        Worlds::new(object)
    }

    /// Sets a listener for the event with the given code. The call takes the
    /// code and then the listener, which the host is handed as a function.
    pub fn on(&self, event: i32) -> (r: Result<Invocation, BridgeError>)
        ensures
            outcome(r) == plan(
                self.object@,
                "on"@,
                seq![ValueView::Int32(event), ValueView::Function],
            ),
    {
        let event = convert_to_js_number(event);
        forward_two(&self.object, "on", event, HostValue::Function)
    }
}

} // verus!
