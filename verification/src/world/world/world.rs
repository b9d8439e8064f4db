use crate::error::{BridgeError, BridgeErrorView};
use crate::host::{HostObject, HostValue, PropertyView, ValueView};
use crate::logger::logger::Logger;
use crate::utils::call_forwarder::{forward_one, outcome, plan, Invocation};
use crate::utils::fields::{expect_object, required_bigint, required_object, required_string};
use crate::utils::node_converter::{bigint_at, convert_to_js_string, object_at, text_at};
use crate::utils::schema::{
    bigint_field, first_violation, method, object_field, text_field, FieldKind, FieldView,
    Schema,
};
use vstd::prelude::*;

verus! {

/// A world, with the fields captured when the view was made.
#[derive(Debug, PartialEq, Eq)]
pub struct World {
    pub object: HostObject,
    pub identifier: String,
    pub current_tick: u64,
    pub logger: Logger,
}

impl World {
    /// The schema of a world: `logger` (object), `identifier` (text),
    /// `currentTick` (big integer), all required.
    pub open spec fn fields() -> Seq<FieldView> {
        seq![
            object_field("logger"@, Logger::fields()),
            text_field("identifier"@),
            bigint_field("currentTick"@),
        ]
    }

    /// The name that construction from `object` fails on, if it fails.
    pub open spec fn violation(object: Seq<PropertyView>) -> Option<Seq<char>> {
        first_violation(object, Self::fields(), 0)
    }

    /// Whether the view holds `object` and the fields that `object` exposes.
    pub open spec fn snapshot_of(&self, object: Seq<PropertyView>) -> bool {
        &&& self.object@ == object
        &&& object_at(object, "logger"@) == Some(self.logger.object@)
        &&& text_at(object, "identifier"@) == Some(self.identifier@)
        &&& bigint_at(object, "currentTick"@) == Some(self.current_tick)
    }

    /// Whether `r` is what construction from `object` gives: the view, or
    /// the violation that names the first lacking field.
    pub open spec fn built(object: Seq<PropertyView>, r: Result<World, BridgeError>) -> bool {
        match r {
            Ok(world) => Self::violation(object) is None && world.snapshot_of(object),
            Err(error) => Self::violation(object) matches Some(name) && error@
                == BridgeErrorView::SchemaViolation(name),
        }
    }

    /// The schema of a world, for whoever reads a handle on its behalf.
    pub fn schema() -> (r: Schema)
        ensures
            r@ == Self::fields(),
    {
        Schema::new()
            .with("logger", FieldKind::Object(Logger::schema()), true)
            .with("identifier", FieldKind::Text, true)
            .with("currentTick", FieldKind::BigInt, true)
    }

    /// What is read or called on the handle of a world after construction:
    /// none of it is required.
    pub open spec fn members() -> Seq<FieldView> {
        seq![method("sendMessage"@)]
    }

    /// The members of a world, for whoever reads a handle on its behalf.
    pub fn member_schema() -> (r: Schema)
        ensures
            r@ == Self::members(),
    {
        Schema::new().with("sendMessage", FieldKind::Function, false)
    }

    /// Builds the view of a world from its handle.
    pub fn new(object: HostObject) -> (r: Result<World, BridgeError>)
        ensures
            Self::built(object@, r),
    {
        proof {
            reveal_with_fuel(first_violation, 4);
        }
        let logger_object = required_object(&object, "logger")?;
        let identifier = required_string(&object, "identifier")?;
        let current_tick = required_bigint(&object, "currentTick")?;
        Ok(World { object, identifier, current_tick, logger: Logger::new(logger_object) })
    }

    /// Builds the view of a world from a value that crossed the boundary.
    pub fn from_value(value: HostValue) -> (r: Result<World, BridgeError>)
        ensures
            match value@ {
                ValueView::Object(object) => Self::built(object, r),
                _ => r matches Err(error) && error@ == BridgeErrorView::NotAnObject,
            },
    {
        let object = expect_object(value)?;
        World::new(object)
    }

    /// Sends a message to everyone in the world.
    pub fn send_message(&self, message: &str) -> (r: Result<Invocation, BridgeError>)
        ensures
            outcome(r) == plan(self.object@, "sendMessage"@, seq![ValueView::Text(message@)]),
    {
        let message = convert_to_js_string(message);
        forward_one(&self.object, "sendMessage", message)
    }
}

} // verus!
