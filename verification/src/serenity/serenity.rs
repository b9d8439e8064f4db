use crate::error::{BridgeError, BridgeErrorView};
use crate::host::{HostObject, HostValue, PropertyView, ValueView};
use crate::logger::logger::{logged, Logger};
use crate::serenity::world::Worlds;
use crate::utils::call_forwarder::Invocation;
use crate::utils::fields::{expect_object, required_object};
use crate::utils::node_converter::object_at;
use crate::utils::schema::{first_violation, object_field, FieldKind, FieldView, Schema};
use vstd::prelude::*;

verus! {

/// The host application, with its logger and its registry of worlds.
#[derive(Debug, PartialEq, Eq)]
pub struct Serenity {
    pub object: HostObject,
    pub logger: Logger,
    pub worlds: Worlds,
}

impl Serenity {
    /// The schema of the application: `logger` (object), `worlds` (object,
    /// by the schema of the registry of worlds), both required.
    pub open spec fn fields() -> Seq<FieldView> {
        seq![object_field("logger"@, Logger::fields()), object_field("worlds"@, Worlds::fields())]
    }

    /// The name that construction from `object` fails on, if it fails.
    pub open spec fn violation(object: Seq<PropertyView>) -> Option<Seq<char>> {
        first_violation(object, Self::fields(), 0)
    }

    /// Whether the view holds `object`, the logger and the registry of worlds
    /// that `object` exposes.
    pub open spec fn snapshot_of(&self, object: Seq<PropertyView>) -> bool {
        &&& self.object@ == object
        &&& object_at(object, "logger"@) == Some(self.logger.object@)
        &&& object_at(object, "worlds"@) matches Some(worlds)
        &&& self.worlds.snapshot_of(worlds)
    }

    /// Whether `r` is what construction from `object` gives: the view, or
    /// the violation that names the first lacking field.
    pub open spec fn built(object: Seq<PropertyView>, r: Result<Serenity, BridgeError>) -> bool {
        match r {
            Ok(serenity) => Self::violation(object) is None && serenity.snapshot_of(object),
            Err(error) => Self::violation(object) matches Some(name) && error@
                == BridgeErrorView::SchemaViolation(name),
        }
    }

    /// The schema of the application, for whoever reads a handle on its behalf.
    pub fn schema() -> (r: Schema)
        ensures
            r@ == Self::fields(),
    {
        Schema::new()
            .with("logger", FieldKind::Object(Logger::schema()), true)
            .with("worlds", FieldKind::Object(Worlds::schema()), true)
    }

    /// Builds the view of the application from its handle.
    pub fn new(object: HostObject) -> (r: Result<Serenity, BridgeError>)
        ensures
            Self::built(object@, r),
    {
        proof {
            reveal_with_fuel(first_violation, 3);
        }
        let logger_object = required_object(&object, "logger")?;
        let worlds_object = required_object(&object, "worlds")?;
        let worlds = Worlds::new(worlds_object)?;
        Ok(Serenity { object, logger: Logger::new(logger_object), worlds })
    }

    /// Builds the view of the application from a value that crossed the
    /// boundary.
    pub fn from_value(value: HostValue) -> (r: Result<Serenity, BridgeError>)
        ensures
            match value@ {
                ValueView::Object(object) => Self::built(object, r),
                _ => r matches Err(error) && error@ == BridgeErrorView::NotAnObject,
            },
    {
        let object = expect_object(value)?;
        Serenity::new(object)
    }

    /// Announces on the logger that the application starts.
    pub fn start(&self) -> (r: Result<Invocation, BridgeError>)
        ensures
            logged(self.logger, "log"@, "Starting the Serenity application"@, r),
    {
        self.logger.log("Starting the Serenity application")
    }
}

} // verus!
