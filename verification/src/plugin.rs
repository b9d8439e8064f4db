use crate::error::{BridgeError, BridgeErrorView};
use crate::host::{HostObject, HostValue, PropertyView, ValueView};
use crate::logger::logger::Logger;
use crate::utils::fields::{expect_object, required_object, required_string};
use crate::utils::node_converter::{object_at, text_at};
use crate::utils::schema::{first_violation, object_field, text_field, FieldKind, FieldView, Schema};
use vstd::prelude::*;

verus! {

/// A plugin, with its logger and the path it was loaded from.
#[derive(Debug, PartialEq, Eq)]
pub struct Plugin {
    pub object: HostObject,
    pub logger: Logger,
    pub path: String,
}

impl Plugin {
    /// The schema of a plugin: `logger` (object), `path` (text), both
    /// required.
    pub open spec fn fields() -> Seq<FieldView> {
        seq![object_field("logger"@, Logger::fields()), text_field("path"@)]
    }

    /// The name that construction from `object` fails on, if it fails.
    pub open spec fn violation(object: Seq<PropertyView>) -> Option<Seq<char>> {
        first_violation(object, Self::fields(), 0)
    }

    /// Whether the view holds `object` and the fields that `object` exposes.
    pub open spec fn snapshot_of(&self, object: Seq<PropertyView>) -> bool {
        &&& self.object@ == object
        &&& object_at(object, "logger"@) == Some(self.logger.object@)
        &&& text_at(object, "path"@) == Some(self.path@)
    }

    /// Whether `r` is what construction from `object` gives: the view, or
    /// the violation that names the first lacking field.
    pub open spec fn built(object: Seq<PropertyView>, r: Result<Plugin, BridgeError>) -> bool {
        match r {
            Ok(plugin) => Self::violation(object) is None && plugin.snapshot_of(object),
            Err(error) => Self::violation(object) matches Some(name) && error@
                == BridgeErrorView::SchemaViolation(name),
        }
    }

    /// The schema of a plugin, for whoever reads a handle on its behalf.
    pub fn schema() -> (r: Schema)
        ensures
            r@ == Self::fields(),
    {
        Schema::new()
            .with("logger", FieldKind::Object(Logger::schema()), true)
            .with("path", FieldKind::Text, true)
    }

    /// Builds the view of a plugin from its handle.
    pub fn new(object: HostObject) -> (r: Result<Plugin, BridgeError>)
        ensures
            Self::built(object@, r),
    {
        proof {
            reveal_with_fuel(first_violation, 3);
        }
        let logger_object = required_object(&object, "logger")?;
        let path = required_string(&object, "path")?;
        Ok(Plugin { object, logger: Logger::new(logger_object), path })
    }

    /// Builds the view of a plugin from a value that crossed the boundary.
    pub fn from_value(value: HostValue) -> (r: Result<Plugin, BridgeError>)
        ensures
            match value@ {
                ValueView::Object(object) => Self::built(object, r),
                _ => r matches Err(error) && error@ == BridgeErrorView::NotAnObject,
            },
    {
        let object = expect_object(value)?;
        Plugin::new(object)
    }
}

} // verus!
