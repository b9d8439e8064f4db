use crate::error::{BridgeError, BridgeErrorView};
use crate::host::{HostObject, HostValue, PropertyView, ValueView};
use crate::utils::fields::{expect_object, required_object};
use crate::utils::node_converter::object_at;
use crate::utils::schema::{first_violation, object_field, FieldKind, FieldView, Schema};
use crate::world::world::world::World;
use vstd::prelude::*;

verus! {

/// The event that a world ticked, as it stood when it was delivered.
#[derive(Debug, PartialEq, Eq)]
pub struct WorldTickSignal {
    pub object: HostObject,
    pub world: World,
}

impl WorldTickSignal {
    /// The schema of the event: `world` (object, by the schema of a world),
    /// required.
    pub open spec fn fields() -> Seq<FieldView> {
        seq![object_field("world"@, World::fields())]
    }

    /// The name that construction from `object` fails on, if it fails.
    pub open spec fn violation(object: Seq<PropertyView>) -> Option<Seq<char>> {
        first_violation(object, Self::fields(), 0)
    }

    /// Whether the snapshot holds `object` and the view of the world that
    /// `object` exposes.
    pub open spec fn snapshot_of(&self, object: Seq<PropertyView>) -> bool {
        &&& self.object@ == object
        &&& object_at(object, "world"@) matches Some(world)
        &&& self.world.snapshot_of(world)
    }

    /// Whether `r` is what construction from `object` gives: the whole
    /// snapshot, or the violation that names the first lacking field.
    pub open spec fn built(object: Seq<PropertyView>, r: Result<WorldTickSignal, BridgeError>)
        -> bool {
        match r {
            Ok(signal) => Self::violation(object) is None && signal.snapshot_of(object),
            Err(error) => Self::violation(object) matches Some(name) && error@
                == BridgeErrorView::SchemaViolation(name),
        }
    }

    /// The schema of the event, for whoever reads a handle on its behalf.
    pub fn schema() -> (r: Schema)
        ensures
            r@ == Self::fields(),
    {
        Schema::new().with("world", FieldKind::Object(World::schema()), true)
    }

    /// Builds the snapshot of the event from its handle.
    pub fn new(object: HostObject) -> (r: Result<WorldTickSignal, BridgeError>)
        ensures
            Self::built(object@, r),
    {
        proof {
            reveal_with_fuel(first_violation, 2);
        }
        let world_object = required_object(&object, "world")?;
        let world = World::new(world_object)?;
        Ok(WorldTickSignal { object, world })
    }

    /// Builds the snapshot of the event from a value that crossed the
    /// boundary.
    pub fn from_value(value: HostValue) -> (r: Result<WorldTickSignal, BridgeError>)
        ensures
            match value@ {
                ValueView::Object(object) => Self::built(object, r),
                _ => r matches Err(error) && error@ == BridgeErrorView::NotAnObject,
            },
    {
        let object = expect_object(value)?;
        WorldTickSignal::new(object)
    }
}

} // verus!
