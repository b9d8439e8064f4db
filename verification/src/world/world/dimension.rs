use crate::error::{BridgeError, BridgeErrorView};
use crate::host::{HostObject, HostValue, PropertyView, ValueView};
use crate::protocol::types::block_position::BlockPosition;
use crate::utils::call_forwarder::{coerce_to_object, forward_one, outcome, plan, Invocation};
use crate::utils::fields::{expect_object, required_number, required_string};
use crate::utils::node_converter::{int_at, text_at};
use crate::utils::schema::{
    first_violation, int_field, method, text_field, FieldKind, FieldView, Schema,
};
use crate::world::block::Block;
use vstd::prelude::*;

verus! {

/// A dimension of a world, with the fields captured when the view was made.
#[derive(Debug, PartialEq, Eq)]
pub struct Dimension {
    pub object: HostObject,
    pub identifier: String,
    pub view_distance: i32,
    pub simulation_distance: i32,
}

impl Dimension {
    /// The schema of a dimension: `identifier` (text), `viewDistance`,
    /// `simulationDistance` (integers), all required.
    pub open spec fn fields() -> Seq<FieldView> {
        seq![
            text_field("identifier"@),
            int_field("viewDistance"@),
            int_field("simulationDistance"@),
        ]
    }

    /// The name that construction from `object` fails on, if it fails.
    pub open spec fn violation(object: Seq<PropertyView>) -> Option<Seq<char>> {
        first_violation(object, Self::fields(), 0)
    }

    /// Whether the view holds `object` and the fields that `object` exposes.
    pub open spec fn snapshot_of(&self, object: Seq<PropertyView>) -> bool {
        &&& self.object@ == object
        &&& text_at(object, "identifier"@) == Some(self.identifier@)
        &&& int_at(object, "viewDistance"@) == Some(self.view_distance)
        &&& int_at(object, "simulationDistance"@) == Some(self.simulation_distance)
    }

    /// Whether `r` is what construction from `object` gives: the view, or
    /// the violation that names the first lacking field.
    pub open spec fn built(object: Seq<PropertyView>, r: Result<Dimension, BridgeError>) -> bool {
        match r {
            Ok(dimension) => Self::violation(object) is None && dimension.snapshot_of(object),
            Err(error) => Self::violation(object) matches Some(name) && error@
                == BridgeErrorView::SchemaViolation(name),
        }
    }

    /// Whether the view is the one that stands for a dimension that the
    /// handle does not expose: no properties, an empty identifier, zeros.
    pub open spec fn is_absent(&self) -> bool {
        &&& self.object@ == Seq::<PropertyView>::empty()
        &&& self.identifier@ == Seq::<char>::empty()
        &&& self.view_distance == 0
        &&& self.simulation_distance == 0
    }

    /// The schema of a dimension, for whoever reads a handle on its behalf.
    pub fn schema() -> (r: Schema)
        ensures
            r@ == Self::fields(),
    {
        Schema::new()
            .with("identifier", FieldKind::Text, true)
            .with("viewDistance", FieldKind::Int32, true)
            .with("simulationDistance", FieldKind::Int32, true)
    }

    /// What is read or called on the handle of a dimension after
    /// construction: none of it is required.
    pub open spec fn members() -> Seq<FieldView> {
        seq![method("getBlock"@)]
    }

    /// The members of a dimension, for whoever reads a handle on its behalf.
    pub fn member_schema() -> (r: Schema)
        ensures
            r@ == Self::members(),
    {
        Schema::new().with("getBlock", FieldKind::Function, false)
    }

    /// The view that stands for a dimension that the handle does not expose.
    pub fn absent() -> (r: Dimension)
        ensures
            r.is_absent(),
    {
        Dimension {
            object: HostObject::new(),
            identifier: String::new(),
            view_distance: 0,
            simulation_distance: 0,
        }
    }

    /// Builds the view of a dimension from its handle.
    pub fn new(object: HostObject) -> (r: Result<Dimension, BridgeError>)
        ensures
            Self::built(object@, r),
    {
        proof {
            reveal_with_fuel(first_violation, 4);
        }
        let identifier = required_string(&object, "identifier")?;
        let view_distance = required_number(&object, "viewDistance")?;
        let simulation_distance = required_number(&object, "simulationDistance")?;
        Ok(Dimension { object, identifier, view_distance, simulation_distance })
    }

    /// Builds the view of a dimension from a value that crossed the boundary.
    pub fn from_value(value: HostValue) -> (r: Result<Dimension, BridgeError>)
        ensures
            match value@ {
                ValueView::Object(object) => Self::built(object, r),
                _ => r matches Err(error) && error@ == BridgeErrorView::NotAnObject,
            },
    {
        let object = expect_object(value)?;
        Dimension::new(object)
    }

    /// Asks for the block at the given position.
    pub fn get_block(&self, position: BlockPosition) -> (r: Result<Invocation, BridgeError>)
        ensures
            outcome(r) == plan(
                self.object@,
                "getBlock"@,
                seq![ValueView::Object(position.encoding())],
            ),
    {
        let position_object = position.to_js_object();
        forward_one(&self.object, "getBlock", HostValue::Object(position_object))
    }

    /// The block that `getBlock` returned.
    pub fn get_block_reply(reply: &HostValue) -> (r: Result<Block, BridgeError>)
        ensures
            match reply@ {
                ValueView::Object(object) => Block::built(object, r),
                _ => r matches Err(error) && error@ == BridgeErrorView::ReturnTypeMismatch(
                    "getBlock"@,
                ),
            },
    {
        let object = coerce_to_object("getBlock", reply)?;
        Block::new(object)
    }
}

} // verus!
