use crate::block::block_type::BlockType;
use crate::error::{BridgeError, BridgeErrorView};
use crate::host::{HostObject, HostValue, PropertyView, ValueView};
use crate::utils::call_forwarder::{coerce_to_object, forward_none, outcome, plan, Invocation};
use crate::utils::fields::{expect_object, required_object};
use crate::utils::node_converter::object_at;
use crate::utils::schema::{first_violation, method, object_field, FieldKind, FieldView, Schema};
use crate::world::world::dimension::Dimension;
use vstd::prelude::*;

verus! {

/// A block, with the dimension it stood in when the view was made.
#[derive(Debug, PartialEq, Eq)]
pub struct Block {
    pub object: HostObject,
    pub dimension: Dimension,
}

impl Block {
    /// The schema of a block: `dimension` (object, by the schema of a
    /// dimension), required.
    pub open spec fn fields() -> Seq<FieldView> {
        seq![object_field("dimension"@, Dimension::fields())]
    }

    /// The name that construction from `object` fails on, if it fails.
    pub open spec fn violation(object: Seq<PropertyView>) -> Option<Seq<char>> {
        first_violation(object, Self::fields(), 0)
    }

    /// Whether the view holds `object` and the dimension that `object`
    /// exposes.
    pub open spec fn snapshot_of(&self, object: Seq<PropertyView>) -> bool {
        &&& self.object@ == object
        &&& object_at(object, "dimension"@) matches Some(dimension)
        &&& self.dimension.snapshot_of(dimension)
    }

    /// Whether `r` is what construction from `object` gives: the view, or
    /// the violation that names the first lacking field.
    pub open spec fn built(object: Seq<PropertyView>, r: Result<Block, BridgeError>) -> bool {
        match r {
            Ok(block) => Self::violation(object) is None && block.snapshot_of(object),
            Err(error) => Self::violation(object) matches Some(name) && error@
                == BridgeErrorView::SchemaViolation(name),
        }
    }

    /// The schema of a block, for whoever reads a handle on its behalf.
    pub fn schema() -> (r: Schema)
        ensures
            r@ == Self::fields(),
    {
        Schema::new().with("dimension", FieldKind::Object(Dimension::schema()), true)
    }

    /// What is read or called on the handle of a block after construction:
    /// none of it is required.
    pub open spec fn members() -> Seq<FieldView> {
        seq![method("getType"@)]
    }

    /// The members of a block, for whoever reads a handle on its behalf.
    pub fn member_schema() -> (r: Schema)
        ensures
            r@ == Self::members(),
    {
        Schema::new().with("getType", FieldKind::Function, false)
    }

    /// Builds the view of a block from its handle.
    pub fn new(object: HostObject) -> (r: Result<Block, BridgeError>)
        ensures
            Self::built(object@, r),
    {
        proof {
            reveal_with_fuel(first_violation, 2);
        }
        let dimension_object = required_object(&object, "dimension")?;
        let dimension = Dimension::new(dimension_object)?;
        Ok(Block { object, dimension })
    }

    /// Builds the view of a block from a value that crossed the boundary.
    pub fn from_value(value: HostValue) -> (r: Result<Block, BridgeError>)
        ensures
            match value@ {
                ValueView::Object(object) => Self::built(object, r),
                _ => r matches Err(error) && error@ == BridgeErrorView::NotAnObject,
            },
    {
        let object = expect_object(value)?;
        Block::new(object)
    }

    /// Asks for the block type of the block.
    pub fn get_type(&self) -> (r: Result<Invocation, BridgeError>)
        ensures
            outcome(r) == plan(self.object@, "getType"@, Seq::empty()),
    {
        forward_none(&self.object, "getType")
    }

    /// The block type that `getType` returned.
    pub fn get_type_reply(reply: &HostValue) -> (r: Result<BlockType, BridgeError>)
        ensures
            match reply@ {
                ValueView::Object(object) => BlockType::built(object, r),
                _ => r matches Err(error) && error@ == BridgeErrorView::ReturnTypeMismatch(
                    "getType"@,
                ),
            },
    {
        let object = coerce_to_object("getType", reply)?;
        BlockType::new(object)
    }
}

} // verus!
