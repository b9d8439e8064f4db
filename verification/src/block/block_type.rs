use crate::error::{BridgeError, BridgeErrorView};
use crate::host::{HostObject, HostValue, PropertyView, ValueView};
use crate::utils::fields::{expect_object, required_boolean, required_string};
use crate::utils::node_converter::{boolean_at, text_at};
use crate::utils::schema::{
    boolean_field, first_violation, text_field, FieldKind, FieldView, Schema,
};
use vstd::prelude::*;

verus! {

/// A type of block, with the fields captured when the view was made.
#[derive(Debug, PartialEq, Eq)]
pub struct BlockType {
    pub object: HostObject,
    pub identifier: String,
    pub custom: bool,
    pub loggable: bool,
    pub air: bool,
    pub liquid: bool,
    pub solid: bool,
}

impl BlockType {
    /// The schema of a block type: `identifier` (text), `custom`, `loggable`,
    /// `air`, `liquid`, `solid` (booleans), all required.
    pub open spec fn fields() -> Seq<FieldView> {
        seq![
            text_field("identifier"@),
            boolean_field("custom"@),
            boolean_field("loggable"@),
            boolean_field("air"@),
            boolean_field("liquid"@),
            boolean_field("solid"@),
        ]
    }

    /// The name that construction from `object` fails on, if it fails.
    pub open spec fn violation(object: Seq<PropertyView>) -> Option<Seq<char>> {
        first_violation(object, Self::fields(), 0)
    }

    /// Whether the view holds `object` and the fields that `object` exposes.
    pub open spec fn snapshot_of(&self, object: Seq<PropertyView>) -> bool {
        &&& self.object@ == object
        &&& text_at(object, "identifier"@) == Some(self.identifier@)
        &&& boolean_at(object, "custom"@) == Some(self.custom)
        &&& boolean_at(object, "loggable"@) == Some(self.loggable)
        &&& boolean_at(object, "air"@) == Some(self.air)
        &&& boolean_at(object, "liquid"@) == Some(self.liquid)
        &&& boolean_at(object, "solid"@) == Some(self.solid)
    }

    /// Whether `r` is what construction from `object` gives: the view, or
    /// the violation that names the first lacking field.
    pub open spec fn built(object: Seq<PropertyView>, r: Result<BlockType, BridgeError>) -> bool {
        match r {
            Ok(block_type) => Self::violation(object) is None && block_type.snapshot_of(object),
            Err(error) => Self::violation(object) matches Some(name) && error@
                == BridgeErrorView::SchemaViolation(name),
        }
    }

    /// The schema of a block type, for whoever reads a handle on its behalf.
    pub fn schema() -> (r: Schema)
        ensures
            r@ == Self::fields(),
    {
        Schema::new()
            .with("identifier", FieldKind::Text, true)
            .with("custom", FieldKind::Boolean, true)
            .with("loggable", FieldKind::Boolean, true)
            .with("air", FieldKind::Boolean, true)
            .with("liquid", FieldKind::Boolean, true)
            .with("solid", FieldKind::Boolean, true)
    }

    /// Builds the view of a block type from its handle.
    pub fn new(object: HostObject) -> (r: Result<BlockType, BridgeError>)
        ensures
            Self::built(object@, r),
    {
        proof {
            reveal_with_fuel(first_violation, 7);
        }
        let identifier = required_string(&object, "identifier")?;
        let custom = required_boolean(&object, "custom")?;
        let loggable = required_boolean(&object, "loggable")?;
        let air = required_boolean(&object, "air")?;
        let liquid = required_boolean(&object, "liquid")?;
        let solid = required_boolean(&object, "solid")?;
        Ok(BlockType { object, identifier, custom, loggable, air, liquid, solid })
    }

    /// Builds the view of a block type from a value that crossed the
    /// boundary.
    pub fn from_value(value: HostValue) -> (r: Result<BlockType, BridgeError>)
        ensures
            match value@ {
                ValueView::Object(object) => Self::built(object, r),
                _ => r matches Err(error) && error@ == BridgeErrorView::NotAnObject,
            },
    {
        let object = expect_object(value)?;
        BlockType::new(object)
    }
}

} // verus!
