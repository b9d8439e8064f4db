use crate::error::{BridgeError, BridgeErrorView};
use crate::host::{assign, lemma_assign_new, HostObject, HostValue, PropertyView, ValueView};
use crate::protocol::types::axes::{lemma_axes_differ, lemma_lookup_in_encoding};
use crate::utils::fields::expect_object;
use crate::utils::node_converter::{
    create_node_float64, create_node_object, double_at, get_node_float64,
};
use crate::utils::schema::{double_field, first_violation, FieldKind, FieldView, Schema};
use vstd::prelude::*;

verus! {

/// A position in space: three doubles, each held as its IEEE-754 bit pattern.
#[derive(Debug, Clone, Copy, PartialEq, Eq, Structural)]
pub struct Vector3f {
    pub x: u64,
    pub y: u64,
    pub z: u64,
}

impl Vector3f {
    /// The schema of a position: `x`, `y`, `z` (doubles), all required.
    pub open spec fn fields() -> Seq<FieldView> {
        seq![double_field("x"@), double_field("y"@), double_field("z"@)]
    }

    /// The name that construction from `object` fails on, if it fails.
    pub open spec fn violation(object: Seq<PropertyView>) -> Option<Seq<char>> {
        first_violation(object, Self::fields(), 0)
    }

    /// Whether the position holds what `object` holds under `x`, `y`, `z`.
    pub open spec fn snapshot_of(&self, object: Seq<PropertyView>) -> bool {
        &&& double_at(object, "x"@) == Some(self.x)
        &&& double_at(object, "y"@) == Some(self.y)
        &&& double_at(object, "z"@) == Some(self.z)
    }

    /// Whether `r` is what construction from `object` gives: the position,
    /// or the violation that names the first lacking field.
    pub open spec fn built(object: Seq<PropertyView>, r: Result<Vector3f, BridgeError>) -> bool {
        match r {
            Ok(position) => Self::violation(object) is None && position.snapshot_of(object),
            Err(error) => Self::violation(object) matches Some(name) && error@
                == BridgeErrorView::SchemaViolation(name),
        }
    }

    /// The host object that stands for the position.
    pub open spec fn encoding(&self) -> Seq<PropertyView> {
        seq![
            PropertyView { name: "x"@, value: ValueView::Double(self.x) },
            PropertyView { name: "y"@, value: ValueView::Double(self.y) },
            PropertyView { name: "z"@, value: ValueView::Double(self.z) },
        ]
    }

    /// The schema of a position, for whoever reads a handle on its behalf.
    pub fn schema() -> (r: Schema)
        ensures
            r@ == Self::fields(),
    {
        Schema::new()
            .with("x", FieldKind::Double, true)
            .with("y", FieldKind::Double, true)
            .with("z", FieldKind::Double, true)
    }

    /// The position whose three doubles are positive zero.
    pub fn zero() -> (r: Vector3f)
        ensures
            r == (Vector3f { x: 0, y: 0, z: 0 }),
    {
        Vector3f { x: 0, y: 0, z: 0 }
    }

    /// Reads a position from an object with the double fields `x`, `y`, `z`.
    pub fn new(object: HostObject) -> (r: Result<Vector3f, BridgeError>)
        ensures
            Self::built(object@, r),
    {
        proof {
            reveal_with_fuel(first_violation, 4);
        }
        let x = match get_node_float64(&object, "x") {
            Ok(x) => x,
            Err(_) => return Err(BridgeError::SchemaViolation("x".to_owned())),
        };
        let y = match get_node_float64(&object, "y") {
            Ok(y) => y,
            Err(_) => return Err(BridgeError::SchemaViolation("y".to_owned())),
        };
        let z = match get_node_float64(&object, "z") {
            Ok(z) => z,
            Err(_) => return Err(BridgeError::SchemaViolation("z".to_owned())),
        };
        Ok(Vector3f { x, y, z })
    }

    /// Reads a position from a value that crossed the boundary.
    pub fn from_value(value: HostValue) -> (r: Result<Vector3f, BridgeError>)
        ensures
            match value@ {
                ValueView::Object(object) => Self::built(object, r),
                _ => r matches Err(error) && error@ == BridgeErrorView::NotAnObject,
            },
    {
        let object = expect_object(value)?;
        Vector3f::new(object)
    }

    /// Builds the host object with exactly the fields `x`, `y`, `z`.
    pub fn to_js_object(&self) -> (r: HostObject)
        ensures
            r@ == self.encoding(),
    {
        let mut object = create_node_object();
        let x = create_node_float64(self.x);
        let y = create_node_float64(self.y);
        let z = create_node_float64(self.z);
        proof {
            self.lemma_encoding_steps();
        }
        object.set("x", x);
        object.set("y", y);
        object.set("z", z);
        object
    }

    /// Setting `x`, `y`, `z` in turn on an empty object gives the encoding.
    proof fn lemma_encoding_steps(&self)
        ensures
            assign(
                assign(
                    assign(Seq::empty(), "x"@, ValueView::Double(self.x)),
                    "y"@,
                    ValueView::Double(self.y),
                ),
                "z"@,
                ValueView::Double(self.z),
            ) == self.encoding(),
    {
        lemma_axes_differ();
        let px = PropertyView { name: "x"@, value: ValueView::Double(self.x) };
        let py = PropertyView { name: "y"@, value: ValueView::Double(self.y) };
        let pz = PropertyView { name: "z"@, value: ValueView::Double(self.z) };
        let empty = Seq::<PropertyView>::empty();
        lemma_assign_new(empty, px.name, px.value);
        let one = empty.push(px);
        lemma_lookup_in_encoding(one, "y"@);
        lemma_assign_new(one, py.name, py.value);
        let two = one.push(py);
        lemma_lookup_in_encoding(two, "z"@);
        lemma_assign_new(two, pz.name, pz.value);
    }
}

/// A position that is encoded and read back is the position itself.
pub proof fn lemma_vector3f_round_trip(position: Vector3f)
    ensures
        Vector3f::violation(position.encoding()) is None,
        forall|other: Vector3f| #[trigger]
            other.snapshot_of(position.encoding()) ==> other == position,
{
    reveal_with_fuel(first_violation, 4);
    lemma_axes_differ();
    lemma_lookup_in_encoding(position.encoding(), "x"@);
    lemma_lookup_in_encoding(position.encoding(), "y"@);
    lemma_lookup_in_encoding(position.encoding(), "z"@);
}

} // verus!
