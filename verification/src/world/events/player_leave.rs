use crate::error::{BridgeError, BridgeErrorView};
use crate::host::{HostObject, HostValue, PropertyView, ValueView};
use crate::utils::fields::{expect_object, required_number, required_object, required_string};
use crate::utils::node_converter::{int_at, object_at, text_at};
use crate::utils::schema::{
    first_violation, int_field, object_field, text_field, FieldKind, FieldView, Schema,
};
use crate::world::player::player::Player;
use crate::world::world::world::World;
use vstd::prelude::*;

verus! {

/// The event that a player left a world, as it stood when it was delivered.
#[derive(Debug, PartialEq, Eq)]
pub struct PlayerLeaveSignal {
    pub object: HostObject,
    pub world: World,
    pub player: Player,
    pub reason: i32,
    pub message: String,
}

impl PlayerLeaveSignal {
    /// The schema of the event: `world` (object, by the schema of a
    /// world), `player` (object, by the schema of a player), `reason`
    /// (integer), `message` (text), all required.
    pub open spec fn fields() -> Seq<FieldView> {
        seq![
            object_field("world"@, World::fields()),
            object_field("player"@, Player::fields()),
            int_field("reason"@),
            text_field("message"@),
        ]
    }

    /// The name that construction from `object` fails on, if it fails.
    pub open spec fn violation(object: Seq<PropertyView>) -> Option<Seq<char>> {
        first_violation(object, Self::fields(), 0)
    }

    /// Whether the snapshot holds `object`, the views of the world and the
    /// player that `object` exposes, and its other fields.
    pub open spec fn snapshot_of(&self, object: Seq<PropertyView>) -> bool {
        &&& self.object@ == object
        &&& object_at(object, "world"@) matches Some(world)
        &&& self.world.snapshot_of(world)
        &&& object_at(object, "player"@) matches Some(player)
        &&& self.player.snapshot_of(player)
        &&& int_at(object, "reason"@) == Some(self.reason)
        &&& text_at(object, "message"@) == Some(self.message@)
    }

    /// Whether `r` is what construction from `object` gives: the whole
    /// snapshot, or the violation that names the first lacking field.
    pub open spec fn built(
        object: Seq<PropertyView>,
        r: Result<PlayerLeaveSignal, BridgeError>,
    ) -> bool {
        match r {
            Ok(signal) => Self::violation(object) is None && signal.snapshot_of(object),
            Err(error) => Self::violation(object) matches Some(name) && error@
                == BridgeErrorView::SchemaViolation(name),
        }
    }

    /// The schema of the event, for whoever reads a handle on its behalf.
    pub fn schema() -> (r: Schema)
        ensures
            r@ == Self::fields(),
    {
        Schema::new()
            .with("world", FieldKind::Object(World::schema()), true)
            .with("player", FieldKind::Object(Player::schema()), true)
            .with("reason", FieldKind::Int32, true)
            .with("message", FieldKind::Text, true)
    }

    /// Builds the snapshot of the event from its handle.
    pub fn new(object: HostObject) -> (r: Result<PlayerLeaveSignal, BridgeError>)
        ensures
            Self::built(object@, r),
    {
        proof {
            reveal_with_fuel(first_violation, 5);
        }
        let world_object = required_object(&object, "world")?;
        let world = World::new(world_object)?;
        let player_object = required_object(&object, "player")?;
        proof {
            Player::lemma_never_fails(player_object@);
        }
        let player = Player::new(player_object);
        let reason = required_number(&object, "reason")?;
        let message = required_string(&object, "message")?;
        Ok(PlayerLeaveSignal { object, world, player, reason, message })
    }

    /// Builds the snapshot of the event from a value that crossed the
    /// boundary.
    pub fn from_value(value: HostValue) -> (r: Result<PlayerLeaveSignal, BridgeError>)
        ensures
            match value@ {
                ValueView::Object(object) => Self::built(object, r),
                _ => r matches Err(error) && error@ == BridgeErrorView::NotAnObject,
            },
    {
        let object = expect_object(value)?;
        PlayerLeaveSignal::new(object)
    }
}

} // verus!
