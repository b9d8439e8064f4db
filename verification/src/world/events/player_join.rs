use crate::error::{BridgeError, BridgeErrorView};
use crate::host::{HostObject, HostValue, PropertyView, ValueView};
use crate::utils::fields::{expect_object, required_object};
use crate::utils::node_converter::object_at;
use crate::utils::schema::{first_violation, object_field, FieldKind, FieldView, Schema};
use crate::world::player::player::Player;
use crate::world::world::world::World;
use vstd::prelude::*;

verus! {

/// The event that a player joined a world, as it stood when it was delivered.
#[derive(Debug, PartialEq, Eq)]
pub struct PlayerJoinSignal {
    pub object: HostObject,
    pub world: World,
    pub player: Player,
}

impl PlayerJoinSignal {
    /// The schema of the event: `world` (object, by the schema of a
    /// world), `player` (object, by the schema of a player), all
    /// required.
    pub open spec fn fields() -> Seq<FieldView> {
        seq![
            object_field("world"@, World::fields()),
            object_field("player"@, Player::fields()),
        ]
    }

    /// The name that construction from `object` fails on, if it fails.
    pub open spec fn violation(object: Seq<PropertyView>) -> Option<Seq<char>> {
        first_violation(object, Self::fields(), 0)
    }

    /// Whether the snapshot holds `object`, the views of the world and the
    /// player that `object` exposes, and its other fields.
    pub open spec fn snapshot_of(&self, object: Seq<PropertyView>) -> bool {
        &&& self.object@ == object
        &&& object_at(object, "world"@) matches Some(world)
        &&& self.world.snapshot_of(world)
        &&& object_at(object, "player"@) matches Some(player)
        &&& self.player.snapshot_of(player)
    }

    /// Whether `r` is what construction from `object` gives: the whole
    /// snapshot, or the violation that names the first lacking field.
    pub open spec fn built(
        object: Seq<PropertyView>,
        r: Result<PlayerJoinSignal, BridgeError>,
    ) -> bool {
        match r {
            Ok(signal) => Self::violation(object) is None && signal.snapshot_of(object),
            Err(error) => Self::violation(object) matches Some(name) && error@
                == BridgeErrorView::SchemaViolation(name),
        }
    }

    /// The schema of the event, for whoever reads a handle on its behalf.
    pub fn schema() -> (r: Schema)
        ensures
            r@ == Self::fields(),
    {
        Schema::new()
            .with("world", FieldKind::Object(World::schema()), true)
            .with("player", FieldKind::Object(Player::schema()), true)
    }

    /// Builds the snapshot of the event from its handle.
    pub fn new(object: HostObject) -> (r: Result<PlayerJoinSignal, BridgeError>)
        ensures
            Self::built(object@, r),
    {
        proof {
            reveal_with_fuel(first_violation, 3);
        }
        let world_object = required_object(&object, "world")?;
        let world = World::new(world_object)?;
        let player_object = required_object(&object, "player")?;
        proof {
            Player::lemma_never_fails(player_object@);
        }
        let player = Player::new(player_object);
        Ok(PlayerJoinSignal { object, world, player })
    }

    /// Builds the snapshot of the event from a value that crossed the
    /// boundary.
    pub fn from_value(value: HostValue) -> (r: Result<PlayerJoinSignal, BridgeError>)
        ensures
            match value@ {
                ValueView::Object(object) => Self::built(object, r),
                _ => r matches Err(error) && error@ == BridgeErrorView::NotAnObject,
            },
    {
        let object = expect_object(value)?;
        PlayerJoinSignal::new(object)
    }
}

} // verus!
