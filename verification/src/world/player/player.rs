use crate::error::{BridgeError, BridgeErrorView};
use crate::host::{lookup, HostObject, HostValue, PropertyView, ValueView};
use crate::protocol::types::vector3f::Vector3f;
use crate::utils::call_forwarder::{
    coerce_to_bool, coerce_to_object, forward_none, forward_one, forward_two, outcome, plan,
    Invocation,
};
use crate::utils::fields::{
    boolean_or, expect_object, int_or, optional_boolean, optional_number, optional_string,
    text_or,
};
use crate::utils::node_converter::{
    convert_to_js_boolean, convert_to_js_number, convert_to_js_string, get_node_object, object_at,
};
use crate::utils::schema::{
    boolean_field, first_violation, int_field, method, object_field, optional, text_field,
    FieldKind, FieldView, Schema,
};
use crate::world::world::dimension::Dimension;
use vstd::prelude::*;

verus! {

/// A player, with the fields captured when the view was made.
///
/// Every field is optional: a handle that lacks one still gives a view, with
/// an empty text, the zero position or the absent dimension in its place.
#[derive(Debug, PartialEq, Eq)]
pub struct Player {
    pub object: HostObject,
    pub username: String,
    pub xuid: String,
    pub uuid: String,
    pub position: Vector3f,
    pub dimension: Dimension,
}

impl Player {
    /// The schema of a player: `username`, `xuid`, `uuid` (text), `position`
    /// (object, by the schema of a position in space), `dimension` (object,
    /// by the schema of a dimension), all optional.
    pub open spec fn fields() -> Seq<FieldView> {
        seq![
            optional(text_field("username"@)),
            optional(text_field("xuid"@)),
            optional(text_field("uuid"@)),
            optional(object_field("position"@, Vector3f::fields())),
            optional(object_field("dimension"@, Dimension::fields())),
        ]
    }

    /// Construction of a player fails on no handle.
    pub proof fn lemma_never_fails(object: Seq<PropertyView>)
        ensures
            first_violation(object, Self::fields(), 0) is None,
    {
        reveal_with_fuel(first_violation, 6);
    }

    /// Whether the view holds `object` and, for each field, what `object`
    /// exposes or else the field's default.
    pub open spec fn snapshot_of(&self, object: Seq<PropertyView>) -> bool {
        &&& self.object@ == object
        &&& self.username@ == text_or(object, "username"@, ""@)
        &&& self.xuid@ == text_or(object, "xuid"@, ""@)
        &&& self.uuid@ == text_or(object, "uuid"@, ""@)
        &&& match object_at(object, "position"@) {
            Some(position) => if Vector3f::violation(position) is None {
                self.position.snapshot_of(position)
            } else {
                self.position == (Vector3f { x: 0, y: 0, z: 0 })
            },
            None => self.position == (Vector3f { x: 0, y: 0, z: 0 }),
        }
        &&& match object_at(object, "dimension"@) {
            Some(dimension) => if Dimension::violation(dimension) is None {
                self.dimension.snapshot_of(dimension)
            } else {
                self.dimension.is_absent()
            },
            None => self.dimension.is_absent(),
        }
    }

    /// The schema of a player, for whoever reads a handle on its behalf.
    pub fn schema() -> (r: Schema)
        ensures
            r@ == Self::fields(),
    {
        Schema::new()
            .with("username", FieldKind::Text, false)
            .with("xuid", FieldKind::Text, false)
            .with("uuid", FieldKind::Text, false)
            .with("position", FieldKind::Object(Vector3f::schema()), false)
            .with("dimension", FieldKind::Object(Dimension::schema()), false)
    }

    /// What is read or called on the handle of a player after construction:
    /// none of it is required.
    pub open spec fn members() -> Seq<FieldView> {
        seq![
            optional(int_field("gamemode"@)),
            optional(boolean_field("isOp"@)),
            optional(boolean_field("isHungry"@)),
            optional(int_field("getTotalExperience"@)),
            method("setGamemode"@),
            method("sync"@),
            method("spawn"@),
            method("respawn"@),
            method("kill"@),
            method("exhaust"@),
            method("hasComponent"@),
            method("getComponent"@),
            method("removeComponent"@),
            method("sendMessage"@),
            method("sendToast"@),
            method("teleport"@),
            method("transfer"@),
            method("addExperience"@),
            method("hasAbility"@),
            method("getAbility"@),
            method("setAbility"@),
            method("playEffectAnimation"@),
        ]
    }

    /// The members of a player, for whoever reads a handle on its behalf.
    pub fn member_schema() -> (r: Schema)
        ensures
            r@ == Self::members(),
    {
        Schema::new()
            .with("gamemode", FieldKind::Int32, false)
            .with("isOp", FieldKind::Boolean, false)
            .with("isHungry", FieldKind::Boolean, false)
            .with("getTotalExperience", FieldKind::Int32, false)
            .with("setGamemode", FieldKind::Function, false)
            .with("sync", FieldKind::Function, false)
            .with("spawn", FieldKind::Function, false)
            .with("respawn", FieldKind::Function, false)
            .with("kill", FieldKind::Function, false)
            .with("exhaust", FieldKind::Function, false)
            .with("hasComponent", FieldKind::Function, false)
            .with("getComponent", FieldKind::Function, false)
            .with("removeComponent", FieldKind::Function, false)
            .with("sendMessage", FieldKind::Function, false)
            .with("sendToast", FieldKind::Function, false)
            .with("teleport", FieldKind::Function, false)
            .with("transfer", FieldKind::Function, false)
            .with("addExperience", FieldKind::Function, false)
            .with("hasAbility", FieldKind::Function, false)
            .with("getAbility", FieldKind::Function, false)
            .with("setAbility", FieldKind::Function, false)
            .with("playEffectAnimation", FieldKind::Function, false)
    }

    /// A player built from a handle that lacks a field holds the default of
    /// that field: the empty text, the zero position, the absent dimension.
    pub proof fn lemma_absent_fields_take_defaults(player: Player, object: Seq<PropertyView>)
        requires
            player.snapshot_of(object),
        ensures
            lookup(object, "username"@) is None ==> player.username@ == ""@,
            lookup(object, "xuid"@) is None ==> player.xuid@ == ""@,
            lookup(object, "uuid"@) is None ==> player.uuid@ == ""@,
            lookup(object, "position"@) is None ==> player.position == (Vector3f {
                x: 0,
                y: 0,
                z: 0,
            }),
            lookup(object, "dimension"@) is None ==> player.dimension.is_absent(),
    {
    }

    /// Builds the view of a player from its handle.
    pub fn new(object: HostObject) -> (r: Player)
        ensures
            r.snapshot_of(object@),
    {
        let username = optional_string(&object, "username", "");
        let xuid = optional_string(&object, "xuid", "");
        let uuid = optional_string(&object, "uuid", "");
        let position = match get_node_object(&object, "position") {
            Ok(position_object) => match Vector3f::new(position_object) {
                Ok(position) => position,
                Err(_) => Vector3f::zero(),
            },
            Err(_) => Vector3f::zero(),
        };
        let dimension = match get_node_object(&object, "dimension") {
            Ok(dimension_object) => match Dimension::new(dimension_object) {
                Ok(dimension) => dimension,
                Err(_) => Dimension::absent(),
            },
            Err(_) => Dimension::absent(),
        };
        Player { object, username, xuid, uuid, position, dimension }
    }

    /// Builds the view of a player from a value that crossed the boundary.
    pub fn from_value(value: HostValue) -> (r: Result<Player, BridgeError>)
        ensures
            match r {
                Ok(player) => value@ matches ValueView::Object(object) && player.snapshot_of(
                    object,
                ),
                Err(error) => !(value@ is Object) && error@ == BridgeErrorView::NotAnObject,
            },
    {
        let object = expect_object(value)?;
        Ok(Player::new(object))
    }

    /// The player's current gamemode, or 0 where the handle exposes none.
    pub fn get_gamemode(&self) -> (r: i32)
        ensures
            r == int_or(self.object@, "gamemode"@, 0),
    {
        optional_number(&self.object, "gamemode", 0)
    }

    /// Whether the player is an operator; `false` where the handle does not
    /// say.
    pub fn is_op(&self) -> (r: bool)
        ensures
            r == boolean_or(self.object@, "isOp"@, false),
    {
        optional_boolean(&self.object, "isOp", false)
    }

    /// Whether the player is hungry; `false` where the handle does not say.
    pub fn is_hungry(&self) -> (r: bool)
        ensures
            r == boolean_or(self.object@, "isHungry"@, false),
    {
        optional_boolean(&self.object, "isHungry", false)
    }

    /// The player's total experience, or 0 where the handle exposes none.
    pub fn get_total_experience(&self) -> (r: i32)
        ensures
            r == int_or(self.object@, "getTotalExperience"@, 0),
    {
        optional_number(&self.object, "getTotalExperience", 0)
    }

    /// Sets the player's gamemode.
    pub fn set_gamemode(&self, gamemode: i32) -> (r: Result<Invocation, BridgeError>)
        ensures
            outcome(r) == plan(self.object@, "setGamemode"@, seq![ValueView::Int32(gamemode)]),
    {
        let gamemode = convert_to_js_number(gamemode);
        forward_one(&self.object, "setGamemode", gamemode)
    }

    /// Syncs the player's data with the server.
    pub fn sync(&self) -> (r: Result<Invocation, BridgeError>)
        ensures
            outcome(r) == plan(self.object@, "sync"@, Seq::empty()),
    {
        forward_none(&self.object, "sync")
    }

    /// Spawns the player in the world.
    pub fn spawn(&self) -> (r: Result<Invocation, BridgeError>)
        ensures
            outcome(r) == plan(self.object@, "spawn"@, Seq::empty()),
    {
        forward_none(&self.object, "spawn")
    }

    /// Respawns the player in the world.
    pub fn respawn(&self) -> (r: Result<Invocation, BridgeError>)
        ensures
            outcome(r) == plan(self.object@, "respawn"@, Seq::empty()),
    {
        forward_none(&self.object, "respawn")
    }

    /// Kills the player.
    pub fn kill(&self) -> (r: Result<Invocation, BridgeError>)
        ensures
            outcome(r) == plan(self.object@, "kill"@, Seq::empty()),
    {
        forward_none(&self.object, "kill")
    }

    /// Exhausts the player, decreasing their hunger.
    pub fn exhaust(&self, amount: i32) -> (r: Result<Invocation, BridgeError>)
        ensures
            outcome(r) == plan(self.object@, "exhaust"@, seq![ValueView::Int32(amount)]),
    {
        let amount = convert_to_js_number(amount);
        forward_one(&self.object, "exhaust", amount)
    }

    /// Asks whether the player has a specific component.
    pub fn has_component(&self, component: &str) -> (r: Result<Invocation, BridgeError>)
        ensures
            outcome(r) == plan(self.object@, "hasComponent"@, seq![ValueView::Text(component@)]),
    {
        let component = convert_to_js_string(component);
        forward_one(&self.object, "hasComponent", component)
    }

    /// The boolean that `hasComponent` returned.
    pub fn has_component_reply(reply: &HostValue) -> (r: Result<bool, BridgeError>)
        ensures
            match r {
                Ok(flag) => reply@ == ValueView::Boolean(flag),
                Err(error) => !(reply@ is Boolean) && error@
                    == BridgeErrorView::ReturnTypeMismatch("hasComponent"@),
            },
    {
        coerce_to_bool("hasComponent", reply)
    }

    /// Asks for a component of the player.
    pub fn get_component(&self, component: &str) -> (r: Result<Invocation, BridgeError>)
        ensures
            outcome(r) == plan(self.object@, "getComponent"@, seq![ValueView::Text(component@)]),
    {
        let component = convert_to_js_string(component);
        forward_one(&self.object, "getComponent", component)
    }

    /// The component that `getComponent` returned.
    pub fn get_component_reply(reply: &HostValue) -> (r: Result<HostObject, BridgeError>)
        ensures
            match r {
                Ok(component) => reply@ == ValueView::Object(component@),
                Err(error) => !(reply@ is Object) && error@
                    == BridgeErrorView::ReturnTypeMismatch("getComponent"@),
            },
    {
        coerce_to_object("getComponent", reply)
    }

    /// Removes a component from the player.
    pub fn remove_component(&self, component: &str) -> (r: Result<Invocation, BridgeError>)
        ensures
            outcome(r) == plan(self.object@, "removeComponent"@, seq![ValueView::Text(component@)]),
    {
        let component = convert_to_js_string(component);
        forward_one(&self.object, "removeComponent", component)
    }

    /// Sends a message to the player.
    pub fn send_message(&self, message: &str) -> (r: Result<Invocation, BridgeError>)
        ensures
            outcome(r) == plan(self.object@, "sendMessage"@, seq![ValueView::Text(message@)]),
    {
        let message = convert_to_js_string(message);
        forward_one(&self.object, "sendMessage", message)
    }

    /// Sends a toast message to the player.
    pub fn send_toast(&self, title: &str, message: &str) -> (r: Result<Invocation, BridgeError>)
        ensures
            outcome(r) == plan(
                self.object@,
                "sendToast"@,
                seq![ValueView::Text(title@), ValueView::Text(message@)],
            ),
    {
        let title = convert_to_js_string(title);
        let message = convert_to_js_string(message);
        forward_two(&self.object, "sendToast", title, message)
    }

    /// Teleports the player to a specific position.
    pub fn teleport(&self, position: Vector3f) -> (r: Result<Invocation, BridgeError>)
        ensures
            outcome(r) == plan(
                self.object@,
                "teleport"@,
                seq![ValueView::Object(position.encoding())],
            ),
    {
        let position = position.to_js_object();
        forward_one(&self.object, "teleport", HostValue::Object(position))
    }

    /// Transfers the player to a different server.
    pub fn transfer(&self, address: &str, port: i32) -> (r: Result<Invocation, BridgeError>)
        ensures
            outcome(r) == plan(
                self.object@,
                "transfer"@,
                seq![ValueView::Text(address@), ValueView::Int32(port)],
            ),
    {
        let address = convert_to_js_string(address);
        let port = convert_to_js_number(port);
        forward_two(&self.object, "transfer", address, port)
    }

    /// Adds experience to the player.
    pub fn add_experience(&self, amount: i32) -> (r: Result<Invocation, BridgeError>)
        ensures
            outcome(r) == plan(self.object@, "addExperience"@, seq![ValueView::Int32(amount)]),
    {
        let amount = convert_to_js_number(amount);
        forward_one(&self.object, "addExperience", amount)
    }

    /// Asks whether the player has a specific ability.
    pub fn has_ability(&self, ability: i32) -> (r: Result<Invocation, BridgeError>)
        ensures
            outcome(r) == plan(self.object@, "hasAbility"@, seq![ValueView::Int32(ability)]),
    {
        let ability = convert_to_js_number(ability);
        forward_one(&self.object, "hasAbility", ability)
    }

    /// The boolean that `hasAbility` returned.
    pub fn has_ability_reply(reply: &HostValue) -> (r: Result<bool, BridgeError>)
        ensures
            match r {
                Ok(flag) => reply@ == ValueView::Boolean(flag),
                Err(error) => !(reply@ is Boolean) && error@
                    == BridgeErrorView::ReturnTypeMismatch("hasAbility"@),
            },
    {
        coerce_to_bool("hasAbility", reply)
    }

    /// Asks for the value of a specific ability.
    pub fn get_ability(&self, ability: i32) -> (r: Result<Invocation, BridgeError>)
        ensures
            outcome(r) == plan(self.object@, "getAbility"@, seq![ValueView::Int32(ability)]),
    {
        let ability = convert_to_js_number(ability);
        forward_one(&self.object, "getAbility", ability)
    }

    /// The boolean that `getAbility` returned.
    pub fn get_ability_reply(reply: &HostValue) -> (r: Result<bool, BridgeError>)
        ensures
            match r {
                Ok(flag) => reply@ == ValueView::Boolean(flag),
                Err(error) => !(reply@ is Boolean) && error@
                    == BridgeErrorView::ReturnTypeMismatch("getAbility"@),
            },
    {
        coerce_to_bool("getAbility", reply)
    }

    /// Sets the value of a specific ability.
    pub fn set_ability(&self, ability: i32, value: bool) -> (r: Result<Invocation, BridgeError>)
        ensures
            outcome(r) == plan(
                self.object@,
                "setAbility"@,
                seq![ValueView::Int32(ability), ValueView::Boolean(value)],
            ),
    {
        let ability = convert_to_js_number(ability);
        let value = convert_to_js_boolean(value);
        forward_two(&self.object, "setAbility", ability, value)
    }

    /// Plays an effect animation for the player.
    pub fn play_effect_animation(&self, animation: i32) -> (r: Result<Invocation, BridgeError>)
        ensures
            outcome(r) == plan(
                self.object@,
                "playEffectAnimation"@,
                seq![ValueView::Int32(animation)],
            ),
    {
        let animation = convert_to_js_number(animation);
        forward_one(&self.object, "playEffectAnimation", animation)
    }
}

} // verus!
