use serenity_bridge::block::block_type::BlockType;
use serenity_bridge::error::BridgeError;
use serenity_bridge::logger::logger::Logger;
use serenity_bridge::plugin::Plugin;
use serenity_bridge::protocol::types::block_position::BlockPosition;
use serenity_bridge::protocol::types::vector3f::Vector3f;
use serenity_bridge::serenity::serenity::Serenity;
use serenity_bridge::serenity::world::Worlds;
use serenity_bridge::utils::schema::{FieldKind, Schema, SchemaField};
use serenity_bridge::world::block::Block;
use serenity_bridge::world::components::player::health::PlayerHealthComponent;
use serenity_bridge::world::events::player_chat::PlayerChatSignal;
use serenity_bridge::world::events::player_execute_command::PlayerExecuteCommandSignal;
use serenity_bridge::world::events::player_join::PlayerJoinSignal;
use serenity_bridge::world::events::player_leave::PlayerLeaveSignal;
use serenity_bridge::world::events::world_tick::WorldTickSignal;
use serenity_bridge::world::player::player::Player;
use serenity_bridge::world::world::dimension::Dimension;
use serenity_bridge::world::world::world::World;

fn names(schema: &Schema) -> Vec<&str> {
    schema.fields.iter().map(|field| field.name.as_str()).collect()
}

fn all_required(schema: &Schema) -> bool {
    schema.fields.iter().all(|field| field.required)
}

fn none_required(schema: &Schema) -> bool {
    schema.fields.iter().all(|field| !field.required)
}

fn field(name: &str, kind: FieldKind, required: bool) -> SchemaField {
    SchemaField { name: name.to_string(), kind, required }
}

#[test]
fn schema_is_built_field_by_field() {
    assert_eq!(Schema::new().fields, vec![]);
    let schema = Schema::new().with("a", FieldKind::Text, true).with("b", FieldKind::Int32, false);
    assert_eq!(
        schema.fields,
        vec![field("a", FieldKind::Text, true), field("b", FieldKind::Int32, false)]
    );
    let joined = schema.followed_by(Schema::new().with("c", FieldKind::Function, false));
    assert_eq!(names(&joined), vec!["a", "b", "c"]);
    assert_eq!(joined.fields[2], field("c", FieldKind::Function, false));
    assert_eq!(names(&Schema::new().followed_by(Schema::new())), Vec::<&str>::new());
}

#[test]
fn structured_value_schemas() {
    let block = BlockPosition::schema();
    assert_eq!(
        block.fields,
        vec![
            field("x", FieldKind::Int32, true),
            field("y", FieldKind::Int32, true),
            field("z", FieldKind::Int32, true),
        ]
    );
    let vector = Vector3f::schema();
    assert_eq!(
        vector.fields,
        vec![
            field("x", FieldKind::Double, true),
            field("y", FieldKind::Double, true),
            field("z", FieldKind::Double, true),
        ]
    );
}

#[test]
fn required_schemas_list_fields_in_extraction_order() {
    assert_eq!(
        names(&BlockType::schema()),
        vec!["identifier", "custom", "loggable", "air", "liquid", "solid"]
    );
    assert_eq!(
        names(&Dimension::schema()),
        vec!["identifier", "viewDistance", "simulationDistance"]
    );
    assert_eq!(names(&World::schema()), vec!["logger", "identifier", "currentTick"]);
    assert_eq!(names(&Block::schema()), vec!["dimension"]);
    assert_eq!(
        names(&PlayerHealthComponent::schema()),
        vec!["identifier", "effectiveMin", "effectiveMax", "defaultValue"]
    );
    assert_eq!(names(&Worlds::schema()), vec!["logger"]);
    assert_eq!(names(&Serenity::schema()), vec!["logger", "worlds"]);
    assert_eq!(names(&Plugin::schema()), vec!["logger", "path"]);
    assert_eq!(names(&PlayerChatSignal::schema()), vec!["world", "player", "message"]);
    assert_eq!(names(&PlayerExecuteCommandSignal::schema()), vec!["world", "player", "command"]);
    assert_eq!(names(&PlayerJoinSignal::schema()), vec!["world", "player"]);
    assert_eq!(names(&PlayerLeaveSignal::schema()), vec!["world", "player", "reason", "message"]);
    assert_eq!(names(&WorldTickSignal::schema()), vec!["world"]);
    for schema in [
        BlockType::schema(),
        Dimension::schema(),
        World::schema(),
        Block::schema(),
        PlayerHealthComponent::schema(),
        Worlds::schema(),
        Serenity::schema(),
        Plugin::schema(),
        PlayerChatSignal::schema(),
        PlayerExecuteCommandSignal::schema(),
        PlayerJoinSignal::schema(),
        PlayerLeaveSignal::schema(),
        WorldTickSignal::schema(),
    ] {
        assert!(all_required(&schema));
    }
}

#[test]
fn nested_schemas_are_those_of_the_nested_views() {
    assert_eq!(Block::schema().fields[0].kind, FieldKind::Object(Dimension::schema()));
    assert_eq!(World::schema().fields[0].kind, FieldKind::Object(Logger::schema()));
    assert_eq!(World::schema().fields[1].kind, FieldKind::Text);
    assert_eq!(World::schema().fields[2].kind, FieldKind::BigInt);
    assert_eq!(Serenity::schema().fields[1].kind, FieldKind::Object(Worlds::schema()));
    let leave = PlayerLeaveSignal::schema();
    assert_eq!(leave.fields[0].kind, FieldKind::Object(World::schema()));
    assert_eq!(leave.fields[1].kind, FieldKind::Object(Player::schema()));
    assert_eq!(leave.fields[2].kind, FieldKind::Int32);
    assert_eq!(leave.fields[3].kind, FieldKind::Text);
    assert_eq!(BlockType::schema().fields[3], field("air", FieldKind::Boolean, true));
}

#[test]
fn player_schema_is_all_optional() {
    let schema = Player::schema();
    assert_eq!(names(&schema), vec!["username", "xuid", "uuid", "position", "dimension"]);
    assert!(none_required(&schema));
    assert_eq!(schema.fields[3].kind, FieldKind::Object(Vector3f::schema()));
    assert_eq!(schema.fields[4].kind, FieldKind::Object(Dimension::schema()));
    assert!(Logger::schema().fields.is_empty());
}

#[test]
fn member_schemas_list_what_is_read_and_called() {
    assert_eq!(
        names(&Logger::member_schema()),
        vec!["log", "info", "warn", "error", "success", "debug"]
    );
    assert_eq!(names(&World::member_schema()), vec!["sendMessage"]);
    assert_eq!(names(&Dimension::member_schema()), vec!["getBlock"]);
    assert_eq!(names(&Block::member_schema()), vec!["getType"]);
    assert_eq!(
        names(&PlayerHealthComponent::member_schema()),
        vec!["getCurrentValue", "setCurrentValue", "applyDamage"]
    );
    assert_eq!(names(&Worlds::member_schema()), vec!["on"]);
    let player = Player::member_schema();
    assert_eq!(
        names(&player),
        vec![
            "gamemode",
            "isOp",
            "isHungry",
            "getTotalExperience",
            "setGamemode",
            "sync",
            "spawn",
            "respawn",
            "kill",
            "exhaust",
            "hasComponent",
            "getComponent",
            "removeComponent",
            "sendMessage",
            "sendToast",
            "teleport",
            "transfer",
            "addExperience",
            "hasAbility",
            "getAbility",
            "setAbility",
            "playEffectAnimation",
        ]
    );
    assert_eq!(player.fields[0].kind, FieldKind::Int32);
    assert_eq!(player.fields[1].kind, FieldKind::Boolean);
    assert_eq!(player.fields[2].kind, FieldKind::Boolean);
    assert_eq!(player.fields[3].kind, FieldKind::Int32);
    assert!(player.fields[4..].iter().all(|field| field.kind == FieldKind::Function));
    for schema in [
        Logger::member_schema(),
        World::member_schema(),
        Dimension::member_schema(),
        Block::member_schema(),
        PlayerHealthComponent::member_schema(),
        Worlds::member_schema(),
        player,
    ] {
        assert!(none_required(&schema));
    }
}

#[test]
fn errors_describe_themselves() {
    assert_eq!(BridgeError::NotAnObject.describe(), "value is not an object");
    assert_eq!(
        BridgeError::SchemaViolation("identifier".to_string()).describe(),
        "schema violation: identifier"
    );
    assert_eq!(
        BridgeError::FieldMissingOrWrongType("x".to_string()).describe(),
        "field missing or of wrong type: x"
    );
    assert_eq!(
        BridgeError::MethodNotFound("applyDamage".to_string()).describe(),
        "method not found: applyDamage"
    );
    assert_eq!(
        BridgeError::ReturnTypeMismatch("getType".to_string()).describe(),
        "return type mismatch: getType"
    );
    assert_eq!(BridgeError::HostAllocationFailed.describe(), "host allocation failed");
    assert_eq!(BridgeError::SchemaViolation(String::new()).describe(), "schema violation: ");
}
