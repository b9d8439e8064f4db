use serenity_bridge::error::BridgeError;
use serenity_bridge::host::{HostObject, HostValue};
use serenity_bridge::logger::logger::{tag_line, Logger};
use serenity_bridge::protocol::types::vector3f::Vector3f;
use serenity_bridge::utils::call_forwarder::Invocation;
use serenity_bridge::world::components::player::component::PlayerComponent;
use serenity_bridge::world::components::player::health::PlayerHealthComponent;
use serenity_bridge::world::player::player::Player;

fn text(value: &str) -> HostValue {
    HostValue::Text(value.to_string())
}

fn not_found(method: &str) -> BridgeError {
    BridgeError::MethodNotFound(method.to_string())
}

fn mismatch(method: &str) -> BridgeError {
    BridgeError::ReturnTypeMismatch(method.to_string())
}

fn call(method: &str, arguments: Vec<HostValue>) -> Result<Invocation, BridgeError> {
    Ok(Invocation { method: method.to_string(), arguments })
}

fn player_with(methods: &[&str]) -> Player {
    let mut object = HostObject::new();
    object.set("username", text("Alex"));
    for method in methods {
        object.set(method, HostValue::Function);
    }
    Player::new(object)
}

fn health_handle() -> HostObject {
    let mut object = HostObject::new();
    object.set("identifier", text("minecraft:health"));
    object.set("effectiveMin", HostValue::Int32(0));
    object.set("effectiveMax", HostValue::Int32(20));
    object.set("defaultValue", HostValue::Int32(20));
    object.set("getCurrentValue", HostValue::Function);
    object.set("setCurrentValue", HostValue::Function);
    object.set("applyDamage", HostValue::Function);
    object
}

#[test]
fn apply_damage_without_cause_forwards_one_argument() {
    let health = PlayerHealthComponent::new(health_handle()).unwrap();
    let invocation = health.apply_damage(5, None).unwrap();
    assert_eq!(invocation.method, "applyDamage");
    assert_eq!(invocation.arguments.len(), 1);
    assert_eq!(invocation.arguments, vec![HostValue::Int32(5)]);
}

#[test]
fn apply_damage_with_cause_forwards_two_arguments() {
    let health = PlayerHealthComponent::new(health_handle()).unwrap();
    let invocation = health.apply_damage(5, Some(12)).unwrap();
    assert_eq!(invocation.method, "applyDamage");
    assert_eq!(invocation.arguments.len(), 2);
    assert_eq!(invocation.arguments, vec![HostValue::Int32(5), HostValue::Int32(12)]);
    let zero = health.apply_damage(0, Some(0)).unwrap();
    assert_eq!(zero.arguments, vec![HostValue::Int32(0), HostValue::Int32(0)]);
}

#[test]
fn apply_damage_without_the_method_is_method_not_found() {
    let mut handle = health_handle();
    handle.set("applyDamage", HostValue::Undefined);
    let health = PlayerHealthComponent::new(handle).unwrap();
    assert_eq!(health.apply_damage(5, None), Err(not_found("applyDamage")));
    assert_eq!(health.apply_damage(5, Some(1)), Err(not_found("applyDamage")));
}

#[test]
fn health_captures_every_field() {
    let health = PlayerHealthComponent::new(health_handle()).unwrap();
    assert_eq!(health.identifier, "minecraft:health");
    assert_eq!(health.effective_min, 0);
    assert_eq!(health.effective_max, 20);
    assert_eq!(health.default_value, 20);
    assert_eq!(health.object, health_handle());
}

#[test]
fn health_names_each_missing_field() {
    for name in ["identifier", "effectiveMin", "effectiveMax", "defaultValue"] {
        let mut handle = health_handle();
        handle.set(name, HostValue::Undefined);
        assert_eq!(
            PlayerHealthComponent::new(handle),
            Err(BridgeError::SchemaViolation(name.to_string()))
        );
    }
    assert_eq!(
        PlayerHealthComponent::from_value(HostValue::Int32(20)),
        Err(BridgeError::NotAnObject)
    );
    assert!(PlayerHealthComponent::from_value(HostValue::Object(health_handle())).is_ok());
}

#[test]
fn health_current_value_is_asked_and_read() {
    let health = PlayerHealthComponent::new(health_handle()).unwrap();
    assert_eq!(health.get_current_value(), call("getCurrentValue", vec![]));
    assert_eq!(PlayerHealthComponent::get_current_value_reply(&HostValue::Int32(17)), Ok(17));
    assert_eq!(
        PlayerHealthComponent::get_current_value_reply(&HostValue::Null),
        Err(mismatch("getCurrentValue"))
    );
    assert_eq!(health.set_current_value(3), call("setCurrentValue", vec![HostValue::Int32(3)]));
}

#[test]
fn player_component_asks_for_health() {
    let player = player_with(&["getComponent"]);
    assert_eq!(
        PlayerComponent::get_health(&player),
        call("getComponent", vec![text("minecraft:health")])
    );
    assert_eq!(PlayerComponent::get_health(&player_with(&[])), Err(not_found("getComponent")));
    let health = PlayerComponent::get_health_reply(&HostValue::Object(health_handle())).unwrap();
    assert_eq!(health, PlayerHealthComponent::new(health_handle()).unwrap());
    assert_eq!(
        PlayerComponent::get_health_reply(&HostValue::Undefined),
        Err(mismatch("getComponent"))
    );
    assert_eq!(
        PlayerComponent::get_health_reply(&HostValue::Object(HostObject::new())),
        Err(BridgeError::SchemaViolation("identifier".to_string()))
    );
}

#[test]
fn player_calls_without_arguments() {
    let player = player_with(&["sync", "spawn", "respawn", "kill"]);
    assert_eq!(player.sync(), call("sync", vec![]));
    assert_eq!(player.spawn(), call("spawn", vec![]));
    assert_eq!(player.respawn(), call("respawn", vec![]));
    assert_eq!(player.kill(), call("kill", vec![]));
}

#[test]
fn player_calls_with_one_integer() {
    let player = player_with(&[
        "setGamemode",
        "exhaust",
        "addExperience",
        "hasAbility",
        "getAbility",
        "playEffectAnimation",
    ]);
    assert_eq!(player.set_gamemode(1), call("setGamemode", vec![HostValue::Int32(1)]));
    assert_eq!(player.exhaust(-3), call("exhaust", vec![HostValue::Int32(-3)]));
    assert_eq!(player.add_experience(100), call("addExperience", vec![HostValue::Int32(100)]));
    assert_eq!(player.has_ability(4), call("hasAbility", vec![HostValue::Int32(4)]));
    assert_eq!(player.get_ability(4), call("getAbility", vec![HostValue::Int32(4)]));
    assert_eq!(
        player.play_effect_animation(i32::MAX),
        call("playEffectAnimation", vec![HostValue::Int32(i32::MAX)])
    );
}

#[test]
fn player_calls_with_text() {
    let player = player_with(&[
        "hasComponent",
        "getComponent",
        "removeComponent",
        "sendMessage",
        "sendToast",
    ]);
    assert_eq!(player.has_component("a:b"), call("hasComponent", vec![text("a:b")]));
    assert_eq!(player.get_component("a:b"), call("getComponent", vec![text("a:b")]));
    assert_eq!(player.remove_component("a:b"), call("removeComponent", vec![text("a:b")]));
    assert_eq!(player.send_message(""), call("sendMessage", vec![text("")]));
    assert_eq!(
        player.send_toast("title", "body"),
        call("sendToast", vec![text("title"), text("body")])
    );
}

#[test]
fn player_calls_with_mixed_arguments() {
    let player = player_with(&["teleport", "transfer", "setAbility"]);
    let target = Vector3f { x: 1.5f64.to_bits(), y: 64.0f64.to_bits(), z: (-200.25f64).to_bits() };
    let invocation = player.teleport(target).unwrap();
    assert_eq!(invocation.method, "teleport");
    assert_eq!(invocation.arguments, vec![HostValue::Object(target.to_js_object())]);
    assert_eq!(
        player.transfer("play.example.org", 19132),
        call("transfer", vec![text("play.example.org"), HostValue::Int32(19132)])
    );
    assert_eq!(
        player.set_ability(2, true),
        call("setAbility", vec![HostValue::Int32(2), HostValue::Boolean(true)])
    );
}

#[test]
fn player_calls_fail_without_the_method() {
    let player = player_with(&[]);
    assert_eq!(player.set_gamemode(1), Err(not_found("setGamemode")));
    assert_eq!(player.sync(), Err(not_found("sync")));
    assert_eq!(player.spawn(), Err(not_found("spawn")));
    assert_eq!(player.respawn(), Err(not_found("respawn")));
    assert_eq!(player.kill(), Err(not_found("kill")));
    assert_eq!(player.exhaust(1), Err(not_found("exhaust")));
    assert_eq!(player.has_component("c"), Err(not_found("hasComponent")));
    assert_eq!(player.get_component("c"), Err(not_found("getComponent")));
    assert_eq!(player.remove_component("c"), Err(not_found("removeComponent")));
    assert_eq!(player.send_message("m"), Err(not_found("sendMessage")));
    assert_eq!(player.send_toast("t", "m"), Err(not_found("sendToast")));
    assert_eq!(player.teleport(Vector3f::zero()), Err(not_found("teleport")));
    assert_eq!(player.transfer("a", 1), Err(not_found("transfer")));
    assert_eq!(player.add_experience(1), Err(not_found("addExperience")));
    assert_eq!(player.has_ability(1), Err(not_found("hasAbility")));
    assert_eq!(player.get_ability(1), Err(not_found("getAbility")));
    assert_eq!(player.set_ability(1, false), Err(not_found("setAbility")));
    assert_eq!(player.play_effect_animation(1), Err(not_found("playEffectAnimation")));
    assert_eq!(player.username, "Alex");
}

#[test]
fn player_replies_are_checked() {
    assert_eq!(Player::has_component_reply(&HostValue::Boolean(true)), Ok(true));
    assert_eq!(Player::has_component_reply(&text("true")), Err(mismatch("hasComponent")));
    assert_eq!(Player::has_ability_reply(&HostValue::Boolean(false)), Ok(false));
    assert_eq!(Player::has_ability_reply(&HostValue::Int32(0)), Err(mismatch("hasAbility")));
    assert_eq!(Player::get_ability_reply(&HostValue::Boolean(true)), Ok(true));
    assert_eq!(Player::get_ability_reply(&HostValue::Null), Err(mismatch("getAbility")));
    let mut component = HostObject::new();
    component.set("identifier", text("minecraft:health"));
    assert_eq!(
        Player::get_component_reply(&HostValue::Object(component.duplicate())),
        Ok(component)
    );
    assert_eq!(Player::get_component_reply(&HostValue::Undefined), Err(mismatch("getComponent")));
}

#[test]
fn player_getters_read_the_handle_and_default() {
    let mut player = player_with(&[]);
    assert_eq!(player.get_gamemode(), 0);
    assert!(!player.is_op());
    assert!(!player.is_hungry());
    assert_eq!(player.get_total_experience(), 0);
    player.object.set("gamemode", HostValue::Int32(2));
    player.object.set("isOp", HostValue::Boolean(true));
    player.object.set("isHungry", HostValue::Boolean(true));
    player.object.set("getTotalExperience", HostValue::Int32(1395));
    assert_eq!(player.get_gamemode(), 2);
    assert!(player.is_op());
    assert!(player.is_hungry());
    assert_eq!(player.get_total_experience(), 1395);
    player.object.set("gamemode", text("creative"));
    player.object.set("isOp", HostValue::Int32(1));
    player.object.set("getTotalExperience", HostValue::Function);
    assert_eq!(player.get_gamemode(), 0);
    assert!(!player.is_op());
    assert_eq!(player.get_total_experience(), 0);
}

#[test]
fn player_snapshot_does_not_follow_the_handle() {
    let mut player = player_with(&[]);
    player.object.set("username", text("Renamed"));
    assert_eq!(player.username, "Alex");
}

#[test]
fn tag_line_joins_tag_and_message() {
    assert_eq!(tag_line("[", "Rust", "]", "hello"), "[Rust] hello");
    assert_eq!(tag_line("", "", "", ""), " ");
    assert_eq!(tag_line("<", "t", ">", "a b"), "<t> a b");
}

#[test]
fn logger_methods_forward_one_tagged_line() {
    let mut object = HostObject::new();
    for method in ["log", "info", "warn", "error", "success", "debug"] {
        object.set(method, HostValue::Function);
    }
    let logger = Logger::new(object);
    let calls = vec![
        ("log", logger.log("status")),
        ("info", logger.info("status")),
        ("warn", logger.warn("status")),
        ("error", logger.error("status")),
        ("success", logger.success("status")),
        ("debug", logger.debug("status")),
    ];
    for (method, r) in calls {
        let invocation = r.unwrap();
        assert_eq!(invocation.method, method);
        assert_eq!(invocation.arguments.len(), 1);
        match &invocation.arguments[0] {
            HostValue::Text(line) => {
                assert!(line.ends_with(" status"));
                assert!(line.contains("Rust"));
                assert!(line.contains('[') && line.contains(']'));
            },
            other => panic!("the log line is {:?}", other),
        }
    }
}

#[test]
fn logger_without_the_method_is_method_not_found() {
    let mut object = HostObject::new();
    object.set("log", HostValue::Function);
    object.set("warn", text("not callable"));
    let logger = Logger::new(object);
    assert!(logger.log("m").is_ok());
    assert_eq!(logger.info("m"), Err(not_found("info")));
    assert_eq!(logger.warn("m"), Err(not_found("warn")));
    assert_eq!(logger.error("m"), Err(not_found("error")));
    assert_eq!(logger.success("m"), Err(not_found("success")));
    assert_eq!(logger.debug("m"), Err(not_found("debug")));
}

#[test]
fn logger_from_value_validates_the_value() {
    assert_eq!(Logger::from_value(HostValue::Null), Err(BridgeError::NotAnObject));
    let logger = Logger::from_value(HostValue::Object(HostObject::new())).unwrap();
    assert_eq!(logger.object, HostObject::new());
}
