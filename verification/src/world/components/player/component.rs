use crate::error::{BridgeError, BridgeErrorView};
use crate::host::{HostValue, ValueView};
use crate::utils::call_forwarder::{coerce_to_object, outcome, plan, Invocation};
use crate::world::components::player::health::PlayerHealthComponent;
use crate::world::player::player::Player;
use vstd::prelude::*;

verus! {

/// The components that a player can be asked for.
#[derive(Debug, Clone, Copy, PartialEq, Eq)]
pub struct PlayerComponent {}

impl PlayerComponent {
    /// Asks the player for its health component.
    pub fn get_health(player: &Player) -> (r: Result<Invocation, BridgeError>)
        ensures
            outcome(r) == plan(
                player.object@,
                "getComponent"@,
                seq![ValueView::Text("minecraft:health"@)],
            ),
    {
        player.get_component("minecraft:health")
    }

    /// The health component that the player returned.
    pub fn get_health_reply(reply: &HostValue) -> (r: Result<PlayerHealthComponent, BridgeError>)
        ensures
            match reply@ {
                ValueView::Object(object) => PlayerHealthComponent::built(object, r),
                _ => r matches Err(error) && error@ == BridgeErrorView::ReturnTypeMismatch(
                    "getComponent"@,
                ),
            },
    {
        let object = coerce_to_object("getComponent", reply)?;
        PlayerHealthComponent::new(object)
    }
}

} // verus!
