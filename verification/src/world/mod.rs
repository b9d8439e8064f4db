pub mod block;
pub mod components;
pub mod events;
pub mod player;
pub mod world;
