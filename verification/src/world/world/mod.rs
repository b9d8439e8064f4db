pub mod dimension;
pub mod world;
