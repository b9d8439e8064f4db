pub mod component;
pub mod health;
