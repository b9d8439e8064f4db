pub mod axes;
pub mod block_position;
pub mod vector3f;
