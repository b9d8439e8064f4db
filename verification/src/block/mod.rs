pub mod block_type;
