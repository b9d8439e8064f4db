pub mod call_forwarder;
pub mod fields;
pub mod node_converter;
pub mod schema;
