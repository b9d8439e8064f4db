//! Typed native views over objects owned by a host scripting runtime.
//!
//! A host object is reached through a handle. The bridge reads named, typed
//! fields from a handle into a native snapshot, by the schema of the entity
//! that the handle stands for, and plans the calls that are made back into
//! the host, with their arguments marshaled in order.
//!
//! Nothing here touches a running host. A handle is held as the plain record
//! of what it exposes ([`host::HostObject`]), and a call is handed out as a
//! plan ([`utils::call_forwarder::Invocation`]) for whoever owns the live
//! handle to carry out.

pub mod block;
pub mod error;
pub mod host;
pub mod logger;
pub mod plugin;
pub mod protocol;
pub mod serenity;
pub mod utils;
pub mod world;
