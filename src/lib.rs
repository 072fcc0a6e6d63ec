//! A registry of opaque payloads that clients hand over once and then name by
//! lightweight typed references, together with the operations that resolve
//! those references back into checked, typed values.

pub mod client;
pub mod resource;
pub mod server;
pub mod session;
