use vstd::prelude::*;

verus! {

/// How a client reaches the store: chosen once, when the client is built.
#[derive(Debug, Clone, Copy, PartialEq, Eq, Structural)]
pub enum ClientConfig {
    /// Calls travel over an in-process channel to a store in the same process.
    Local,
    /// Calls travel over a socket to a store in another process.
    Remote,
}

} // verus!
