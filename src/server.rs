use vstd::prelude::*;

pub use crate::session::Vaccel;

use crate::session::{VaccelHandler, VaccelState};

verus! {

/// The state shared by every request that a server handles.
pub type Server = VaccelState;

/// A request handler that holds the server's state by a shared,
/// reference-counted handle.
pub type Handler = VaccelHandler;

} // verus!
