//! The client's names, in one import.
pub use super::{laminar_poller, NetworkResource};
pub use crate::laminar_types::{LaminarPacket, LaminarSocketEvent};
