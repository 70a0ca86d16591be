//! The server's names, in one import.
pub use super::{laminar_poller, NetworkResource, Peer};
pub use crate::laminar_types::{LaminarPacket, LaminarSocketEvent};
