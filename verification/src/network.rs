//! The state of the connection that stands behind an instance.

use crate::server::Server;
use vstd::prelude::*;

verus! {

/// Whether a connection is up.
#[derive(Debug, Clone, Copy, PartialEq, Eq, Structural)]
pub enum ConnectionStatus {
    Connected,
    Disconnected,
}

/// A connection to a server and its status.
#[derive(Debug)]
pub struct ConnectionHandle {
    pub server: Server,
    pub status: ConnectionStatus,
}

} // verus!
