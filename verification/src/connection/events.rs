use super::stats::{ClientStats, ConnectionStats};
use crate::peer::PeerAddr;
use vstd::prelude::*;

verus! {

/// What the rest of the gateway tells the keeper of the statistics, and
/// what it asks of it.
#[derive(Debug, Clone, Copy, PartialEq, Eq, Structural)]
pub enum StatEvent {
    /// A client connected from this address.
    ClientConnected(PeerAddr),
    /// A connection from this address ended.
    ClientDisconnected(PeerAddr),
    /// A request from this address was handled.
    RequestProcessed { addr: PeerAddr, success: bool, duration_ms: u64 },
    /// What is known about this address?
    QueryStats { addr: PeerAddr },
    /// What is known about all clients together?
    QueryConnectionStats,
}

/// What the keeper of the statistics answers to an event.
#[derive(Debug)]
pub enum StatReply {
    /// The event asked nothing, or nothing is known.
    Nothing,
    /// What is known about one client.
    Client(ClientStats),
    /// The snapshot of all clients.
    Connections(ConnectionStats),
}

} // verus!
