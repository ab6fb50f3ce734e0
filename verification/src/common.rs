//! The vocabulary shared by server, client and miner: work units and the
//! messages that travel between clients and the server.

use vstd::prelude::*;

verus! {

/// Where a work unit stands. A unit only ever moves forward:
/// `Vacant -> Working -> Complete`.
#[derive(Debug, Clone, Copy, PartialEq, Eq, Structural)]
pub enum WorkStatus {
    Vacant,
    Working,
    Complete,
}

/// One unit of work: its id, where it stands, and who is working on it
/// (`nobody` until someone takes it).
#[derive(Debug, Clone, PartialEq, Eq)]
pub struct WorkUnit {
    pub id: u32,
    pub status: WorkStatus,
    pub current_worker: String,
}

/// What a client asks of the server.
#[derive(Debug, Clone, PartialEq, Eq)]
pub enum ClientMessage {
    /// Which unit is free?
    RequestOpenWorkUnit,
    /// Worker `name` takes unit `id`: `Take(id, name)`.
    Take(u32, String),
    /// Worker `name` has finished unit `id`: `Complete(id, name)`.
    Complete(u32, String),
    /// A message the server could not read; only the server makes these.
    InvalidConnection,
}

/// What the server answers.
#[derive(Debug, Clone, Copy, PartialEq, Eq, Structural)]
pub enum ServerMessage {
    /// This unit is free.
    Unit(u32),
    Accepted,
    Denied,
    /// The sender is not a connected client.
    Unknown,
}

} // verus!
