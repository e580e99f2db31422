//! Session and state-replication layer of a multiplayer simulation: connection
//! tracking, join handshakes, run-state machines, avatar spawning, input routing
//! and transform mirroring, all with verified contracts.

pub mod tracker;
pub mod transform;
pub mod handshake;
pub mod server;
pub mod lifecycle;
pub mod client;
pub mod input;
pub mod movement;
pub mod protocol;
