//! Transfer session coordination for a peer-to-peer nearby-sharing client.
//!
//! The crate tracks every concurrent outbound (send) and inbound (receive)
//! transfer attempt, routes protocol events to the right session, mediates
//! user consent with an auto-decline timeout, estimates remaining transfer
//! time, enforces the protocol's single-concurrent-transfer rule, and
//! supervises the lifecycle of long-running listener tasks.  Everything the
//! protocol engine or the user interface needs to act on is exchanged as
//! plain values, so the whole coordination logic is verified.

pub mod coordinator;
pub mod eta;
pub mod files;
pub mod inbound;
pub mod outbound;
pub mod protocol;
pub mod supervisor;
pub mod text;
pub mod tray;
