//! Session-synchronization core for a two-peer networked chess game.
//!
//! Two independent chess clients play one game over a point-to-point
//! connection by exchanging `Start`, `Move` and `Ack` messages.  Each peer
//! keeps a locally authoritative board; this crate holds the protocol that
//! keeps the two views consistent: connection establishment, color
//! negotiation, move proposal and acknowledgment, and draw/forfeit
//! signalling.  Move legality, rendering and the transport itself are
//! collaborators outside the crate; their verdicts and events are handed in
//! as plain values.

pub mod msg;
pub mod session;
pub mod agreement;
