//! A real-time room-membership and message-broadcast relay.
//!
//! The registry tracks which connected participants belong to which chat
//! room, the router resolves who receives a message, and the lifecycle
//! handlers drive each connection's events while keeping every participant
//! in at most one room.

pub mod registry;
pub mod router;
pub mod lifecycle;
pub mod laws;
