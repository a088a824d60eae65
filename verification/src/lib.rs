//! A single-room chat broadcast core.
//!
//! Peers register under their network address, every event of the room is
//! fanned out to the inbound queue of each other registered peer, and each
//! event has one canonical line of text.
//!
//! An address is a pair: the host as the 128 bits of its IPv6 form, and the
//! port. The room is changed through an exclusive borrow, so a server that
//! shares it among tasks keeps it behind a lock; no call of the room waits,
//! so the lock is never held across a suspension.

pub mod message;
pub mod peer;
pub mod queue;
pub mod registry;
pub mod room;
pub mod session;
pub mod text;
