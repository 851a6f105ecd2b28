//! A message-routing gateway that sits between chat clients and a fleet of
//! per-conversation backend actors.
//!
//! The crate provides three pieces:
//! - the wire protocol types spoken on both sides, with pure constructors
//!   for every outbound message ([`protocol`]);
//! - the registry of connections, conversation-to-actor bindings and
//!   display metadata ([`state`]);
//! - the dispatcher that interprets one inbound client action, asks the
//!   host to perform the needed backend round trips, and produces exactly
//!   one outbound reply ([`router`]), together with conversation id
//!   generation ([`ids`]).
//!
//! The gateway itself performs no I/O: spawning a backend actor and sending
//! it a request are actions handed back to the caller, which feeds the
//! result into the next dispatcher step.

pub mod ids;
pub mod protocol;
pub mod router;
pub mod state;
