//! Relay selection engine for a VPN client.
//!
//! Given a catalog of relay servers and a set of user constraints, the
//! library filters relays that can serve the requested tunnel protocol and
//! builds a concrete, connectable endpoint descriptor (address, port, and
//! protocol-specific peer parameters) for a chosen relay.

pub mod endpoint;
pub mod matcher;
pub mod net;
pub mod relay_constraints;
pub mod relay_list;
