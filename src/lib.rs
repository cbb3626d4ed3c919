//! Decision logic of a local line-oriented message relay: the daemon's
//! session registry and idle monitor, the per-session reactions to
//! connection and hub events, and the client's connect/retry and bridge
//! rules. The surrounding program performs the I/O and feeds events in.

pub mod client;
pub mod idle;
pub mod registry;
pub mod session;
