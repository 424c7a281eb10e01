//! Fan-out of shell commands and file copies to a fleet of SSH hosts.
//!
//! The library holds the decisions: which hosts take part, how a dropped
//! connection is recovered, which files are copied and how every host's outcome
//! is reported. Connecting, running and transferring are done by the caller,
//! which hands the outcomes back as plain values.
pub mod node;
pub mod session;
pub mod registry;
pub mod copy;
pub mod command_line;
