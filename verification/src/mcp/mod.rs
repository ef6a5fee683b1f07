//! Tool servers: child processes that speak JSON-RPC 2.0 over their
//! standard streams, one message per line. This module frames the messages
//! and reads the answers; the caller owns the processes.

pub mod client;
pub mod registry;
pub mod types;
