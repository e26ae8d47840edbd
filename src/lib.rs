//! Command-execution core of a federated content server's operator tool:
//! connection leases, the per-command context, command dispatch and the
//! texts that the tool prints.

mod text;

pub mod actor;
pub mod command;
pub mod config;
pub mod context;
pub mod encode;
pub mod lease;
pub mod output;
pub mod session;
pub mod token;
pub mod workers;
