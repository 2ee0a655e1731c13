//! Resolution, installation and launch of the Solidity language server.
//!
//! The resolver is a state machine: it is handed each answer of the host
//! (file present, latest version, install outcome) and says what to ask next.
//! The launch module turns the resolved entry point into a command line.

pub mod error;
pub mod resolver;
pub mod resolution;
pub mod launch;
