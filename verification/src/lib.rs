//! Supervision core for a long-running game-server process.
//!
//! The crate models the decision logic of a process supervisor: the
//! publish/subscribe message buses, the command dispatcher, the
//! graceful-then-forced shutdown protocol, the backup rotation scheme and
//! the remote-command authorization boundary.  Everything that touches the
//! operating system (spawning, pipe I/O, threads, the network) is driven by
//! a thin unverified shell that feeds observed outcomes into these verified
//! state machines.

pub mod backup;
pub mod config;
pub mod dispatcher;
pub mod error;
pub mod io;
pub mod jobs;
pub mod processes;
pub mod server_handler;
pub mod telegram;
