//! The client's side of the conversation with the daemon.

pub mod connection;
pub mod error;
pub mod establish;
pub mod open;
