//! The daemon: the parent of the SSH processes, and the server of the clients.

pub mod history;
pub mod log;
pub mod monitor;
pub mod session;
pub mod state;
