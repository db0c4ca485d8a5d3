//! Stund keeps SSH tunnels open in the background.
//!
//! A daemon is the parent of one SSH process per tunnel. Command-line clients
//! talk to it over a Unix socket: they open, close and list tunnels, and while
//! a tunnel is being opened they relay the user's login dialogue with SSH.
//!
//! This library holds what stund decides and what it says. Each conversation is
//! a state machine: a function is told what happened, and answers what to do
//! next. The program around it performs the I/O and runs the threads and tasks;
//! the library itself asks the system only for the home directory and for random
//! bytes.

pub mod cli;
pub mod client;
pub mod codecs;
pub mod console;
pub mod daemon;
pub mod laws;
pub mod marker;
pub mod protocol;
pub mod pty;
pub mod stdio;
pub mod terminal;
pub mod text;
