//! The console variant of the protocol, in which the user says when the login
//! has succeeded, by typing a period on a line of its own.

pub mod cleanup;
pub mod connection;
pub mod error;
pub mod finish;
pub mod open;
pub mod protocol;
