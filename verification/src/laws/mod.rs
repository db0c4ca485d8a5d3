//! What the operations of the library are for, stated of all inputs: each law
//! relates what goes into an operation to what comes out of it.

pub mod client;
pub mod command_line;
pub mod console;
pub mod login;
pub mod startup;
pub mod system;
pub mod tunnels;
pub mod writing;
