//! Request handling for an AppArmor helper: the command line and socket
//! requests it accepts, the commands it runs for them, and the wire format of
//! the socket requests.

pub mod common;
pub mod wire;
pub mod command;
pub mod caller;
pub mod server;
pub mod cli;
