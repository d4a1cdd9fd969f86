//! Networking decisions: the server's forwarding state machine, the client's
//! replay state machine, and the state shared with the user interface.

pub mod client;
pub mod client_laws;
pub mod server;
pub mod server_laws;
pub mod state;
