//! MPC as a service: the client-server protocol, the client builder, the
//! server builder, and the peer and client registries of a server.

pub mod protocol;
pub mod client;
pub mod server;
