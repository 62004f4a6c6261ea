//! Core runtime of a GraphQL-backed tool-invocation server.
//!
//! The library holds the verified logic of the server: the lifecycle that
//! builds the shared state, the running server's tool dispatch and
//! hot-reload protocol, the operation compiler decisions, the token
//! lifecycle manager, the auth gates, and the CORS configuration rules.
//! Transport listeners, file and network I/O live outside the library.

pub mod authgate;
pub mod config_store;
pub mod cors;
pub mod errors;
pub mod graphql;
pub mod headers;
pub mod operations;
pub mod running;
pub mod server;
pub mod telemetry;
pub mod text;
pub mod token;
