//! An S3-compatible object store served out of a directory: the rules by
//! which its settings are resolved and by which the server is brought up and
//! kept accepting connections.
//!
//! Everything here is computation on values. Reading files, listening on
//! sockets and serving requests is left to the program around this library,
//! which carries out the [`server::Action`]s that the library asks for and
//! reports how each went.

pub mod auth;
pub mod config;
pub mod server;
