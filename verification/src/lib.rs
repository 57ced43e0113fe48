//! A verified core for a minimal HTTP/1.1 server.
//!
//! The library parses a raw request buffer into a structured request,
//! routes it by path prefix, and builds complete response buffers.
//! All socket and file system work is left to the surrounding program,
//! which hands the library plain byte values and performs the file
//! actions the router asks for.

pub mod bytes;
pub mod tokens;
pub mod config;
pub mod parse;
pub mod response;
pub mod routes;
pub mod args;
pub mod laws;

pub use config::Config;
