//! The logic of a proxy for Spark Connect. Users create applications through its API, each
//! application is launched as a Spark session and calls back with its address, and requests that
//! carry an application's token are sent on to it.
//!
//! The library decides; the program around it does what it decides and reports what came of it.
pub mod application;
pub mod auth;
pub mod client;
pub mod config;
pub mod connection;
pub mod error;
pub mod grpc;
pub mod headers;
pub mod launcher;
pub mod laws;
pub mod migration;
pub mod models;
pub mod proxy;
pub mod routes;
pub mod server;
pub mod store;
pub mod system_auth;
pub mod text;
pub mod text_map;
pub mod tls;
mod trusted;
pub mod venv;
