//! What holds of the library's functions, stated over their arguments and results.
//!
//! Most laws here speak of calls: they hold of every result that a function gives for the
//! arguments.
pub mod access;
pub mod api;
pub mod client;
pub mod config;
pub mod launching;
pub mod maps;
pub mod proxying;
pub mod replies;
pub mod serving;
pub mod storing;
pub mod table;
pub mod text;
pub mod venv;
