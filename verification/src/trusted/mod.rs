//! Calls into outside crates. Each item here states what the outside function does;
//! nothing in these statements is proved.
pub mod address;
pub mod basic;
pub mod calendar;
pub mod host;
pub mod jwt;
pub mod tls;
pub mod token;
pub mod web;
