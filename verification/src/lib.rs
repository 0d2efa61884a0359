//! Decision logic of a small remote-command receiver: token provisioning,
//! request authentication, command-line parsing and response selection.
//!
//! Every function here works on plain values. Reading files, spawning
//! processes and serving HTTP are left to the program built around this crate.

pub mod auth;
pub mod bootstrap;
pub mod command;
pub mod config;
pub mod output;
pub mod service;
pub mod text;
pub mod token;
