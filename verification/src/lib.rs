//! Browser session management: a registry of live browser connections, the
//! decisions of launching and closing a session, and the step-by-step
//! dispatch of commands against a session.
//!
//! Beside the sessions stand three sets of helpers for development tools:
//! ports, project directories and their listings, and processes.
//!
//! The library decides and computes. Talking to a browser, reading
//! directories, binding ports and starting processes is left to the caller,
//! who hands in what it found and carries out what it is told.

pub mod text;
pub mod session_id;
pub mod error;
pub mod registry;
pub mod config;
pub mod json;
pub mod dispatch;
pub mod manager;
pub mod ports;
pub mod process;
pub mod project;
pub mod listing;
pub mod pump;
