//! Core logic of a local game-launcher companion service.
//!
//! The crate covers the two stateful parts of the launcher: a resumable
//! download manager (chunked transfer with pause/resume/cancel, progress
//! accounting and archive extraction planning) and a session hub that
//! tracks connected game sessions and broadcasts the current user to them.
//! All I/O (sockets, HTTP, the file system) lives outside; the functions
//! here take plain values and return plain values and are verified.

pub mod archive;
pub mod download;
pub mod errors;
pub mod hub;
pub mod paths;
pub mod progress;
pub mod protocol;
pub mod transfer;
pub mod user;
