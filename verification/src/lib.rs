//! The core of `aibro`, a command-line client for a chat-completion service.
//!
//! Everything here is a function from plain values to plain values; reading
//! standard input and the environment and talking to the network are left to
//! the program built on top of this crate.

pub mod chat;
pub mod config;
pub mod error;
pub mod input;
pub mod model;
pub mod outcome;
pub mod persona;
pub mod status;
