//! Editing, focus and submission rules of a terminal chat client.
//!
//! The library owns the state that the client's event loop mutates: the
//! primary input line, the configuration panel with its three fields, the
//! message history and the session. Terminal drawing and HTTP transport live
//! outside of it and only read this state or hand it plain values.

pub mod config;
pub mod directory;
pub mod display;
pub mod input;
pub mod keys;
pub mod log_buffer;
pub mod message;
pub mod network;
pub mod poll;
pub mod state;
pub mod text;
pub mod text_field;
