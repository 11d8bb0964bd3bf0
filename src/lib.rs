//! A synchronous bridge to a remote tool server: the connection state machine,
//! the pollable stream registry, and the text payloads handed to callers.

pub mod connection;
pub mod error;
pub mod headers;
pub mod payload;
pub mod registry;
pub mod reply;
pub mod request;
