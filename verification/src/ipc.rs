//! Communication with agents: messages, their handling, and the registry
//! that ties an agent's identity to its transport.
pub mod communicator;
pub mod handler;
pub mod laws;
pub mod message;
pub mod registry;
pub mod rewrite;
