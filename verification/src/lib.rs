//! The core of a host agent that finds out what a host depends on.
//!
//! Collection modules are small programs that are run again and again; what
//! they report is sent on to a server. Agents and their manager exchange
//! typed messages over a transport. This crate holds the rules of both
//! paths and does no input or output itself: the caller runs the processes,
//! sends the requests and moves the bytes, and tells the crate what came of
//! it.
pub mod agent;
pub mod config;
pub mod connections;
pub mod engine;
pub mod error;
pub mod ipc;
pub mod json;
pub mod models;
pub mod response;
pub mod scanners;
pub mod text;
pub mod traits;

pub use config::Config;
pub use engine::CollectionEngine;
pub use error::Error;
pub use error::Result;
