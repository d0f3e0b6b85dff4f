//! Scanners that find the dependencies of a host.
pub mod connections;
pub mod database;

pub use connections::{ConnectionState, NetworkConnection, Process};
pub use database::DatabaseScanner;
