//! The plain data of the scanning agent.
use vstd::prelude::*;

verus! {

/// A service that the host depends on.
#[derive(Debug, Clone, PartialEq, Eq)]
pub struct Dependency {
    pub host: String,
    pub port: u16,
}

/// The settings of the scanning agent.
#[derive(Debug, Clone, PartialEq, Eq)]
pub struct Config {
    /// The IPv4 address of the server, byte by byte.
    pub server: [u8; 4],
    pub port: u16,
    pub log_file: String,
    pub log_level: u8,
    pub modules: Vec<String>,
}

} // verus!
