//! Common configuration types shared by server-shaped systems.

use vstd::prelude::*;

verus! {

/// Common server configuration.
#[derive(Debug, Clone)]
pub struct ServerConfig {
    /// Server host.
    pub host: String,
    /// Server port.
    pub port: u16,
    /// Number of worker threads; `None` leaves the choice to the runtime.
    pub workers: Option<usize>,
    /// Request timeout in seconds.
    pub timeout_secs: u64,
    /// Maximum concurrent connections.
    pub max_connections: usize,
}

impl Default for ServerConfig {
    /// Loopback on port 8080, 30 s timeout, 1000 connections.
    fn default() -> (c: Self)
        ensures
            c.host@ == "127.0.0.1"@,
            c.port == 8080,
            c.workers is None,
            c.timeout_secs == 30,
            c.max_connections == 1000,
    {
        ServerConfig {
            host: "127.0.0.1".to_owned(),
            port: 8080,
            workers: None,
            timeout_secs: 30,
            max_connections: 1000,
        }
    }
}

/// Common database configuration.
#[derive(Debug, Clone)]
pub struct DatabaseConfig {
    /// Database URL.
    pub url: String,
    /// Maximum number of connections in the pool.
    pub max_connections: u32,
    /// Minimum number of idle connections.
    pub min_connections: u32,
    /// Connection timeout in seconds.
    pub connect_timeout_secs: u64,
}

impl Default for DatabaseConfig {
    /// An in-memory database with a small pool.
    fn default() -> (c: Self)
        ensures
            c.url@ == "sqlite::memory:"@,
            c.max_connections == 10,
            c.min_connections == 2,
            c.connect_timeout_secs == 5,
    {
        DatabaseConfig {
            url: "sqlite::memory:".to_owned(),
            max_connections: 10,
            min_connections: 2,
            connect_timeout_secs: 5,
        }
    }
}

} // verus!
