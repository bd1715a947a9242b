//! Service configuration.
//!
//! Plain settings records for the server, the database and the Redis pool.
//! Reading them from a configuration file and from the environment is I/O
//! and lives with the callers, which hand the parsed values to
//! [`Settings::new`].

use vstd::prelude::*;

verus! {

pub struct ServerConfig {
    pub host: String,
    pub port: u16,
}

pub struct DatabaseConfig {
    pub url: String,
    pub max_connections: u32,
}

pub struct RedisConfig {
    pub url: String,
    pub pool_size: u32,
}

pub struct Settings {
    pub server: ServerConfig,
    pub database: DatabaseConfig,
    pub redis: RedisConfig,
}

impl Settings {
    /// Assembles the settings from their three sections, unchanged.
    pub fn new(server: ServerConfig, database: DatabaseConfig, redis: RedisConfig) -> (s: Settings)
        ensures
            s.server == server,
            s.database == database,
            s.redis == redis,
    {
        Settings { server, database, redis }
    }
}

} // verus!
