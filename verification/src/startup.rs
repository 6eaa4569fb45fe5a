//! What the process is started with: where the store is, how many
//! connections the pool may hold, and where the service listens.
//!
//! Starting either succeeds or ends the process: nothing here is retried.

use vstd::prelude::*;

verus! {

/// The most connections that the pool holds at once.
pub const MAX_CONNECTIONS: u32 = 5;

/// The name of the environment value that holds the store's connection URL.
pub const DATABASE_URL_VARIABLE: &'static str = "DATABASE_URL";

/// The one local socket address on which the service listens.
pub const LISTEN_ADDRESS: &'static str = "127.0.0.1:3000";

/// Why the process cannot start.
#[derive(Clone, Copy, Debug, PartialEq, Eq, Structural)]
pub enum StartupFailure {
    /// The environment holds no connection URL.
    MissingDatabaseUrl,
    /// The first connection to the store could not be made.
    PoolUnavailable,
}

impl StartupFailure {
    /// What the process says before it ends.
    pub open spec fn message_text(self) -> Seq<char> {
        match self {
            StartupFailure::MissingDatabaseUrl => "DATABASE_URL must be set"@,
            StartupFailure::PoolUnavailable => "Failed to create database connection pool"@,
        }
    }

    /// What the process says before it ends.
    pub fn message(&self) -> (text: &'static str)
        ensures
            text@ == self.message_text(),
    {
        match self {
            StartupFailure::MissingDatabaseUrl => "DATABASE_URL must be set",
            StartupFailure::PoolUnavailable => "Failed to create database connection pool",
        }
    }
}

/// How to open the pool.
#[derive(Debug, PartialEq, Eq)]
pub struct PoolSettings {
    pub database_url: String,
    pub max_connections: u32,
}

/// The pool's settings, from the environment's connection URL: the URL as
/// it is and the fixed cap on connections. Without a URL the process cannot
/// start.
pub fn pool_settings(database_url: Option<String>) -> (settings: Result<
    PoolSettings,
    StartupFailure,
>)
    ensures
        settings == match database_url {
            Some(url) => Ok::<PoolSettings, StartupFailure>(
                PoolSettings { database_url: url, max_connections: MAX_CONNECTIONS },
            ),
            None => Err::<PoolSettings, StartupFailure>(StartupFailure::MissingDatabaseUrl),
        },
{
    match database_url {
        Some(url) => Ok(PoolSettings { database_url: url, max_connections: MAX_CONNECTIONS }),
        None => Err(StartupFailure::MissingDatabaseUrl),
    }
}

} // verus!
