//! Settings of the database connection pool.

use vstd::prelude::*;

verus! {

/// Most connections the pool keeps open at a time.
pub const MAX_CONNECTIONS: u32 = 5;

/// Seconds to wait for a connection before the attempt fails.
pub const ACQUIRE_TIMEOUT_SECS: u64 = 10;

/// The query that probes whether the database answers.
pub const LIVENESS_QUERY: &'static str = "SELECT 1";

/// What the pool is opened with.
#[derive(Debug, PartialEq, Eq)]
pub struct PoolSettings {
    /// The connection string handed to the driver.
    pub url: String,
    /// Bound on the number of concurrent connections.
    pub max_connections: u32,
    /// Seconds after which acquiring a connection gives up.
    pub acquire_timeout_secs: u64,
}

/// [`PoolSettings`] as plain values.
pub struct PoolSettingsView {
    pub url: Seq<char>,
    pub max_connections: u32,
    pub acquire_timeout_secs: u64,
}

impl View for PoolSettings {
    type V = PoolSettingsView;

    open spec fn view(&self) -> PoolSettingsView {
        PoolSettingsView {
            url: self.url@,
            max_connections: self.max_connections,
            acquire_timeout_secs: self.acquire_timeout_secs,
        }
    }
}

/// The connection string for a database: the configured one, followed by the
/// parameter that enforces SSL where SSL is required.
pub open spec fn connection_string(database_url: Seq<char>, ssl_required: bool) -> Seq<char> {
    if ssl_required {
        database_url + "?sslmode=require"@
    } else {
        database_url
    }
}

/// The settings of the pool for a database.
pub open spec fn settings_for(database_url: Seq<char>, ssl_required: bool) -> PoolSettingsView {
    PoolSettingsView {
        url: connection_string(database_url, ssl_required),
        max_connections: MAX_CONNECTIONS,
        acquire_timeout_secs: ACQUIRE_TIMEOUT_SECS,
    }
}

/// Computes the settings of the pool for the database at `database_url`.
pub fn pool_settings(database_url: &str, ssl_required: bool) -> (settings: PoolSettings)
    ensures
        settings@ == settings_for(database_url@, ssl_required),
{
    let url = if ssl_required {
        String::from_str(database_url).concat("?sslmode=require")
    } else {
        String::from_str(database_url)
    };
    PoolSettings { url, max_connections: MAX_CONNECTIONS, acquire_timeout_secs: ACQUIRE_TIMEOUT_SECS }
}

} // verus!
