//! The values that a launch is configured with.

use vstd::prelude::*;

verus! {

/// The port on which the service listens unless told otherwise.
pub const DEFAULT_PORT: u16 = 3001;

/// The pause between two health checks, in milliseconds.
pub const DEFAULT_POLL_INTERVAL_MS: u64 = 300;

/// How long the launcher waits for the service to answer, in milliseconds.
pub const DEFAULT_TIMEOUT_MS: u64 = 30000;

/// The HTTP status that counts as "the service is ready".
pub const READY_STATUS: u16 = 200;

/// Port and timing of one supervised launch.
#[derive(Clone, Copy, Debug, PartialEq, Eq)]
pub struct Settings {
    /// The port handed to the service and used for health checks.
    pub port: u16,
    /// The pause after a health check that did not succeed.
    pub poll_interval_ms: u64,
    /// The time after which no further health check is started.
    pub timeout_ms: u64,
}

impl Settings {
    /// The settings of a regular launch.
    pub fn standard() -> (settings: Settings)
        ensures
            settings == (Settings {
                port: DEFAULT_PORT,
                poll_interval_ms: DEFAULT_POLL_INTERVAL_MS,
                timeout_ms: DEFAULT_TIMEOUT_MS,
            }),
    {
        Settings {
            port: DEFAULT_PORT,
            poll_interval_ms: DEFAULT_POLL_INTERVAL_MS,
            timeout_ms: DEFAULT_TIMEOUT_MS,
        }
    }

    /// The timeout in whole seconds, rounded down.
    pub fn timeout_secs(&self) -> (secs: u64)
        ensures
            secs == self.timeout_ms / 1000,
    {
        self.timeout_ms / 1000
    }
}

} // verus!
