//! Configuration of the service and of its startup and shutdown tasks.

use vstd::prelude::*;
use vstd::string::*;

verus! {

/// Configuration of the service.
#[derive(Debug, Clone, PartialEq, Eq)]
pub struct HamsConfig {
    /// Socket address the service listens on, as `host:port`
    pub address: String,
    /// Name of the service
    pub name: String,
    /// Version of the service
    pub version: String,
    /// Whether the service logs its API calls
    pub logging: bool,
}

impl Default for HamsConfig {
    /// Listens on all interfaces at port 8079, named "NO_NAME", version "0.0.0",
    /// without logging.
    fn default() -> (r: Self)
        ensures
            r.address@ == "0.0.0.0:8079"@,
            r.name@ == "NO_NAME"@,
            r.version@ == "0.0.0"@,
            !r.logging,
    {
        HamsConfig {
            address: String::from_str("0.0.0.0:8079"),
            name: String::from_str("NO_NAME"),
            version: String::from_str("0.0.0"),
            logging: false,
        }
    }
}

/// Configuration of a startup or shutdown task.
#[derive(Debug, Clone, Copy, PartialEq, Eq, Structural)]
pub struct TaskConfig {
    /// Number of attempts before the task counts as failed
    pub retries: u32,
    /// Pause between attempts, in milliseconds
    pub sleep_ms: u64,
    /// Time allowed for one attempt, in milliseconds
    pub timeout_ms: u64,
}

impl Default for TaskConfig {
    /// Three attempts, a second apart, five seconds each.
    fn default() -> (r: Self)
        ensures
            r.retries == 3,
            r.sleep_ms == 1000,
            r.timeout_ms == 5000,
    {
        TaskConfig { retries: 3, sleep_ms: 1000, timeout_ms: 5000 }
    }
}

} // verus!
