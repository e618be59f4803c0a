//! The server's configuration, fixed at start-up.
use vstd::prelude::*;

verus! {

/// Seconds a tool call may take unless configured otherwise.
pub const DEFAULT_TOOL_TIMEOUT_SECS: u64 = 30;

/// Where the caches are and how long a tool call may take.
#[derive(Clone, Debug, PartialEq, Eq)]
pub struct ServerConfig {
    /// The directory that cache names are resolved under.
    pub cache_root: String,
    /// The time limit of one selection, in seconds.
    pub tool_timeout: u64,
}

} // verus!
