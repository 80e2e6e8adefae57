//! Runtime settings as plain values, with the defaults the runtime
//! falls back to when a setting was not configured. Reading the
//! configuration files is the host layer's job; it hands the parsed
//! numbers in here.

use vstd::prelude::*;

verus! {

/// The runtime's configurable settings; `None` means not configured.
pub struct Settings {
    /// The configured worker count, when one was set.
    pub http_workers: Option<usize>,
    /// The configured payload limit in bytes, when one was set.
    pub json_payload_limit: Option<usize>,
}

impl Settings {
    /// Settings with nothing configured: every read falls back to
    /// its default.
    pub fn new() -> (r: Settings)
        ensures
            r.http_workers is None,
            r.json_payload_limit is None,
    {
        Settings { http_workers: None, json_payload_limit: None }
    }
}

/// The worker count to run with: the configured value, default 1.
pub fn http_workers(s: &Settings) -> (r: usize)
    ensures
        r == (match s.http_workers {
            Some(v) => v,
            None => 1usize,
        }),
{
    match s.http_workers {
        Some(v) => v,
        None => 1,
    }
}

/// The largest accepted JSON payload, in bytes: the configured value,
/// default 1048576 (1 MiB).
pub fn json_payload_limit(s: &Settings) -> (r: usize)
    ensures
        r == (match s.json_payload_limit {
            Some(v) => v,
            None => 1048576usize,
        }),
{
    match s.json_payload_limit {
        Some(v) => v,
        None => 1048576,
    }
}

} // verus!
