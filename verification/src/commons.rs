//! Process-wide facts the runtime carries with it: the machine's
//! resolved hostname, produced once at startup by the host layer and
//! stamped on every response it sends.

use vstd::prelude::*;

verus! {

/// What the runtime knows about the process it runs in.
pub struct ServerInfo {
    /// The machine's hostname, resolved once at startup.
    pub hostname: String,
}

impl ServerInfo {
    /// Carry a resolved hostname.
    pub fn new(hostname: String) -> (r: ServerInfo)
        ensures
            r.hostname == hostname,
    {
        ServerInfo { hostname }
    }
}

/// The hostname every response's `Host` header is set to.
pub fn get_hostname(info: &ServerInfo) -> (r: &String)
    ensures
        r == info.hostname,
{
    &info.hostname
}

} // verus!
