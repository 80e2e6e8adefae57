//! The rotation/health state machine: a process-wide pair of flags,
//! explicitly constructed and owned by the server instance, and the
//! two endpoints that read and flip them.
//!
//! The rotation flag starts out of rotation; its only transition is a
//! toggle. The shutdown flag is set once, on a termination signal,
//! which also forces the instance out of rotation; nothing unsets it.

use vstd::prelude::*;
use vstd::string::StringSliceAdditionalSpecFns;
use crate::fmtutil::bytes_eq_str;
use crate::http_response::{HttpResponse, HttpResult};
use crate::http_route::HttpRoute;

verus! {

/// The process-wide rotation and shutdown flags.
pub struct ServerFlags {
    /// Whether this instance asks to receive live traffic.
    pub in_rotation: bool,
    /// Whether a termination signal was received; terminal.
    pub shutdown: bool,
}

impl ServerFlags {
    /// The initial state: out of rotation, not shutting down.
    pub fn new() -> (r: ServerFlags)
        ensures
            !r.in_rotation,
            !r.shutdown,
    {
        ServerFlags { in_rotation: false, shutdown: false }
    }

    /// Flip the rotation flag; the only rotation transition.
    pub fn toggle_rotation(&mut self)
        ensures
            final(self).in_rotation == !old(self).in_rotation,
            final(self).shutdown == old(self).shutdown,
    {
        self.in_rotation = !self.in_rotation;
    }

    /// Enter the terminal shutdown state, forcing the instance out of
    /// rotation.
    pub fn begin_shutdown(&mut self)
        ensures
            final(self).shutdown,
            !final(self).in_rotation,
    {
        self.shutdown = true;
        self.in_rotation = false;
    }
}

/// The health endpoint's outcome for a given flag state: a success
/// response with body `OK` exactly when the instance is in rotation,
/// else a status-500 response whose body carries `NOK`.
pub open spec fn spec_health_outcome(route: HttpRoute, flags: ServerFlags, r: HttpResult) -> bool {
    &&& (flags.in_rotation ==> (r matches Ok(resp) && resp.spec_ok_response(
        route,
        None,
        "OK".spec_bytes(),
    )))
    &&& (!flags.in_rotation ==> (r matches Ok(resp) && resp.spec_plain(
        500,
        "Error in serving request ==> ".spec_bytes() + "NOK".spec_bytes(),
    )))
}

/// The rotation endpoint's transition and outcome: a GET or POST
/// flips the rotation flag and answers with the new state's health
/// status; any other method changes nothing and is an unmatched
/// route naming the request's literal path.
pub open spec fn spec_oor_transition(
    route: HttpRoute,
    old_flags: ServerFlags,
    new_flags: ServerFlags,
    r: HttpResult,
) -> bool {
    if route.method@ == "GET".spec_bytes() || route.method@ == "POST".spec_bytes() {
        &&& new_flags.in_rotation == !old_flags.in_rotation
        &&& new_flags.shutdown == old_flags.shutdown
        &&& spec_health_outcome(route, new_flags, r)
    } else {
        &&& new_flags == old_flags
        &&& (r matches Ok(resp) && resp.spec_plain(404, "Not found: ".spec_bytes() + route.path@))
    }
}

/// Answer the health endpoint from the current flag state.
pub fn get_in_rotation_status(route: &HttpRoute, flags: &ServerFlags) -> (r: HttpResult)
    ensures
        spec_health_outcome(*route, *flags, r),
{
    if flags.in_rotation {
        HttpResponse::str(route, "OK")
    } else {
        let mut reason: Vec<u8> = Vec::new();
        crate::fmtutil::append_str(&mut reason, "NOK");
        HttpResponse::internal_server_error(&reason)
    }
}

/// Run the rotation endpoint.
pub fn oor_handler(route: &HttpRoute, flags: &mut ServerFlags) -> (r: HttpResult)
    ensures
        spec_oor_transition(*route, *old(flags), *final(flags), r),
{
    if bytes_eq_str(&route.method, "GET") || bytes_eq_str(&route.method, "POST") {
        flags.toggle_rotation();
        get_in_rotation_status(route, flags)
    } else {
        HttpResponse::not_found(&route.path)
    }
}

} // verus!
